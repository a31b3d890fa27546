use hamachi_tui::app::{
    App, ConfirmAction, Effect, Event, FocusedSection, HamachiSelection, InputMode, Key, KeyCode,
    NetworkAction, NetworkRow, PeerAction, PopupKind,
};
use hamachi_tui::hamachi::{
    apply_status_field, command_result, daemon_running, invocation, is_well_formed_listing,
    launch_failure, networks_from, parse_network_list, parse_peer_line, parse_status,
    ClientStatus, Command, HamachiResult, Network, Peer, PeerStatus, Invocation,
};
use hamachi_tui::view::{
    access_title, confirm_title, error_text, hamachi_bar, input_text, loading_text,
    centered_rect, network_actions_popup, network_list, peer_actions_popup, popup_width,
    text_popup, Area, RowView, Tone,
};

fn key(code: KeyCode) -> Key {
    Key { code, ctrl: false }
}

fn peer(id: &str, nick: &str, addr: &str, status: PeerStatus, kind: &str) -> Peer {
    Peer {
        client_id: id.to_string(),
        nickname: nick.to_string(),
        address: addr.to_string(),
        status,
        connection_type: kind.to_string(),
    }
}

fn logged_in_app() -> App {
    let mut app = App::new();
    app.client_status = parse_status("  status     : logged in\n  nickname : box");
    app.networks = vec![
        Network {
            id: "net-1".to_string(),
            name: "One".to_string(),
            capacity: "2/5".to_string(),
            owner: "a@b.com".to_string(),
            is_online: true,
            peers: vec![
                peer("090-111-111", "peer-a", "25.1.1.1", PeerStatus::Online, "direct"),
                peer("090-222-222", "peer-b", "", PeerStatus::Offline, "offline"),
            ],
        },
        Network {
            id: "net-2".to_string(),
            name: "net-2".to_string(),
            capacity: String::new(),
            owner: String::new(),
            is_online: false,
            peers: vec![],
        },
    ];
    app.rebuild_network_rows();
    app
}

// ===== Parsing =====

#[test]
fn status_keys_are_case_insensitive() {
    let s = parse_status("  VERSION : 2.1\n  Client ID: 090-1\n  LMI Account : me@x");
    assert_eq!(s.version, "2.1");
    assert_eq!(s.client_id, "090-1");
    assert_eq!(s.lmi_account, "me@x");
}

#[test]
fn status_later_line_wins() {
    let s = parse_status("nickname: first\nnickname: second");
    assert_eq!(s.nickname, "second");
}

#[test]
fn status_unknown_key_and_no_colon_ignored() {
    let s = parse_status("colour: blue\njust text\nstatus: logged out");
    assert_eq!(s.status, "logged out");
    assert_eq!(s.version, "");
}

#[test]
fn status_crlf_lines() {
    let s = parse_status("pid: 7\r\naddress: 25.1.2.3   2620:9b::1\r\n");
    assert_eq!(s.pid, "7");
    assert_eq!(s.address, "25.1.2.3");
}

#[test]
fn apply_status_field_sets_named_field_only() {
    let mut s = ClientStatus::default();
    apply_status_field(&mut s, "address", "1.2.3.4 ::1");
    assert_eq!(s.address, "1.2.3.4");
    apply_status_field(&mut s, "Address", "9.9.9.9");
    assert_eq!(s.address, "1.2.3.4");
    apply_status_field(&mut s, "pid", "12");
    assert_eq!(s.pid, "12");
}

#[test]
fn peer_status_consistent_with_connection() {
    for line in [
        "090-1 a 25.0.0.1 direct UDP 1.2.3.4:5",
        "090-1 a 25.0.0.1 via relay",
        "090-1 a 25.0.0.1 offline",
        "090-1 a",
        "090-1 a 25.0.0.1 strange words",
    ] {
        let p = parse_peer_line(line).unwrap();
        let online = p.connection_type == "direct" || p.connection_type == "relay";
        assert_eq!(p.status == PeerStatus::Online, online);
        assert_eq!(p.status == PeerStatus::Offline, p.connection_type == "offline");
    }
    let p = parse_peer_line("090-1 a 25.0.0.1 strange   words").unwrap();
    assert_eq!(p.status, PeerStatus::Unknown);
    assert_eq!(p.connection_type, "strange words");
}

#[test]
fn peer_line_only_stars_has_no_peer() {
    assert!(parse_peer_line("***").is_none());
    let p = parse_peer_line("** 090-5 me").unwrap();
    assert_eq!(p.client_id, "090-5");
}

#[test]
fn peer_status_words() {
    assert_eq!(PeerStatus::Online.to_string(), "online");
    assert_eq!(PeerStatus::Offline.to_string(), "offline");
    assert_eq!(PeerStatus::Unknown.to_string(), "unknown");
}

#[test]
fn one_network_per_header_line() {
    let out = "   090-0 orphan 25.0.0.9 direct\n * [1-1]A  capacity: 1/5, owner: x\n   090-1 p 25.0.0.1 direct\n\n[2-2]B\n * no bracket line\n";
    let nets = parse_network_list(out);
    assert_eq!(nets.len(), 2);
    assert_eq!(nets[0].peers.len(), 1);
    // a starred line without '[' is a peer of the last network
    assert_eq!(nets[1].peers.len(), 1);
    assert_eq!(nets[1].peers[0].client_id, "no");
}

#[test]
fn network_line_capacity_and_owner_pieces() {
    let nets = parse_network_list("[1]N capacity: 4/8 extra, type: Free, owner: o@x capacity: 9");
    assert_eq!(nets[0].capacity, "4/8 extra");
    assert_eq!(nets[0].owner, "o@x capacity: 9");
    assert_eq!(nets[0].name, "N");
}

#[test]
fn listing_with_misordered_brackets_is_refused() {
    assert!(!is_well_formed_listing("*]oops["));
    assert!(is_well_formed_listing(" * [1]a\n  peer x"));
    assert!(is_well_formed_listing("plain ]text["));
}

#[test]
fn failed_listing_gives_no_networks() {
    let r = HamachiResult { success: false, output: "[1]A".to_string() };
    assert!(networks_from(&r).is_empty());
    let r = HamachiResult { success: true, output: "[1]A".to_string() };
    assert_eq!(networks_from(&r).len(), 1);
}

// ===== Commands =====

fn args(inv: Invocation) -> Vec<String> {
    match inv {
        Invocation::Run(a) => a,
        _ => panic!("expected a plain run"),
    }
}

#[test]
fn command_arguments() {
    assert!(args(invocation(&Command::Status)).is_empty());
    assert_eq!(args(invocation(&Command::List)), vec!["list"]);
    assert_eq!(args(invocation(&Command::Logout)), vec!["logout"]);
    assert_eq!(
        args(invocation(&Command::CreateNetwork { name: "n".into(), password: "p".into() })),
        vec!["create", "n", "p"]
    );
    assert_eq!(
        args(invocation(&Command::JoinNetwork { name: "n".into(), password: "".into() })),
        vec!["join", "n"]
    );
    assert_eq!(
        args(invocation(&Command::JoinNetwork { name: "n".into(), password: "p".into() })),
        vec!["join", "n", "p"]
    );
    assert_eq!(args(invocation(&Command::LeaveNetwork { network: "1".into() })), vec!["leave", "1"]);
    assert_eq!(args(invocation(&Command::DeleteNetwork { network: "1".into() })), vec!["delete", "1"]);
    assert_eq!(args(invocation(&Command::GoOnline { network: "1".into() })), vec!["go-online", "1"]);
    assert_eq!(args(invocation(&Command::GoOffline { network: "1".into() })), vec!["go-offline", "1"]);
    assert_eq!(args(invocation(&Command::SetNickname { nickname: "me".into() })), vec!["set-nick", "me"]);
    assert_eq!(
        args(invocation(&Command::Evict { network: "1".into(), client_id: "c".into() })),
        vec!["evict", "1", "c"]
    );
    assert_eq!(
        args(invocation(&Command::SetPassword { network: "1".into(), password: "".into() })),
        vec!["set-pass", "1"]
    );
    assert_eq!(
        args(invocation(&Command::SetPassword { network: "1".into(), password: "x".into() })),
        vec!["set-pass", "1", "x"]
    );
    assert_eq!(
        args(invocation(&Command::SetAccess { network: "1".into(), lock: true })),
        vec!["set-access", "1", "lock"]
    );
    assert_eq!(
        args(invocation(&Command::SetAccess { network: "1".into(), lock: false })),
        vec!["set-access", "1", "unlock"]
    );
}

#[test]
fn create_with_blank_password_refused() {
    match invocation(&Command::CreateNetwork { name: "n".into(), password: "".into() }) {
        Invocation::Refuse(r) => {
            assert!(!r.success);
            assert_eq!(r.output, "Password cannot be blank");
        }
        _ => panic!("expected a refusal"),
    }
}

#[test]
fn login_checks_daemon() {
    match invocation(&Command::Login) {
        Invocation::RunIfDaemonUp { args, otherwise } => {
            assert_eq!(args, vec!["login"]);
            assert!(!otherwise.success);
            assert_eq!(otherwise.output, "Daemon not running. Run: sudo systemctl start logmein-hamachi");
        }
        _ => panic!("expected a daemon check"),
    }
}

#[test]
fn daemon_running_detects_message() {
    assert!(!daemon_running("Hamachi does not seem to be running.", ""));
    assert!(!daemon_running("", "Hamachi does not seem to be running."));
    assert!(daemon_running("version : 2.1", ""));
}

#[test]
fn command_output_combines_streams() {
    let r = command_result(true, "  out text\n", "");
    assert!(r.success);
    assert_eq!(r.output, "out text");
    let r = command_result(false, "out", "err\n");
    assert!(!r.success);
    assert_eq!(r.output, "out\nerr");
    let r = command_result(false, "", "  err");
    assert_eq!(r.output, "err");
}

#[test]
fn launch_failure_message() {
    let r = launch_failure("not found");
    assert!(!r.success);
    assert_eq!(r.output, "Failed to run hamachi: not found");
}

// ===== Interface steps =====

#[test]
fn actions_and_labels() {
    let all = NetworkAction::all();
    assert_eq!(all.len(), 5);
    assert_eq!(all[0].label(true), "Go Offline");
    assert_eq!(all[0].label(false), "Go Online");
    assert_eq!(all[4].label(false), "Access");
    assert_eq!(PeerAction::all(), vec![PeerAction::Evict]);
    assert_eq!(PeerAction::Evict.label(), "Evict");
}

#[test]
fn rows_cover_networks_and_peers() {
    let app = logged_in_app();
    assert_eq!(
        app.network_rows,
        vec![
            NetworkRow::Network(0),
            NetworkRow::Peer(0, 0),
            NetworkRow::Peer(0, 1),
            NetworkRow::Network(1),
            NetworkRow::JoinNetwork,
            NetworkRow::CreateNetwork
        ]
    );
}

#[test]
fn spawned_command_blocks_keys_until_finished() {
    let mut app = logged_in_app();
    app.hamachi_selection = HamachiSelection::Logout;
    let e = app.handle_event(Event::Key(key(KeyCode::Enter)), false);
    assert!(matches!(e, Effect::Spawn(Command::Logout)));
    assert!(app.loading);
    assert_eq!(app.loading_message, "Logging out");
    let before = app.focused_section;
    let e = app.handle_event(Event::Key(key(KeyCode::Down)), false);
    assert!(matches!(e, Effect::Nothing));
    assert_eq!(app.focused_section, before);
    let e = app.handle_event(Event::Tick, true);
    assert!(matches!(e, Effect::Nothing));
    assert_eq!(app.loading_tick, 1);
    let e = app.poll_command_result(HamachiResult { success: false, output: "boom".into() });
    assert!(matches!(e, Effect::Refresh));
    assert!(!app.loading);
    assert_eq!(app.loading_message, "");
    assert_eq!(app.input_mode, InputMode::Popup(PopupKind::Error));
    assert_eq!(app.error_message, "boom");
}

#[test]
fn poll_without_running_command_does_nothing() {
    let mut app = App::new();
    let e = app.poll_command_result(HamachiResult { success: false, output: "x".into() });
    assert!(matches!(e, Effect::Nothing));
    assert_eq!(app.input_mode, InputMode::Normal);
}

#[test]
fn tick_asks_for_refresh_when_due() {
    let mut app = App::new();
    assert!(matches!(app.handle_event(Event::Tick, true), Effect::Refresh));
    assert!(matches!(app.handle_event(Event::Tick, false), Effect::Nothing));
    assert!(matches!(app.handle_event(Event::Resize(10, 10), true), Effect::Nothing));
}

#[test]
fn refresh_keeps_selection_on_rows() {
    let mut app = logged_in_app();
    app.network_selection = Some(5);
    app.refresh_status(ClientStatus::default(), Vec::new());
    assert_eq!(app.network_rows.len(), 2);
    assert_eq!(app.network_selection, Some(1));
    assert_eq!(app.client_status.status, "");
}

#[test]
fn ctrl_c_quits_from_popup() {
    let mut app = logged_in_app();
    app.input_mode = InputMode::Confirm(ConfirmAction::EvictPeer);
    app.handle_key(Key { code: KeyCode::Char('c'), ctrl: true });
    assert!(app.should_quit);
}

#[test]
fn esc_closes_every_popup() {
    for mode in [
        InputMode::Popup(PopupKind::NetworkActions),
        InputMode::Popup(PopupKind::PeerActions),
        InputMode::Popup(PopupKind::AccessSelect),
        InputMode::Popup(PopupKind::Error),
        InputMode::Popup(PopupKind::SetPassword),
        InputMode::Confirm(ConfirmAction::DeleteNetwork),
    ] {
        let mut app = logged_in_app();
        app.input_mode = mode;
        app.handle_key(key(KeyCode::Esc));
        assert_eq!(app.input_mode, InputMode::Normal);
    }
}

#[test]
fn backspace_undoes_typing() {
    let mut app = logged_in_app();
    app.input_mode = InputMode::Popup(PopupKind::SetNickname);
    app.input_buffer = "ab".to_string();
    app.handle_key(key(KeyCode::Char('é')));
    assert_eq!(app.input_buffer, "abé");
    app.handle_key(key(KeyCode::Backspace));
    assert_eq!(app.input_buffer, "ab");
    app.input_buffer.clear();
    app.handle_key(key(KeyCode::Backspace));
    assert_eq!(app.input_buffer, "");
}

#[test]
fn join_flow_uses_entered_id() {
    let mut app = logged_in_app();
    app.input_mode = InputMode::Popup(PopupKind::JoinNetwork);
    app.input_buffer = "420-656-988".to_string();
    app.handle_key(key(KeyCode::Enter));
    app.handle_key(key(KeyCode::Char('s')));
    let e = app.handle_key(key(KeyCode::Enter));
    match e {
        Effect::Spawn(Command::JoinNetwork { name, password }) => {
            assert_eq!(name, "420-656-988");
            assert_eq!(password, "s");
        }
        _ => panic!("expected a join"),
    }
    assert_eq!(app.input_mode, InputMode::Normal);
    assert!(app.loading);
}

#[test]
fn create_with_blank_password_shows_error() {
    let mut app = logged_in_app();
    app.input_mode = InputMode::Popup(PopupKind::CreatePassword);
    app.temp_buffer = "net".to_string();
    let e = app.handle_key(key(KeyCode::Enter));
    assert!(matches!(e, Effect::Nothing));
    assert_eq!(app.input_mode, InputMode::Popup(PopupKind::Error));
    assert_eq!(app.error_message, "Password cannot be blank");
    assert!(!app.loading);
}

#[test]
fn network_actions_run_on_context_network() {
    let mut app = logged_in_app();
    app.focused_section = FocusedSection::Networks;
    app.network_selection = Some(0);
    app.handle_key(key(KeyCode::Enter));
    assert_eq!(app.input_mode, InputMode::Popup(PopupKind::NetworkActions));
    let e = app.handle_key(key(KeyCode::Enter));
    match e {
        Effect::Spawn(Command::GoOffline { network }) => assert_eq!(network, "net-1"),
        _ => panic!("expected going offline"),
    }
    assert_eq!(app.loading_message, "Going offline");
}

#[test]
fn access_and_confirm_dialogs() {
    let mut app = logged_in_app();
    app.context_network_idx = Some(1);
    app.input_mode = InputMode::Popup(PopupKind::AccessSelect);
    app.access_selection = Some(0);
    app.handle_key(key(KeyCode::Down));
    assert_eq!(app.access_selection, Some(1));
    app.handle_key(key(KeyCode::Char('k')));
    assert_eq!(app.access_selection, Some(0));
    app.handle_key(key(KeyCode::Down));
    let e = app.handle_key(key(KeyCode::Enter));
    match e {
        Effect::Spawn(Command::SetAccess { network, lock }) => {
            assert_eq!(network, "net-2");
            assert!(!lock);
        }
        _ => panic!("expected unlocking"),
    }

    let mut app = logged_in_app();
    app.context_network_idx = Some(0);
    app.context_peer_idx = Some(1);
    app.input_mode = InputMode::Confirm(ConfirmAction::EvictPeer);
    app.confirm_selection = Some(0);
    let e = app.handle_key(key(KeyCode::Enter));
    match e {
        Effect::Spawn(Command::Evict { network, client_id }) => {
            assert_eq!(network, "net-1");
            assert_eq!(client_id, "090-222-222");
        }
        _ => panic!("expected an eviction"),
    }
}

#[test]
fn down_then_up_and_tab_twice() {
    let mut app = logged_in_app();
    app.focused_section = FocusedSection::Networks;
    app.network_selection = Some(2);
    app.navigate_down();
    app.navigate_up();
    assert_eq!(app.network_selection, Some(2));
    assert_eq!(app.focused_section, FocusedSection::Networks);
    app.focused_section = FocusedSection::Hamachi;
    app.toggle_section();
    app.toggle_section();
    assert_eq!(app.focused_section, FocusedSection::Hamachi);
    assert_eq!(app.network_selection, Some(2));
}

// ===== Screen =====

#[test]
fn hamachi_bar_fills_blanks_with_dashes() {
    let app = App::new();
    let bar = hamachi_bar(&app);
    assert_eq!(bar.address, "-");
    assert_eq!(bar.client_id, "-");
    assert_eq!(bar.nickname, "-");
    assert_eq!(bar.login_label, "Login");
    assert!(!bar.online);
    assert!(bar.nickname_selected);
    assert_eq!(bar.border, Tone::Cyan);
    let app = logged_in_app();
    let bar = hamachi_bar(&app);
    assert_eq!(bar.login_label, "Logout");
    assert_eq!(bar.nickname, "box");
}

#[test]
fn network_list_rows_show() {
    let app = logged_in_app();
    let rows = network_list(&app);
    assert_eq!(rows.len(), 6);
    match &rows[0] {
        RowView::Network { filled, indicator, name, id, online_peers, peers, .. } => {
            assert!(*filled);
            assert_eq!(*indicator, Tone::Green);
            assert_eq!(name, "One");
            assert_eq!(id.as_deref(), Some("net-1"));
            assert_eq!(*online_peers, 1);
            assert_eq!(*peers, 2);
        }
        _ => panic!("expected a network row"),
    }
    match &rows[2] {
        RowView::Peer { dot, connection_tone, connection, .. } => {
            assert_eq!(*dot, Tone::Red);
            assert_eq!(*connection_tone, Tone::Gray);
            assert_eq!(connection, "offline");
        }
        _ => panic!("expected a peer row"),
    }
    match &rows[3] {
        RowView::Network { id, filled, .. } => {
            assert!(id.is_none());
            assert!(!*filled);
        }
        _ => panic!("expected a network row"),
    }
    match &rows[4] {
        RowView::Entry { label, tone } => {
            assert_eq!(label, "+ Join Network");
            assert_eq!(*tone, Tone::Cyan);
        }
        _ => panic!("expected an entry"),
    }
}

#[test]
fn loading_line_animates_in_constant_width() {
    assert_eq!(loading_text("Joining", 0), " Joining    ");
    assert_eq!(loading_text("Joining", 2), " Joining..  ");
    assert_eq!(loading_text("Joining", 7), " Joining... ");
    assert_eq!(loading_text("Joining", 4).chars().count(), loading_text("Joining", 3).chars().count());
}

#[test]
fn popup_texts() {
    assert_eq!(text_popup(PopupKind::JoinPassword), Some(("Join Network", "Password (empty for none):")));
    assert_eq!(text_popup(PopupKind::Error), None);
    assert_eq!(input_text("abc"), "▸ abc_");
    assert_eq!(error_text("bad"), "bad\n\nPress Enter to dismiss");
    let mut app = logged_in_app();
    assert_eq!(access_title(&app), " Access: ? ");
    app.context_network_idx = Some(0);
    app.context_peer_idx = Some(0);
    assert_eq!(access_title(&app), " Access: One ");
    assert_eq!(confirm_title(&app, ConfirmAction::DeleteNetwork), " Delete 'One' ");
    assert_eq!(confirm_title(&app, ConfirmAction::EvictPeer), " Evict 'peer-a' ");
    assert_eq!(confirm_title(&app, ConfirmAction::LeaveNetwork), " Leave 'One' ");
    let p = network_actions_popup(&app);
    assert_eq!(p.title, " One ");
    assert_eq!(p.labels[0], "Go Offline");
    assert_eq!(p.height, 7);
    let p = peer_actions_popup(&app);
    assert_eq!(p.title, " peer-a (25.1.1.1) ");
    assert_eq!(p.height, 3);
    app.context_peer_idx = Some(1);
    assert_eq!(peer_actions_popup(&app).title, " peer-b ");
}

#[test]
fn popup_width_limits() {
    assert_eq!(popup_width(100, 90), 60);
    assert_eq!(popup_width(50, 90), 45);
    assert_eq!(popup_width(10, 200), 10);
    assert!(popup_width(u16::MAX, u16::MAX) <= 60);
}

#[test]
fn popup_area_is_centered() {
    let r = centered_rect(90, 7, Area { x: 0, y: 0, width: 100, height: 31 });
    assert_eq!((r.x, r.y, r.width, r.height), (20, 12, 60, 7));
    let r = centered_rect(90, 4, Area { x: 5, y: 2, width: 40, height: 10 });
    assert_eq!((r.x, r.y, r.width, r.height), (7, 5, 36, 4));
}

#[test]
fn vim_keys_act_as_arrows() {
    for (letter, arrow) in [('h', KeyCode::Left), ('j', KeyCode::Down), ('k', KeyCode::Up), ('l', KeyCode::Right)] {
        for mode in [InputMode::Normal, InputMode::Popup(PopupKind::NetworkActions), InputMode::Confirm(ConfirmAction::LeaveNetwork)] {
            let mut a = logged_in_app();
            let mut b = logged_in_app();
            a.input_mode = mode;
            b.input_mode = mode;
            a.focused_section = FocusedSection::Networks;
            b.focused_section = FocusedSection::Networks;
            a.network_selection = Some(1);
            b.network_selection = Some(1);
            a.network_action_selection = Some(1);
            b.network_action_selection = Some(1);
            a.handle_key(key(KeyCode::Char(letter)));
            b.handle_key(key(arrow));
            assert_eq!(a.network_selection, b.network_selection);
            assert_eq!(a.focused_section, b.focused_section);
            assert_eq!(a.network_action_selection, b.network_action_selection);
            assert_eq!(a.confirm_selection, b.confirm_selection);
            assert_eq!(a.input_mode, b.input_mode);
        }
    }
}

fn texts(segments: &[hamachi_tui::view::Segment]) -> String {
    segments.iter().map(|s| s.text.as_str()).collect()
}

#[test]
fn hamachi_box_lines_and_title() {
    let app = logged_in_app();
    let b = hamachi_tui::view::hamachi_box(&app);
    assert_eq!(b.title.text, " Hamachi-TUI ");
    assert_eq!(b.title.tone, Some(Tone::Cyan));
    assert!(b.title.bold);
    assert_eq!(texts(&b.status_line), " ● Online │ - │ -");
    assert_eq!(b.status_line[1].tone, Some(Tone::Green));
    assert_eq!(texts(&b.selection_line), "▸ box  [Logout] [Quit]");
    assert_eq!(b.selection_line[0].tone, Some(Tone::Cyan));
    assert_eq!(b.selection_line[3].tone, Some(Tone::White));
    assert_eq!(b.selection_line[2].tone, None);
    let mut app = App::new();
    app.focused_section = FocusedSection::Networks;
    let b = hamachi_tui::view::hamachi_box(&app);
    assert_eq!(texts(&b.status_line), " ● Offline │ - │ -");
    assert_eq!(b.status_line[1].tone, Some(Tone::Red));
    assert_eq!(texts(&b.selection_line), "  -  [Login] [Quit]");
    assert_eq!(b.border, Tone::Gray);
}

#[test]
fn network_panel_lines_and_title() {
    let mut app = logged_in_app();
    let p = hamachi_tui::view::network_panel(&app);
    assert_eq!(p.title.text, " Networks (2) ");
    assert!(!p.highlight);
    assert!(p.loading.is_none());
    assert_eq!(p.items.len(), 6);
    assert_eq!(texts(&p.items[0]), "● One [net-1] 1/2");
    assert_eq!(texts(&p.items[1]), "  ● peer-a direct");
    assert_eq!(texts(&p.items[3]), "○ net-2 0/0");
    assert_eq!(texts(&p.items[4]), "+ Join Network");
    app.focused_section = FocusedSection::Networks;
    app.loading = true;
    app.loading_message = "Working".to_string();
    app.loading_tick = 1;
    let p = hamachi_tui::view::network_panel(&app);
    assert!(p.highlight);
    assert_eq!(p.border, Tone::Cyan);
    assert_eq!(p.loading.unwrap().text, " Working.   ");
    app.network_rows.clear();
    let p = hamachi_tui::view::network_panel(&app);
    assert_eq!(p.items.len(), 1);
    assert_eq!(texts(&p.items[0]), " No networks");
}

#[test]
fn decimal_notation() {
    assert_eq!(hamachi_tui::view::decimal_chars(0), vec!['0']);
    assert_eq!(hamachi_tui::view::decimal_chars(1207).iter().collect::<String>(), "1207");
}

#[test]
fn choice_labels_match_decisions() {
    assert_eq!(hamachi_tui::view::access_labels(), vec!["Lock", "Unlock"]);
    assert_eq!(hamachi_tui::view::confirm_labels(), vec!["Yes", "No"]);
    let mut app = logged_in_app();
    app.context_network_idx = Some(0);
    app.input_mode = InputMode::Popup(PopupKind::AccessSelect);
    app.access_selection = Some(0);
    match app.handle_key(key(KeyCode::Enter)) {
        Effect::Spawn(Command::SetAccess { lock, .. }) => assert!(lock),
        _ => panic!("expected locking"),
    }
    let mut app = logged_in_app();
    app.context_network_idx = Some(0);
    app.input_mode = InputMode::Confirm(ConfirmAction::DeleteNetwork);
    app.confirm_selection = Some(1);
    assert!(matches!(app.handle_key(key(KeyCode::Enter)), Effect::Nothing));
    assert_eq!(app.input_mode, InputMode::Normal);
}
