use hamachi_tui::app::{
    App, ConfirmAction, FocusedSection, HamachiSelection, InputMode, Key, KeyCode, NetworkRow,
    PopupKind,
};
use hamachi_tui::hamachi::{ClientStatus, Network, Peer, PeerStatus};

fn make_key(code: KeyCode) -> Key {
    Key { code, ctrl: false }
}

fn make_test_app() -> App {
    let mut app = App::new();
    app.client_status = ClientStatus {
        version: "2.1.0.203".to_string(),
        pid: "1234".to_string(),
        status: "logged in".to_string(),
        client_id: "090-123-456".to_string(),
        address: "25.10.20.30".to_string(),
        nickname: "test-box".to_string(),
        lmi_account: "test@example.com".to_string(),
    };
    app.networks = vec![
        Network {
            id: "net-1".to_string(),
            name: "Network-One".to_string(),
            capacity: "2/5".to_string(),
            owner: "a@b.com".to_string(),
            is_online: true,
            peers: vec![
                Peer {
                    client_id: "090-111-111".to_string(),
                    nickname: "peer-a".to_string(),
                    address: "25.10.1.1".to_string(),
                    status: PeerStatus::Online,
                    connection_type: "direct".to_string(),
                },
                Peer {
                    client_id: "090-222-222".to_string(),
                    nickname: "peer-b".to_string(),
                    address: "25.10.1.2".to_string(),
                    status: PeerStatus::Online,
                    connection_type: "relay".to_string(),
                },
            ],
        },
        Network {
            id: "net-2".to_string(),
            name: "Network-Two".to_string(),
            capacity: "1/5".to_string(),
            owner: "c@d.com".to_string(),
            is_online: false,
            peers: vec![Peer {
                client_id: "090-333-333".to_string(),
                nickname: "peer-c".to_string(),
                address: "25.10.2.1".to_string(),
                status: PeerStatus::Offline,
                connection_type: "offline".to_string(),
            }],
        },
    ];
    app.rebuild_network_rows();
    app.network_selection = Some(0);
    app
}

fn make_logged_out_app() -> App {
    let mut app = App::new();
    app.client_status = ClientStatus::default();
    app
}

// ===== Initial state tests =====

#[test]
fn new_app_defaults() {
    let app = App::new();
    assert!(!app.should_quit);
    assert_eq!(app.input_mode, InputMode::Normal);
    assert_eq!(app.focused_section, FocusedSection::Hamachi);
    assert_eq!(app.hamachi_selection, HamachiSelection::Nickname);
    assert!(app.networks.is_empty());
    assert!(!app.loading);
    // Only JoinNetwork and CreateNetwork rows when no networks
    assert_eq!(app.network_rows.len(), 2);
    assert_eq!(app.network_rows[0], NetworkRow::JoinNetwork);
    assert_eq!(app.network_rows[1], NetworkRow::CreateNetwork);
}

// ===== Network rows rebuild =====

#[test]
fn rebuild_network_rows_correct() {
    let app = make_test_app();
    // Network-One, peer-a, peer-b, Network-Two, peer-c, JoinNetwork, CreateNetwork
    assert_eq!(app.network_rows.len(), 7);
    assert_eq!(app.network_rows[0], NetworkRow::Network(0));
    assert_eq!(app.network_rows[1], NetworkRow::Peer(0, 0));
    assert_eq!(app.network_rows[2], NetworkRow::Peer(0, 1));
    assert_eq!(app.network_rows[3], NetworkRow::Network(1));
    assert_eq!(app.network_rows[4], NetworkRow::Peer(1, 0));
    assert_eq!(app.network_rows[5], NetworkRow::JoinNetwork);
    assert_eq!(app.network_rows[6], NetworkRow::CreateNetwork);
}

// ===== Navigation tests =====

#[test]
fn navigate_down_from_hamachi_to_networks() {
    let mut app = make_test_app();
    assert_eq!(app.focused_section, FocusedSection::Hamachi);
    app.navigate_down();
    assert_eq!(app.focused_section, FocusedSection::Networks);
    assert_eq!(app.network_selection, Some(0));
}

#[test]
fn navigate_up_from_networks_top_to_hamachi() {
    let mut app = make_test_app();
    app.focused_section = FocusedSection::Networks;
    app.network_selection = Some(0);
    app.navigate_up();
    assert_eq!(app.focused_section, FocusedSection::Hamachi);
}

#[test]
fn navigate_down_within_networks() {
    let mut app = make_test_app();
    app.focused_section = FocusedSection::Networks;
    app.network_selection = Some(0);
    app.navigate_down();
    assert_eq!(app.network_selection, Some(1));
    app.navigate_down();
    assert_eq!(app.network_selection, Some(2));
}

#[test]
fn navigate_up_within_networks() {
    let mut app = make_test_app();
    app.focused_section = FocusedSection::Networks;
    app.network_selection = Some(3);
    app.navigate_up();
    assert_eq!(app.network_selection, Some(2));
}

#[test]
fn navigate_down_at_bottom_stays() {
    let mut app = make_test_app();
    app.focused_section = FocusedSection::Networks;
    app.network_selection = Some(6); // CreateNetwork = last
    app.navigate_down();
    assert_eq!(app.network_selection, Some(6));
}

#[test]
fn navigate_up_at_hamachi_top_stays() {
    let mut app = make_test_app();
    assert_eq!(app.focused_section, FocusedSection::Hamachi);
    app.navigate_up();
    assert_eq!(app.focused_section, FocusedSection::Hamachi);
}

// ===== Hamachi left/right navigation =====

#[test]
fn hamachi_left_right_navigation() {
    let mut app = make_test_app();
    assert_eq!(app.hamachi_selection, HamachiSelection::Nickname);
    app.navigate_right();
    assert_eq!(app.hamachi_selection, HamachiSelection::Logout);
    app.navigate_right();
    assert_eq!(app.hamachi_selection, HamachiSelection::Quit);
    app.navigate_right();
    assert_eq!(app.hamachi_selection, HamachiSelection::Quit); // stays
    app.navigate_left();
    assert_eq!(app.hamachi_selection, HamachiSelection::Logout);
    app.navigate_left();
    assert_eq!(app.hamachi_selection, HamachiSelection::Nickname);
    app.navigate_left();
    assert_eq!(app.hamachi_selection, HamachiSelection::Nickname); // stays
}

// ===== Tab toggle =====

#[test]
fn tab_toggles_sections() {
    let mut app = make_test_app();
    assert_eq!(app.focused_section, FocusedSection::Hamachi);
    app.toggle_section();
    assert_eq!(app.focused_section, FocusedSection::Networks);
    app.toggle_section();
    assert_eq!(app.focused_section, FocusedSection::Hamachi);
}

#[test]
fn tab_with_no_networks_stays_hamachi() {
    let mut app = make_logged_out_app();
    app.networks.clear();
    app.network_rows.clear();
    app.toggle_section();
    assert_eq!(app.focused_section, FocusedSection::Hamachi);
}

// ===== Popup transitions =====

#[test]
fn enter_on_network_opens_network_actions() {
    let mut app = make_test_app();
    app.focused_section = FocusedSection::Networks;
    app.network_selection = Some(0); // Network(0)

    app.activate_selection();

    assert_eq!(app.input_mode, InputMode::Popup(PopupKind::NetworkActions));
    assert_eq!(app.context_network_idx, Some(0));
}

#[test]
fn enter_on_peer_opens_peer_actions() {
    let mut app = make_test_app();
    app.focused_section = FocusedSection::Networks;
    app.network_selection = Some(1); // Peer(0, 0)

    app.activate_selection();

    assert_eq!(app.input_mode, InputMode::Popup(PopupKind::PeerActions));
    assert_eq!(app.context_network_idx, Some(0));
    assert_eq!(app.context_peer_idx, Some(0));
}

#[test]
fn enter_on_join_network_opens_popup() {
    let mut app = make_test_app();
    app.focused_section = FocusedSection::Networks;
    app.network_selection = Some(5); // JoinNetwork

    app.activate_selection();

    assert_eq!(app.input_mode, InputMode::Popup(PopupKind::JoinNetwork));
}

#[test]
fn enter_on_create_network_opens_popup() {
    let mut app = make_test_app();
    app.focused_section = FocusedSection::Networks;
    app.network_selection = Some(6); // CreateNetwork

    app.activate_selection();

    assert_eq!(app.input_mode, InputMode::Popup(PopupKind::CreateNetwork));
}

#[test]
fn enter_on_nickname_opens_nickname_popup() {
    let mut app = make_test_app();
    app.focused_section = FocusedSection::Hamachi;
    app.hamachi_selection = HamachiSelection::Nickname;

    app.activate_selection();

    assert_eq!(app.input_mode, InputMode::Popup(PopupKind::SetNickname));
}

#[test]
fn enter_on_quit_sets_should_quit() {
    let mut app = make_test_app();
    app.focused_section = FocusedSection::Hamachi;
    app.hamachi_selection = HamachiSelection::Quit;

    app.activate_selection();

    assert!(app.should_quit);
}

// ===== Join/Create popup tests =====

#[test]
fn join_network_enter_opens_password() {
    let mut app = make_test_app();
    app.input_mode = InputMode::Popup(PopupKind::JoinNetwork);
    app.input_buffer = "420-656-988".to_string();

    app.handle_text_input_key(make_key(KeyCode::Enter), PopupKind::JoinNetwork);
    assert_eq!(app.input_mode, InputMode::Popup(PopupKind::JoinPassword));
    assert_eq!(app.temp_buffer, "420-656-988");
    assert_eq!(app.input_buffer, "");
}

#[test]
fn join_network_empty_stays() {
    let mut app = make_test_app();
    app.input_mode = InputMode::Popup(PopupKind::JoinNetwork);
    app.input_buffer.clear();

    app.handle_text_input_key(make_key(KeyCode::Enter), PopupKind::JoinNetwork);
    // Should not transition (input was empty)
    assert_eq!(app.input_mode, InputMode::Popup(PopupKind::JoinNetwork));
}

#[test]
fn create_network_enter_opens_password() {
    let mut app = make_test_app();
    app.input_mode = InputMode::Popup(PopupKind::CreateNetwork);
    app.input_buffer = "my-net".to_string();

    app.handle_text_input_key(make_key(KeyCode::Enter), PopupKind::CreateNetwork);
    assert_eq!(app.input_mode, InputMode::Popup(PopupKind::CreatePassword));
    assert_eq!(app.temp_buffer, "my-net");
    assert_eq!(app.input_buffer, "");
}

#[test]
fn join_network_esc_closes() {
    let mut app = make_test_app();
    app.input_mode = InputMode::Popup(PopupKind::JoinNetwork);
    app.input_buffer = "something".to_string();

    app.handle_text_input_key(make_key(KeyCode::Esc), PopupKind::JoinNetwork);
    assert_eq!(app.input_mode, InputMode::Normal);
    assert_eq!(app.input_buffer, "");
}

// ===== Network actions popup =====

#[test]
fn network_actions_esc_closes() {
    let mut app = make_test_app();
    app.input_mode = InputMode::Popup(PopupKind::NetworkActions);

    app.handle_network_actions_key(make_key(KeyCode::Esc));
    assert_eq!(app.input_mode, InputMode::Normal);
}

#[test]
fn network_actions_navigate() {
    let mut app = make_test_app();
    app.network_action_selection = Some(0);

    app.handle_network_actions_key(make_key(KeyCode::Down));
    assert_eq!(app.network_action_selection, Some(1));

    app.handle_network_actions_key(make_key(KeyCode::Up));
    assert_eq!(app.network_action_selection, Some(0));
}

// ===== Text input popup =====

#[test]
fn text_input_esc_closes() {
    let mut app = make_test_app();
    app.input_mode = InputMode::Popup(PopupKind::SetNickname);
    app.input_buffer = "test".to_string();

    app.handle_text_input_key(make_key(KeyCode::Esc), PopupKind::SetNickname);
    assert_eq!(app.input_mode, InputMode::Normal);
    assert_eq!(app.input_buffer, "");
}

#[test]
fn text_input_typing() {
    let mut app = make_test_app();
    app.input_buffer.clear();

    app.handle_text_input_key(make_key(KeyCode::Char('h')), PopupKind::SetNickname);
    app.handle_text_input_key(make_key(KeyCode::Char('i')), PopupKind::SetNickname);
    assert_eq!(app.input_buffer, "hi");
}

#[test]
fn text_input_backspace() {
    let mut app = make_test_app();
    app.input_buffer = "hello".to_string();

    app.handle_text_input_key(make_key(KeyCode::Backspace), PopupKind::SetNickname);
    assert_eq!(app.input_buffer, "hell");
}

// ===== Confirm dialog =====

#[test]
fn confirm_no_returns_to_normal() {
    let mut app = make_test_app();
    app.input_mode = InputMode::Confirm(ConfirmAction::DeleteNetwork);
    app.confirm_selection = Some(1); // No

    app.handle_confirm_key(make_key(KeyCode::Enter), ConfirmAction::DeleteNetwork)
        ;
    assert_eq!(app.input_mode, InputMode::Normal);
}

#[test]
fn confirm_esc_returns_to_normal() {
    let mut app = make_test_app();
    app.input_mode = InputMode::Confirm(ConfirmAction::LeaveNetwork);

    app.handle_confirm_key(make_key(KeyCode::Esc), ConfirmAction::LeaveNetwork)
        ;
    assert_eq!(app.input_mode, InputMode::Normal);
}

#[test]
fn confirm_up_down_toggles_selection() {
    let mut app = make_test_app();
    app.input_mode = InputMode::Confirm(ConfirmAction::DeleteNetwork);
    app.confirm_selection = Some(0);

    app.handle_confirm_key(make_key(KeyCode::Down), ConfirmAction::DeleteNetwork)
        ;
    assert_eq!(app.confirm_selection, Some(1));

    app.handle_confirm_key(make_key(KeyCode::Up), ConfirmAction::DeleteNetwork)
        ;
    assert_eq!(app.confirm_selection, Some(0));
}

// ===== Error popup =====

#[test]
fn error_popup_enter_dismisses() {
    let mut app = make_test_app();
    app.input_mode = InputMode::Popup(PopupKind::Error);

    app.handle_popup_key(make_key(KeyCode::Enter), PopupKind::Error);
    assert_eq!(app.input_mode, InputMode::Normal);
}

#[test]
fn error_popup_esc_dismisses() {
    let mut app = make_test_app();
    app.input_mode = InputMode::Popup(PopupKind::Error);

    app.handle_popup_key(make_key(KeyCode::Esc), PopupKind::Error);
    assert_eq!(app.input_mode, InputMode::Normal);
}

// ===== Ctrl+C =====

#[test]
fn ctrl_c_quits() {
    let mut app = make_test_app();

    let key = Key { code: KeyCode::Char('c'), ctrl: true };
    app.handle_key(key);
    assert!(app.should_quit);
}

// ===== Loading state =====

#[test]
fn set_loading_and_clear() {
    let mut app = App::new();
    app.set_loading("test");
    assert!(app.loading);
    assert_eq!(app.loading_message, "test");
    app.clear_loading();
    assert!(!app.loading);
}

#[test]
fn loading_blocks_normal_key_input() {
    let mut app = make_test_app();
    app.loading = true;
    let initial = app.focused_section.clone();

    app.handle_normal_key(make_key(KeyCode::Down));
    assert_eq!(app.focused_section, initial);
}

// ===== Show error =====

#[test]
fn show_error_sets_mode_and_message() {
    let mut app = App::new();
    app.show_error("test error".to_string());
    assert_eq!(app.input_mode, InputMode::Popup(PopupKind::Error));
    assert_eq!(app.error_message, "test error");
}

// ===== Logged out networks disabled =====

#[test]
fn logged_out_network_enter_does_nothing() {
    let mut app = make_logged_out_app();
    app.focused_section = FocusedSection::Networks;
    app.network_rows = vec![NetworkRow::JoinNetwork, NetworkRow::CreateNetwork];
    app.network_selection = Some(0);

    app.activate_selection();
    assert_eq!(app.input_mode, InputMode::Normal);
}
