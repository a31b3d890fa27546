//! Properties of the library as a whole: what the parsers guarantee of every
//! input, what every step of the interface keeps, and how steps combine.
use vstd::prelude::*;

use crate::app::{
    access_key, confirm_key, context_of, context_peer_id, did_set_access, index_or_first, ConfirmAction, event_step, is_text_popup, key_step, left_of, moved_down, moved_up, right_of, rows_for, rows_upto, peer_rows,
    selection_in_rows, submitted, text_key, toggled, toggled_section, refreshed, command_done, App,
    Effect, Event, FocusedSection, HamachiSelection, InputMode, Key, KeyCode, NetworkRow,
    PopupKind,
};
use crate::hamachi::{
    connection_of, Command, logged_in, lowercase, with_field, Peer, network_of_line, networks_of_lines, offline_header, online_header,
    peer_of_line, status_line, status_of_lines, ClientStatus, HamachiResult, Network, PeerStatus,
    StatusView,
};
use crate::text::{contains, find_from, has_char, join, occurs_at, scan, strip_leading, tokens, trim, CharClass};
use crate::view::{access_choices, online_count, confirm_choices, loading_line, popup_width_of, row_valid, rows_valid};

verus! {

// ---------------------------------------------------------------------------
// Parsing
// ---------------------------------------------------------------------------

proof fn lemma_contains_itself(s: Seq<char>)
    requires
        s.len() > 0,
    ensures
        contains(s, s),
{
    assert(s.subrange(0, s.len() as int) =~= s);
    assert(occurs_at(s, s, 0));
}

/// A peer is online exactly when it connects directly or over a relay, and
/// offline exactly when its connection reads "offline".
pub proof fn law_peer_status_matches_connection(address: Seq<char>, remaining: Seq<char>)
    ensures
        ({
            let (status, kind) = connection_of(address, remaining);
            &&& (status == PeerStatus::Online <==> (kind == "direct"@ || kind == "relay"@))
            &&& (status == PeerStatus::Offline <==> kind == "offline"@)
        }),
{
    reveal_strlit("direct");
    reveal_strlit("relay");
    reveal_strlit("offline");
    let (status, kind) = connection_of(address, remaining);
    if status == PeerStatus::Unknown {
        assert(kind == remaining);
        if remaining == "direct"@ {
            lemma_contains_itself(remaining);
        }
        if remaining == "relay"@ {
            lemma_contains_itself(remaining);
        }
        if remaining == "offline"@ {
            lemma_contains_itself(remaining);
        }
    }
}

/// Every peer that a peer line yields has a status that agrees with its
/// connection type.
pub proof fn law_parsed_peer_consistent(line: Seq<char>)
    ensures
        peer_of_line(line) matches Some(p) ==> {
            &&& (p.status == PeerStatus::Online <==> (p.connection_type == "direct"@
                || p.connection_type == "relay"@))
            &&& (p.status == PeerStatus::Offline <==> p.connection_type == "offline"@)
        },
{
    let ps = tokens(trim(strip_leading(line, '*')));
    if ps.len() > 0 {
        let address = if ps.len() > 2 { ps[2] } else { seq![] };
        let remaining = if ps.len() > 3 { join(ps.skip(3), " "@) } else { seq![] };
        law_peer_status_matches_connection(address, remaining);
    }
}

/// A line of the listing that adds a network.
pub open spec fn adds_network(line: Seq<char>) -> bool {
    let t = trim(line);
    if online_header(t) {
        network_of_line(t, true) is Some
    } else {
        offline_header(t) && network_of_line(t, false) is Some
    }
}

pub open spec fn count_networks(ls: Seq<Seq<char>>) -> nat
    decreases ls.len(),
{
    if ls.len() == 0 {
        0
    } else {
        count_networks(ls.drop_last()) + if adds_network(ls.last()) { 1nat } else { 0nat }
    }
}

/// The listing has one network per header line that can be read, whatever
/// the peer and blank lines around them.
pub proof fn law_one_network_per_header(ls: Seq<Seq<char>>)
    ensures
        networks_of_lines(ls).len() == count_networks(ls),
    decreases ls.len(),
{
    if ls.len() > 0 {
        law_one_network_per_header(ls.drop_last());
    }
}

/// A network read from a header line is online as the header says, has no
/// peers yet, and is never left without a name unless its id is empty.
pub proof fn law_network_line_shape(line: Seq<char>, is_online: bool)
    ensures
        network_of_line(line, is_online) matches Some(n) ==> {
            &&& n.is_online == is_online
            &&& n.peers.len() == 0
            &&& (n.name.len() == 0 ==> n.id.len() == 0)
        },
{
}

/// A line of the status report without a colon changes nothing.
pub proof fn law_status_ignores_lines_without_colon(st: StatusView, line: Seq<char>)
    requires
        !has_char(trim(line), ':'),
    ensures
        status_line(st, line) == st,
{
}

/// Adding a line with an unknown key to the end of a report changes
/// nothing.
pub proof fn law_status_ignores_unknown_keys(ls: Seq<Seq<char>>, line: Seq<char>)
    requires
        has_char(trim(line), ':'),
        ({
            let t = trim(line);
            let key = lowercase(trim(t.take(scan(t, 0, CharClass::Is(':')))));
            key != "version"@ && key != "pid"@ && key != "status"@ && key != "client id"@ && key
                != "address"@ && key != "nickname"@ && key != "lmi account"@
        }),
    ensures
        status_of_lines(ls.push(line)) == status_of_lines(ls),
{
    assert(ls.push(line).drop_last() == ls);
}

proof fn lemma_with_field_twice(a: StatusView, k: Seq<char>, v1: Seq<char>, v2: Seq<char>)
    ensures
        with_field(with_field(a, k, v1), k, v2) == with_field(a, k, v2),
{
    assert(with_field(with_field(a, k, v1), k, v2) =~= with_field(a, k, v2));
}

/// Of two lines that set the same field, the later one wins.
pub proof fn law_status_later_line_wins(ls: Seq<Seq<char>>, first: Seq<char>, second: Seq<char>)
    requires
        has_char(trim(first), ':'),
        has_char(trim(second), ':'),
        ({
            let t1 = trim(first);
            let t2 = trim(second);
            lowercase(trim(t1.take(scan(t1, 0, CharClass::Is(':'))))) == lowercase(
                trim(t2.take(scan(t2, 0, CharClass::Is(':')))),
            )
        }),
    ensures
        status_of_lines(ls.push(first).push(second)) == status_line(status_of_lines(ls), second),
{
    let a = status_of_lines(ls);
    assert(ls.push(first).push(second).drop_last() == ls.push(first));
    assert(ls.push(first).drop_last() == ls);
    let t1 = trim(first);
    let t2 = trim(second);
    let c1 = scan(t1, 0, CharClass::Is(':'));
    let c2 = scan(t2, 0, CharClass::Is(':'));
    let k = lowercase(trim(t2.take(c2)));
    lemma_with_field_twice(a, k, trim(t1.skip(c1 + 1)), trim(t2.skip(c2 + 1)));
    assert(status_of_lines(ls.push(first)) == status_line(a, first));
    assert(status_line(status_line(a, first), second) == status_line(a, second));
}

// ---------------------------------------------------------------------------
// The network list rows
// ---------------------------------------------------------------------------

pub open spec fn total_peers(nets: Seq<Network>, n: int) -> nat
    decreases n,
{
    if n <= 0 {
        0
    } else {
        total_peers(nets, n - 1) + nets[n - 1].peers@.len()
    }
}

/// The sizes of the networks and their peer lists fit in `usize`, as those
/// of vectors do.
pub open spec fn sizes_fit(nets: Seq<Network>) -> bool {
    &&& nets.len() <= usize::MAX
    &&& forall|i: int| 0 <= i < nets.len() ==> #[trigger] nets[i].peers@.len() <= usize::MAX
}

proof fn lemma_rows_upto(nets: Seq<Network>, n: int)
    requires
        0 <= n <= nets.len(),
        sizes_fit(nets),
    ensures
        rows_upto(nets, n).len() == n + total_peers(nets, n),
        forall|k: int| 0 <= k < rows_upto(nets, n).len() ==> row_valid(nets, #[trigger] rows_upto(nets, n)[k]),
        forall|k: int| 0 <= k < rows_upto(nets, n).len() ==> (#[trigger] rows_upto(nets, n)[k]) matches NetworkRow::Network(_)
            || rows_upto(nets, n)[k] matches NetworkRow::Peer(_, _),
    decreases n,
{
    if n > 0 {
        lemma_rows_upto(nets, n - 1);
        let prev = rows_upto(nets, n - 1);
        let ps = peer_rows((n - 1) as usize, nets[n - 1].peers@.len() as int);
        let all = rows_upto(nets, n);
        assert(all == prev + seq![NetworkRow::Network((n - 1) as usize)] + ps);
        assert forall|k: int| 0 <= k < all.len() implies row_valid(nets, #[trigger] all[k]) by {
            if k < prev.len() {
                assert(all[k] == prev[k]);
            } else if k == prev.len() {
                assert(all[k] == NetworkRow::Network((n - 1) as usize));
            } else {
                assert(all[k] == ps[k - prev.len() - 1]);
            }
        }
        assert forall|k: int| 0 <= k < all.len() implies (#[trigger] all[k]) matches NetworkRow::Network(_)
            || all[k] matches NetworkRow::Peer(_, _) by {
            if k < prev.len() {
                assert(all[k] == prev[k]);
            } else if k == prev.len() {
            } else {
                assert(all[k] == ps[k - prev.len() - 1]);
            }
        }
    }
}

/// The network list has a row for each network and each peer, then the
/// join and create entries, and each row refers to a network and peer that
/// exist.
pub proof fn law_rows_cover_networks(nets: Seq<Network>)
    requires
        sizes_fit(nets),
    ensures
        rows_for(nets).len() == nets.len() + total_peers(nets, nets.len() as int) + 2,
        rows_for(nets).last() == NetworkRow::CreateNetwork,
        rows_for(nets)[rows_for(nets).len() - 2] == NetworkRow::JoinNetwork,
        forall|k: int| 0 <= k < rows_for(nets).len() ==> row_valid(nets, #[trigger] rows_for(nets)[k]),
{
    lemma_rows_upto(nets, nets.len() as int);
    let head = rows_upto(nets, nets.len() as int);
    let all = rows_for(nets);
    assert forall|k: int| 0 <= k < all.len() implies row_valid(nets, #[trigger] all[k]) by {
        if k < head.len() {
            assert(all[k] == head[k]);
        }
    }
}

// ---------------------------------------------------------------------------
// Steps of the interface
// ---------------------------------------------------------------------------

/// Keys, ticks and resizes never change the data (status, networks and
/// rows); only a refresh does.
pub proof fn law_events_keep_data(s: App, ev: Event, due: bool, t: App, e: Effect)
    requires
        event_step(s, ev, due, t, e),
    ensures
        t.client_status == s.client_status,
        t.networks == s.networks,
        t.network_rows == s.network_rows,
{
}

/// The network selection stays on a row through every event, and a refresh
/// puts it back on one; after a refresh every row refers to existing data,
/// which events keep.
pub proof fn law_selection_stays_on_rows(s: App, ev: Event, due: bool, t: App, e: Effect)
    requires
        event_step(s, ev, due, t, e),
        selection_in_rows(s),
    ensures
        selection_in_rows(t),
{
}

pub proof fn law_refresh_selects_a_row(s: App, status: ClientStatus, networks: Vec<Network>, t: App)
    requires
        refreshed(s, status, networks, t),
        sizes_fit(networks@),
    ensures
        selection_in_rows(t),
        rows_valid(t),
        t.network_rows@.len() >= 2,
{
    law_rows_cover_networks(networks@);
}

/// While a command runs the interface stays in normal mode.
pub open spec fn busy_in_normal_mode(a: App) -> bool {
    a.loading ==> a.input_mode == InputMode::Normal
}

/// A command is only started when none runs, it always starts loading, and
/// normal mode is kept while it runs: one command at a time.
pub proof fn law_one_command_at_a_time(s: App, ev: Event, due: bool, t: App, e: Effect)
    requires
        event_step(s, ev, due, t, e),
        busy_in_normal_mode(s),
    ensures
        busy_in_normal_mode(t),
        e is Spawn ==> !s.loading && t.loading,
{
}

/// Finishing a command ends loading; a failure shows its output.
pub proof fn law_finished_command(s: App, r: HamachiResult, t: App, e: Effect)
    requires
        command_done(s, r, t, e),
        s.loading,
    ensures
        !t.loading,
        busy_in_normal_mode(t),
        e is Refresh,
        !r.success ==> t.input_mode == InputMode::Popup(PopupKind::Error) && t.error_message@
            == r.output@,
        r.success ==> t.input_mode == s.input_mode,
{
}

pub proof fn law_refresh_keeps_mode(s: App, status: ClientStatus, networks: Vec<Network>, t: App)
    requires
        refreshed(s, status, networks, t),
        busy_in_normal_mode(s),
    ensures
        busy_in_normal_mode(t),
{
}

/// Ctrl+C quits from any state and changes nothing else.
pub proof fn law_ctrl_c_quits(s: App, t: App, e: Effect)
    requires
        key_step(s, Key { code: KeyCode::Char('c'), ctrl: true }, t, e),
    ensures
        t.should_quit,
        t == (App { should_quit: true, ..s }),
        e is Nothing,
{
}

/// Outside text input, `h`, `j`, `k` and `l` act as the arrow keys.
pub proof fn law_vim_keys_are_arrows(s: App, t: App, e: Effect)
    requires
        !(s.input_mode matches InputMode::Popup(kind) && is_text_popup(kind)),
    ensures
        key_step(s, Key { code: KeyCode::Char('h'), ctrl: false }, t, e) == key_step(
            s,
            Key { code: KeyCode::Left, ctrl: false },
            t,
            e,
        ),
        key_step(s, Key { code: KeyCode::Char('j'), ctrl: false }, t, e) == key_step(
            s,
            Key { code: KeyCode::Down, ctrl: false },
            t,
            e,
        ),
        key_step(s, Key { code: KeyCode::Char('k'), ctrl: false }, t, e) == key_step(
            s,
            Key { code: KeyCode::Up, ctrl: false },
            t,
            e,
        ),
        key_step(s, Key { code: KeyCode::Char('l'), ctrl: false }, t, e) == key_step(
            s,
            Key { code: KeyCode::Right, ctrl: false },
            t,
            e,
        ),
{
}

/// Esc closes any popup or dialog.
pub proof fn law_esc_closes(s: App, t: App, e: Effect)
    requires
        s.input_mode != InputMode::Normal,
        key_step(s, Key { code: KeyCode::Esc, ctrl: false }, t, e),
    ensures
        t.input_mode == InputMode::Normal,
        e is Nothing,
{
}

/// Typing a character and deleting it leaves the input as it was.
pub proof fn law_backspace_undoes_typing(
    s: App,
    c: char,
    kind: PopupKind,
    t: App,
    e1: Effect,
    u: App,
    e2: Effect,
)
    requires
        text_key(s, Key { code: KeyCode::Char(c), ctrl: false }, kind, t, e1),
        text_key(t, Key { code: KeyCode::Backspace, ctrl: false }, kind, u, e2),
    ensures
        u.input_buffer@ == s.input_buffer@,
        u == (App { input_buffer: u.input_buffer, ..s }),
{
    assert(s.input_buffer@.push(c).drop_last() == s.input_buffer@);
}

/// Joining takes two popups: the network id entered in the first is the
/// one joined, with the password typed into the second.
pub proof fn law_join_uses_entered_id(
    s: App,
    t: App,
    e1: Effect,
    c: char,
    u: App,
    e2: Effect,
    w: App,
    e3: Effect,
)
    requires
        s.input_buffer@.len() > 0,
        submitted(s, PopupKind::JoinNetwork, t, e1),
        text_key(t, Key { code: KeyCode::Char(c), ctrl: false }, PopupKind::JoinPassword, u, e2),
        submitted(u, PopupKind::JoinPassword, w, e3),
    ensures
        t.input_mode == InputMode::Popup(PopupKind::JoinPassword),
        e3 matches Effect::Spawn(Command::JoinNetwork { name, password }) && name@
            == s.input_buffer@ && password@ == seq![c],
        w.loading,
{
    assert(Seq::<char>::empty().push(c) == seq![c]);
}

/// Right then left (away from the right end), and left then right (away
/// from the left end), return to the same entry of the Hamachi bar.
pub proof fn law_bar_moves_undo(h: HamachiSelection)
    ensures
        h != HamachiSelection::Quit ==> left_of(right_of(h)) == h,
        h != HamachiSelection::Nickname ==> right_of(left_of(h)) == h,
{
}

/// Down then up within the network list returns to the same row.
pub proof fn law_down_up_returns(a: App, i: usize)
    requires
        a.focused_section == FocusedSection::Networks,
        a.network_selection == Some(i),
        i + 1 < a.network_rows@.len(),
        a.network_rows@.len() <= usize::MAX,
    ensures
        moved_up(moved_down(a)) == a,
{
}

/// Tab twice returns to the Hamachi bar with the same selection, when the
/// network list has rows and one is selected.
pub proof fn law_tab_twice(a: App)
    requires
        a.focused_section == FocusedSection::Hamachi,
        a.network_rows@.len() > 0,
        a.network_selection is Some,
    ensures
        toggled_section(toggled_section(a)) == a,
{
}

/// The first entry of the lock/unlock popup reads "Lock" and choosing it
/// locks the network; the second reads "Unlock" and unlocks it.
pub proof fn law_access_entries_match_choice(s: App, t: App, e: Effect)
    requires
        s.access_selection == Some(0usize) || s.access_selection == Some(1usize),
        access_key(s, Key { code: KeyCode::Enter, ctrl: false }, t, e),
        context_of(s) is Some,
    ensures
        e matches Effect::Spawn(Command::SetAccess { lock, .. }) && (lock <==> access_choices()[index_or_first(
            s.access_selection,
        ) as int] == "Lock"@),
{
    reveal_strlit("Lock");
    reveal_strlit("Unlock");
    let n = context_of(s).unwrap();
    assert(did_set_access(s, t, e, n.id@, index_or_first(s.access_selection) == 0));
    assert("Lock"@.len() != "Unlock"@.len());
}

/// The first entry of the yes/no dialog reads "Yes" and carries the action
/// out; the second reads "No" and only closes the dialog.
pub proof fn law_confirm_entries_match_choice(s: App, a: ConfirmAction, t: App, e: Effect)
    requires
        s.confirm_selection == Some(1usize),
        confirm_key(s, Key { code: KeyCode::Enter, ctrl: false }, a, t, e),
    ensures
        confirm_choices()[1] == "No"@,
        t == (App { input_mode: InputMode::Normal, ..s }),
        e is Nothing,
{
}

/// Toggling a yes/no (or lock/unlock) selection twice restores it.
pub proof fn law_toggle_twice(o: Option<usize>)
    requires
        o == Some(0usize) || o == Some(1usize),
    ensures
        toggled(toggled(o)) == o,
{
}

// ---------------------------------------------------------------------------
// The screen
// ---------------------------------------------------------------------------

/// A popup is at most 60 columns wide and never wider than the screen.
pub proof fn law_popup_fits(area_width: u16, percent: u16)
    ensures
        popup_width_of(area_width, percent) <= 60,
        popup_width_of(area_width, percent) <= area_width,
{
}

/// The loading line keeps the same width while its dots move.
pub proof fn law_loading_line_width(message: Seq<char>, tick: usize)
    ensures
        loading_line(message, tick).len() == message.len() + 5,
{
}

// ---------------------------------------------------------------------------
// What each action is for
// ---------------------------------------------------------------------------

/// Confirming a dialog ("Yes", the first entry) runs the command the dialog
/// names on the network (and peer) it was opened for: leaving runs
/// `LeaveNetwork`, deleting `DeleteNetwork`, evicting `Evict`, each with
/// its own loading message.
pub proof fn law_confirm_runs_named_command(s: App, a: ConfirmAction, t: App, e: Effect)
    requires
        s.input_mode == InputMode::Confirm(a),
        index_or_first(s.confirm_selection) == 0,
        context_of(s) is Some,
        a == ConfirmAction::EvictPeer ==> context_peer_id(s) is Some,
        key_step(s, Key { code: KeyCode::Enter, ctrl: false }, t, e),
    ensures
        t.loading,
        t.input_mode == InputMode::Normal,
        a == ConfirmAction::LeaveNetwork ==> (e matches Effect::Spawn(Command::LeaveNetwork { network })
            && network@ == context_of(s).unwrap().id@ && t.loading_message@ == "Leaving network"@),
        a == ConfirmAction::DeleteNetwork ==> (e matches Effect::Spawn(Command::DeleteNetwork { network })
            && network@ == context_of(s).unwrap().id@ && t.loading_message@ == "Deleting network"@),
        a == ConfirmAction::EvictPeer ==> (e matches Effect::Spawn(Command::Evict { network, client_id })
            && network@ == context_of(s).unwrap().id@ && client_id@ == context_peer_id(s).unwrap()
            && t.loading_message@ == "Evicting peer"@),
{
}

/// Creating takes two popups: the network is created with the name typed
/// into the first and the password typed into the second.
pub proof fn law_create_uses_entered_name_and_password(
    s: App,
    t: App,
    e1: Effect,
    c: char,
    u: App,
    e2: Effect,
    w: App,
    e3: Effect,
)
    requires
        s.input_buffer@.len() > 0,
        submitted(s, PopupKind::CreateNetwork, t, e1),
        text_key(t, Key { code: KeyCode::Char(c), ctrl: false }, PopupKind::CreatePassword, u, e2),
        submitted(u, PopupKind::CreatePassword, w, e3),
    ensures
        t.input_mode == InputMode::Popup(PopupKind::CreatePassword),
        e3 matches Effect::Spawn(Command::CreateNetwork { name, password }) && name@
            == s.input_buffer@ && password@ == seq![c],
        w.loading,
        w.loading_message@ == "Creating network"@,
{
    assert(Seq::<char>::empty().push(c) == seq![c]);
}

/// In the password popup of creation, a non-blank password creates the
/// network named by the name entered before, with that password.
pub proof fn law_create_password_step(u: App, w: App, e: Effect)
    requires
        u.input_buffer@.len() > 0,
        submitted(u, PopupKind::CreatePassword, w, e),
    ensures
        e matches Effect::Spawn(Command::CreateNetwork { name, password }) && name@
            == u.temp_buffer@ && password@ == u.input_buffer@,
{
}

/// Enter on the login entry of the Hamachi bar logs in when logged out and
/// logs out when logged in, agreeing with the label the bar shows.
pub proof fn law_login_entry_matches_label(s: App, t: App, e: Effect)
    requires
        s.input_mode == InputMode::Normal,
        !s.loading,
        s.focused_section == FocusedSection::Hamachi,
        s.hamachi_selection == HamachiSelection::Logout,
        key_step(s, Key { code: KeyCode::Enter, ctrl: false }, t, e),
    ensures
        t.loading,
        !logged_in(s.client_status@) ==> (e matches Effect::Spawn(Command::Login)
            && t.loading_message@ == "Logging in"@),
        logged_in(s.client_status@) ==> (e matches Effect::Spawn(Command::Logout)
            && t.loading_message@ == "Logging out"@),
        (e matches Effect::Spawn(Command::Login)) <==> bar_label(s) == "Login"@,
{
    reveal_strlit("Login");
    reveal_strlit("Logout");
    assert("Login"@.len() != "Logout"@.len());
}

/// The label of the login entry of the Hamachi bar, as `hamachi_bar` gives it.
pub open spec fn bar_label(s: App) -> Seq<char> {
    if logged_in(s.client_status@) { "Logout"@ } else { "Login"@ }
}

/// The online count of a network is the number of its peers whose status
/// is online, whatever their connection.
pub proof fn law_online_count_counts_online_peers(ps: Seq<Peer>)
    ensures
        online_count(ps) == ps.filter(|p: Peer| p.status == PeerStatus::Online).len(),
    decreases ps.len(),
{
    reveal(Seq::filter);
    if ps.len() > 0 {
        law_online_count_counts_online_peers(ps.drop_last());
    }
}

proof fn lemma_nothing_contains(p: Seq<char>)
    requires
        p.len() > 0,
    ensures
        !contains(seq![], p),
{
    let e: Seq<char> = seq![];
    assert(!occurs_at(e, p, 0));
    assert(find_from(e, p, 1) == -1);
}

/// A peer with no words after its address is offline.
pub proof fn law_no_connection_words_is_offline(address: Seq<char>)
    ensures
        connection_of(address, seq![]) == (PeerStatus::Offline, "offline"@),
{
    reveal_strlit("direct");
    reveal_strlit("relay");
    lemma_nothing_contains("direct"@);
    lemma_nothing_contains("relay"@);
}

/// A peer line of at most three words (id, nickname, address) gives an
/// offline peer whose connection reads "offline".
pub proof fn law_short_peer_line_is_offline(line: Seq<char>)
    requires
        1 <= tokens(trim(strip_leading(line, '*'))).len() <= 3,
    ensures
        peer_of_line(line) matches Some(p) && p.status == PeerStatus::Offline && p.connection_type
            == "offline"@,
{
    let ps = tokens(trim(strip_leading(line, '*')));
    let address = if ps.len() > 2 { ps[2] } else { seq![] };
    law_no_connection_words_is_offline(address);
}

} // verus!
