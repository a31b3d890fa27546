//! The state of the terminal interface and how it answers keys, ticks and
//! finished commands. Each step is a function from the current state and an
//! event to the next state and an `Effect` that the caller carries out (a
//! refresh of the data or a `hamachi` command run in the background).
use vstd::prelude::*;

use crate::hamachi::{ClientStatus, Command, HamachiResult, Network, logged_in, empty_status};
use crate::text::{pop_char, push_char, string_of, chars_of};

verus! {

// ---------------------------------------------------------------------------
// Modes, sections and rows
// ---------------------------------------------------------------------------

#[derive(Debug, Clone, Copy, PartialEq, Eq, Structural)]
pub enum InputMode {
    Normal,
    Popup(PopupKind),
    Confirm(ConfirmAction),
}

#[derive(Debug, Clone, Copy, PartialEq, Eq, Structural)]
pub enum PopupKind {
    SetNickname,
    NetworkActions,
    PeerActions,
    JoinNetwork,
    JoinPassword,
    CreateNetwork,
    CreatePassword,
    SetPassword,
    AccessSelect,
    Error,
}

#[derive(Debug, Clone, Copy, PartialEq, Eq, Structural)]
pub enum ConfirmAction {
    DeleteNetwork,
    EvictPeer,
    LeaveNetwork,
}

#[derive(Debug, Clone, Copy, PartialEq, Eq, Structural)]
pub enum FocusedSection {
    Hamachi,
    Networks,
}

/// What is selected in the Hamachi bar row.
#[derive(Debug, Clone, Copy, PartialEq, Eq, Structural)]
pub enum HamachiSelection {
    Nickname,
    /// Logout, or Login when logged out.
    Logout,
    Quit,
}

/// Items in the flat network list.
#[derive(Debug, Clone, Copy, PartialEq, Eq, Structural)]
pub enum NetworkRow {
    /// Index into the networks.
    Network(usize),
    /// Network index and peer index.
    Peer(usize, usize),
    JoinNetwork,
    CreateNetwork,
}

/// Actions available for a selected network.
#[derive(Debug, Clone, Copy, PartialEq, Eq, Structural)]
pub enum NetworkAction {
    OnlineOffline,
    Leave,
    Delete,
    Password,
    Access,
}

pub open spec fn network_action_label(a: NetworkAction, is_online: bool) -> Seq<char> {
    match a {
        NetworkAction::OnlineOffline => if is_online { "Go Offline"@ } else { "Go Online"@ },
        NetworkAction::Leave => "Leave"@,
        NetworkAction::Delete => "Delete"@,
        NetworkAction::Password => "Password"@,
        NetworkAction::Access => "Access"@,
    }
}

/// The network actions in the order the popup lists them.
pub open spec fn network_actions() -> Seq<NetworkAction> {
    seq![
        NetworkAction::OnlineOffline,
        NetworkAction::Leave,
        NetworkAction::Delete,
        NetworkAction::Password,
        NetworkAction::Access,
    ]
}

impl NetworkAction {
    /// The label of the action; the first one depends on whether the
    /// network is online.
    pub fn label(&self, is_online: bool) -> (r: &str)
        ensures
            r@ == network_action_label(*self, is_online),
    {
        match self {
            NetworkAction::OnlineOffline => {
                if is_online {
                    "Go Offline"
                } else {
                    "Go Online"
                }
            },
            NetworkAction::Leave => "Leave",
            NetworkAction::Delete => "Delete",
            NetworkAction::Password => "Password",
            NetworkAction::Access => "Access",
        }
    }

    pub fn all() -> (r: Vec<NetworkAction>)
        ensures
            r@ == network_actions(),
    {
        let r = vec![
            NetworkAction::OnlineOffline,
            NetworkAction::Leave,
            NetworkAction::Delete,
            NetworkAction::Password,
            NetworkAction::Access,
        ];
        assert(r@ =~= network_actions());
        r
    }
}

/// Actions available for a selected peer.
#[derive(Debug, Clone, Copy, PartialEq, Eq, Structural)]
pub enum PeerAction {
    Evict,
}

pub open spec fn peer_action_label(a: PeerAction) -> Seq<char> {
    match a {
        PeerAction::Evict => "Evict"@,
    }
}

pub open spec fn peer_actions() -> Seq<PeerAction> {
    seq![PeerAction::Evict]
}

impl PeerAction {
    pub fn label(&self) -> (r: &str)
        ensures
            r@ == peer_action_label(*self),
    {
        match self {
            PeerAction::Evict => "Evict",
        }
    }

    pub fn all() -> (r: Vec<PeerAction>)
        ensures
            r@ == peer_actions(),
    {
        let r = vec![PeerAction::Evict];
        assert(r@ =~= peer_actions());
        r
    }
}

// ---------------------------------------------------------------------------
// Events and effects
// ---------------------------------------------------------------------------

/// The keys that the interface tells apart.
#[derive(Debug, Clone, Copy, PartialEq, Eq, Structural)]
pub enum KeyCode {
    Char(char),
    Up,
    Down,
    Left,
    Right,
    Tab,
    Enter,
    Esc,
    Backspace,
    Other,
}

/// A key press; `ctrl` tells whether Control was held.
#[derive(Debug, Clone, Copy, PartialEq, Eq, Structural)]
pub struct Key {
    pub code: KeyCode,
    pub ctrl: bool,
}

/// What the terminal reports.
#[derive(Debug, Clone, Copy, PartialEq, Eq, Structural)]
pub enum Event {
    Key(Key),
    Tick,
    Resize(u16, u16),
}

/// What the caller is to do after a step.
#[derive(Debug, Clone)]
pub enum Effect {
    Nothing,
    /// Read the status and the networks again, then call `refresh_status`.
    Refresh,
    /// Run the command in the background and hand its result to
    /// `poll_command_result`.
    Spawn(Command),
}

// ---------------------------------------------------------------------------
// The state
// ---------------------------------------------------------------------------

pub struct App {
    pub should_quit: bool,
    pub input_mode: InputMode,
    pub focused_section: FocusedSection,
    pub hamachi_selection: HamachiSelection,
    pub client_status: ClientStatus,
    pub networks: Vec<Network>,
    /// The selected row of the network list.
    pub network_selection: Option<usize>,
    pub network_rows: Vec<NetworkRow>,
    pub input_buffer: String,
    pub temp_buffer: String,
    pub error_message: String,
    pub loading: bool,
    pub loading_message: String,
    pub loading_tick: usize,
    /// The selected entries of the popups.
    pub network_action_selection: Option<usize>,
    pub peer_action_selection: Option<usize>,
    pub access_selection: Option<usize>,
    pub confirm_selection: Option<usize>,
    /// The network and peer that popup actions apply to.
    pub context_network_idx: Option<usize>,
    pub context_peer_idx: Option<usize>,
}

/// The rows of peers `0..k` of network `ni`.
pub open spec fn peer_rows(ni: usize, k: int) -> Seq<NetworkRow> {
    Seq::new(k as nat, |j: int| NetworkRow::Peer(ni, j as usize))
}

/// The rows of the first `n` networks, each followed by its peers.
pub open spec fn rows_upto(nets: Seq<Network>, n: int) -> Seq<NetworkRow>
    decreases n,
{
    if n <= 0 {
        seq![]
    } else {
        rows_upto(nets, n - 1) + seq![NetworkRow::Network((n - 1) as usize)] + peer_rows(
            (n - 1) as usize,
            nets[n - 1].peers@.len() as int,
        )
    }
}

/// The flat network list: each network followed by its peers, then the
/// join and create entries.
pub open spec fn rows_for(nets: Seq<Network>) -> Seq<NetworkRow> {
    rows_upto(nets, nets.len() as int) + seq![NetworkRow::JoinNetwork, NetworkRow::CreateNetwork]
}

/// The network that popup actions apply to.
pub open spec fn context_of(a: App) -> Option<Network> {
    match a.context_network_idx {
        Some(i) => if i < a.networks@.len() { Some(a.networks@[i as int]) } else { None },
        None => None,
    }
}

/// The client id of the peer that popup actions apply to.
pub open spec fn context_peer_id(a: App) -> Option<Seq<char>> {
    match (a.context_network_idx, a.context_peer_idx) {
        (Some(ni), Some(pi)) => if ni < a.networks@.len() && pi < a.networks@[ni as int].peers@.len() {
            Some(a.networks@[ni as int].peers@[pi as int].client_id@)
        } else {
            None
        },
        _ => None,
    }
}

/// The row under the selection, if any.
pub open spec fn selected_row(a: App) -> Option<NetworkRow> {
    match a.network_selection {
        Some(i) => if i < a.network_rows@.len() { Some(a.network_rows@[i as int]) } else { None },
        None => None,
    }
}

/// The selection of the network list points at one of its rows.
pub open spec fn selection_in_rows(a: App) -> bool {
    a.network_selection matches Some(i) ==> i < a.network_rows@.len()
}

impl App {
    pub fn new() -> (r: App)
        ensures
            !r.should_quit,
            r.input_mode == InputMode::Normal,
            r.focused_section == FocusedSection::Hamachi,
            r.hamachi_selection == HamachiSelection::Nickname,
            r.client_status@ == empty_status(),
            r.networks@.len() == 0,
            r.network_selection == Some(0usize),
            r.network_rows@ == seq![NetworkRow::JoinNetwork, NetworkRow::CreateNetwork],
            r.input_buffer@.len() == 0,
            r.temp_buffer@.len() == 0,
            r.error_message@.len() == 0,
            !r.loading,
            r.loading_message@.len() == 0,
            r.loading_tick == 0,
            r.network_action_selection == Some(0usize),
            r.peer_action_selection == Some(0usize),
            r.access_selection == Some(0usize),
            r.confirm_selection == Some(0usize),
            r.context_network_idx is None,
            r.context_peer_idx is None,
    {
        let r = App {
            should_quit: false,
            input_mode: InputMode::Normal,
            focused_section: FocusedSection::Hamachi,
            hamachi_selection: HamachiSelection::Nickname,
            client_status: ClientStatus::default(),
            networks: Vec::new(),
            network_selection: Some(0),
            network_rows: vec![NetworkRow::JoinNetwork, NetworkRow::CreateNetwork],
            input_buffer: String::new(),
            temp_buffer: String::new(),
            error_message: String::new(),
            loading: false,
            loading_message: String::new(),
            loading_tick: 0,
            network_action_selection: Some(0),
            peer_action_selection: Some(0),
            access_selection: Some(0),
            confirm_selection: Some(0),
            context_network_idx: None,
            context_peer_idx: None,
        };
        assert(r.network_rows@ =~= seq![NetworkRow::JoinNetwork, NetworkRow::CreateNetwork]);
        r
    }

    /// Rebuilds the flat network list from the networks.
    pub fn rebuild_network_rows(&mut self)
        ensures
            *final(self) == (App { network_rows: final(self).network_rows, ..*old(self) }),
            final(self).network_rows@ == rows_for(old(self).networks@),
    {
        let mut rows: Vec<NetworkRow> = Vec::new();
        let mut ni: usize = 0;
        while ni < self.networks.len()
            invariant
                ni <= self.networks@.len(),
                rows@ == rows_upto(self.networks@, ni as int),
            decreases self.networks@.len() - ni,
        {
            rows.push(NetworkRow::Network(ni));
            let np = self.networks[ni].peers.len();
            let ghost head = rows@;
            let mut pi: usize = 0;
            while pi < np
                invariant
                    ni < self.networks@.len(),
                    np == self.networks@[ni as int].peers@.len(),
                    pi <= np,
                    rows@ == head + peer_rows(ni, pi as int),
                decreases np - pi,
            {
                rows.push(NetworkRow::Peer(ni, pi));
                assert(peer_rows(ni, pi + 1) =~= peer_rows(ni, pi as int).push(NetworkRow::Peer(ni, pi)));
                pi = pi + 1;
            }
            assert(rows_upto(self.networks@, ni + 1) =~= head + peer_rows(ni, np as int));
            ni = ni + 1;
        }
        rows.push(NetworkRow::JoinNetwork);
        rows.push(NetworkRow::CreateNetwork);
        assert(rows@ =~= rows_for(self.networks@));
        self.network_rows = rows;
    }

    pub fn selected_network_row(&self) -> (r: Option<NetworkRow>)
        ensures
            r == selected_row(*self),
    {
        match self.network_selection {
            Some(i) => if i < self.network_rows.len() {
                Some(self.network_rows[i])
            } else {
                None
            },
            None => None,
        }
    }

    pub fn context_network(&self) -> (r: Option<&Network>)
        ensures
            r matches Some(n) ==> context_of(*self) == Some(*n),
            r is None ==> context_of(*self) is None,
    {
        match self.context_network_idx {
            Some(i) => if i < self.networks.len() {
                Some(&self.networks[i])
            } else {
                None
            },
            None => None,
        }
    }

    pub fn context_network_id(&self) -> (r: Option<String>)
        ensures
            r matches Some(id) ==> context_of(*self) matches Some(n) && id@ == n.id@,
            r is None ==> context_of(*self) is None,
    {
        match self.context_network() {
            Some(n) => Some(n.id.clone()),
            None => None,
        }
    }
}

// ---------------------------------------------------------------------------
// Steps as relations between the state before and after
// ---------------------------------------------------------------------------

/// The selected index, 0 when nothing is selected.
pub open spec fn index_or_first(o: Option<usize>) -> usize {
    match o {
        Some(i) => i,
        None => 0,
    }
}

/// Toggling a two-entry list: the first entry (or no selection) selects
/// the second, anything else the first.
pub open spec fn toggled(o: Option<usize>) -> Option<usize> {
    Some(if index_or_first(o) == 0 { 1usize } else { 0usize })
}

pub open spec fn left_of(h: HamachiSelection) -> HamachiSelection {
    match h {
        HamachiSelection::Quit => HamachiSelection::Logout,
        HamachiSelection::Logout => HamachiSelection::Nickname,
        HamachiSelection::Nickname => HamachiSelection::Nickname,
    }
}

pub open spec fn right_of(h: HamachiSelection) -> HamachiSelection {
    match h {
        HamachiSelection::Nickname => HamachiSelection::Logout,
        HamachiSelection::Logout => HamachiSelection::Quit,
        HamachiSelection::Quit => HamachiSelection::Quit,
    }
}

/// Up: within the networks to the row above, from their first row (or no
/// selection) to the Hamachi bar.
pub open spec fn moved_up(a: App) -> App {
    match a.focused_section {
        FocusedSection::Hamachi => a,
        FocusedSection::Networks => match a.network_selection {
            Some(i) => if i > 0 {
                App { network_selection: Some((i - 1) as usize), ..a }
            } else {
                App { focused_section: FocusedSection::Hamachi, ..a }
            },
            None => App { focused_section: FocusedSection::Hamachi, ..a },
        },
    }
}

/// Down: from the Hamachi bar into the networks (selecting the first row if
/// none is), within the networks to the row below if there is one.
pub open spec fn moved_down(a: App) -> App {
    match a.focused_section {
        FocusedSection::Hamachi => App {
            focused_section: FocusedSection::Networks,
            network_selection: if a.network_selection is None && a.network_rows@.len() > 0 {
                Some(0usize)
            } else {
                a.network_selection
            },
            ..a
        },
        FocusedSection::Networks => match a.network_selection {
            Some(i) => if i + 1 < a.network_rows@.len() {
                App { network_selection: Some((i + 1) as usize), ..a }
            } else {
                a
            },
            None => a,
        },
    }
}

pub open spec fn moved_left(a: App) -> App {
    if a.focused_section == FocusedSection::Hamachi {
        App { hamachi_selection: left_of(a.hamachi_selection), ..a }
    } else {
        a
    }
}

pub open spec fn moved_right(a: App) -> App {
    if a.focused_section == FocusedSection::Hamachi {
        App { hamachi_selection: right_of(a.hamachi_selection), ..a }
    } else {
        a
    }
}

/// Tab: between the Hamachi bar and the networks; the networks are only
/// entered when they have rows, selecting the first if none is.
pub open spec fn toggled_section(a: App) -> App {
    match a.focused_section {
        FocusedSection::Hamachi => if a.network_rows@.len() > 0 {
            App {
                focused_section: FocusedSection::Networks,
                network_selection: if a.network_selection is None {
                    Some(0usize)
                } else {
                    a.network_selection
                },
                ..a
            }
        } else {
            a
        },
        FocusedSection::Networks => App { focused_section: FocusedSection::Hamachi, ..a },
    }
}

/// The state is `u` and nothing is to be done.
pub open spec fn becomes(t: App, e: Effect, u: App) -> bool {
    t == u && e is Nothing
}

pub open spec fn unchanged(s: App, t: App, e: Effect) -> bool {
    becomes(t, e, s)
}

pub open spec fn in_mode(s: App, m: InputMode) -> App {
    App { input_mode: m, ..s }
}

/// The input is cleared and the mode is `m`.
pub open spec fn input_cleared(s: App, t: App, e: Effect, m: InputMode) -> bool {
    &&& t == App { input_buffer: t.input_buffer, input_mode: m, ..s }
    &&& t.input_buffer@.len() == 0
    &&& e is Nothing
}

/// The error popup shows `msg`.
pub open spec fn error_shown(s: App, t: App, msg: Seq<char>) -> bool {
    &&& t == App {
        error_message: t.error_message,
        input_mode: InputMode::Popup(PopupKind::Error),
        ..s
    }
    &&& t.error_message@ == msg
}

/// Loading starts with the message `msg`.
pub open spec fn loading_started(s: App, t: App, msg: Seq<char>) -> bool {
    &&& t == App { loading: true, loading_message: t.loading_message, loading_tick: 0usize, ..s }
    &&& t.loading_message@ == msg
}

/// Back to normal mode, loading with `msg`.
pub open spec fn started(s: App, t: App, msg: Seq<char>) -> bool {
    loading_started(in_mode(s, InputMode::Normal), t, msg)
}

pub open spec fn did_login(s: App, t: App, e: Effect) -> bool {
    if logged_in(s.client_status@) {
        unchanged(s, t, e)
    } else {
        loading_started(s, t, "Logging in"@) && e matches Effect::Spawn(Command::Login)
    }
}

pub open spec fn did_logout(s: App, t: App, e: Effect) -> bool {
    loading_started(s, t, "Logging out"@) && e matches Effect::Spawn(Command::Logout)
}

pub open spec fn did_create(s: App, t: App, e: Effect, name: Seq<char>, pw: Seq<char>) -> bool {
    if pw.len() == 0 {
        error_shown(in_mode(s, InputMode::Normal), t, "Password cannot be blank"@) && e is Nothing
    } else {
        &&& started(s, t, "Creating network"@)
        &&& e matches Effect::Spawn(Command::CreateNetwork { name: n, password: p })
        &&& n@ == name && p@ == pw
    }
}

pub open spec fn did_join(s: App, t: App, e: Effect, name: Seq<char>, pw: Seq<char>) -> bool {
    &&& started(s, t, "Joining network"@)
    &&& e matches Effect::Spawn(Command::JoinNetwork { name: n, password: p })
    &&& n@ == name && p@ == pw
}

pub open spec fn did_leave(s: App, t: App, e: Effect, id: Seq<char>) -> bool {
    &&& started(s, t, "Leaving network"@)
    &&& e matches Effect::Spawn(Command::LeaveNetwork { network })
    &&& network@ == id
}

pub open spec fn did_delete(s: App, t: App, e: Effect, id: Seq<char>) -> bool {
    &&& started(s, t, "Deleting network"@)
    &&& e matches Effect::Spawn(Command::DeleteNetwork { network })
    &&& network@ == id
}

pub open spec fn did_set_nickname(s: App, t: App, e: Effect, nick: Seq<char>) -> bool {
    &&& started(s, t, "Setting nickname"@)
    &&& e matches Effect::Spawn(Command::SetNickname { nickname })
    &&& nickname@ == nick
}

pub open spec fn did_evict(s: App, t: App, e: Effect, id: Seq<char>, peer: Seq<char>) -> bool {
    &&& started(s, t, "Evicting peer"@)
    &&& e matches Effect::Spawn(Command::Evict { network, client_id })
    &&& network@ == id && client_id@ == peer
}

pub open spec fn did_set_password(s: App, t: App, e: Effect, id: Seq<char>, pw: Seq<char>) -> bool {
    &&& started(s, t, "Setting password"@)
    &&& e matches Effect::Spawn(Command::SetPassword { network, password })
    &&& network@ == id && password@ == pw
}

pub open spec fn did_set_access(s: App, t: App, e: Effect, id: Seq<char>, lock: bool) -> bool {
    &&& started(s, t, if lock { "Locking"@ } else { "Unlocking"@ })
    &&& e matches Effect::Spawn(Command::SetAccess { network, lock: l })
    &&& network@ == id && l == lock
}

pub open spec fn did_toggle_online(s: App, t: App, e: Effect, id: Seq<char>, is_online: bool) -> bool {
    if is_online {
        &&& started(s, t, "Going offline"@)
        &&& e matches Effect::Spawn(Command::GoOffline { network })
        &&& network@ == id
    } else {
        &&& started(s, t, "Going online"@)
        &&& e matches Effect::Spawn(Command::GoOnline { network })
        &&& network@ == id
    }
}

impl App {
    pub fn navigate_up(&mut self)
        ensures
            *final(self) == moved_up(*old(self)),
    {
        match self.focused_section {
            FocusedSection::Hamachi => {},
            FocusedSection::Networks => {
                match self.network_selection {
                    Some(selected) => {
                        if selected > 0 {
                            self.network_selection = Some(selected - 1);
                        } else {
                            self.focused_section = FocusedSection::Hamachi;
                        }
                    },
                    None => {
                        self.focused_section = FocusedSection::Hamachi;
                    },
                }
            },
        }
    }

    pub fn navigate_down(&mut self)
        ensures
            *final(self) == moved_down(*old(self)),
    {
        match self.focused_section {
            FocusedSection::Hamachi => {
                self.focused_section = FocusedSection::Networks;
                if self.network_selection.is_none() && self.network_rows.len() > 0 {
                    self.network_selection = Some(0);
                }
            },
            FocusedSection::Networks => {
                match self.network_selection {
                    Some(selected) => {
                        if selected < self.network_rows.len() && selected + 1 < self.network_rows.len() {
                            self.network_selection = Some(selected + 1);
                        }
                    },
                    None => {},
                }
            },
        }
    }

    pub fn navigate_left(&mut self)
        ensures
            *final(self) == moved_left(*old(self)),
    {
        if self.focused_section == FocusedSection::Hamachi {
            self.hamachi_selection = match self.hamachi_selection {
                HamachiSelection::Quit => HamachiSelection::Logout,
                HamachiSelection::Logout => HamachiSelection::Nickname,
                HamachiSelection::Nickname => HamachiSelection::Nickname,
            };
        }
    }

    pub fn navigate_right(&mut self)
        ensures
            *final(self) == moved_right(*old(self)),
    {
        if self.focused_section == FocusedSection::Hamachi {
            self.hamachi_selection = match self.hamachi_selection {
                HamachiSelection::Nickname => HamachiSelection::Logout,
                HamachiSelection::Logout => HamachiSelection::Quit,
                HamachiSelection::Quit => HamachiSelection::Quit,
            };
        }
    }

    pub fn toggle_section(&mut self)
        ensures
            *final(self) == toggled_section(*old(self)),
    {
        self.focused_section = match self.focused_section {
            FocusedSection::Hamachi => {
                if self.network_rows.len() > 0 {
                    if self.network_selection.is_none() {
                        self.network_selection = Some(0);
                    }
                    FocusedSection::Networks
                } else {
                    FocusedSection::Hamachi
                }
            },
            FocusedSection::Networks => FocusedSection::Hamachi,
        };
    }

    pub fn show_error(&mut self, message: String)
        ensures
            error_shown(*old(self), *final(self), message@),
    {
        self.error_message = message;
        self.input_mode = InputMode::Popup(PopupKind::Error);
    }

    pub fn set_loading(&mut self, message: &str)
        ensures
            loading_started(*old(self), *final(self), message@),
    {
        self.loading = true;
        self.loading_message = message.to_owned();
        self.loading_tick = 0;
    }

    pub fn clear_loading(&mut self)
        ensures
            *final(self) == (App { loading: false, loading_message: final(self).loading_message, ..*old(self) }),
            final(self).loading_message@.len() == 0,
    {
        self.loading = false;
        self.loading_message = String::new();
    }

    fn start(&mut self, message: &str)
        ensures
            started(*old(self), *final(self), message@),
    {
        self.input_mode = InputMode::Normal;
        self.set_loading(message);
    }

    pub fn do_login(&mut self) -> (e: Effect)
        ensures
            did_login(*old(self), *final(self), e),
    {
        if self.client_status.is_logged_in() {
            return Effect::Nothing;
        }
        self.set_loading("Logging in");
        Effect::Spawn(Command::Login)
    }

    pub fn do_logout(&mut self) -> (e: Effect)
        ensures
            did_logout(*old(self), *final(self), e),
    {
        self.set_loading("Logging out");
        Effect::Spawn(Command::Logout)
    }

    pub fn do_create_network(&mut self, name: &str, password: &str) -> (e: Effect)
        ensures
            did_create(*old(self), *final(self), e, name@, password@),
    {
        self.input_mode = InputMode::Normal;
        if password.is_empty() {
            self.show_error(string_of(&chars_of("Password cannot be blank")));
            return Effect::Nothing;
        }
        self.set_loading("Creating network");
        Effect::Spawn(Command::CreateNetwork { name: name.to_owned(), password: password.to_owned() })
    }

    pub fn do_join_network(&mut self, name: &str, password: &str) -> (e: Effect)
        ensures
            did_join(*old(self), *final(self), e, name@, password@),
    {
        self.start("Joining network");
        Effect::Spawn(Command::JoinNetwork { name: name.to_owned(), password: password.to_owned() })
    }

    pub fn do_leave_network(&mut self, net_id: &str) -> (e: Effect)
        ensures
            did_leave(*old(self), *final(self), e, net_id@),
    {
        self.start("Leaving network");
        Effect::Spawn(Command::LeaveNetwork { network: net_id.to_owned() })
    }

    pub fn do_delete_network(&mut self, net_id: &str) -> (e: Effect)
        ensures
            did_delete(*old(self), *final(self), e, net_id@),
    {
        self.start("Deleting network");
        Effect::Spawn(Command::DeleteNetwork { network: net_id.to_owned() })
    }

    pub fn do_set_nickname(&mut self, nickname: &str) -> (e: Effect)
        ensures
            did_set_nickname(*old(self), *final(self), e, nickname@),
    {
        self.start("Setting nickname");
        Effect::Spawn(Command::SetNickname { nickname: nickname.to_owned() })
    }

    pub fn do_evict(&mut self, network: &str, client_id: &str) -> (e: Effect)
        ensures
            did_evict(*old(self), *final(self), e, network@, client_id@),
    {
        self.start("Evicting peer");
        Effect::Spawn(Command::Evict { network: network.to_owned(), client_id: client_id.to_owned() })
    }

    pub fn do_set_password(&mut self, network: &str, password: &str) -> (e: Effect)
        ensures
            did_set_password(*old(self), *final(self), e, network@, password@),
    {
        self.start("Setting password");
        Effect::Spawn(Command::SetPassword { network: network.to_owned(), password: password.to_owned() })
    }

    pub fn do_set_access(&mut self, net_id: &str, lock: bool) -> (e: Effect)
        ensures
            did_set_access(*old(self), *final(self), e, net_id@, lock),
    {
        self.start(if lock { "Locking" } else { "Unlocking" });
        Effect::Spawn(Command::SetAccess { network: net_id.to_owned(), lock })
    }

    pub fn do_toggle_online(&mut self, net_id: &str, is_online: bool) -> (e: Effect)
        ensures
            did_toggle_online(*old(self), *final(self), e, net_id@, is_online),
    {
        self.start(if is_online { "Going offline" } else { "Going online" });
        if is_online {
            Effect::Spawn(Command::GoOffline { network: net_id.to_owned() })
        } else {
            Effect::Spawn(Command::GoOnline { network: net_id.to_owned() })
        }
    }
}

// ---------------------------------------------------------------------------
// Key handling
// ---------------------------------------------------------------------------

pub open spec fn is_up(k: Key) -> bool {
    k.code == KeyCode::Up || k.code == KeyCode::Char('k')
}

pub open spec fn is_down(k: Key) -> bool {
    k.code == KeyCode::Down || k.code == KeyCode::Char('j')
}

pub open spec fn is_left(k: Key) -> bool {
    k.code == KeyCode::Left || k.code == KeyCode::Char('h')
}

pub open spec fn is_right(k: Key) -> bool {
    k.code == KeyCode::Right || k.code == KeyCode::Char('l')
}

/// Enter on the selection: the Hamachi bar opens the nickname popup, logs
/// in or out, or quits; in the networks (only when logged in) a network or
/// peer row opens its actions and the last two rows open the join and
/// create popups.
pub open spec fn activation(s: App, t: App, e: Effect) -> bool {
    match s.focused_section {
        FocusedSection::Hamachi => match s.hamachi_selection {
            HamachiSelection::Nickname => input_cleared(s, t, e, InputMode::Popup(PopupKind::SetNickname)),
            HamachiSelection::Logout => if logged_in(s.client_status@) {
                did_logout(s, t, e)
            } else {
                did_login(s, t, e)
            },
            HamachiSelection::Quit => becomes(t, e, App { should_quit: true, ..s }),
        },
        FocusedSection::Networks => if !logged_in(s.client_status@) {
            unchanged(s, t, e)
        } else {
            match selected_row(s) {
                None => unchanged(s, t, e),
                Some(NetworkRow::Network(i)) => becomes(
                    t,
                    e,
                    App {
                        context_network_idx: Some(i),
                        network_action_selection: Some(0usize),
                        input_mode: InputMode::Popup(PopupKind::NetworkActions),
                        ..s
                    },
                ),
                Some(NetworkRow::Peer(i, j)) => becomes(
                    t,
                    e,
                    App {
                        context_network_idx: Some(i),
                        context_peer_idx: Some(j),
                        peer_action_selection: Some(0usize),
                        input_mode: InputMode::Popup(PopupKind::PeerActions),
                        ..s
                    },
                ),
                Some(NetworkRow::JoinNetwork) => input_cleared(s, t, e, InputMode::Popup(PopupKind::JoinNetwork)),
                Some(NetworkRow::CreateNetwork) => input_cleared(s, t, e, InputMode::Popup(PopupKind::CreateNetwork)),
            }
        },
    }
}

/// A key in normal mode; nothing happens while a command runs.
pub open spec fn normal_key(s: App, k: Key, t: App, e: Effect) -> bool {
    if s.loading {
        unchanged(s, t, e)
    } else if is_up(k) {
        becomes(t, e, moved_up(s))
    } else if is_down(k) {
        becomes(t, e, moved_down(s))
    } else if is_left(k) {
        becomes(t, e, moved_left(s))
    } else if is_right(k) {
        becomes(t, e, moved_right(s))
    } else if k.code == KeyCode::Tab {
        becomes(t, e, toggled_section(s))
    } else if k.code == KeyCode::Enter {
        activation(s, t, e)
    } else {
        unchanged(s, t, e)
    }
}

/// Enter in a text popup.
pub open spec fn submitted(s: App, kind: PopupKind, t: App, e: Effect) -> bool {
    let input = s.input_buffer@;
    match kind {
        PopupKind::JoinNetwork => if input.len() > 0 {
            &&& t == App {
                temp_buffer: t.temp_buffer,
                input_buffer: t.input_buffer,
                input_mode: InputMode::Popup(PopupKind::JoinPassword),
                ..s
            }
            &&& t.temp_buffer@ == input
            &&& t.input_buffer@.len() == 0
            &&& e is Nothing
        } else {
            unchanged(s, t, e)
        },
        PopupKind::JoinPassword => did_join(s, t, e, s.temp_buffer@, input),
        PopupKind::CreateNetwork => if input.len() > 0 {
            &&& t == App {
                temp_buffer: t.temp_buffer,
                input_buffer: t.input_buffer,
                input_mode: InputMode::Popup(PopupKind::CreatePassword),
                ..s
            }
            &&& t.temp_buffer@ == input
            &&& t.input_buffer@.len() == 0
            &&& e is Nothing
        } else {
            unchanged(s, t, e)
        },
        PopupKind::CreatePassword => did_create(s, t, e, s.temp_buffer@, input),
        PopupKind::SetNickname => if input.len() > 0 {
            did_set_nickname(s, t, e, input)
        } else {
            unchanged(s, t, e)
        },
        PopupKind::SetPassword => match context_of(s) {
            Some(n) => did_set_password(s, t, e, n.id@, input),
            None => unchanged(s, t, e),
        },
        _ => unchanged(s, t, e),
    }
}

/// A key in a text popup: Esc closes it and clears both buffers, Enter
/// submits, Backspace deletes the last character, a character is typed.
pub open spec fn text_key(s: App, k: Key, kind: PopupKind, t: App, e: Effect) -> bool {
    match k.code {
        KeyCode::Esc => {
            &&& t == App {
                input_mode: InputMode::Normal,
                input_buffer: t.input_buffer,
                temp_buffer: t.temp_buffer,
                ..s
            }
            &&& t.input_buffer@.len() == 0
            &&& t.temp_buffer@.len() == 0
            &&& e is Nothing
        },
        KeyCode::Enter => submitted(s, kind, t, e),
        KeyCode::Backspace => {
            &&& t == App { input_buffer: t.input_buffer, ..s }
            &&& t.input_buffer@ == (if s.input_buffer@.len() > 0 {
                s.input_buffer@.drop_last()
            } else {
                s.input_buffer@
            })
            &&& e is Nothing
        },
        KeyCode::Char(c) => {
            &&& t == App { input_buffer: t.input_buffer, ..s }
            &&& t.input_buffer@ == s.input_buffer@.push(c)
            &&& e is Nothing
        },
        _ => unchanged(s, t, e),
    }
}

/// A chosen network action; nothing without a network to apply it to.
pub open spec fn network_action_done(s: App, a: NetworkAction, t: App, e: Effect) -> bool {
    match context_of(s) {
        None => unchanged(s, t, e),
        Some(n) => match a {
            NetworkAction::OnlineOffline => did_toggle_online(s, t, e, n.id@, n.is_online),
            NetworkAction::Leave => becomes(
                t,
                e,
                App {
                    confirm_selection: Some(0usize),
                    input_mode: InputMode::Confirm(ConfirmAction::LeaveNetwork),
                    ..s
                },
            ),
            NetworkAction::Delete => becomes(
                t,
                e,
                App {
                    confirm_selection: Some(0usize),
                    input_mode: InputMode::Confirm(ConfirmAction::DeleteNetwork),
                    ..s
                },
            ),
            NetworkAction::Password => input_cleared(s, t, e, InputMode::Popup(PopupKind::SetPassword)),
            NetworkAction::Access => becomes(
                t,
                e,
                App {
                    access_selection: Some(0usize),
                    input_mode: InputMode::Popup(PopupKind::AccessSelect),
                    ..s
                },
            ),
        },
    }
}

/// Moving up in a list of `n` entries.
pub open spec fn list_up(o: Option<usize>) -> Option<usize> {
    match o {
        Some(i) => if i > 0 { Some((i - 1) as usize) } else { o },
        None => o,
    }
}

/// Moving down in a list of `n` entries.
pub open spec fn list_down(o: Option<usize>, n: int) -> Option<usize> {
    match o {
        Some(i) => if i + 1 < n { Some((i + 1) as usize) } else { o },
        None => o,
    }
}

pub open spec fn network_actions_key(s: App, k: Key, t: App, e: Effect) -> bool {
    if k.code == KeyCode::Esc {
        becomes(t, e, in_mode(s, InputMode::Normal))
    } else if is_up(k) {
        becomes(t, e, App { network_action_selection: list_up(s.network_action_selection), ..s })
    } else if is_down(k) {
        becomes(t, e, App { network_action_selection: list_down(s.network_action_selection, 5), ..s })
    } else if k.code == KeyCode::Enter {
        match s.network_action_selection {
            Some(i) => if i < 5 {
                network_action_done(s, network_actions()[i as int], t, e)
            } else {
                unchanged(s, t, e)
            },
            None => unchanged(s, t, e),
        }
    } else {
        unchanged(s, t, e)
    }
}

pub open spec fn peer_action_done(s: App, a: PeerAction, t: App, e: Effect) -> bool {
    match a {
        PeerAction::Evict => becomes(
            t,
            e,
            App {
                confirm_selection: Some(0usize),
                input_mode: InputMode::Confirm(ConfirmAction::EvictPeer),
                ..s
            },
        ),
    }
}

pub open spec fn peer_actions_key(s: App, k: Key, t: App, e: Effect) -> bool {
    if k.code == KeyCode::Esc {
        becomes(t, e, in_mode(s, InputMode::Normal))
    } else if is_up(k) {
        becomes(t, e, App { peer_action_selection: list_up(s.peer_action_selection), ..s })
    } else if is_down(k) {
        becomes(t, e, App { peer_action_selection: list_down(s.peer_action_selection, 1), ..s })
    } else if k.code == KeyCode::Enter {
        match s.peer_action_selection {
            Some(i) => if i < 1 {
                peer_action_done(s, peer_actions()[i as int], t, e)
            } else {
                unchanged(s, t, e)
            },
            None => unchanged(s, t, e),
        }
    } else {
        unchanged(s, t, e)
    }
}

/// A key in the lock/unlock popup; Enter locks on the first entry.
pub open spec fn access_key(s: App, k: Key, t: App, e: Effect) -> bool {
    if k.code == KeyCode::Esc {
        becomes(t, e, in_mode(s, InputMode::Normal))
    } else if is_up(k) || is_down(k) {
        becomes(t, e, App { access_selection: toggled(s.access_selection), ..s })
    } else if k.code == KeyCode::Enter {
        match context_of(s) {
            Some(n) => did_set_access(s, t, e, n.id@, index_or_first(s.access_selection) == 0),
            None => unchanged(s, t, e),
        }
    } else {
        unchanged(s, t, e)
    }
}

/// A confirmed action.
pub open spec fn confirmed(s: App, a: ConfirmAction, t: App, e: Effect) -> bool {
    match a {
        ConfirmAction::DeleteNetwork => match context_of(s) {
            Some(n) => did_delete(s, t, e, n.id@),
            None => unchanged(s, t, e),
        },
        ConfirmAction::EvictPeer => match (context_of(s), context_peer_id(s)) {
            (Some(n), Some(p)) => did_evict(s, t, e, n.id@, p),
            _ => unchanged(s, t, e),
        },
        ConfirmAction::LeaveNetwork => match context_of(s) {
            Some(n) => did_leave(s, t, e, n.id@),
            None => unchanged(s, t, e),
        },
    }
}

/// A key in the yes/no dialog; Enter on the first entry (yes) confirms.
pub open spec fn confirm_key(s: App, k: Key, a: ConfirmAction, t: App, e: Effect) -> bool {
    if is_up(k) || is_down(k) {
        becomes(t, e, App { confirm_selection: toggled(s.confirm_selection), ..s })
    } else if k.code == KeyCode::Enter {
        if index_or_first(s.confirm_selection) == 0 {
            confirmed(s, a, t, e)
        } else {
            becomes(t, e, in_mode(s, InputMode::Normal))
        }
    } else if k.code == KeyCode::Esc {
        becomes(t, e, in_mode(s, InputMode::Normal))
    } else {
        unchanged(s, t, e)
    }
}

pub open spec fn is_text_popup(kind: PopupKind) -> bool {
    match kind {
        PopupKind::JoinNetwork | PopupKind::JoinPassword | PopupKind::CreateNetwork
        | PopupKind::CreatePassword | PopupKind::SetNickname | PopupKind::SetPassword => true,
        _ => false,
    }
}

pub open spec fn popup_key(s: App, k: Key, kind: PopupKind, t: App, e: Effect) -> bool {
    match kind {
        PopupKind::NetworkActions => network_actions_key(s, k, t, e),
        PopupKind::PeerActions => peer_actions_key(s, k, t, e),
        PopupKind::AccessSelect => access_key(s, k, t, e),
        PopupKind::Error => if k.code == KeyCode::Enter || k.code == KeyCode::Char(' ') || k.code
            == KeyCode::Esc {
            becomes(t, e, in_mode(s, InputMode::Normal))
        } else {
            unchanged(s, t, e)
        },
        _ => text_key(s, k, kind, t, e),
    }
}

pub open spec fn is_quit_key(k: Key) -> bool {
    k.ctrl && k.code == KeyCode::Char('c')
}

/// A key: Ctrl+C quits from anywhere; otherwise the mode decides.
pub open spec fn key_step(s: App, k: Key, t: App, e: Effect) -> bool {
    if is_quit_key(k) {
        becomes(t, e, App { should_quit: true, ..s })
    } else {
        match s.input_mode {
            InputMode::Normal => normal_key(s, k, t, e),
            InputMode::Popup(kind) => popup_key(s, k, kind, t, e),
            InputMode::Confirm(a) => confirm_key(s, k, a, t, e),
        }
    }
}

/// An event: keys as above; a tick advances the loading animation, or asks
/// for a refresh when one is due and no command runs.
pub open spec fn event_step(s: App, ev: Event, refresh_due: bool, t: App, e: Effect) -> bool {
    match ev {
        Event::Key(k) => key_step(s, k, t, e),
        Event::Tick => if s.loading {
            becomes(t, e, App { loading_tick: (s.loading_tick + 1) as usize, ..s })
        } else if refresh_due {
            t == s && e is Refresh
        } else {
            unchanged(s, t, e)
        },
        Event::Resize(_, _) => unchanged(s, t, e),
    }
}

fn is_up_key(k: Key) -> (b: bool)
    ensures
        b == is_up(k),
{
    match k.code {
        KeyCode::Up => true,
        KeyCode::Char(c) => c == 'k',
        _ => false,
    }
}

fn is_down_key(k: Key) -> (b: bool)
    ensures
        b == is_down(k),
{
    match k.code {
        KeyCode::Down => true,
        KeyCode::Char(c) => c == 'j',
        _ => false,
    }
}

fn is_left_key(k: Key) -> (b: bool)
    ensures
        b == is_left(k),
{
    match k.code {
        KeyCode::Left => true,
        KeyCode::Char(c) => c == 'h',
        _ => false,
    }
}

fn is_right_key(k: Key) -> (b: bool)
    ensures
        b == is_right(k),
{
    match k.code {
        KeyCode::Right => true,
        KeyCode::Char(c) => c == 'l',
        _ => false,
    }
}

impl App {
    pub fn activate_selection(&mut self) -> (e: Effect)
        ensures
            activation(*old(self), *final(self), e),
    {
        match self.focused_section {
            FocusedSection::Hamachi => {
                match self.hamachi_selection {
                    HamachiSelection::Nickname => {
                        self.input_buffer = String::new();
                        self.input_mode = InputMode::Popup(PopupKind::SetNickname);
                        Effect::Nothing
                    },
                    HamachiSelection::Logout => {
                        if self.client_status.is_logged_in() {
                            self.do_logout()
                        } else {
                            self.do_login()
                        }
                    },
                    HamachiSelection::Quit => {
                        self.should_quit = true;
                        Effect::Nothing
                    },
                }
            },
            FocusedSection::Networks => {
                if !self.client_status.is_logged_in() {
                    return Effect::Nothing;
                }
                match self.selected_network_row() {
                    None => Effect::Nothing,
                    Some(NetworkRow::Network(net_idx)) => {
                        self.context_network_idx = Some(net_idx);
                        self.network_action_selection = Some(0);
                        self.input_mode = InputMode::Popup(PopupKind::NetworkActions);
                        Effect::Nothing
                    },
                    Some(NetworkRow::Peer(net_idx, peer_idx)) => {
                        self.context_network_idx = Some(net_idx);
                        self.context_peer_idx = Some(peer_idx);
                        self.peer_action_selection = Some(0);
                        self.input_mode = InputMode::Popup(PopupKind::PeerActions);
                        Effect::Nothing
                    },
                    Some(NetworkRow::JoinNetwork) => {
                        self.input_buffer = String::new();
                        self.input_mode = InputMode::Popup(PopupKind::JoinNetwork);
                        Effect::Nothing
                    },
                    Some(NetworkRow::CreateNetwork) => {
                        self.input_buffer = String::new();
                        self.input_mode = InputMode::Popup(PopupKind::CreateNetwork);
                        Effect::Nothing
                    },
                }
            },
        }
    }

    pub fn handle_normal_key(&mut self, key: Key) -> (e: Effect)
        ensures
            normal_key(*old(self), key, *final(self), e),
    {
        if self.loading {
            return Effect::Nothing;
        }
        if is_up_key(key) {
            self.navigate_up();
        } else if is_down_key(key) {
            self.navigate_down();
        } else if is_left_key(key) {
            self.navigate_left();
        } else if is_right_key(key) {
            self.navigate_right();
        } else if key.code == KeyCode::Tab {
            self.toggle_section();
        } else if key.code == KeyCode::Enter {
            return self.activate_selection();
        }
        Effect::Nothing
    }

    pub fn submit_text_popup(&mut self, kind: PopupKind) -> (e: Effect)
        ensures
            submitted(*old(self), kind, *final(self), e),
    {
        let input = self.input_buffer.clone();
        match kind {
            PopupKind::JoinNetwork => {
                if !input.as_str().is_empty() {
                    self.temp_buffer = input;
                    self.input_buffer = String::new();
                    self.input_mode = InputMode::Popup(PopupKind::JoinPassword);
                }
                Effect::Nothing
            },
            PopupKind::JoinPassword => {
                let name = self.temp_buffer.clone();
                self.do_join_network(name.as_str(), input.as_str())
            },
            PopupKind::CreateNetwork => {
                if !input.as_str().is_empty() {
                    self.temp_buffer = input;
                    self.input_buffer = String::new();
                    self.input_mode = InputMode::Popup(PopupKind::CreatePassword);
                }
                Effect::Nothing
            },
            PopupKind::CreatePassword => {
                let name = self.temp_buffer.clone();
                self.do_create_network(name.as_str(), input.as_str())
            },
            PopupKind::SetNickname => {
                if !input.as_str().is_empty() {
                    self.do_set_nickname(input.as_str())
                } else {
                    Effect::Nothing
                }
            },
            PopupKind::SetPassword => {
                match self.context_network_id() {
                    Some(net_id) => self.do_set_password(net_id.as_str(), input.as_str()),
                    None => Effect::Nothing,
                }
            },
            _ => Effect::Nothing,
        }
    }

    pub fn handle_text_input_key(&mut self, key: Key, kind: PopupKind) -> (e: Effect)
        ensures
            text_key(*old(self), key, kind, *final(self), e),
    {
        match key.code {
            KeyCode::Esc => {
                self.input_mode = InputMode::Normal;
                self.input_buffer = String::new();
                self.temp_buffer = String::new();
                Effect::Nothing
            },
            KeyCode::Enter => self.submit_text_popup(kind),
            KeyCode::Backspace => {
                pop_char(&mut self.input_buffer);
                Effect::Nothing
            },
            KeyCode::Char(c) => {
                push_char(&mut self.input_buffer, c);
                Effect::Nothing
            },
            _ => Effect::Nothing,
        }
    }

    pub fn execute_network_action(&mut self, action: NetworkAction) -> (e: Effect)
        ensures
            network_action_done(*old(self), action, *final(self), e),
    {
        let net_id = match self.context_network_id() {
            Some(id) => id,
            None => return Effect::Nothing,
        };
        match action {
            NetworkAction::OnlineOffline => {
                let is_online = match self.context_network() {
                    Some(n) => n.is_online,
                    None => false,
                };
                self.do_toggle_online(net_id.as_str(), is_online)
            },
            NetworkAction::Leave => {
                self.confirm_selection = Some(0);
                self.input_mode = InputMode::Confirm(ConfirmAction::LeaveNetwork);
                Effect::Nothing
            },
            NetworkAction::Delete => {
                self.confirm_selection = Some(0);
                self.input_mode = InputMode::Confirm(ConfirmAction::DeleteNetwork);
                Effect::Nothing
            },
            NetworkAction::Password => {
                self.input_buffer = String::new();
                self.input_mode = InputMode::Popup(PopupKind::SetPassword);
                Effect::Nothing
            },
            NetworkAction::Access => {
                self.access_selection = Some(0);
                self.input_mode = InputMode::Popup(PopupKind::AccessSelect);
                Effect::Nothing
            },
        }
    }

    pub fn handle_network_actions_key(&mut self, key: Key) -> (e: Effect)
        ensures
            network_actions_key(*old(self), key, *final(self), e),
    {
        let actions = NetworkAction::all();
        if key.code == KeyCode::Esc {
            self.input_mode = InputMode::Normal;
        } else if is_up_key(key) {
            if let Some(selected) = self.network_action_selection {
                if selected > 0 {
                    self.network_action_selection = Some(selected - 1);
                }
            }
        } else if is_down_key(key) {
            if let Some(selected) = self.network_action_selection {
                if selected < actions.len() && selected + 1 < actions.len() {
                    self.network_action_selection = Some(selected + 1);
                }
            }
        } else if key.code == KeyCode::Enter {
            if let Some(selected) = self.network_action_selection {
                if selected < actions.len() {
                    return self.execute_network_action(actions[selected]);
                }
            }
        }
        Effect::Nothing
    }

    pub fn execute_peer_action(&mut self, action: PeerAction) -> (e: Effect)
        ensures
            peer_action_done(*old(self), action, *final(self), e),
    {
        match action {
            PeerAction::Evict => {
                self.confirm_selection = Some(0);
                self.input_mode = InputMode::Confirm(ConfirmAction::EvictPeer);
                Effect::Nothing
            },
        }
    }

    pub fn handle_peer_actions_key(&mut self, key: Key) -> (e: Effect)
        ensures
            peer_actions_key(*old(self), key, *final(self), e),
    {
        let actions = PeerAction::all();
        if key.code == KeyCode::Esc {
            self.input_mode = InputMode::Normal;
        } else if is_up_key(key) {
            if let Some(selected) = self.peer_action_selection {
                if selected > 0 {
                    self.peer_action_selection = Some(selected - 1);
                }
            }
        } else if is_down_key(key) {
            if let Some(selected) = self.peer_action_selection {
                if selected < actions.len() && selected + 1 < actions.len() {
                    self.peer_action_selection = Some(selected + 1);
                }
            }
        } else if key.code == KeyCode::Enter {
            if let Some(selected) = self.peer_action_selection {
                if selected < actions.len() {
                    return self.execute_peer_action(actions[selected]);
                }
            }
        }
        Effect::Nothing
    }

    pub fn handle_access_select_key(&mut self, key: Key) -> (e: Effect)
        ensures
            access_key(*old(self), key, *final(self), e),
    {
        if key.code == KeyCode::Esc {
            self.input_mode = InputMode::Normal;
        } else if is_up_key(key) || is_down_key(key) {
            let cur = match self.access_selection {
                Some(i) => i,
                None => 0,
            };
            self.access_selection = Some(if cur == 0 { 1 } else { 0 });
        } else if key.code == KeyCode::Enter {
            let lock = match self.access_selection {
                Some(i) => i,
                None => 0,
            } == 0;
            if let Some(net_id) = self.context_network_id() {
                return self.do_set_access(net_id.as_str(), lock);
            }
        }
        Effect::Nothing
    }

    pub fn execute_confirm(&mut self, action: ConfirmAction) -> (e: Effect)
        ensures
            confirmed(*old(self), action, *final(self), e),
    {
        match action {
            ConfirmAction::DeleteNetwork => {
                match self.context_network_id() {
                    Some(net_id) => self.do_delete_network(net_id.as_str()),
                    None => Effect::Nothing,
                }
            },
            ConfirmAction::EvictPeer => {
                let net_id = self.context_network_id();
                let peer_id = match (self.context_network_idx, self.context_peer_idx) {
                    (Some(ni), Some(pi)) => {
                        if ni < self.networks.len() && pi < self.networks[ni].peers.len() {
                            Some(self.networks[ni].peers[pi].client_id.clone())
                        } else {
                            None
                        }
                    },
                    _ => None,
                };
                match (net_id, peer_id) {
                    (Some(net), Some(peer)) => self.do_evict(net.as_str(), peer.as_str()),
                    _ => Effect::Nothing,
                }
            },
            ConfirmAction::LeaveNetwork => {
                match self.context_network_id() {
                    Some(net_id) => self.do_leave_network(net_id.as_str()),
                    None => Effect::Nothing,
                }
            },
        }
    }

    pub fn handle_confirm_key(&mut self, key: Key, action: ConfirmAction) -> (e: Effect)
        ensures
            confirm_key(*old(self), key, action, *final(self), e),
    {
        if is_up_key(key) || is_down_key(key) {
            let cur = match self.confirm_selection {
                Some(i) => i,
                None => 0,
            };
            self.confirm_selection = Some(if cur == 0 { 1 } else { 0 });
        } else if key.code == KeyCode::Enter {
            let cur = match self.confirm_selection {
                Some(i) => i,
                None => 0,
            };
            if cur == 0 {
                return self.execute_confirm(action);
            } else {
                self.input_mode = InputMode::Normal;
            }
        } else if key.code == KeyCode::Esc {
            self.input_mode = InputMode::Normal;
        }
        Effect::Nothing
    }

    pub fn handle_popup_key(&mut self, key: Key, kind: PopupKind) -> (e: Effect)
        ensures
            popup_key(*old(self), key, kind, *final(self), e),
    {
        match kind {
            PopupKind::NetworkActions => self.handle_network_actions_key(key),
            PopupKind::PeerActions => self.handle_peer_actions_key(key),
            PopupKind::AccessSelect => self.handle_access_select_key(key),
            PopupKind::Error => {
                if key.code == KeyCode::Enter || key.code == KeyCode::Char(' ') || key.code
                    == KeyCode::Esc {
                    self.input_mode = InputMode::Normal;
                }
                Effect::Nothing
            },
            _ => self.handle_text_input_key(key, kind),
        }
    }

    pub fn handle_key(&mut self, key: Key) -> (e: Effect)
        ensures
            key_step(*old(self), key, *final(self), e),
    {
        if key.ctrl && key.code == KeyCode::Char('c') {
            self.should_quit = true;
            return Effect::Nothing;
        }
        match self.input_mode {
            InputMode::Normal => self.handle_normal_key(key),
            InputMode::Popup(kind) => self.handle_popup_key(key, kind),
            InputMode::Confirm(action) => self.handle_confirm_key(key, action),
        }
    }

    /// One event; `refresh_due` tells whether the last refresh is old
    /// enough for another.
    pub fn handle_event(&mut self, event: Event, refresh_due: bool) -> (e: Effect)
        requires
            old(self).loading && event == Event::Tick ==> old(self).loading_tick < usize::MAX,
        ensures
            event_step(*old(self), event, refresh_due, *final(self), e),
    {
        match event {
            Event::Key(key) => self.handle_key(key),
            Event::Tick => {
                if self.loading {
                    self.loading_tick = self.loading_tick + 1;
                    Effect::Nothing
                } else if refresh_due {
                    Effect::Refresh
                } else {
                    Effect::Nothing
                }
            },
            Event::Resize(_, _) => Effect::Nothing,
        }
    }
}

// ---------------------------------------------------------------------------
// Refreshing and finishing commands
// ---------------------------------------------------------------------------

/// A selection kept within a list of `n` rows.
pub open spec fn clamped(o: Option<usize>, n: int) -> Option<usize> {
    if n == 0 {
        None
    } else {
        match o {
            Some(i) => if i >= n { Some((n - 1) as usize) } else { o },
            None => o,
        }
    }
}

/// New data: the status and networks are replaced, the rows rebuilt and
/// the selection kept within them.
pub open spec fn refreshed(s: App, status: ClientStatus, networks: Vec<Network>, t: App) -> bool {
    &&& t == App {
        client_status: status,
        networks: networks,
        network_rows: t.network_rows,
        network_selection: clamped(s.network_selection, t.network_rows@.len() as int),
        ..s
    }
    &&& t.network_rows@ == rows_for(networks@)
}

/// A finished command (only while one runs): loading stops, a failure
/// shows its output in the error popup, and the data is to be refreshed.
pub open spec fn command_done(s: App, r: HamachiResult, t: App, e: Effect) -> bool {
    if !s.loading {
        unchanged(s, t, e)
    } else {
        &&& t.loading_message@.len() == 0
        &&& e is Refresh
        &&& if r.success {
            t == App { loading: false, loading_message: t.loading_message, ..s }
        } else {
            &&& t == App {
                loading: false,
                loading_message: t.loading_message,
                error_message: t.error_message,
                input_mode: InputMode::Popup(PopupKind::Error),
                ..s
            }
            &&& t.error_message@ == r.output@
        }
    }
}

impl App {
    /// Takes in freshly read data.
    pub fn refresh_status(&mut self, status: ClientStatus, networks: Vec<Network>)
        ensures
            refreshed(*old(self), status, networks, *final(self)),
    {
        self.client_status = status;
        self.networks = networks;
        self.rebuild_network_rows();
        let n = self.network_rows.len();
        if n == 0 {
            self.network_selection = None;
        } else if let Some(selected) = self.network_selection {
            if selected >= n {
                self.network_selection = Some(n - 1);
            }
        }
    }

    /// Takes the result of the command that runs in the background.
    pub fn poll_command_result(&mut self, result: HamachiResult) -> (e: Effect)
        ensures
            command_done(*old(self), result, *final(self), e),
    {
        if !self.loading {
            return Effect::Nothing;
        }
        self.clear_loading();
        if !result.success {
            self.show_error(result.output);
        }
        Effect::Refresh
    }
}

} // verus!
