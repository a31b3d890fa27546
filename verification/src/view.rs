//! What the screen shows: texts, colours and selection marks of the Hamachi
//! bar, the network list and the popups, computed from the state. Drawing
//! them is left to the terminal front end.
use vstd::prelude::*;

use crate::app::{
    App, ConfirmAction, FocusedSection, HamachiSelection, NetworkAction, NetworkRow, PeerAction,
    PopupKind, context_of, network_action_label, network_actions, peer_action_label,
};
use crate::hamachi::{Network, Peer, PeerStatus, logged_in};
use crate::text::{chars_of, same_chars, string_of};
use ratatui::layout::{Constraint, Direction, Layout, Rect};

verus! {

/// The colours of the interface.
#[derive(Debug, Clone, Copy, PartialEq, Eq, Structural)]
pub enum Tone {
    Cyan,
    Green,
    Yellow,
    Red,
    Gray,
    White,
}

/// `text` when it is not empty, else a dash.
pub open spec fn or_dash(text: Seq<char>) -> Seq<char> {
    if text.len() == 0 {
        "-"@
    } else {
        text
    }
}

fn dash_if_empty(text: &String) -> (r: String)
    ensures
        r@ == or_dash(text@),
{
    if text.as_str().is_empty() {
        string_of(&chars_of("-"))
    } else {
        text.clone()
    }
}

/// The Hamachi bar: the status line and the selectable row.
pub struct HamachiBar {
    pub border: Tone,
    pub online: bool,
    pub address: String,
    pub client_id: String,
    pub nickname: String,
    pub login_label: String,
    pub nickname_selected: bool,
    pub login_selected: bool,
    pub quit_selected: bool,
}

pub open spec fn tone_of_focus(focused: bool) -> Tone {
    if focused {
        Tone::Cyan
    } else {
        Tone::Gray
    }
}

pub open spec fn bar_selected(a: App, h: HamachiSelection) -> bool {
    a.focused_section == FocusedSection::Hamachi && a.hamachi_selection == h
}

/// The Hamachi bar of the state `a`.
pub fn hamachi_bar(a: &App) -> (r: HamachiBar)
    ensures
        r.border == tone_of_focus(a.focused_section == FocusedSection::Hamachi),
        r.online == logged_in(a.client_status@),
        r.address@ == or_dash(a.client_status.address@),
        r.client_id@ == or_dash(a.client_status.client_id@),
        r.nickname@ == or_dash(a.client_status.nickname@),
        r.login_label@ == (if logged_in(a.client_status@) { "Logout"@ } else { "Login"@ }),
        r.nickname_selected == bar_selected(*a, HamachiSelection::Nickname),
        r.login_selected == bar_selected(*a, HamachiSelection::Logout),
        r.quit_selected == bar_selected(*a, HamachiSelection::Quit),
{
    let focused = a.focused_section == FocusedSection::Hamachi;
    let online = a.client_status.is_logged_in();
    HamachiBar {
        border: if focused { Tone::Cyan } else { Tone::Gray },
        online,
        address: dash_if_empty(&a.client_status.address),
        client_id: dash_if_empty(&a.client_status.client_id),
        nickname: dash_if_empty(&a.client_status.nickname),
        login_label: if online { string_of(&chars_of("Logout")) } else { string_of(&chars_of("Login")) },
        nickname_selected: focused && a.hamachi_selection == HamachiSelection::Nickname,
        login_selected: focused && a.hamachi_selection == HamachiSelection::Logout,
        quit_selected: focused && a.hamachi_selection == HamachiSelection::Quit,
    }
}

// ---------------------------------------------------------------------------
// The network list
// ---------------------------------------------------------------------------

/// How one row of the network list looks.
pub enum RowView {
    Network {
        /// A filled dot for an online network, a hollow one otherwise.
        filled: bool,
        indicator: Tone,
        name: String,
        name_tone: Tone,
        /// The id, shown after the name when it differs from it.
        id: Option<String>,
        online_peers: usize,
        peers: usize,
    },
    Peer { dot: Tone, nickname: String, nickname_tone: Tone, connection: String, connection_tone: Tone },
    Entry { label: String, tone: Tone },
}

/// The row refers to a network and peer that exist.
pub open spec fn row_valid(nets: Seq<Network>, r: NetworkRow) -> bool {
    match r {
        NetworkRow::Network(i) => i < nets.len(),
        NetworkRow::Peer(i, j) => i < nets.len() && j < nets[i as int].peers@.len(),
        _ => true,
    }
}

pub open spec fn rows_valid(a: App) -> bool {
    forall|k: int| 0 <= k < a.network_rows@.len() ==> row_valid(a.networks@, #[trigger] a.network_rows@[k])
}

/// The number of online peers among `ps`.
pub open spec fn online_count(ps: Seq<Peer>) -> nat
    decreases ps.len(),
{
    if ps.len() == 0 {
        0
    } else {
        online_count(ps.drop_last()) + if ps.last().status == PeerStatus::Online { 1nat } else { 0nat }
    }
}

pub open spec fn dim_unless(on: bool, tone: Tone) -> Tone {
    if on {
        tone
    } else {
        Tone::Gray
    }
}

/// The dot and connection colours of a peer: gray when logged out; online
/// peers green, or yellow over a relay; offline peers a red dot.
pub open spec fn peer_tones(logged: bool, p: Peer) -> (Tone, Tone) {
    if !logged {
        (Tone::Gray, Tone::Gray)
    } else {
        match p.status {
            PeerStatus::Online => if p.connection_type@ == "relay"@ {
                (Tone::Yellow, Tone::Yellow)
            } else {
                (Tone::Green, Tone::Green)
            },
            PeerStatus::Offline => (Tone::Red, Tone::Gray),
            PeerStatus::Unknown => (Tone::Gray, Tone::Gray),
        }
    }
}

/// How `r` shows in the list of the state `a`.
pub open spec fn row_shows(a: App, r: NetworkRow, v: RowView) -> bool {
    let logged = logged_in(a.client_status@);
    match r {
        NetworkRow::Network(i) => {
            let n = a.networks@[i as int];
            &&& v matches RowView::Network { filled, indicator, name, name_tone, id, online_peers, peers }
            &&& filled == n.is_online
            &&& indicator == (if n.is_online { dim_unless(logged, Tone::Green) } else { Tone::Gray })
            &&& name@ == n.name@
            &&& name_tone == dim_unless(logged, Tone::White)
            &&& (n.id@ == n.name@ ==> id is None)
            &&& (n.id@ != n.name@ ==> (id matches Some(x) && x@ == n.id@))
            &&& online_peers == online_count(n.peers@)
            &&& peers == n.peers@.len()
        },
        NetworkRow::Peer(i, j) => {
            let p = a.networks@[i as int].peers@[j as int];
            &&& v matches RowView::Peer { dot, nickname, nickname_tone, connection, connection_tone }
            &&& (dot, connection_tone) == peer_tones(logged, p)
            &&& nickname@ == p.nickname@
            &&& nickname_tone == dim_unless(logged, Tone::White)
            &&& connection@ == p.connection_type@
        },
        NetworkRow::JoinNetwork => v matches RowView::Entry { label, tone } && label@
            == "+ Join Network"@ && tone == dim_unless(logged, Tone::Cyan),
        NetworkRow::CreateNetwork => v matches RowView::Entry { label, tone } && label@
            == "+ Create Network"@ && tone == dim_unless(logged, Tone::Cyan),
    }
}

fn count_online(ps: &Vec<Peer>) -> (r: usize)
    ensures
        r == online_count(ps@),
{
    let mut r: usize = 0;
    let mut i: usize = 0;
    while i < ps.len()
        invariant
            i <= ps.len(),
            r == online_count(ps@.take(i as int)),
            r <= i,
        decreases ps.len() - i,
    {
        assert(ps@.take(i + 1).drop_last() == ps@.take(i as int));
        if ps[i].status == PeerStatus::Online {
            r = r + 1;
        }
        i = i + 1;
    }
    assert(ps@.take(ps.len() as int) == ps@);
    r
}

/// Whether every row of the network list refers to a network and peer that
/// exist.
pub fn rows_refer_to_data(a: &App) -> (r: bool)
    ensures
        r == rows_valid(*a),
{
    let mut k: usize = 0;
    while k < a.network_rows.len()
        invariant
            k <= a.network_rows@.len(),
            forall|m: int| 0 <= m < k ==> row_valid(a.networks@, #[trigger] a.network_rows@[m]),
        decreases a.network_rows@.len() - k,
    {
        let ok = match a.network_rows[k] {
            NetworkRow::Network(i) => i < a.networks.len(),
            NetworkRow::Peer(i, j) => i < a.networks.len() && j < a.networks[i].peers.len(),
            _ => true,
        };
        if !ok {
            return false;
        }
        k = k + 1;
    }
    true
}

/// How one row of the network list of `a` shows.
pub fn row_view(a: &App, r: NetworkRow) -> (v: RowView)
    requires
        row_valid(a.networks@, r),
    ensures
        row_shows(*a, r, v),
{
    let logged = a.client_status.is_logged_in();
    let dim = if logged { Tone::White } else { Tone::Gray };
    match r {
        NetworkRow::Network(i) => {
            let n = &a.networks[i];
            let id = if same_chars(&chars_of(n.id.as_str()), &chars_of(n.name.as_str())) {
                None
            } else {
                Some(n.id.clone())
            };
            RowView::Network {
                filled: n.is_online,
                indicator: if n.is_online {
                    if logged { Tone::Green } else { Tone::Gray }
                } else {
                    Tone::Gray
                },
                name: n.name.clone(),
                name_tone: dim,
                id,
                online_peers: count_online(&n.peers),
                peers: n.peers.len(),
            }
        },
        NetworkRow::Peer(i, j) => {
            let p = &a.networks[i].peers[j];
            let (dot, conn) = if !logged {
                (Tone::Gray, Tone::Gray)
            } else {
                match p.status {
                    PeerStatus::Online => {
                        if same_chars(&chars_of(p.connection_type.as_str()), &chars_of("relay")) {
                            (Tone::Yellow, Tone::Yellow)
                        } else {
                            (Tone::Green, Tone::Green)
                        }
                    },
                    PeerStatus::Offline => (Tone::Red, Tone::Gray),
                    PeerStatus::Unknown => (Tone::Gray, Tone::Gray),
                }
            };
            RowView::Peer {
                dot,
                nickname: p.nickname.clone(),
                nickname_tone: dim,
                connection: p.connection_type.clone(),
                connection_tone: conn,
            }
        },
        NetworkRow::JoinNetwork => RowView::Entry {
            label: string_of(&chars_of("+ Join Network")),
            tone: if logged { Tone::Cyan } else { Tone::Gray },
        },
        NetworkRow::CreateNetwork => RowView::Entry {
            label: string_of(&chars_of("+ Create Network")),
            tone: if logged { Tone::Cyan } else { Tone::Gray },
        },
    }
}

/// The rows of the network list of `a`, in order.
pub fn network_list(a: &App) -> (r: Vec<RowView>)
    requires
        rows_valid(*a),
    ensures
        r@.len() == a.network_rows@.len(),
        forall|k: int| 0 <= k < r@.len() ==> row_shows(*a, a.network_rows@[k], #[trigger] r@[k]),
{
    let mut r: Vec<RowView> = Vec::new();
    let mut k: usize = 0;
    while k < a.network_rows.len()
        invariant
            k <= a.network_rows@.len(),
            rows_valid(*a),
            r@.len() == k,
            forall|m: int| 0 <= m < k ==> row_shows(*a, a.network_rows@[m], #[trigger] r@[m]),
        decreases a.network_rows@.len() - k,
    {
        assert(row_valid(a.networks@, a.network_rows@[k as int]));
        r.push(row_view(a, a.network_rows[k]));
        k = k + 1;
    }
    r
}

/// The loading message with an animation of up to three dots, padded to
/// a constant width.
pub open spec fn loading_line(message: Seq<char>, tick: usize) -> Seq<char> {
    let dots = (tick % 4) as int;
    seq![' '] + message + Seq::new(dots as nat, |i: int| '.') + Seq::new((3 - dots) as nat, |i: int| ' ')
        + seq![' ']
}

pub fn loading_text(message: &str, tick: usize) -> (r: String)
    ensures
        r@ == loading_line(message@, tick),
{
    let dots = tick % 4;
    let mut v: Vec<char> = Vec::new();
    v.push(' ');
    append(&mut v, message);
    let ghost head = v@;
    let mut i: usize = 0;
    while i < dots
        invariant
            i <= dots <= 3,
            v@ == head + Seq::new(i as nat, |m: int| '.'),
        decreases dots - i,
    {
        v.push('.');
        assert(Seq::new((i + 1) as nat, |m: int| '.') =~= Seq::new(i as nat, |m: int| '.').push('.'));
        i = i + 1;
    }
    let ghost mid = v@;
    let mut j: usize = 0;
    while j < 3 - dots
        invariant
            dots <= 3,
            j <= 3 - dots,
            v@ == mid + Seq::new(j as nat, |m: int| ' '),
        decreases 3 - dots - j,
    {
        v.push(' ');
        assert(Seq::new((j + 1) as nat, |m: int| ' ') =~= Seq::new(j as nat, |m: int| ' ').push(' '));
        j = j + 1;
    }
    v.push(' ');
    assert(v@ =~= loading_line(message@, tick));
    string_of(&v)
}

/// Appends the characters of `s` to `v`.
fn append(v: &mut Vec<char>, s: &str)
    ensures
        final(v)@ == old(v)@ + s@,
{
    let cs = chars_of(s);
    let mut i: usize = 0;
    while i < cs.len()
        invariant
            i <= cs.len(),
            v@ == old(v)@ + cs@.take(i as int),
        decreases cs.len() - i,
    {
        v.push(cs[i]);
        assert(cs@.take(i + 1) == cs@.take(i as int).push(cs@[i as int]));
        i = i + 1;
    }
    assert(cs@.take(cs.len() as int) == cs@);
}

// ---------------------------------------------------------------------------
// Popups
// ---------------------------------------------------------------------------

/// The title and prompt of a text popup; `None` for the other popups.
pub open spec fn text_popup_texts(kind: PopupKind) -> Option<(Seq<char>, Seq<char>)> {
    match kind {
        PopupKind::SetNickname => Some(("Set Nickname"@, "New nickname:"@)),
        PopupKind::SetPassword => Some(("Set Password"@, "New password (empty to remove):"@)),
        PopupKind::JoinNetwork => Some(("Join Network"@, "Network ID:"@)),
        PopupKind::JoinPassword => Some(("Join Network"@, "Password (empty for none):"@)),
        PopupKind::CreateNetwork => Some(("Create Network"@, "Network Name:"@)),
        PopupKind::CreatePassword => Some(("Create Network"@, "Password:"@)),
        _ => None,
    }
}

pub fn text_popup(kind: PopupKind) -> (r: Option<(&'static str, &'static str)>)
    ensures
        match r {
            Some((t, p)) => text_popup_texts(kind) == Some((t@, p@)),
            None => text_popup_texts(kind) is None,
        },
{
    match kind {
        PopupKind::SetNickname => Some(("Set Nickname", "New nickname:")),
        PopupKind::SetPassword => Some(("Set Password", "New password (empty to remove):")),
        PopupKind::JoinNetwork => Some(("Join Network", "Network ID:")),
        PopupKind::JoinPassword => Some(("Join Network", "Password (empty for none):")),
        PopupKind::CreateNetwork => Some(("Create Network", "Network Name:")),
        PopupKind::CreatePassword => Some(("Create Network", "Password:")),
        _ => None,
    }
}

/// The input line of a text popup: a marker, the input and a cursor.
pub open spec fn input_line(input: Seq<char>) -> Seq<char> {
    "▸ "@ + input + "_"@
}

pub fn input_text(input: &str) -> (r: String)
    ensures
        r@ == input_line(input@),
{
    let mut v = chars_of("▸ ");
    append(&mut v, input);
    append(&mut v, "_");
    string_of(&v)
}

/// The name of the network that popup actions apply to, or "?".
pub open spec fn context_name(a: App) -> Seq<char> {
    match context_of(a) {
        Some(n) => n.name@,
        None => "?"@,
    }
}

fn context_name_text(a: &App) -> (r: Vec<char>)
    ensures
        r@ == context_name(*a),
{
    match a.context_network() {
        Some(n) => chars_of(n.name.as_str()),
        None => chars_of("?"),
    }
}

/// `text` framed by one space on each side.
pub open spec fn padded(text: Seq<char>) -> Seq<char> {
    seq![' '] + text + seq![' ']
}

fn padded_text(v: &Vec<char>) -> (r: String)
    ensures
        r@ == padded(v@),
{
    let mut w: Vec<char> = Vec::new();
    w.push(' ');
    let mut i: usize = 0;
    while i < v.len()
        invariant
            i <= v.len(),
            w@ == seq![' '] + v@.take(i as int),
        decreases v.len() - i,
    {
        w.push(v[i]);
        assert(v@.take(i + 1) == v@.take(i as int).push(v@[i as int]));
        i = i + 1;
    }
    w.push(' ');
    assert(v@.take(v.len() as int) == v@);
    assert(w@ =~= padded(v@));
    string_of(&w)
}

/// The network actions popup: its title, entries and height.
pub struct ActionsPopup {
    pub title: String,
    pub labels: Vec<String>,
    pub height: u16,
}

pub open spec fn context_online(a: App) -> bool {
    match context_of(a) {
        Some(n) => n.is_online,
        None => false,
    }
}

pub fn network_actions_popup(a: &App) -> (r: ActionsPopup)
    ensures
        r.title@ == padded(context_name(*a)),
        r.labels@.len() == network_actions().len(),
        forall|k: int| 0 <= k < r.labels@.len() ==> #[trigger] r.labels@[k]@ == network_action_label(
            network_actions()[k],
            context_online(*a),
        ),
        r.height == 7,
{
    let is_online = match a.context_network() {
        Some(n) => n.is_online,
        None => false,
    };
    let actions = NetworkAction::all();
    let mut labels: Vec<String> = Vec::new();
    let mut k: usize = 0;
    while k < actions.len()
        invariant
            k <= actions@.len(),
            actions@ == network_actions(),
            labels@.len() == k,
            is_online == context_online(*a),
            forall|m: int| 0 <= m < k ==> #[trigger] labels@[m]@ == network_action_label(
                network_actions()[m],
                context_online(*a),
            ),
        decreases actions@.len() - k,
    {
        labels.push(string_of(&chars_of(actions[k].label(is_online))));
        k = k + 1;
    }
    let height: u16 = if actions.len() + 2 < 12 { (actions.len() + 2) as u16 } else { 12 };
    ActionsPopup { title: padded_text(&context_name_text(a)), labels, height }
}

/// The nickname and address of the peer that popup actions apply to, or
/// "?" and nothing.
pub open spec fn context_peer(a: App) -> (Seq<char>, Seq<char>) {
    match (a.context_network_idx, a.context_peer_idx) {
        (Some(ni), Some(pi)) => if ni < a.networks@.len() && pi < a.networks@[ni as int].peers@.len() {
            let p = a.networks@[ni as int].peers@[pi as int];
            (p.nickname@, p.address@)
        } else {
            ("?"@, seq![])
        },
        _ => ("?"@, seq![]),
    }
}

fn context_peer_texts(a: &App) -> (r: (Vec<char>, Vec<char>))
    ensures
        (r.0@, r.1@) == context_peer(*a),
{
    match (a.context_network_idx, a.context_peer_idx) {
        (Some(ni), Some(pi)) => {
            if ni < a.networks.len() && pi < a.networks[ni].peers.len() {
                let p = &a.networks[ni].peers[pi];
                (chars_of(p.nickname.as_str()), chars_of(p.address.as_str()))
            } else {
                (chars_of("?"), Vec::new())
            }
        },
        _ => (chars_of("?"), Vec::new()),
    }
}

/// The peer actions popup: titled with the nickname and, where known, the
/// address in brackets.
pub open spec fn peer_popup_title(a: App) -> Seq<char> {
    let (name, addr) = context_peer(a);
    if addr.len() == 0 {
        padded(name)
    } else {
        padded(name + " ("@ + addr + ")"@)
    }
}

pub fn peer_actions_popup(a: &App) -> (r: ActionsPopup)
    ensures
        r.title@ == peer_popup_title(*a),
        r.labels@.len() == 1,
        r.labels@[0]@ == peer_action_label(PeerAction::Evict),
        r.height == 3,
{
    let (name, addr) = context_peer_texts(a);
    let title = if addr.len() == 0 {
        padded_text(&name)
    } else {
        let mut v = name;
        let ghost n0 = v@;
        append(&mut v, " (");
        let ghost n1 = v@;
        let mut i: usize = 0;
        while i < addr.len()
            invariant
                i <= addr.len(),
                v@ == n1 + addr@.take(i as int),
            decreases addr.len() - i,
        {
            v.push(addr[i]);
            assert(addr@.take(i + 1) == addr@.take(i as int).push(addr@[i as int]));
            i = i + 1;
        }
        assert(addr@.take(addr.len() as int) == addr@);
        append(&mut v, ")");
        padded_text(&v)
    };
    let mut labels: Vec<String> = Vec::new();
    labels.push(string_of(&chars_of(PeerAction::Evict.label())));
    ActionsPopup { title, labels, height: 3 }
}

/// The error popup's text: the message and how to dismiss it.
pub open spec fn error_lines(message: Seq<char>) -> Seq<char> {
    message + "\n\nPress Enter to dismiss"@
}

pub fn error_text(message: &str) -> (r: String)
    ensures
        r@ == error_lines(message@),
{
    let mut v = chars_of(message);
    append(&mut v, "\n\nPress Enter to dismiss");
    string_of(&v)
}

/// The title of the lock/unlock popup.
pub open spec fn access_title_text(a: App) -> Seq<char> {
    padded("Access: "@ + context_name(a))
}

pub fn access_title(a: &App) -> (r: String)
    ensures
        r@ == access_title_text(*a),
{
    let mut v = chars_of("Access: ");
    let name = context_name_text(a);
    let ghost head = v@;
    let mut i: usize = 0;
    while i < name.len()
        invariant
            i <= name.len(),
            v@ == head + name@.take(i as int),
        decreases name.len() - i,
    {
        v.push(name[i]);
        assert(name@.take(i + 1) == name@.take(i as int).push(name@[i as int]));
        i = i + 1;
    }
    assert(name@.take(name.len() as int) == name@);
    padded_text(&v)
}

/// The title of the yes/no dialog: the action and what it applies to.
pub open spec fn confirm_title_text(a: App, action: ConfirmAction) -> Seq<char> {
    match action {
        ConfirmAction::DeleteNetwork => padded("Delete '"@ + context_name(a) + "'"@),
        ConfirmAction::EvictPeer => padded("Evict '"@ + context_peer(a).0 + "'"@),
        ConfirmAction::LeaveNetwork => padded("Leave '"@ + context_name(a) + "'"@),
    }
}

pub fn confirm_title(a: &App, action: ConfirmAction) -> (r: String)
    ensures
        r@ == confirm_title_text(*a, action),
{
    let (mut v, name) = match action {
        ConfirmAction::DeleteNetwork => (chars_of("Delete '"), context_name_text(a)),
        ConfirmAction::EvictPeer => (chars_of("Evict '"), context_peer_texts(a).0),
        ConfirmAction::LeaveNetwork => (chars_of("Leave '"), context_name_text(a)),
    };
    let ghost head = v@;
    let mut i: usize = 0;
    while i < name.len()
        invariant
            i <= name.len(),
            v@ == head + name@.take(i as int),
        decreases name.len() - i,
    {
        v.push(name[i]);
        assert(name@.take(i + 1) == name@.take(i as int).push(name@[i as int]));
        i = i + 1;
    }
    assert(name@.take(name.len() as int) == name@);
    append(&mut v, "'");
    padded_text(&v)
}

/// The width of a centred popup: `percent` of the area's width (cut to 16
/// bits), at most 60 columns and at most the area's width.
pub open spec fn popup_width_of(area_width: u16, percent: u16) -> u16 {
    let desired = ((area_width as int * percent as int / 100) % 65536) as u16;
    let capped = if desired < 60 { desired } else { 60u16 };
    if capped < area_width { capped } else { area_width }
}

pub fn popup_width(area_width: u16, percent: u16) -> (r: u16)
    ensures
        r == popup_width_of(area_width, percent),
{
    assert((area_width as int) * (percent as int) <= 65535 * 65535) by (nonlinear_arith)
        requires
            area_width <= 65535,
            percent <= 65535,
    ;
    let product: u32 = area_width as u32 * percent as u32;
    let desired = ((product / 100) % 65536) as u16;
    let capped = if desired < 60 { desired } else { 60 };
    if capped < area_width { capped } else { area_width }
}

/// A rectangle of the screen.
#[derive(Debug, Clone, Copy, PartialEq, Eq, Structural)]
pub struct Area {
    pub x: u16,
    pub y: u16,
    pub width: u16,
    pub height: u16,
}

/// How much room one piece of a split asks for.
#[derive(Debug, Clone, Copy, PartialEq, Eq, Structural)]
pub enum Extent {
    /// A share of the room left over, by weight.
    Fill(u16),
    /// A fixed number of cells.
    Length(u16),
}

pub open spec fn corners(a: Area) -> (u16, u16, u16, u16) {
    (a.x, a.y, a.width, a.height)
}

pub open spec fn areas(v: Seq<Area>) -> Seq<(u16, u16, u16, u16)> {
    v.map_values(|a: Area| corners(a))
}

/// What ratatui's `Layout::split` gives for an area split along one
/// direction into pieces with the given extents.
pub uninterp spec fn layout_split(x: u16, y: u16, width: u16, height: u16, vertical: bool, parts: Seq<Extent>) -> Seq<(u16, u16, u16, u16)>;

/// Calls `ratatui::layout::Layout::split` on the area, vertically or
/// horizontally, with one constraint (`Fill` or `Length`) per part.
/// Claimed: one piece per part, the pieces being `layout_split` of the
/// area, the direction and the parts; how the layout solver places them is
/// not stated.
#[verifier::external_body]
fn split_area(area: Area, vertical: bool, parts: &Vec<Extent>) -> (r: Vec<Area>)
    ensures
        r@.len() == parts@.len(),
        areas(r@) == layout_split(area.x, area.y, area.width, area.height, vertical, parts@),
{
    let mut constraints = Vec::new();
    for part in parts.iter() {
        constraints.push(match part {
            Extent::Fill(weight) => Constraint::Fill(*weight),
            Extent::Length(cells) => Constraint::Length(*cells),
        });
    }
    let direction = if vertical { Direction::Vertical } else { Direction::Horizontal };
    let rect = Rect { x: area.x, y: area.y, width: area.width, height: area.height };
    let pieces = Layout::default().direction(direction).constraints(constraints).split(rect);
    let mut r = Vec::new();
    for piece in pieces.iter() {
        r.push(Area { x: piece.x, y: piece.y, width: piece.width, height: piece.height });
    }
    r
}

pub open spec fn area_of(t: (u16, u16, u16, u16)) -> Area {
    Area { x: t.0, y: t.1, width: t.2, height: t.3 }
}

/// A piece of `length` cells with equal shares of the rest on either side.
pub open spec fn centring(length: u16) -> Seq<Extent> {
    seq![Extent::Fill(1), Extent::Length(length), Extent::Fill(1)]
}

/// The popup area: the middle of `area` split vertically by
/// `centring(height)`, and the middle of that split horizontally by
/// `centring` of the popup width.
pub open spec fn centered_area(percent_x: u16, height: u16, area: Area) -> Area {
    let band = area_of(layout_split(area.x, area.y, area.width, area.height, true, centring(height))[1]);
    area_of(
        layout_split(band.x, band.y, band.width, band.height, false, centring(popup_width_of(area.width, percent_x)))[1],
    )
}

fn middle_of(area: Area, vertical: bool, length: u16) -> (r: Area)
    ensures
        r == area_of(layout_split(area.x, area.y, area.width, area.height, vertical, centring(length))[1]),
{
    let parts = vec![Extent::Fill(1), Extent::Length(length), Extent::Fill(1)];
    assert(parts@ =~= centring(length));
    let pieces = split_area(area, vertical, &parts);
    let r = pieces[1];
    assert(areas(pieces@)[1] == corners(r));
    r
}

pub fn centered_rect(percent_x: u16, height: u16, area: Area) -> (r: Area)
    ensures
        r == centered_area(percent_x, height, area),
{
    let width = popup_width(area.width, percent_x);
    let band = middle_of(area, true, height);
    middle_of(band, false, width)
}

/// The entries of the lock/unlock popup; the first locks.
pub open spec fn access_choices() -> Seq<Seq<char>> {
    seq!["Lock"@, "Unlock"@]
}

/// The entries of the yes/no dialog; the first confirms.
pub open spec fn confirm_choices() -> Seq<Seq<char>> {
    seq!["Yes"@, "No"@]
}

pub open spec fn texts_of(v: Seq<String>) -> Seq<Seq<char>> {
    v.map_values(|s: String| s@)
}

pub fn access_labels() -> (r: Vec<String>)
    ensures
        texts_of(r@) == access_choices(),
{
    let mut r: Vec<String> = Vec::new();
    r.push(string_of(&chars_of("Lock")));
    r.push(string_of(&chars_of("Unlock")));
    assert(texts_of(r@) =~= access_choices());
    r
}

pub fn confirm_labels() -> (r: Vec<String>)
    ensures
        texts_of(r@) == confirm_choices(),
{
    let mut r: Vec<String> = Vec::new();
    r.push(string_of(&chars_of("Yes")));
    r.push(string_of(&chars_of("No")));
    assert(texts_of(r@) =~= confirm_choices());
    r
}

// ---------------------------------------------------------------------------
// Composed lines: each a sequence of styled segments
// ---------------------------------------------------------------------------

/// A run of text in one style; no tone means the terminal's default colour.
pub struct Segment {
    pub text: String,
    pub tone: Option<Tone>,
    pub bold: bool,
}

/// The contents of a `Segment`.
pub struct Look {
    pub text: Seq<char>,
    pub tone: Option<Tone>,
    pub bold: bool,
}

impl View for Segment {
    type V = Look;

    open spec fn view(&self) -> Look {
        Look { text: self.text@, tone: self.tone, bold: self.bold }
    }
}

pub open spec fn look(text: Seq<char>, tone: Option<Tone>, bold: bool) -> Look {
    Look { text, tone, bold }
}

pub open spec fn looks(v: Seq<Segment>) -> Seq<Look> {
    v.map_values(|s: Segment| s@)
}

fn segment(text: &Vec<char>, tone: Option<Tone>, bold: bool) -> (r: Segment)
    ensures
        r@ == look(text@, tone, bold),
{
    Segment { text: string_of(text), tone, bold }
}

fn segment_of(text: &str, tone: Option<Tone>, bold: bool) -> (r: Segment)
    ensures
        r@ == look(text@, tone, bold),
{
    segment(&chars_of(text), tone, bold)
}

/// Appends the characters of `w` to `v`.
fn extend(v: &mut Vec<char>, w: &Vec<char>)
    ensures
        final(v)@ == old(v)@ + w@,
{
    let mut i: usize = 0;
    while i < w.len()
        invariant
            i <= w.len(),
            v@ == old(v)@ + w@.take(i as int),
        decreases w.len() - i,
    {
        v.push(w[i]);
        assert(w@.take(i + 1) == w@.take(i as int).push(w@[i as int]));
        i = i + 1;
    }
    assert(w@.take(w.len() as int) == w@);
}

/// The decimal digit `d`.
pub open spec fn digit(d: nat) -> char {
    if d == 0 { '0' } else if d == 1 { '1' } else if d == 2 { '2' } else if d == 3 { '3' }
    else if d == 4 { '4' } else if d == 5 { '5' } else if d == 6 { '6' } else if d == 7 { '7' }
    else if d == 8 { '8' } else { '9' }
}

/// The decimal notation of `n`, without leading zeros.
pub open spec fn decimal(n: nat) -> Seq<char>
    decreases n,
{
    if n < 10 {
        seq![digit(n)]
    } else {
        decimal(n / 10).push(digit(n % 10))
    }
}

fn digit_char(d: usize) -> (c: char)
    requires
        d < 10,
    ensures
        c == digit(d as nat),
{
    if d == 0 { '0' } else if d == 1 { '1' } else if d == 2 { '2' } else if d == 3 { '3' }
    else if d == 4 { '4' } else if d == 5 { '5' } else if d == 6 { '6' } else if d == 7 { '7' }
    else if d == 8 { '8' } else { '9' }
}

/// `decimal` as code.
pub fn decimal_chars(n: usize) -> (r: Vec<char>)
    ensures
        r@ == decimal(n as nat),
    decreases n,
{
    if n < 10 {
        let mut v = Vec::new();
        v.push(digit_char(n));
        assert(v@ == seq![digit(n as nat)]);
        v
    } else {
        let mut v = decimal_chars(n / 10);
        v.push(digit_char(n % 10));
        v
    }
}

pub open spec fn selected_style(selected: bool) -> (Option<Tone>, bool) {
    if selected {
        (Some(Tone::Cyan), true)
    } else {
        (Some(Tone::White), false)
    }
}

/// The Hamachi box: its title, border and two lines.
pub struct HamachiBox {
    pub title: Segment,
    pub border: Tone,
    pub status_line: Vec<Segment>,
    pub selection_line: Vec<Segment>,
}

pub open spec fn box_title() -> Look {
    look(" Hamachi-TUI "@, Some(Tone::Cyan), true)
}

/// The status line: online state, address and client id.
pub open spec fn status_line_of(a: App) -> Seq<Look> {
    let online = logged_in(a.client_status@);
    seq![
        look(" "@, None, false),
        look(
            if online { "● Online"@ } else { "● Offline"@ },
            Some(if online { Tone::Green } else { Tone::Red }),
            true,
        ),
        look(" │ "@, Some(Tone::Gray), false),
        look(or_dash(a.client_status.address@), Some(Tone::White), false),
        look(" │ "@, Some(Tone::Gray), false),
        look(or_dash(a.client_status.client_id@), Some(Tone::White), false),
    ]
}

/// The selectable line: the nickname (marked when selected), then
/// `[Logout]` or `[Login]` and `[Quit]`, each highlighted when selected.
pub open spec fn selection_line_of(a: App) -> Seq<Look> {
    let nick = selected_style(bar_selected(a, HamachiSelection::Nickname));
    let login = selected_style(bar_selected(a, HamachiSelection::Logout));
    let quit = selected_style(bar_selected(a, HamachiSelection::Quit));
    let label = if logged_in(a.client_status@) { "Logout"@ } else { "Login"@ };
    seq![
        look(if bar_selected(a, HamachiSelection::Nickname) { "▸ "@ } else { "  "@ }, nick.0, nick.1),
        look(or_dash(a.client_status.nickname@), nick.0, nick.1),
        look("  "@, None, false),
        look("["@ + label + "]"@, login.0, login.1),
        look(" "@, None, false),
        look("[Quit]"@, quit.0, quit.1),
    ]
}

fn styled(text: String, selected: bool) -> (r: Segment)
    ensures
        (r.tone, r.bold) == selected_style(selected),
        r.text == text,
{
    if selected {
        Segment { text, tone: Some(Tone::Cyan), bold: true }
    } else {
        Segment { text, tone: Some(Tone::White), bold: false }
    }
}

pub fn hamachi_box(a: &App) -> (r: HamachiBox)
    ensures
        r.title@ == box_title(),
        r.border == tone_of_focus(a.focused_section == FocusedSection::Hamachi),
        looks(r.status_line@) == status_line_of(*a),
        looks(r.selection_line@) == selection_line_of(*a),
{
    let bar = hamachi_bar(a);
    let mut status_line: Vec<Segment> = Vec::new();
    status_line.push(segment_of(" ", None, false));
    if bar.online {
        status_line.push(segment_of("● Online", Some(Tone::Green), true));
    } else {
        status_line.push(segment_of("● Offline", Some(Tone::Red), true));
    }
    status_line.push(segment_of(" │ ", Some(Tone::Gray), false));
    status_line.push(Segment { text: bar.address, tone: Some(Tone::White), bold: false });
    status_line.push(segment_of(" │ ", Some(Tone::Gray), false));
    status_line.push(Segment { text: bar.client_id, tone: Some(Tone::White), bold: false });
    assert(looks(status_line@) =~= status_line_of(*a));

    let mut selection_line: Vec<Segment> = Vec::new();
    let marker = if bar.nickname_selected { string_of(&chars_of("▸ ")) } else { string_of(&chars_of("  ")) };
    selection_line.push(styled(marker, bar.nickname_selected));
    selection_line.push(styled(bar.nickname, bar.nickname_selected));
    selection_line.push(segment_of("  ", None, false));
    let mut label = chars_of("[");
    extend(&mut label, &chars_of(bar.login_label.as_str()));
    extend(&mut label, &chars_of("]"));
    selection_line.push(styled(string_of(&label), bar.login_selected));
    selection_line.push(segment_of(" ", None, false));
    selection_line.push(styled(string_of(&chars_of("[Quit]")), bar.quit_selected));
    assert(looks(selection_line@) =~= selection_line_of(*a));

    HamachiBox {
        title: segment_of(" Hamachi-TUI ", Some(Tone::Cyan), true),
        border: bar.border,
        status_line,
        selection_line,
    }
}

/// The segments of one row of the network list: a network shows its dot,
/// name, `[id]` where the id differs from the name, and online/total peers;
/// a peer its dot, nickname and connection; the last rows their entries.
pub open spec fn row_line(a: App, r: NetworkRow) -> Seq<Look> {
    let logged = logged_in(a.client_status@);
    match r {
        NetworkRow::Network(i) => {
            let n = a.networks@[i as int];
            let head = seq![
                look(
                    if n.is_online { "● "@ } else { "○ "@ },
                    Some(if n.is_online { dim_unless(logged, Tone::Green) } else { Tone::Gray }),
                    false,
                ),
                look(n.name@, Some(dim_unless(logged, Tone::White)), true),
            ];
            let id = if n.id@ != n.name@ {
                seq![look(" ["@ + n.id@ + "]"@, Some(Tone::Gray), false)]
            } else {
                seq![]
            };
            head + id + seq![
                look(
                    " "@ + decimal(online_count(n.peers@)) + "/"@ + decimal(n.peers@.len()),
                    Some(Tone::Gray),
                    false,
                ),
            ]
        },
        NetworkRow::Peer(i, j) => {
            let p = a.networks@[i as int].peers@[j as int];
            let (dot, conn) = peer_tones(logged, p);
            seq![
                look("  ● "@, Some(dot), false),
                look(p.nickname@, Some(dim_unless(logged, Tone::White)), false),
                look(" "@ + p.connection_type@, Some(conn), false),
            ]
        },
        NetworkRow::JoinNetwork => seq![look("+ Join Network"@, Some(dim_unless(logged, Tone::Cyan)), false)],
        NetworkRow::CreateNetwork => seq![look("+ Create Network"@, Some(dim_unless(logged, Tone::Cyan)), false)],
    }
}

pub fn row_segments(a: &App, r: NetworkRow) -> (v: Vec<Segment>)
    requires
        row_valid(a.networks@, r),
    ensures
        looks(v@) == row_line(*a, r),
{
    let shown = row_view(a, r);
    let mut v: Vec<Segment> = Vec::new();
    match shown {
        RowView::Network { filled, indicator, name, name_tone, id, online_peers, peers } => {
            v.push(segment_of(if filled { "● " } else { "○ " }, Some(indicator), false));
            v.push(Segment { text: name, tone: Some(name_tone), bold: true });
            match id {
                Some(x) => {
                    let mut w = chars_of(" [");
                    extend(&mut w, &chars_of(x.as_str()));
                    extend(&mut w, &chars_of("]"));
                    v.push(segment(&w, Some(Tone::Gray), false));
                },
                None => {},
            }
            let mut c = chars_of(" ");
            extend(&mut c, &decimal_chars(online_peers));
            extend(&mut c, &chars_of("/"));
            extend(&mut c, &decimal_chars(peers));
            v.push(segment(&c, Some(Tone::Gray), false));
        },
        RowView::Peer { dot, nickname, nickname_tone, connection, connection_tone } => {
            v.push(segment_of("  ● ", Some(dot), false));
            v.push(Segment { text: nickname, tone: Some(nickname_tone), bold: false });
            let mut w = chars_of(" ");
            extend(&mut w, &chars_of(connection.as_str()));
            v.push(segment(&w, Some(connection_tone), false));
        },
        RowView::Entry { label, tone } => {
            v.push(Segment { text: label, tone: Some(tone), bold: false });
        },
    }
    assert(looks(v@) =~= row_line(*a, r));
    v
}

/// The network panel: titled with the number of networks, one line per
/// row (or a "No networks" line when there are none), rows highlighted only
/// while the list has the focus, and the loading line at the bottom while a
/// command runs.
pub struct NetworkPanel {
    pub title: Segment,
    pub border: Tone,
    pub items: Vec<Vec<Segment>>,
    pub highlight: bool,
    pub loading: Option<Segment>,
}

pub open spec fn panel_title(a: App) -> Look {
    look(" Networks ("@ + decimal(a.networks@.len()) + ") "@, Some(Tone::Cyan), true)
}

pub open spec fn panel_items(a: App) -> Seq<Seq<Look>> {
    if a.network_rows@.len() == 0 {
        seq![seq![look(" No networks"@, Some(Tone::Gray), false)]]
    } else {
        Seq::new(a.network_rows@.len(), |k: int| row_line(a, a.network_rows@[k]))
    }
}

pub fn network_panel(a: &App) -> (r: NetworkPanel)
    requires
        rows_valid(*a),
    ensures
        r.title@ == panel_title(*a),
        r.border == tone_of_focus(a.focused_section == FocusedSection::Networks),
        r.items@.len() == panel_items(*a).len(),
        forall|k: int| 0 <= k < r.items@.len() ==> looks(#[trigger] r.items@[k]@) == panel_items(*a)[k],
        r.highlight == (a.focused_section == FocusedSection::Networks),
        a.loading ==> (r.loading matches Some(s) && s@ == look(
            loading_line(a.loading_message@, a.loading_tick),
            Some(Tone::Cyan),
            true,
        )),
        !a.loading ==> r.loading is None,
{
    let mut items: Vec<Vec<Segment>> = Vec::new();
    let mut k: usize = 0;
    while k < a.network_rows.len()
        invariant
            k <= a.network_rows@.len(),
            rows_valid(*a),
            items@.len() == k,
            forall|m: int| 0 <= m < k ==> looks(#[trigger] items@[m]@) == row_line(*a, a.network_rows@[m]),
        decreases a.network_rows@.len() - k,
    {
        assert(row_valid(a.networks@, a.network_rows@[k as int]));
        items.push(row_segments(a, a.network_rows[k]));
        k = k + 1;
    }
    if items.len() == 0 {
        let mut none: Vec<Segment> = Vec::new();
        none.push(segment_of(" No networks", Some(Tone::Gray), false));
        assert(looks(none@) =~= seq![look(" No networks"@, Some(Tone::Gray), false)]);
        items.push(none);
    }
    let mut title = chars_of(" Networks (");
    extend(&mut title, &decimal_chars(a.networks.len()));
    extend(&mut title, &chars_of(") "));
    let focused = a.focused_section == FocusedSection::Networks;
    let loading = if a.loading {
        Some(Segment {
            text: loading_text(a.loading_message.as_str(), a.loading_tick),
            tone: Some(Tone::Cyan),
            bold: true,
        })
    } else {
        None
    };
    NetworkPanel {
        title: segment(&title, Some(Tone::Cyan), true),
        border: if focused { Tone::Cyan } else { Tone::Gray },
        items,
        highlight: focused,
        loading,
    }
}

} // verus!
