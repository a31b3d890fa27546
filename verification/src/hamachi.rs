//! The Hamachi client's data (status, networks, peers) and the parsers that
//! read it out of the text that the `hamachi` command prints.
use vstd::prelude::*;

use crate::text::{
    chars_of, contains, contains_chars, find_pattern, has_char, join, lines, same_chars,
    scan, scan_from, slice_of, split, split_lines, split_whitespace, starts_with_char,
    string_of, strip_leading, strip_leading_chars, tokens, trim, trim_chars, views, CharClass,
    find_from, split_from, lemma_find_from, lemma_scan,
};

verus! {

// ---------------------------------------------------------------------------
// Data
// ---------------------------------------------------------------------------

/// What `hamachi` (without arguments) reports about this client.
#[derive(Debug, Clone)]
pub struct ClientStatus {
    pub version: String,
    pub pid: String,
    pub status: String,
    pub client_id: String,
    pub address: String,
    pub nickname: String,
    pub lmi_account: String,
}

/// The contents of a `ClientStatus`.
#[verifier::ext_equal]
pub struct StatusView {
    pub version: Seq<char>,
    pub pid: Seq<char>,
    pub status: Seq<char>,
    pub client_id: Seq<char>,
    pub address: Seq<char>,
    pub nickname: Seq<char>,
    pub lmi_account: Seq<char>,
}

impl View for ClientStatus {
    type V = StatusView;

    open spec fn view(&self) -> StatusView {
        StatusView {
            version: self.version@,
            pid: self.pid@,
            status: self.status@,
            client_id: self.client_id@,
            address: self.address@,
            nickname: self.nickname@,
            lmi_account: self.lmi_account@,
        }
    }
}

/// The status with every field empty.
pub open spec fn empty_status() -> StatusView {
    StatusView {
        version: seq![],
        pid: seq![],
        status: seq![],
        client_id: seq![],
        address: seq![],
        nickname: seq![],
        lmi_account: seq![],
    }
}

impl Default for ClientStatus {
    fn default() -> (r: Self)
        ensures
            r@ == empty_status(),
    {
        ClientStatus {
            version: String::new(),
            pid: String::new(),
            status: String::new(),
            client_id: String::new(),
            address: String::new(),
            nickname: String::new(),
            lmi_account: String::new(),
        }
    }
}

pub open spec fn logged_in(st: StatusView) -> bool {
    contains(st.status, "logged in"@)
}

impl ClientStatus {
    /// The client is logged in when its status mentions "logged in".
    pub fn is_logged_in(&self) -> (r: bool)
        ensures
            r == logged_in(self@),
    {
        contains_chars(&chars_of(self.status.as_str()), &chars_of("logged in"))
    }
}

/// The connection state of a peer.
#[derive(Debug, Clone, Copy, PartialEq, Eq, Structural)]
pub enum PeerStatus {
    Online,
    Offline,
    Unknown,
}

pub open spec fn peer_status_text(s: PeerStatus) -> Seq<char> {
    match s {
        PeerStatus::Online => "online"@,
        PeerStatus::Offline => "offline"@,
        PeerStatus::Unknown => "unknown"@,
    }
}

impl PeerStatus {
    /// The status in words, as it is displayed.
    pub fn to_string(&self) -> (r: String)
        ensures
            r@ == peer_status_text(*self),
    {
        match self {
            PeerStatus::Online => string_of(&chars_of("online")),
            PeerStatus::Offline => string_of(&chars_of("offline")),
            PeerStatus::Unknown => string_of(&chars_of("unknown")),
        }
    }
}

/// A member of a network, as `hamachi list` shows it.
#[derive(Debug, Clone)]
pub struct Peer {
    pub client_id: String,
    pub nickname: String,
    pub address: String,
    pub status: PeerStatus,
    pub connection_type: String,
}

#[verifier::ext_equal]
pub struct PeerView {
    pub client_id: Seq<char>,
    pub nickname: Seq<char>,
    pub address: Seq<char>,
    pub status: PeerStatus,
    pub connection_type: Seq<char>,
}

impl View for Peer {
    type V = PeerView;

    open spec fn view(&self) -> PeerView {
        PeerView {
            client_id: self.client_id@,
            nickname: self.nickname@,
            address: self.address@,
            status: self.status,
            connection_type: self.connection_type@,
        }
    }
}

/// A network this client belongs to, with its peers.
#[derive(Debug, Clone)]
pub struct Network {
    pub id: String,
    pub name: String,
    pub capacity: String,
    pub owner: String,
    pub peers: Vec<Peer>,
    pub is_online: bool,
}

#[verifier::ext_equal]
pub struct NetworkView {
    pub id: Seq<char>,
    pub name: Seq<char>,
    pub capacity: Seq<char>,
    pub owner: Seq<char>,
    pub peers: Seq<PeerView>,
    pub is_online: bool,
}

pub open spec fn peers_view(ps: Seq<Peer>) -> Seq<PeerView> {
    ps.map_values(|p: Peer| p@)
}

pub open spec fn networks_view(ns: Seq<Network>) -> Seq<NetworkView> {
    ns.map_values(|n: Network| n@)
}

impl View for Network {
    type V = NetworkView;

    open spec fn view(&self) -> NetworkView {
        NetworkView {
            id: self.id@,
            name: self.name@,
            capacity: self.capacity@,
            owner: self.owner@,
            peers: peers_view(self.peers@),
            is_online: self.is_online,
        }
    }
}

/// The outcome of one run of the `hamachi` command.
#[derive(Debug, Clone)]
pub struct HamachiResult {
    pub success: bool,
    pub output: String,
}

// ---------------------------------------------------------------------------
// The status report
// ---------------------------------------------------------------------------

/// The first whitespace-separated word of `v`, or nothing.
pub open spec fn first_token(v: Seq<char>) -> Seq<char> {
    if tokens(v).len() > 0 {
        tokens(v)[0]
    } else {
        seq![]
    }
}

/// `st` with the field that `key` names set from `value`; for the address
/// only its first word counts (an IPv6 address may follow the IPv4 one).
/// Unknown keys leave `st` as it is.
pub open spec fn with_field(st: StatusView, key: Seq<char>, value: Seq<char>) -> StatusView {
    if key == "version"@ {
        StatusView { version: value, ..st }
    } else if key == "pid"@ {
        StatusView { pid: value, ..st }
    } else if key == "status"@ {
        StatusView { status: value, ..st }
    } else if key == "client id"@ {
        StatusView { client_id: value, ..st }
    } else if key == "address"@ {
        StatusView { address: first_token(value), ..st }
    } else if key == "nickname"@ {
        StatusView { nickname: value, ..st }
    } else if key == "lmi account"@ {
        StatusView { lmi_account: value, ..st }
    } else {
        st
    }
}

/// What `str::to_lowercase` returns for the characters `s`.
pub uninterp spec fn lowercase(s: Seq<char>) -> Seq<char>;

/// Calls `str::to_lowercase`, which maps each character to its Unicode
/// lowercase form. Claimed: the result is `lowercase` of the argument, a
/// function of the argument alone; the mapping itself is not stated.
#[verifier::external_body]
fn to_lowercase(s: &str) -> (r: String)
    ensures
        r@ == lowercase(s@),
{
    s.to_lowercase()
}

/// One line of the status report applied to `st`: a `key: value` line
/// (split at its first colon) sets the field its lowercased, trimmed key
/// names; any other line changes nothing.
pub open spec fn status_line(st: StatusView, line: Seq<char>) -> StatusView {
    let t = trim(line);
    let c = scan(t, 0, CharClass::Is(':'));
    if c < t.len() {
        with_field(st, lowercase(trim(t.take(c))), trim(t.skip(c + 1)))
    } else {
        st
    }
}

pub open spec fn status_of_lines(ls: Seq<Seq<char>>) -> StatusView
    decreases ls.len(),
{
    if ls.len() == 0 {
        empty_status()
    } else {
        status_line(status_of_lines(ls.drop_last()), ls.last())
    }
}

/// The status that the report `out` describes, line by line.
pub open spec fn parsed_status(out: Seq<char>) -> StatusView {
    status_of_lines(lines(out))
}

/// Sets the field of `status` that the lowercase `key` names to `value`
/// (to the first word of `value`, for the address).
pub fn apply_status_field(status: &mut ClientStatus, key: &str, value: &str)
    ensures
        final(status)@ == with_field(old(status)@, key@, value@),
{
    let k = chars_of(key);
    if same_chars(&k, &chars_of("version")) {
        status.version = value.to_owned();
    } else if same_chars(&k, &chars_of("pid")) {
        status.pid = value.to_owned();
    } else if same_chars(&k, &chars_of("status")) {
        status.status = value.to_owned();
    } else if same_chars(&k, &chars_of("client id")) {
        status.client_id = value.to_owned();
    } else if same_chars(&k, &chars_of("address")) {
        let words = split_whitespace(&chars_of(value));
        if words.len() > 0 {
            status.address = string_of(&words[0]);
        } else {
            status.address = String::new();
        }
    } else if same_chars(&k, &chars_of("nickname")) {
        status.nickname = value.to_owned();
    } else if same_chars(&k, &chars_of("lmi account")) {
        status.lmi_account = value.to_owned();
    }
}

fn apply_status_line(status: &mut ClientStatus, line: &Vec<char>)
    ensures
        final(status)@ == status_line(old(status)@, line@),
{
    let t = trim_chars(line);
    let c = scan_from(&t, 0, CharClass::Is(':'));
    proof {
        lemma_scan(t@, 0, CharClass::Is(':'));
    }
    if c < t.len() {
        let key = trim_chars(&slice_of(&t, 0, c));
        let value = trim_chars(&slice_of(&t, c + 1, t.len()));
        let key_text = string_of(&key);
        let lower = to_lowercase(key_text.as_str());
        let value_text = string_of(&value);
        apply_status_field(status, lower.as_str(), value_text.as_str());
    }
}

/// Reads the status report that `hamachi` prints.
pub fn parse_status(output: &str) -> (r: ClientStatus)
    ensures
        r@ == parsed_status(output@),
{
    let ls = split_lines(&chars_of(output));
    let ghost lv = views(ls@);
    let mut status = ClientStatus::default();
    let mut i: usize = 0;
    while i < ls.len()
        invariant
            i <= ls.len(),
            lv == views(ls@),
            status@ == status_of_lines(lv.take(i as int)),
        decreases ls.len() - i,
    {
        apply_status_line(&mut status, &ls[i]);
        assert(lv.take(i + 1).drop_last() == lv.take(i as int));
        i = i + 1;
    }
    assert(lv.take(ls.len() as int) == lv);
    status
}

// ---------------------------------------------------------------------------
// Peer lines
// ---------------------------------------------------------------------------

/// The connection state and type that the words after the address give:
/// "direct" or "relay" mean online, no words (or no address) or "offline"
/// mean offline, anything else is unknown and kept as it reads.
pub open spec fn connection_of(address: Seq<char>, remaining: Seq<char>) -> (PeerStatus, Seq<char>) {
    if contains(remaining, "direct"@) {
        (PeerStatus::Online, "direct"@)
    } else if contains(remaining, "relay"@) {
        (PeerStatus::Online, "relay"@)
    } else if address.len() == 0 || remaining.len() == 0 || contains(remaining, "offline"@) {
        (PeerStatus::Offline, "offline"@)
    } else {
        (PeerStatus::Unknown, remaining)
    }
}

/// The peer that a peer line describes: after the `*` marking this client
/// and surrounding whitespace, the words are the client id, the nickname,
/// the address and the connection; no words, no peer.
pub open spec fn peer_of_line(line: Seq<char>) -> Option<PeerView> {
    let ps = tokens(trim(strip_leading(line, '*')));
    if ps.len() == 0 {
        None
    } else {
        let nickname = if ps.len() > 1 { ps[1] } else { seq![] };
        let address = if ps.len() > 2 { ps[2] } else { seq![] };
        let remaining = if ps.len() > 3 { join(ps.skip(3), " "@) } else { seq![] };
        let (status, connection_type) = connection_of(address, remaining);
        Some(PeerView { client_id: ps[0], nickname, address, status, connection_type })
    }
}

/// The words `ts[from..]` with single spaces between them.
fn join_words(ts: &Vec<Vec<char>>, from: usize) -> (r: Vec<char>)
    requires
        from <= ts.len(),
    ensures
        r@ == join(views(ts@).skip(from as int), " "@),
{
    proof {
        reveal_strlit(" ");
    }
    let ghost tv = views(ts@);
    let mut r: Vec<char> = Vec::new();
    let mut k = from;
    assert(tv.subrange(from as int, from as int) =~= Seq::<Seq<char>>::empty());
    while k < ts.len()
        invariant
            from <= k <= ts.len(),
            tv == views(ts@),
            " "@ == seq![' '],
            r@ == join(tv.subrange(from as int, k as int), " "@),
        decreases ts.len() - k,
    {
        let ghost before = r@;
        if k > from {
            r.push(' ');
        }
        let w = &ts[k];
        let mut m: usize = 0;
        let ghost mid = r@;
        while m < w.len()
            invariant
                m <= w.len(),
                r@ == mid + w@.take(m as int),
            decreases w.len() - m,
        {
            r.push(w[m]);
            assert(w@.take(m + 1) == w@.take(m as int).push(w@[m as int]));
            m = m + 1;
        }
        assert(w@.take(w.len() as int) == w@);
        let ghost part = tv.subrange(from as int, k + 1);
        assert(part.drop_last() == tv.subrange(from as int, k as int));
        assert(part.last() == w@);
        if k > from {
            assert(mid == before + " "@);
            assert(r@ == before + " "@ + w@);
        } else {
            assert(part.len() == 1);
            assert(before == Seq::<char>::empty());
            assert(r@ == w@);
        }
        k = k + 1;
    }
    assert(tv.subrange(from as int, ts.len() as int) == tv.skip(from as int));
    r
}

fn peer_from_chars(line: &Vec<char>) -> (r: Option<Peer>)
    ensures
        match r {
            Some(p) => peer_of_line(line@) == Some(p@),
            None => peer_of_line(line@) is None,
        },
{
    let stripped = strip_leading_chars(line, '*');
    let l = trim_chars(&stripped);
    let parts = split_whitespace(&l);
    let ghost ps = views(parts@);
    if parts.len() == 0 {
        return None;
    }
    let client_id = string_of(&parts[0]);
    let nickname = if parts.len() > 1 { string_of(&parts[1]) } else { String::new() };
    let address: Vec<char> = if parts.len() > 2 { slice_of(&parts[2], 0, parts[2].len()) } else { Vec::new() };
    let remaining: Vec<char> = if parts.len() > 3 { join_words(&parts, 3) } else { Vec::new() };
    proof {
        if parts.len() > 2 {
            assert(parts@[2]@.subrange(0, parts@[2]@.len() as int) == parts@[2]@);
        }
    }
    let (status, kind) = if contains_chars(&remaining, &chars_of("direct")) {
        (PeerStatus::Online, string_of(&chars_of("direct")))
    } else if contains_chars(&remaining, &chars_of("relay")) {
        (PeerStatus::Online, string_of(&chars_of("relay")))
    } else if address.len() == 0 || remaining.len() == 0 || contains_chars(&remaining, &chars_of("offline")) {
        (PeerStatus::Offline, string_of(&chars_of("offline")))
    } else {
        (PeerStatus::Unknown, string_of(&remaining))
    };
    let p = Peer {
        client_id,
        nickname,
        address: string_of(&address),
        status,
        connection_type: kind,
    };
    assert(p@ == peer_of_line(line@).unwrap());
    Some(p)
}

/// Reads one peer line of `hamachi list`; `None` when it holds no words.
pub fn parse_peer_line(line: &str) -> (r: Option<Peer>)
    ensures
        match r {
            Some(p) => peer_of_line(line@) == Some(p@),
            None => peer_of_line(line@) is None,
        },
{
    peer_from_chars(&chars_of(line))
}

// ---------------------------------------------------------------------------
// Network lines
// ---------------------------------------------------------------------------

/// The part of `s` before the first `c` (all of `s` without one).
pub open spec fn before_char(s: Seq<char>, c: char) -> Seq<char> {
    s.take(scan(s, 0, CharClass::Is(c)))
}

/// The first `]` of the line does not come before its first `[` (the line
/// could not be cut between them otherwise).
pub open spec fn brackets_ordered(line: Seq<char>) -> bool {
    let a = scan(line, 0, CharClass::Is('['));
    let b = scan(line, 0, CharClass::Is(']'));
    a < line.len() && b < line.len() ==> a < b
}

/// The network that a network line describes, such as
/// `* [485-431-234]JonoLAN  capacity: 3/5, subscription type: Free, owner: me@x.com`:
/// the id stands between the first `[` and the first `]`; the name follows
/// up to "capacity:" and is the id where it is blank; the capacity runs
/// from "capacity:" to the next comma; the owner follows "owner:". A line
/// without `[` or `]` describes none.
pub open spec fn network_of_line(line: Seq<char>, is_online: bool) -> Option<NetworkView> {
    let a = scan(line, 0, CharClass::Is('['));
    let b = scan(line, 0, CharClass::Is(']'));
    if a >= line.len() || b >= line.len() {
        None
    } else {
        let id = line.subrange(a + 1, b);
        let rest = line.skip(b + 1);
        let by_capacity = split(rest, "capacity:"@);
        let named = trim(by_capacity[0]);
        let name = if named.len() == 0 { id } else { named };
        let capacity = if by_capacity.len() > 1 {
            trim(before_char(by_capacity[1], ','))
        } else {
            seq![]
        };
        let by_owner = split(rest, "owner:"@);
        let owner = if by_owner.len() > 1 { trim(by_owner[1]) } else { seq![] };
        Some(NetworkView { id, name, capacity, owner, peers: seq![], is_online })
    }
}

/// The first two pieces of `s` split at `p`.
fn first_pieces(s: &Vec<char>, p: &Vec<char>) -> (r: (Vec<char>, Option<Vec<char>>))
    requires
        p@.len() > 0,
    ensures
        split(s@, p@).len() >= 1,
        r.0@ == split(s@, p@)[0],
        r.1 is Some <==> split(s@, p@).len() > 1,
        r.1 matches Some(x) ==> x@ == split(s@, p@)[1],
{
    proof {
        lemma_find_from(s@, p@, 0);
    }
    match find_pattern(s, p, 0) {
        None => {
            (slice_of(s, 0, s.len()), None)
        },
        Some(f) => {
            assert(f as int == find_from(s@, p@, 0));
            assert(f + p@.len() <= s@.len());
            let n = s.len();
            assert(f + p.len() <= n);
            let st = f + p.len();
            proof {
                lemma_find_from(s@, p@, st as int);
            }
            let e = match find_pattern(s, p, st) {
                Some(g) => g,
                None => s.len(),
            };
            let ghost rest = split_from(s@, p@, st as int);
            assert(rest.len() >= 1);
            assert(rest[0] == s@.subrange(st as int, e as int));
            assert(split(s@, p@) == seq![s@.subrange(0, f as int)] + rest);
            (slice_of(s, 0, f), Some(slice_of(s, st, e)))
        },
    }
}

fn network_from_chars(line: &Vec<char>, is_online: bool) -> (r: Option<Network>)
    requires
        brackets_ordered(line@),
    ensures
        match r {
            Some(n) => network_of_line(line@, is_online) == Some(n@),
            None => network_of_line(line@, is_online) is None,
        },
{
    proof {
        reveal_strlit("capacity:");
        reveal_strlit("owner:");
    }
    let a = scan_from(line, 0, CharClass::Is('['));
    let b = scan_from(line, 0, CharClass::Is(']'));
    if a >= line.len() || b >= line.len() {
        return None;
    }
    let id = slice_of(line, a + 1, b);
    let rest = slice_of(line, b + 1, line.len());
    let (head, capacity_piece) = first_pieces(&rest, &chars_of("capacity:"));
    let named = trim_chars(&head);
    let name = if named.len() == 0 { string_of(&id) } else { string_of(&named) };
    let capacity = match capacity_piece {
        Some(piece) => {
            let comma = scan_from(&piece, 0, CharClass::Is(','));
            proof {
                lemma_scan(piece@, 0, CharClass::Is(','));
            }
            string_of(&trim_chars(&slice_of(&piece, 0, comma)))
        },
        None => String::new(),
    };
    let (_, owner_piece) = first_pieces(&rest, &chars_of("owner:"));
    let owner = match owner_piece {
        Some(piece) => string_of(&trim_chars(&piece)),
        None => String::new(),
    };
    let n = Network { id: string_of(&id), name, capacity, owner, peers: Vec::new(), is_online };
    assert(peers_view(n.peers@) =~= Seq::<PeerView>::empty());
    assert(n@ == network_of_line(line@, is_online).unwrap());
    Some(n)
}

/// Reads one network line of `hamachi list`; `None` when it lacks `[` or `]`.
pub fn parse_network_line(line: &str, is_online: bool) -> (r: Option<Network>)
    requires
        brackets_ordered(line@),
    ensures
        match r {
            Some(n) => network_of_line(line@, is_online) == Some(n@),
            None => network_of_line(line@, is_online) is None,
        },
{
    network_from_chars(&chars_of(line), is_online)
}

// ---------------------------------------------------------------------------
// The network list
// ---------------------------------------------------------------------------

/// A trimmed line that starts with `*` and holds a `[` heads an online network.
pub open spec fn online_header(t: Seq<char>) -> bool {
    starts_with_char(t, '*') && has_char(t, '[')
}

/// A trimmed line that starts with `[` heads an offline network.
pub open spec fn offline_header(t: Seq<char>) -> bool {
    starts_with_char(t, '[')
}

pub open spec fn with_peer(n: NetworkView, p: PeerView) -> NetworkView {
    NetworkView { peers: n.peers.push(p), ..n }
}

/// One line of `hamachi list` applied to the networks read so far: a
/// header line adds the network it describes; any other non-blank line is
/// a peer of the last network (and is dropped before the first network).
pub open spec fn list_line(nets: Seq<NetworkView>, line: Seq<char>) -> Seq<NetworkView> {
    let t = trim(line);
    if online_header(t) {
        match network_of_line(t, true) {
            Some(n) => nets.push(n),
            None => nets,
        }
    } else if offline_header(t) {
        match network_of_line(t, false) {
            Some(n) => nets.push(n),
            None => nets,
        }
    } else if t.len() > 0 && nets.len() > 0 {
        match peer_of_line(t) {
            Some(p) => nets.update(nets.len() - 1, with_peer(nets.last(), p)),
            None => nets,
        }
    } else {
        nets
    }
}

pub open spec fn networks_of_lines(ls: Seq<Seq<char>>) -> Seq<NetworkView>
    decreases ls.len(),
{
    if ls.len() == 0 {
        seq![]
    } else {
        list_line(networks_of_lines(ls.drop_last()), ls.last())
    }
}

/// The networks, with their peers, that the listing `out` describes.
pub open spec fn parsed_networks(out: Seq<char>) -> Seq<NetworkView> {
    networks_of_lines(lines(out))
}

/// Every header line of the listing can be cut at its brackets.
pub open spec fn listing_well_formed(out: Seq<char>) -> bool {
    forall|i: int|
        0 <= i < lines(out).len() ==> {
            let t = #[trigger] trim(lines(out)[i]);
            (online_header(t) || offline_header(t)) ==> brackets_ordered(t)
        }
}

fn header_ok(t: &Vec<char>) -> (r: bool)
    ensures
        r == ((online_header(t@) || offline_header(t@)) ==> brackets_ordered(t@)),
{
    let a = scan_from(t, 0, CharClass::Is('['));
    let b = scan_from(t, 0, CharClass::Is(']'));
    let starts = t.len() > 0 && (t[0] == '*' || t[0] == '[');
    let header = starts && (t[0] == '[' || a < t.len());
    !header || !(a < t.len() && b < t.len()) || a < b
}

/// Whether `parse_network_list` can read `output`: every header line has
/// its first `[` before its first `]`.
pub fn is_well_formed_listing(output: &str) -> (r: bool)
    ensures
        r == listing_well_formed(output@),
{
    let ls = split_lines(&chars_of(output));
    let ghost lv = views(ls@);
    let mut i: usize = 0;
    while i < ls.len()
        invariant
            i <= ls.len(),
            lv == views(ls@),
            lv == lines(output@),
            forall|j: int|
                0 <= j < i ==> {
                    let t = #[trigger] trim(lv[j]);
                    (online_header(t) || offline_header(t)) ==> brackets_ordered(t)
                },
        decreases ls.len() - i,
    {
        let t = trim_chars(&ls[i]);
        assert(t@ == trim(lv[i as int]));
        if !header_ok(&t) {
            assert(!((online_header(trim(lv[i as int])) || offline_header(trim(lv[i as int])))
                ==> brackets_ordered(trim(lv[i as int]))));
            return false;
        }
        i = i + 1;
    }
    true
}

/// Reads the listing that `hamachi list` prints into networks and peers.
pub fn parse_network_list(output: &str) -> (r: Vec<Network>)
    requires
        listing_well_formed(output@),
    ensures
        networks_view(r@) == parsed_networks(output@),
{
    let ls = split_lines(&chars_of(output));
    let ghost lv = views(ls@);
    let mut nets: Vec<Network> = Vec::new();
    let mut i: usize = 0;
    while i < ls.len()
        invariant
            i <= ls.len(),
            lv == views(ls@),
            lv == lines(output@),
            listing_well_formed(output@),
            networks_view(nets@) == networks_of_lines(lv.take(i as int)),
        decreases ls.len() - i,
    {
        let t = trim_chars(&ls[i]);
        assert(t@ == trim(lv[i as int]));
        let ghost before = networks_view(nets@);
        let starts_star = t.len() > 0 && t[0] == '*';
        let starts_open = t.len() > 0 && t[0] == '[';
        let has_open = scan_from(&t, 0, CharClass::Is('[')) < t.len();
        if starts_star && has_open {
            if let Some(n) = network_from_chars(&t, true) {
                nets.push(n);
                assert(networks_view(nets@) =~= before.push(n@));
            }
        } else if starts_open {
            if let Some(n) = network_from_chars(&t, false) {
                nets.push(n);
                assert(networks_view(nets@) =~= before.push(n@));
            }
        } else if t.len() > 0 && nets.len() > 0 {
            if let Some(p) = peer_from_chars(&t) {
                let last = nets.len() - 1;
                match nets.pop() {
                    Some(mut n) => {
                        let ghost old_n = n@;
                        n.peers.push(p);
                        assert(peers_view(n.peers@) =~= old_n.peers.push(p@));
                        nets.push(n);
                        assert(networks_view(nets@) =~= before.update(last as int, with_peer(before.last(), p@)));
                    },
                    None => {},
                }
            }
        }
        assert(lv.take(i + 1).drop_last() == lv.take(i as int));
        i = i + 1;
    }
    assert(lv.take(ls.len() as int) == lv);
    nets
}

/// The networks that a run of `hamachi list` reports: none when it failed.
pub fn networks_from(result: &HamachiResult) -> (r: Vec<Network>)
    requires
        result.success ==> listing_well_formed(result.output@),
    ensures
        !result.success ==> r@.len() == 0,
        result.success ==> networks_view(r@) == parsed_networks(result.output@),
{
    if !result.success {
        return Vec::new();
    }
    parse_network_list(result.output.as_str())
}

// ---------------------------------------------------------------------------
// Running the `hamachi` command
// ---------------------------------------------------------------------------

/// What the library asks of the `hamachi` command.
#[derive(Debug, Clone)]
pub enum Command {
    Status,
    List,
    Login,
    Logout,
    CreateNetwork { name: String, password: String },
    JoinNetwork { name: String, password: String },
    LeaveNetwork { network: String },
    DeleteNetwork { network: String },
    GoOnline { network: String },
    GoOffline { network: String },
    SetNickname { nickname: String },
    Evict { network: String, client_id: String },
    SetPassword { network: String, password: String },
    SetAccess { network: String, lock: bool },
}

/// How a command is carried out.
#[derive(Debug, Clone)]
pub enum Invocation {
    /// Run `hamachi` with these arguments.
    Run(Vec<String>),
    /// Run `hamachi` with `args` if its daemon is running, else the result
    /// is `otherwise`.
    RunIfDaemonUp { args: Vec<String>, otherwise: HamachiResult },
    /// Do not run anything; this is the result.
    Refuse(HamachiResult),
}

pub open spec fn texts(v: Seq<String>) -> Seq<Seq<char>> {
    v.map_values(|s: String| s@)
}

/// The arguments that `hamachi` gets for a command.
pub open spec fn command_args(cmd: Command) -> Seq<Seq<char>> {
    match cmd {
        Command::Status => seq![],
        Command::List => seq!["list"@],
        Command::Login => seq!["login"@],
        Command::Logout => seq!["logout"@],
        Command::CreateNetwork { name, password } => seq!["create"@, name@, password@],
        Command::JoinNetwork { name, password } => if password@.len() == 0 {
            seq!["join"@, name@]
        } else {
            seq!["join"@, name@, password@]
        },
        Command::LeaveNetwork { network } => seq!["leave"@, network@],
        Command::DeleteNetwork { network } => seq!["delete"@, network@],
        Command::GoOnline { network } => seq!["go-online"@, network@],
        Command::GoOffline { network } => seq!["go-offline"@, network@],
        Command::SetNickname { nickname } => seq!["set-nick"@, nickname@],
        Command::Evict { network, client_id } => seq!["evict"@, network@, client_id@],
        Command::SetPassword { network, password } => if password@.len() == 0 {
            seq!["set-pass"@, network@]
        } else {
            seq!["set-pass"@, network@, password@]
        },
        Command::SetAccess { network, lock } => seq![
            "set-access"@,
            network@,
            if lock { "lock"@ } else { "unlock"@ },
        ],
    }
}

/// A network cannot be created with a blank password.
pub open spec fn refused(cmd: Command) -> bool {
    cmd matches Command::CreateNetwork { password, .. } && password@.len() == 0
}

pub open spec fn blank_password_message() -> Seq<char> {
    "Password cannot be blank"@
}

pub open spec fn daemon_down_message() -> Seq<char> {
    "Daemon not running. Run: sudo systemctl start logmein-hamachi"@
}

/// What the `hamachi` command prints when its daemon is not running.
pub open spec fn not_running_marker() -> Seq<char> {
    "does not seem to be running"@
}

fn text(s: &str) -> (r: String)
    ensures
        r@ == s@,
{
    string_of(&chars_of(s))
}

/// How `cmd` is carried out: a blank password refuses network creation,
/// logging in first checks that the daemon runs, anything else runs
/// `hamachi` with the command's arguments.
pub fn invocation(cmd: &Command) -> (r: Invocation)
    ensures
        refused(*cmd) ==> (r matches Invocation::Refuse(res) && !res.success && res.output@
            == blank_password_message()),
        cmd is Login ==> (r matches Invocation::RunIfDaemonUp { args, otherwise } && texts(args@)
            == command_args(*cmd) && !otherwise.success && otherwise.output@
            == daemon_down_message()),
        !refused(*cmd) && !(cmd is Login) ==> (r matches Invocation::Run(args) && texts(args@)
            == command_args(*cmd)),
{
    let mut args: Vec<String> = Vec::new();
    match cmd {
        Command::Status => {},
        Command::List => {
            args.push(text("list"));
        },
        Command::Login => {
            args.push(text("login"));
            assert(texts(args@) =~= command_args(*cmd));
            return Invocation::RunIfDaemonUp {
                args,
                otherwise: HamachiResult { success: false, output: text("Daemon not running. Run: sudo systemctl start logmein-hamachi") },
            };
        },
        Command::Logout => {
            args.push(text("logout"));
        },
        Command::CreateNetwork { name, password } => {
            if password.as_str().is_empty() {
                return Invocation::Refuse(
                    HamachiResult { success: false, output: text("Password cannot be blank") },
                );
            }
            args.push(text("create"));
            args.push(name.clone());
            args.push(password.clone());
        },
        Command::JoinNetwork { name, password } => {
            args.push(text("join"));
            args.push(name.clone());
            if !password.as_str().is_empty() {
                args.push(password.clone());
            }
        },
        Command::LeaveNetwork { network } => {
            args.push(text("leave"));
            args.push(network.clone());
        },
        Command::DeleteNetwork { network } => {
            args.push(text("delete"));
            args.push(network.clone());
        },
        Command::GoOnline { network } => {
            args.push(text("go-online"));
            args.push(network.clone());
        },
        Command::GoOffline { network } => {
            args.push(text("go-offline"));
            args.push(network.clone());
        },
        Command::SetNickname { nickname } => {
            args.push(text("set-nick"));
            args.push(nickname.clone());
        },
        Command::Evict { network, client_id } => {
            args.push(text("evict"));
            args.push(network.clone());
            args.push(client_id.clone());
        },
        Command::SetPassword { network, password } => {
            args.push(text("set-pass"));
            args.push(network.clone());
            if !password.as_str().is_empty() {
                args.push(password.clone());
            }
        },
        Command::SetAccess { network, lock } => {
            args.push(text("set-access"));
            args.push(network.clone());
            args.push(if *lock { text("lock") } else { text("unlock") });
        },
    }
    assert(texts(args@) =~= command_args(*cmd));
    Invocation::Run(args)
}

/// The daemon runs unless the command's standard output or error says it
/// does not seem to be running.
pub fn daemon_running(stdout: &str, stderr: &str) -> (r: bool)
    ensures
        r == (!contains(stdout@, not_running_marker()) && !contains(stderr@, not_running_marker())),
{
    let marker = chars_of("does not seem to be running");
    !contains_chars(&chars_of(stdout), &marker) && !contains_chars(&chars_of(stderr), &marker)
}

/// The output of a run: standard output, then standard error on a line of
/// its own where there is any, trimmed.
pub open spec fn combined_output(stdout: Seq<char>, stderr: Seq<char>) -> Seq<char> {
    if stderr.len() == 0 {
        trim(stdout)
    } else {
        trim(stdout + seq!['\n'] + stderr)
    }
}

/// The result of a run of `hamachi` that exited (successfully or not) with
/// these outputs.
pub fn command_result(exit_success: bool, stdout: &str, stderr: &str) -> (r: HamachiResult)
    ensures
        r.success == exit_success,
        r.output@ == combined_output(stdout@, stderr@),
{
    let mut all = chars_of(stdout);
    let err = chars_of(stderr);
    if err.len() > 0 {
        let ghost out = all@;
        all.push('\n');
        let mut i: usize = 0;
        while i < err.len()
            invariant
                i <= err.len(),
                all@ == out + seq!['\n'] + err@.take(i as int),
            decreases err.len() - i,
        {
            all.push(err[i]);
            assert(err@.take(i + 1) == err@.take(i as int).push(err@[i as int]));
            i = i + 1;
        }
        assert(err@.take(err.len() as int) == err@);
    }
    HamachiResult { success: exit_success, output: string_of(&trim_chars(&all)) }
}

pub open spec fn launch_failure_prefix() -> Seq<char> {
    "Failed to run hamachi: "@
}

/// The result when `hamachi` could not be started, for the reason given.
pub fn launch_failure(reason: &str) -> (r: HamachiResult)
    ensures
        !r.success,
        r.output@ == launch_failure_prefix() + reason@,
{
    let mut all = chars_of("Failed to run hamachi: ");
    let ghost head = all@;
    let why = chars_of(reason);
    let mut i: usize = 0;
    while i < why.len()
        invariant
            i <= why.len(),
            all@ == head + why@.take(i as int),
        decreases why.len() - i,
    {
        all.push(why[i]);
        assert(why@.take(i + 1) == why@.take(i as int).push(why@[i as int]));
        i = i + 1;
    }
    assert(why@.take(why.len() as int) == why@);
    HamachiResult { success: false, output: string_of(&all) }
}

} // verus!
