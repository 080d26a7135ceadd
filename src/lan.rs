//! LAN discovery and connection protocol: `|`-separated text datagrams with
//! fixed prefixes, exchanged with the phone that relays touch input.
use vstd::prelude::*;

use crate::protocol::PointerAction;
use crate::text::{
    chars_of,
    decimal,
    has_prefix,
    parse_unsigned,
    parse_unsigned_text,
    push_decimal,
    same_text,
    split_bar,
    split_bar_text,
    trim_text,
    trimmed,
};

verus! {

/// Port the phones listen on for discovery broadcasts.
pub const DISCOVERY_PORT: u16 = 42042;

/// Port the host listens on for relayed touch datagrams.
pub const HOST_TOUCH_PORT: u16 = 42044;

/// How long a discovery scan collects answers, in milliseconds.
pub const DISCOVERY_TIMEOUT_MS: u64 = 1300;

/// How long a connection request waits for an answer, in milliseconds.
pub const REQUEST_TIMEOUT_MS: u64 = 5000;

/// How long a liveness check waits for its answer, in milliseconds.
pub const PING_TIMEOUT_MS: u64 = 900;

/// A phone found on the LAN.
#[derive(Debug, Clone, PartialEq, Eq)]
pub struct LanDevice {
    pub id: String,
    pub name: String,
    pub ip: String,
    pub control_port: u16,
    pub version: String,
}

/// A discovered phone as a mathematical value.
pub struct LanDeviceModel {
    pub id: Seq<char>,
    pub name: Seq<char>,
    pub ip: Seq<char>,
    pub control_port: u16,
    pub version: Seq<char>,
}

impl View for LanDevice {
    type V = LanDeviceModel;

    open spec fn view(&self) -> LanDeviceModel {
        LanDeviceModel {
            id: self.id@,
            name: self.name@,
            ip: self.ip@,
            control_port: self.control_port,
            version: self.version@,
        }
    }
}

/// The identity of a phone: `ip:port` of its control channel.
pub open spec fn device_id(ip: Seq<char>, port: u16) -> Seq<char> {
    ip + ":"@ + decimal(port as nat)
}

/// The phone announced by a discovery answer `message` that came from `ip`:
/// `LMC_DEVICE|name|version|control-port`, with surrounding white space
/// ignored and any further fields allowed.
pub open spec fn discovery_answer(message: Seq<char>, ip: Seq<char>) -> Option<LanDeviceModel> {
    let parts = split_bar(trimmed(message));
    if parts.len() < 4 || parts[0] != "LMC_DEVICE"@ {
        None
    } else {
        match parse_unsigned(parts[3], 65535) {
            Some(port) => Some(
                LanDeviceModel {
                    id: device_id(ip, port as u16),
                    name: parts[1],
                    ip,
                    control_port: port as u16,
                    version: parts[2],
                },
            ),
            None => None,
        }
    }
}

/// Reads a discovery answer; see `discovery_answer`.
pub fn parse_discovery_response(message: &str, from_ip: &str) -> (r: Option<LanDevice>)
    ensures
        match discovery_answer(message@, from_ip@) {
            Some(d) => r is Some && r->Some_0@ == d,
            None => r is None,
        },
{
    let parts = split_bar_text(trim_text(message));
    let ghost views = parts@.map_values(|f: String| f@);
    assert(views.len() == parts@.len());
    if parts.len() < 4 || !same_text(parts[0].as_str(), "LMC_DEVICE") {
        assert(parts@.len() >= 4 ==> views[0] == parts@[0]@);
        return None;
    }
    assert(views[0] == parts@[0]@ && views[1] == parts@[1]@ && views[2] == parts@[2]@
        && views[3] == parts@[3]@);
    let port = match parse_unsigned_text(parts[3].as_str(), 65535) {
        Some(p) => p as u16,
        None => {
            return None;
        },
    };
    let mut id = String::from_str(from_ip);
    id.append(":");
    push_decimal(&mut id, port as u64);
    Some(
        LanDevice {
            id,
            name: parts[1].clone(),
            ip: String::from_str(from_ip),
            control_port: port,
            version: parts[2].clone(),
        },
    )
}

/// A relayed touch event, with its normalized coordinates and pressure
/// still in text form.
#[derive(Debug, Clone, PartialEq, Eq)]
pub struct TouchPacket {
    pub pointer_id: u8,
    pub action: PointerAction,
    pub x: String,
    pub y: String,
    pub pressure: String,
}

/// The action named by a touch datagram's action field.
pub open spec fn action_named(word: Seq<char>) -> Option<PointerAction> {
    if word == "DOWN"@ {
        Some(PointerAction::Down)
    } else if word == "MOVE"@ {
        Some(PointerAction::Move)
    } else if word == "UP"@ {
        Some(PointerAction::Up)
    } else if word == "CANCEL"@ {
        Some(PointerAction::Cancel)
    } else {
        None
    }
}

/// A touch datagram: `LMC_TOUCH|_|pointer|ACTION|x|y|pressure|_`, with
/// surrounding white space ignored and any further fields allowed.
pub open spec fn touch_packet_fields(payload: Seq<char>) -> Option<
    (u8, PointerAction, Seq<char>, Seq<char>, Seq<char>),
> {
    let parts = split_bar(trimmed(payload));
    if parts.len() < 8 || parts[0] != "LMC_TOUCH"@ {
        None
    } else {
        match (parse_unsigned(parts[2], 255), action_named(parts[3])) {
            (Some(id), Some(action)) => Some((id as u8, action, parts[4], parts[5], parts[6])),
            _ => None,
        }
    }
}

fn action_from_text(word: &str) -> (r: Option<PointerAction>)
    ensures
        r == action_named(word@),
{
    if same_text(word, "DOWN") {
        Some(PointerAction::Down)
    } else if same_text(word, "MOVE") {
        Some(PointerAction::Move)
    } else if same_text(word, "UP") {
        Some(PointerAction::Up)
    } else if same_text(word, "CANCEL") {
        Some(PointerAction::Cancel)
    } else {
        None
    }
}

/// Reads the fields of a touch datagram; see `touch_packet_fields`.
pub fn parse_touch_packet(payload: &str) -> (r: Option<TouchPacket>)
    ensures
        match touch_packet_fields(payload@) {
            Some(f) => r is Some && ({
                let p = r->Some_0;
                &&& p.pointer_id == f.0
                &&& p.action == f.1
                &&& p.x@ == f.2
                &&& p.y@ == f.3
                &&& p.pressure@ == f.4
            }),
            None => r is None,
        },
{
    let parts = split_bar_text(trim_text(payload));
    let ghost views = parts@.map_values(|f: String| f@);
    assert(views.len() == parts@.len());
    if parts.len() < 8 || !same_text(parts[0].as_str(), "LMC_TOUCH") {
        assert(parts@.len() >= 8 ==> views[0] == parts@[0]@);
        return None;
    }
    assert(views[2] == parts@[2]@ && views[3] == parts@[3]@ && views[4] == parts@[4]@
        && views[5] == parts@[5]@ && views[6] == parts@[6]@);
    let pointer_id = match parse_unsigned_text(parts[2].as_str(), 255) {
        Some(v) => v as u8,
        None => {
            return None;
        },
    };
    let action = match action_from_text(parts[3].as_str()) {
        Some(a) => a,
        None => {
            return None;
        },
    };
    Some(
        TouchPacket {
            pointer_id,
            action,
            x: parts[4].clone(),
            y: parts[5].clone(),
            pressure: parts[6].clone(),
        },
    )
}

/// The discovery broadcast: `LMC_DISCOVER|host-name|reply-port`.
pub fn discover_message(host_name: &str, reply_port: u16) -> (r: String)
    ensures
        r@ == "LMC_DISCOVER|"@ + host_name@ + "|"@ + decimal(reply_port as nat),
{
    let mut s = String::from_str("LMC_DISCOVER|");
    s.append(host_name);
    s.append("|");
    push_decimal(&mut s, reply_port as u64);
    s
}

/// The connection request: `LMC_CONNECT_REQUEST|host-name|touch-port`.
pub fn connect_request_message(host_name: &str, touch_port: u16) -> (r: String)
    ensures
        r@ == "LMC_CONNECT_REQUEST|"@ + host_name@ + "|"@ + decimal(touch_port as nat),
{
    let mut s = String::from_str("LMC_CONNECT_REQUEST|");
    s.append(host_name);
    s.append("|");
    push_decimal(&mut s, touch_port as u64);
    s
}

/// The liveness probe.
pub fn ping_message() -> (r: String)
    ensures
        r@ == "LMC_PING"@,
{
    String::from_str("LMC_PING")
}

/// The notice sent when the host drops the connection.
pub fn disconnect_message() -> (r: String)
    ensures
        r@ == "LMC_DISCONNECT|HOST"@,
{
    String::from_str("LMC_DISCONNECT|HOST")
}

/// What a datagram received while awaiting a connection answer means.
#[derive(Debug, Clone, Copy, PartialEq, Eq, Structural)]
pub enum ConnectReply {
    Accepted,
    Rejected,
    Unrelated,
}

pub open spec fn starts_with(s: Seq<char>, p: Seq<char>) -> bool {
    p.len() <= s.len() && s.subrange(0, p.len() as int) == p
}

/// The meaning of datagram `text` from `from_ip` for a request sent to the
/// phone at `device_ip`: only that phone's answers count, and they count by
/// their prefix once surrounding white space is dropped.
pub open spec fn connect_reply(from_ip: Seq<char>, device_ip: Seq<char>, text: Seq<char>) -> ConnectReply {
    if from_ip != device_ip {
        ConnectReply::Unrelated
    } else if starts_with(trimmed(text), "LMC_CONNECT_ACCEPT"@) {
        ConnectReply::Accepted
    } else if starts_with(trimmed(text), "LMC_CONNECT_REJECT"@) {
        ConnectReply::Rejected
    } else {
        ConnectReply::Unrelated
    }
}

/// Classifies an answer to a connection request; see `connect_reply`.
pub fn classify_connect_reply(from_ip: &str, device_ip: &str, text: &str) -> (r: ConnectReply)
    ensures
        r == connect_reply(from_ip@, device_ip@, text@),
{
    if !same_text(from_ip, device_ip) {
        return ConnectReply::Unrelated;
    }
    let t = chars_of(trim_text(text));
    if has_prefix(&t, &chars_of("LMC_CONNECT_ACCEPT")) {
        ConnectReply::Accepted
    } else if has_prefix(&t, &chars_of("LMC_CONNECT_REJECT")) {
        ConnectReply::Rejected
    } else {
        ConnectReply::Unrelated
    }
}

/// Whether datagram `text` from `from_ip` answers a liveness probe sent to
/// the phone at `device_ip`.
pub fn is_pong_reply(from_ip: &str, device_ip: &str, text: &str) -> (r: bool)
    ensures
        r == (from_ip@ == device_ip@ && trimmed(text@) == "LMC_PONG"@),
{
    same_text(from_ip, device_ip) && same_text(trim_text(text), "LMC_PONG")
}

} // verus!

verus! {

/// Lexicographic order of texts by code point, a proper prefix first.
pub open spec fn text_less(a: Seq<char>, b: Seq<char>) -> bool
    decreases a.len(),
{
    if a.len() == 0 {
        b.len() > 0
    } else if b.len() == 0 {
        false
    } else if a[0] != b[0] {
        a[0] < b[0]
    } else {
        text_less(a.drop_first(), b.drop_first())
    }
}

/// Order of discovered phones: by name, then by address.
pub open spec fn key_less(a: LanDeviceModel, b: LanDeviceModel) -> bool {
    text_less(a.name, b.name) || (a.name == b.name && text_less(a.ip, b.ip))
}

pub open spec fn sorted_by_key(s: Seq<LanDeviceModel>) -> bool {
    forall|i: int, j: int| 0 <= i < j < s.len() ==> !key_less(#[trigger] s[j], #[trigger] s[i])
}

pub open spec fn ids_unique(s: Seq<LanDeviceModel>) -> bool {
    forall|i: int, j: int| 0 <= i < j < s.len() ==> (#[trigger] s[i]).id != (#[trigger] s[j]).id
}

/// The phones of a list, as mathematical values.
pub open spec fn list_view(v: Seq<LanDevice>) -> Seq<LanDeviceModel> {
    v.map_values(|d: LanDevice| d@)
}

/// A discovery list: sorted by name then address, one entry per identity.
pub open spec fn discovery_list_ok(s: Seq<LanDeviceModel>) -> bool {
    sorted_by_key(s) && ids_unique(s)
}

proof fn lemma_text_less_irreflexive(a: Seq<char>)
    ensures
        !text_less(a, a),
    decreases a.len(),
{
    if a.len() > 0 {
        lemma_text_less_irreflexive(a.drop_first());
    }
}

proof fn lemma_text_less_transitive(a: Seq<char>, b: Seq<char>, c: Seq<char>)
    requires
        text_less(a, b),
        text_less(b, c),
    ensures
        text_less(a, c),
    decreases a.len(),
{
    if a.len() > 0 && b.len() > 0 && c.len() > 0 && a[0] == b[0] && b[0] == c[0] {
        lemma_text_less_transitive(a.drop_first(), b.drop_first(), c.drop_first());
    }
}

proof fn lemma_key_less_irreflexive(a: LanDeviceModel)
    ensures
        !key_less(a, a),
{
    lemma_text_less_irreflexive(a.name);
    lemma_text_less_irreflexive(a.ip);
}

proof fn lemma_key_less_transitive(a: LanDeviceModel, b: LanDeviceModel, c: LanDeviceModel)
    requires
        key_less(a, b),
        key_less(b, c),
    ensures
        key_less(a, c),
{
    if text_less(a.name, b.name) && text_less(b.name, c.name) {
        lemma_text_less_transitive(a.name, b.name, c.name);
    } else if text_less(a.name, b.name) {
    } else if text_less(b.name, c.name) {
    } else {
        lemma_text_less_transitive(a.ip, b.ip, c.ip);
    }
}

fn text_lt(a: &str, b: &str) -> (r: bool)
    ensures
        r == text_less(a@, b@),
{
    let x = chars_of(a);
    let y = chars_of(b);
    let mut i: usize = 0;
    assert(x@.subrange(0, x@.len() as int) =~= x@);
    assert(y@.subrange(0, y@.len() as int) =~= y@);
    while i < x.len() && i < y.len() && x[i] == y[i]
        invariant
            x@ == a@,
            y@ == b@,
            i <= x@.len(),
            i <= y@.len(),
            text_less(a@, b@) == text_less(
                x@.subrange(i as int, x@.len() as int),
                y@.subrange(i as int, y@.len() as int),
            ),
        decreases x@.len() - i,
    {
        let ghost xs = x@.subrange(i as int, x@.len() as int);
        let ghost ys = y@.subrange(i as int, y@.len() as int);
        assert(xs.drop_first() =~= x@.subrange(i + 1, x@.len() as int));
        assert(ys.drop_first() =~= y@.subrange(i + 1, y@.len() as int));
        i = i + 1;
    }
    let ghost xs = x@.subrange(i as int, x@.len() as int);
    let ghost ys = y@.subrange(i as int, y@.len() as int);
    if i == x.len() {
        i < y.len()
    } else if i == y.len() {
        false
    } else {
        assert(xs[0] == x@[i as int] && ys[0] == y@[i as int]);
        x[i] < y[i]
    }
}

fn device_key_lt(a: &LanDevice, b: &LanDevice) -> (r: bool)
    ensures
        r == key_less(a@, b@),
{
    text_lt(a.name.as_str(), b.name.as_str()) || (same_text(a.name.as_str(), b.name.as_str())
        && text_lt(a.ip.as_str(), b.ip.as_str()))
}

proof fn lemma_remove_keeps_list(s: Seq<LanDeviceModel>, k: int, id: Seq<char>)
    requires
        discovery_list_ok(s),
        0 <= k < s.len(),
        s[k].id == id,
    ensures
        discovery_list_ok(s.remove(k)),
        forall|d: LanDeviceModel| #[trigger]
            s.remove(k).contains(d) <==> (s.contains(d) && d.id != id),
{
    let t = s.remove(k);
    assert forall|i: int, j: int| 0 <= i < j < t.len() implies !key_less(
        #[trigger] t[j],
        #[trigger] t[i],
    ) && t[i].id != t[j].id by {
        let oi = if i < k {
            i
        } else {
            i + 1
        };
        let oj = if j < k {
            j
        } else {
            j + 1
        };
        assert(t[i] == s[oi] && t[j] == s[oj] && oi < oj);
    }
    assert forall|d: LanDeviceModel| #[trigger] t.contains(d) implies (s.contains(d) && d.id
        != id) by {
        let i = choose|i: int| 0 <= i < t.len() && t[i] == d;
        let oi = if i < k {
            i
        } else {
            i + 1
        };
        assert(s[oi] == d);
        if oi < k {
            assert(s[oi].id != s[k].id);
        } else {
            assert(s[k].id != s[oi].id);
        }
    }
    assert forall|d: LanDeviceModel| s.contains(d) && d.id != id implies #[trigger] t.contains(
        d,
    ) by {
        let i = choose|i: int| 0 <= i < s.len() && s[i] == d;
        assert(i != k);
        if i < k {
            assert(t[i] == d);
        } else {
            assert(t[i - 1] == d);
        }
    }
}

proof fn lemma_insert_keeps_list(s: Seq<LanDeviceModel>, p: int, d: LanDeviceModel)
    requires
        discovery_list_ok(s),
        0 <= p <= s.len(),
        forall|i: int| 0 <= i < p ==> !key_less(d, #[trigger] s[i]),
        p < s.len() ==> key_less(d, s[p]),
        forall|i: int| 0 <= i < s.len() ==> (#[trigger] s[i]).id != d.id,
    ensures
        discovery_list_ok(s.insert(p, d)),
        forall|x: LanDeviceModel| #[trigger]
            s.insert(p, d).contains(x) <==> (x == d || s.contains(x)),
{
    let t = s.insert(p, d);
    assert forall|i: int, j: int| 0 <= i < j < t.len() implies !key_less(
        #[trigger] t[j],
        #[trigger] t[i],
    ) && t[i].id != t[j].id by {
        if j < p {
            assert(t[i] == s[i] && t[j] == s[j]);
        } else if j == p {
            assert(t[i] == s[i] && t[j] == d);
        } else if i == p {
            assert(t[j] == s[j - 1] && t[i] == d);
            if key_less(s[j - 1], d) {
                lemma_key_less_transitive(s[j - 1], d, s[p]);
                if j - 1 == p {
                    lemma_key_less_irreflexive(s[p]);
                }
            }
        } else if i < p {
            assert(t[i] == s[i] && t[j] == s[j - 1]);
        } else {
            assert(t[i] == s[i - 1] && t[j] == s[j - 1]);
        }
    }
    assert forall|x: LanDeviceModel| #[trigger] t.contains(x) implies (x == d || s.contains(x)) by {
        let i = choose|i: int| 0 <= i < t.len() && t[i] == x;
        if i < p {
            assert(s[i] == x);
        } else if i > p {
            assert(s[i - 1] == x);
        }
    }
    assert forall|x: LanDeviceModel| x == d || s.contains(x) implies #[trigger] t.contains(x) by {
        if x == d {
            assert(t[p] == d);
        } else {
            let i = choose|i: int| 0 <= i < s.len() && s[i] == x;
            if i < p {
                assert(t[i] == x);
            } else {
                assert(t[i + 1] == x);
            }
        }
    }
}

/// Adds a discovery answer to a list kept sorted by name then address:
/// an earlier entry with the same identity is replaced.
pub fn record_discovered(devices: &mut Vec<LanDevice>, device: LanDevice)
    requires
        discovery_list_ok(list_view(old(devices)@)),
    ensures
        discovery_list_ok(list_view(final(devices)@)),
        forall|x: LanDeviceModel| #[trigger]
            list_view(final(devices)@).contains(x) <==> (x == device@ || (list_view(
                old(devices)@,
            ).contains(x) && x.id != device@.id)),
{
    let ghost s0 = devices@.map_values(|d: LanDevice| d@);
    let mut k: usize = 0;
    while k < devices.len() && !same_text(devices[k].id.as_str(), device.id.as_str())
        invariant
            k <= devices@.len(),
            devices@.map_values(|d: LanDevice| d@) == s0,
            forall|i: int| 0 <= i < k ==> (#[trigger] s0[i]).id != device@.id,
        decreases devices@.len() - k,
    {
        assert(s0[k as int] == devices@[k as int]@);
        k = k + 1;
    }
    if k < devices.len() {
        assert(s0[k as int] == devices@[k as int]@);
        proof {
            lemma_remove_keeps_list(s0, k as int, device@.id);
        }
        devices.remove(k);
        assert(devices@.map_values(|d: LanDevice| d@) =~= s0.remove(k as int));
    } else {
        assert forall|x: LanDeviceModel| #[trigger] s0.contains(x) implies x.id != device@.id by {
            let i = choose|i: int| 0 <= i < s0.len() && s0[i] == x;
        }
    }
    let ghost s1 = devices@.map_values(|d: LanDevice| d@);
    assert(discovery_list_ok(s1));
    assert forall|i: int| 0 <= i < s1.len() implies (#[trigger] s1[i]).id != device@.id by {
        assert(s1.contains(s1[i]));
    }
    let mut p: usize = 0;
    while p < devices.len() && !device_key_lt(&device, &devices[p])
        invariant
            p <= devices@.len(),
            devices@.map_values(|d: LanDevice| d@) == s1,
            forall|i: int| 0 <= i < p ==> !key_less(device@, #[trigger] s1[i]),
        decreases devices@.len() - p,
    {
        assert(s1[p as int] == devices@[p as int]@);
        p = p + 1;
    }
    if p < devices.len() {
        assert(s1[p as int] == devices@[p as int]@);
    }
    proof {
        lemma_insert_keeps_list(s1, p as int, device@);
    }
    let ghost dv = device@;
    devices.insert(p, device);
    assert(devices@.map_values(|d: LanDevice| d@) =~= s1.insert(p as int, dv));
}

} // verus!
