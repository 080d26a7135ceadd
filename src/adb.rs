//! Reading the device listing of the device bridge and picking the target.
use vstd::prelude::*;

use crate::text::{chars_of, has_prefix, has_suffix, is_white, is_white_char, same_text};

verus! {

/// Connection state of a listed device.
#[derive(Debug, PartialEq, Eq)]
pub enum AdbDeviceState {
    Device,
    Offline,
    Unauthorized,
    Unknown(String),
}

/// A listed device: its serial and connection state.
#[derive(Debug, PartialEq, Eq)]
pub struct AdbDevice {
    pub serial: String,
    pub state: AdbDeviceState,
}

/// The connection state as a mathematical value.
pub enum DeviceStateModel {
    Device,
    Offline,
    Unauthorized,
    Unknown(Seq<char>),
}

impl View for AdbDeviceState {
    type V = DeviceStateModel;

    open spec fn view(&self) -> DeviceStateModel {
        match self {
            AdbDeviceState::Device => DeviceStateModel::Device,
            AdbDeviceState::Offline => DeviceStateModel::Offline,
            AdbDeviceState::Unauthorized => DeviceStateModel::Unauthorized,
            AdbDeviceState::Unknown(s) => DeviceStateModel::Unknown(s@),
        }
    }
}

impl View for AdbDevice {
    type V = (Seq<char>, DeviceStateModel);

    open spec fn view(&self) -> (Seq<char>, DeviceStateModel) {
        (self.serial@, self.state@)
    }
}

impl Clone for AdbDeviceState {
    fn clone(&self) -> (r: Self)
        ensures
            r == *self,
    {
        match self {
            AdbDeviceState::Device => AdbDeviceState::Device,
            AdbDeviceState::Offline => AdbDeviceState::Offline,
            AdbDeviceState::Unauthorized => AdbDeviceState::Unauthorized,
            AdbDeviceState::Unknown(s) => AdbDeviceState::Unknown(s.clone()),
        }
    }
}

impl Clone for AdbDevice {
    fn clone(&self) -> (r: Self)
        ensures
            r == *self,
    {
        AdbDevice { serial: self.serial.clone(), state: self.state.clone() }
    }
}

/// The state named by a state word of the listing.
pub open spec fn state_model(word: Seq<char>) -> DeviceStateModel {
    if word == "device"@ {
        DeviceStateModel::Device
    } else if word == "offline"@ {
        DeviceStateModel::Offline
    } else if word == "unauthorized"@ {
        DeviceStateModel::Unauthorized
    } else {
        DeviceStateModel::Unknown(word)
    }
}

/// Index of the first line feed at or after `i`, or the length of `s`.
pub open spec fn line_end(s: Seq<char>, i: int) -> int
    decreases s.len() - i,
{
    if i < 0 || i >= s.len() {
        s.len() as int
    } else if s[i] == '\n' {
        i
    } else {
        line_end(s, i + 1)
    }
}

/// First index in `i..e` that is not white space, or `e`.
pub open spec fn skip_white(s: Seq<char>, i: int, e: int) -> int
    decreases e - i,
{
    if i < e && is_white(s[i]) {
        skip_white(s, i + 1, e)
    } else {
        i
    }
}

/// First index in `i..e` that is white space, or `e`.
pub open spec fn token_end(s: Seq<char>, i: int, e: int) -> int
    decreases e - i,
{
    if i < e && !is_white(s[i]) {
        token_end(s, i + 1, e)
    } else {
        i
    }
}

/// The device described by the line `s[i..e]`: its first white-space
/// separated word is the serial, its second the state; a line with fewer
/// than two words describes none.
pub open spec fn line_device(s: Seq<char>, i: int, e: int) -> Option<(Seq<char>, DeviceStateModel)> {
    let a = skip_white(s, i, e);
    let b = token_end(s, a, e);
    let c = skip_white(s, b, e);
    let d = token_end(s, c, e);
    if c < e {
        Some((s.subrange(a, b), state_model(s.subrange(c, d))))
    } else {
        None
    }
}

/// The devices on the lines that start at `i` and the lines after it.
pub open spec fn devices_from(s: Seq<char>, i: int) -> Seq<(Seq<char>, DeviceStateModel)>
    decreases s.len() - i,
    via devices_from_decreases
{
    if i < 0 || i > s.len() {
        Seq::empty()
    } else {
        let e = line_end(s, i);
        let rest = if e < s.len() {
            devices_from(s, e + 1)
        } else {
            Seq::empty()
        };
        match line_device(s, i, e) {
            Some(d) => seq![d] + rest,
            None => rest,
        }
    }
}

#[via_fn]
proof fn devices_from_decreases(s: Seq<char>, i: int) {
    if 0 <= i <= s.len() {
        lemma_line_end_bounds(s, i);
    }
}

/// The devices of a listing: every line but the first (a header) that has
/// a serial and a state word.
pub open spec fn adb_listing(s: Seq<char>) -> Seq<(Seq<char>, DeviceStateModel)> {
    let e = line_end(s, 0);
    if e < s.len() {
        devices_from(s, e + 1)
    } else {
        Seq::empty()
    }
}

proof fn lemma_line_end_bounds(s: Seq<char>, i: int)
    requires
        0 <= i <= s.len(),
    ensures
        i <= line_end(s, i) <= s.len(),
        line_end(s, i) < s.len() ==> s[line_end(s, i)] == '\n',
    decreases s.len() - i,
{
    if i < s.len() && s[i] != '\n' {
        lemma_line_end_bounds(s, i + 1);
    }
}

proof fn lemma_skip_white_bounds(s: Seq<char>, i: int, e: int)
    requires
        i <= e,
    ensures
        i <= skip_white(s, i, e) <= e,
    decreases e - i,
{
    if i < e && is_white(s[i]) {
        lemma_skip_white_bounds(s, i + 1, e);
    }
}

proof fn lemma_token_end_bounds(s: Seq<char>, i: int, e: int)
    requires
        i <= e,
    ensures
        i <= token_end(s, i, e) <= e,
    decreases e - i,
{
    if i < e && !is_white(s[i]) {
        lemma_token_end_bounds(s, i + 1, e);
    }
}

fn find_line_end(cs: &Vec<char>, i: usize) -> (r: usize)
    requires
        i <= cs@.len(),
    ensures
        r == line_end(cs@, i as int),
        i <= r <= cs@.len(),
{
    let mut j = i;
    while j < cs.len() && cs[j] != '\n'
        invariant
            i <= j <= cs@.len(),
            line_end(cs@, j as int) == line_end(cs@, i as int),
        decreases cs@.len() - j,
    {
        j = j + 1;
    }
    j
}

fn find_skip_white(cs: &Vec<char>, i: usize, e: usize) -> (r: usize)
    requires
        i <= e <= cs@.len(),
    ensures
        r == skip_white(cs@, i as int, e as int),
        i <= r <= e,
{
    let mut j = i;
    while j < e && is_white_char(cs[j])
        invariant
            i <= j <= e,
            e <= cs@.len(),
            skip_white(cs@, j as int, e as int) == skip_white(cs@, i as int, e as int),
        decreases e - j,
    {
        j = j + 1;
    }
    j
}

fn find_token_end(cs: &Vec<char>, i: usize, e: usize) -> (r: usize)
    requires
        i <= e <= cs@.len(),
    ensures
        r == token_end(cs@, i as int, e as int),
        i <= r <= e,
{
    let mut j = i;
    while j < e && !is_white_char(cs[j])
        invariant
            i <= j <= e,
            e <= cs@.len(),
            token_end(cs@, j as int, e as int) == token_end(cs@, i as int, e as int),
        decreases e - j,
    {
        j = j + 1;
    }
    j
}

fn parse_state(raw: &str) -> (r: AdbDeviceState)
    ensures
        r@ == state_model(raw@),
{
    if same_text(raw, "device") {
        AdbDeviceState::Device
    } else if same_text(raw, "offline") {
        AdbDeviceState::Offline
    } else if same_text(raw, "unauthorized") {
        AdbDeviceState::Unauthorized
    } else {
        AdbDeviceState::Unknown(String::from_str(raw))
    }
}

fn parse_line(raw: &str, cs: &Vec<char>, i: usize, e: usize) -> (r: Option<AdbDevice>)
    requires
        cs@ == raw@,
        i <= e <= cs@.len(),
    ensures
        match r {
            Some(d) => line_device(cs@, i as int, e as int) == Some(d@),
            None => line_device(cs@, i as int, e as int) is None,
        },
{
    let a = find_skip_white(cs, i, e);
    let b = find_token_end(cs, a, e);
    let c = find_skip_white(cs, b, e);
    let d = find_token_end(cs, c, e);
    if c < e {
        let serial = String::from_str(raw.substring_char(a, b));
        let state = parse_state(raw.substring_char(c, d));
        Some(AdbDevice { serial, state })
    } else {
        None
    }
}

/// Parses the output of the device-listing command.
pub fn parse_adb_devices(raw: &str) -> (r: Vec<AdbDevice>)
    ensures
        r@.map_values(|d: AdbDevice| d@) == adb_listing(raw@),
{
    let cs = chars_of(raw);
    let n = cs.len();
    let mut out: Vec<AdbDevice> = Vec::new();
    let e0 = find_line_end(&cs, 0);
    if e0 >= n {
        assert(out@.map_values(|d: AdbDevice| d@) =~= adb_listing(raw@));
        return out;
    }
    let mut i = e0 + 1;
    loop
        invariant_except_break
            out@.map_values(|d: AdbDevice| d@) + devices_from(cs@, i as int) == adb_listing(
                raw@,
            ),
        invariant
            cs@ == raw@,
            n == cs@.len(),
            e0 < n,
            adb_listing(raw@) == devices_from(cs@, e0 + 1),
            0 <= i <= n,
        ensures
            out@.map_values(|d: AdbDevice| d@) == adb_listing(raw@),
        decreases n - i,
    {
        let e = find_line_end(&cs, i);
        let ghost before = out@.map_values(|d: AdbDevice| d@);
        let ghost rest = if e < n {
            devices_from(cs@, e + 1)
        } else {
            Seq::<(Seq<char>, DeviceStateModel)>::empty()
        };
        match parse_line(raw, &cs, i, e) {
            Some(d) => {
                out.push(d);
                assert(out@.map_values(|d: AdbDevice| d@) =~= before.push(d@));
                assert(before.push(d@) + rest =~= before + (seq![d@] + rest));
            },
            None => {},
        }
        if e >= n {
            assert(out@.map_values(|d: AdbDevice| d@) + rest =~= out@.map_values(
                |d: AdbDevice| d@,
            ));
            break;
        }
        i = e + 1;
    }
    out
}

/// Preference of a serial: the loopback address first, then the emulator's
/// usual port, then anything else.
pub open spec fn rank_of(serial: Seq<char>) -> u8 {
    if serial.len() >= 10 && serial.subrange(0, 10) == "127.0.0.1:"@ {
        3
    } else if serial.len() >= 5 && serial.subrange(serial.len() - 5, serial.len() as int)
        == ":7555"@ {
        2
    } else {
        1
    }
}

fn candidate_rank(serial: &str) -> (r: u8)
    ensures
        r == rank_of(serial@),
{
    let cs = chars_of(serial);
    let loopback = chars_of("127.0.0.1:");
    let port = chars_of(":7555");
    proof {
        reveal_strlit("127.0.0.1:");
        reveal_strlit(":7555");
    }
    if has_prefix(&cs, &loopback) {
        3
    } else if has_suffix(&cs, &port) {
        2
    } else {
        1
    }
}

/// The device that the candidate scan settles on among the first `n` of
/// `devices`: of those in the Device state, the one with the highest rank,
/// and the last such one on a tie.
pub open spec fn best_candidate(devices: Seq<(Seq<char>, DeviceStateModel)>, n: int) -> Option<
    int,
>
    decreases n,
{
    if n <= 0 {
        None
    } else {
        let prev = best_candidate(devices, n - 1);
        let d = devices[n - 1];
        if d.1 is Device && (prev is None || rank_of(d.0) >= rank_of(devices[prev->Some_0].0)) {
            Some(n - 1)
        } else {
            prev
        }
    }
}

pub proof fn lemma_best_candidate_in_range(devices: Seq<(Seq<char>, DeviceStateModel)>, n: int)
    ensures
        best_candidate(devices, n) is Some ==> 0 <= best_candidate(devices, n)->Some_0 < n,
    decreases n,
{
    if n > 0 {
        lemma_best_candidate_in_range(devices, n - 1);
    }
}

/// Picks the device to drive: see `best_candidate`.
pub fn find_mumu_candidate(devices: &[AdbDevice]) -> (r: Option<AdbDevice>)
    ensures
        match best_candidate(devices@.map_values(|d: AdbDevice| d@), devices@.len() as int) {
            Some(k) => r == Some(devices@[k]),
            None => r is None,
        },
{
    let ghost views = devices@.map_values(|d: AdbDevice| d@);
    let mut best: Option<usize> = None;
    let mut best_rank: u8 = 0;
    let mut i: usize = 0;
    while i < devices.len()
        invariant
            i <= devices@.len(),
            views == devices@.map_values(|d: AdbDevice| d@),
            best is Some <==> best_candidate(views, i as int) is Some,
            best is Some ==> best->Some_0 as int == best_candidate(views, i as int)->Some_0,
            best_candidate(views, i as int) is Some ==> 0 <= best_candidate(
                views,
                i as int,
            )->Some_0 < i,
            best is Some ==> best_rank == rank_of(devices@[best->Some_0 as int].serial@),
        decreases devices@.len() - i,
    {
        proof {
            lemma_best_candidate_in_range(views, i as int);
        }
        let online = match devices[i].state {
            AdbDeviceState::Device => true,
            _ => false,
        };
        if online {
            let rank = candidate_rank(devices[i].serial.as_str());
            if best.is_none() || rank >= best_rank {
                best = Some(i);
                best_rank = rank;
            }
        }
        i = i + 1;
    }
    match best {
        Some(k) => Some(devices[k].clone()),
        None => None,
    }
}

} // verus!
