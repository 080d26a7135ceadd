//! Touch runtime: tracks the pointer of interest of the connected peer and
//! reduces each down-to-up trajectory to a tap or a swipe on the device.
use vstd::prelude::*;
use std::collections::HashMap;

use crate::bridge::{chosen_serial, MumuBridge, MumuBridgeError};
use crate::adb::adb_listing;
use crate::mapping::{scale_clamped, scale_clamped_spec, Fraction};
use crate::protocol::PointerAction;
use crate::text::{decimal, decimal_string, same_text};

verus! {

/// Largest Manhattan distance, in device pixels, that still counts as a tap.
pub const TAP_SLOP_PX: u32 = 24;

/// Duration given to every swipe, in milliseconds.
pub const SWIPE_DURATION_MS: u32 = 40;

/// The only pointer that drives the device.
pub const TRACKED_POINTER: u8 = 0;

/// A gesture to replay on the device.
#[derive(Debug, Clone, Copy, PartialEq, Eq, Structural)]
pub enum AdbTouchCommand {
    Tap { x: u32, y: u32 },
    Swipe { start_x: u32, start_y: u32, end_x: u32, end_y: u32, duration_ms: u32 },
}

pub open spec fn abs_diff(a: u32, b: u32) -> int {
    if a >= b {
        a - b
    } else {
        b - a
    }
}

/// Manhattan distance of two pixels.
pub open spec fn manhattan(a: (u32, u32), b: (u32, u32)) -> int {
    abs_diff(a.0, b.0) + abs_diff(a.1, b.1)
}

/// The gesture for a trajectory from `start` to `end`: a tap at the end when
/// the two are within the slop, a swipe otherwise.
pub open spec fn classify(start: (u32, u32), end: (u32, u32)) -> AdbTouchCommand {
    if manhattan(start, end) <= TAP_SLOP_PX {
        AdbTouchCommand::Tap { x: end.0, y: end.1 }
    } else {
        AdbTouchCommand::Swipe {
            start_x: start.0,
            start_y: start.1,
            end_x: end.0,
            end_y: end.1,
            duration_ms: SWIPE_DURATION_MS,
        }
    }
}

impl AdbTouchCommand {
    /// The words of the device's shell input command for this gesture.
    pub open spec fn spec_shell_args(&self) -> Seq<Seq<char>> {
        match *self {
            AdbTouchCommand::Tap { x, y } => seq!["tap"@, decimal(x as nat), decimal(y as nat)],
            AdbTouchCommand::Swipe { start_x, start_y, end_x, end_y, duration_ms } => seq![
                "swipe"@,
                decimal(start_x as nat),
                decimal(start_y as nat),
                decimal(end_x as nat),
                decimal(end_y as nat),
                decimal(duration_ms as nat),
            ],
        }
    }

    /// `tap x y` or `swipe x1 y1 x2 y2 duration`, one word per element.
    pub fn shell_args(&self) -> (r: Vec<String>)
        ensures
            r@.map_values(|a: String| a@) == self.spec_shell_args(),
    {
        let mut out: Vec<String> = Vec::new();
        match *self {
            AdbTouchCommand::Tap { x, y } => {
                out.push(String::from_str("tap"));
                out.push(decimal_string(x as u64));
                out.push(decimal_string(y as u64));
            },
            AdbTouchCommand::Swipe { start_x, start_y, end_x, end_y, duration_ms } => {
                out.push(String::from_str("swipe"));
                out.push(decimal_string(start_x as u64));
                out.push(decimal_string(start_y as u64));
                out.push(decimal_string(end_x as u64));
                out.push(decimal_string(end_y as u64));
                out.push(decimal_string(duration_ms as u64));
            },
        }
        assert(out@.map_values(|a: String| a@) =~= self.spec_shell_args());
        out
    }
}

/// Pointer positions recorded so far: where each pointer went down, and
/// where it was seen last.
pub type Tracks = (Map<u8, (u32, u32)>, Map<u8, (u32, u32)>);

/// One event of pointer `id` at device pixel `pos`: the tracks after it and
/// the gesture it completes, if any.
pub open spec fn touch_step(t: Tracks, id: u8, action: PointerAction, pos: (u32, u32)) -> (
    Tracks,
    Option<AdbTouchCommand>,
) {
    if id != TRACKED_POINTER {
        (t, None)
    } else {
        match action {
            PointerAction::Down => ((t.0.insert(id, pos), t.1.insert(id, pos)), None),
            PointerAction::Move => ((t.0, t.1.insert(id, pos)), None),
            PointerAction::Up => {
                let start = if t.0.contains_key(id) {
                    t.0[id]
                } else {
                    pos
                };
                let end = if t.1.contains_key(id) {
                    t.1[id]
                } else {
                    pos
                };
                ((t.0.remove(id), t.1.remove(id)), Some(classify(start, end)))
            },
            PointerAction::Cancel => ((t.0.remove(id), t.1.remove(id)), None),
        }
    }
}

/// State of the touch link with the connected peer.
#[derive(Debug)]
pub struct TouchRuntime {
    connected_device_ip: Option<String>,
    mumu_serial: Option<String>,
    down_points: HashMap<u8, (u32, u32)>,
    last_points: HashMap<u8, (u32, u32)>,
    target_width: u32,
    target_height: u32,
}

impl Default for TouchRuntime {
    fn default() -> (r: Self)
        ensures
            r.spec_peer() is None,
            r.spec_serial() is None,
            r.spec_tracks() == (Map::<u8, (u32, u32)>::empty(), Map::<u8, (u32, u32)>::empty()),
            r.spec_target() == (2460u32, 1080u32),
    {
        TouchRuntime::new()
    }
}

impl TouchRuntime {
    pub closed spec fn spec_peer(&self) -> Option<Seq<char>> {
        match self.connected_device_ip {
            Some(ip) => Some(ip@),
            None => None,
        }
    }

    pub closed spec fn spec_serial(&self) -> Option<Seq<char>> {
        match self.mumu_serial {
            Some(s) => Some(s@),
            None => None,
        }
    }

    pub closed spec fn spec_tracks(&self) -> Tracks {
        (self.down_points@, self.last_points@)
    }

    pub closed spec fn spec_target(&self) -> (u32, u32) {
        (self.target_width, self.target_height)
    }

    /// The device pixel a normalized coordinate lands on along an axis of
    /// `size` pixels.
    pub open spec fn pixel_of(v: Fraction, size: u32) -> u32 {
        scale_clamped_spec(v, (if size > 1 { size - 1 } else { 0 }) as u32) as u32
    }

    /// No peer, no serial, no pointer recorded, and a 2460 x 1080 target.
    pub fn new() -> (r: Self)
        ensures
            r.spec_peer() is None,
            r.spec_serial() is None,
            r.spec_tracks() == (Map::<u8, (u32, u32)>::empty(), Map::<u8, (u32, u32)>::empty()),
            r.spec_target() == (2460u32, 1080u32),
    {
        let r = TouchRuntime {
            connected_device_ip: None,
            mumu_serial: None,
            down_points: HashMap::new(),
            last_points: HashMap::new(),
            target_width: 2460,
            target_height: 1080,
        };
        assert(r.spec_tracks().0 =~= Map::<u8, (u32, u32)>::empty());
        assert(r.spec_tracks().1 =~= Map::<u8, (u32, u32)>::empty());
        r
    }

    /// Sets the size of the device the gestures land on.
    pub fn set_target(&mut self, width: u32, height: u32)
        ensures
            final(self).spec_target() == (width, height),
            final(self).spec_peer() == old(self).spec_peer(),
            final(self).spec_serial() == old(self).spec_serial(),
            final(self).spec_tracks() == old(self).spec_tracks(),
    {
        self.target_width = width;
        self.target_height = height;
    }

    /// Forgets the peer, the serial and every recorded pointer.
    pub fn clear_connection(&mut self)
        ensures
            final(self).spec_peer() is None,
            final(self).spec_serial() is None,
            final(self).spec_tracks() == (
                Map::<u8, (u32, u32)>::empty(),
                Map::<u8, (u32, u32)>::empty(),
            ),
            final(self).spec_target() == old(self).spec_target(),
    {
        self.connected_device_ip = None;
        self.mumu_serial = None;
        self.down_points.clear();
        self.last_points.clear();
    }

    /// Records an accepted peer: its address, no serial yet, no pointer.
    pub fn connect(&mut self, ip: String)
        ensures
            final(self).spec_peer() == Some(ip@),
            final(self).spec_serial() is None,
            final(self).spec_tracks() == (
                Map::<u8, (u32, u32)>::empty(),
                Map::<u8, (u32, u32)>::empty(),
            ),
            final(self).spec_target() == old(self).spec_target(),
    {
        self.connected_device_ip = Some(ip);
        self.mumu_serial = None;
        self.down_points.clear();
        self.last_points.clear();
    }

    /// Whether a datagram from `ip` comes from the connected peer.
    pub fn accepts_from(&self, ip: &str) -> (r: bool)
        ensures
            r == (self.spec_peer() == Some(ip@)),
    {
        match &self.connected_device_ip {
            Some(peer) => same_text(peer.as_str(), ip),
            None => false,
        }
    }

    /// The serial resolved for this connection, if any.
    pub fn serial(&self) -> (r: Option<String>)
        ensures
            match r {
                Some(s) => self.spec_serial() == Some(s@),
                None => self.spec_serial() is None,
            },
    {
        match &self.mumu_serial {
            Some(s) => Some(s.clone()),
            None => None,
        }
    }

    /// The serial of the device to drive: the cached one when there is one;
    /// otherwise the one chosen from `listing`, the output of the
    /// device-listing command, which is then cached.
    pub fn ensure_mumu_serial(&mut self, listing: &str) -> (r: Result<String, MumuBridgeError>)
        ensures
            final(self).spec_peer() == old(self).spec_peer(),
            final(self).spec_tracks() == old(self).spec_tracks(),
            final(self).spec_target() == old(self).spec_target(),
            match old(self).spec_serial() {
                Some(s) => r is Ok && r->Ok_0@ == s && final(self).spec_serial() == Some(s),
                None => match chosen_serial(adb_listing(listing@)) {
                    Some(s) => r is Ok && r->Ok_0@ == s && final(self).spec_serial() == Some(s),
                    None => r matches Err(MumuBridgeError::NoDeviceFound)
                        && final(self).spec_serial() is None,
                },
            },
    {
        if let Some(serial) = &self.mumu_serial {
            return Ok(serial.clone());
        }
        let width = if self.target_width > 1 { self.target_width } else { 1 };
        let height = if self.target_height > 1 { self.target_height } else { 1 };
        let bridge = MumuBridge::new(width, height);
        let serial = bridge.discover_serial_from_adb_output(listing)?;
        self.mumu_serial = Some(serial.clone());
        Ok(serial)
    }

    /// Feeds one event of the peer, with its position normalized to
    /// `[0, 1]`, and returns the gesture it completes. Only the tracked
    /// pointer counts; its position is scaled onto the target's pixels.
    pub fn plan_touch_command(
        &mut self,
        pointer_id: u8,
        action: PointerAction,
        x: Fraction,
        y: Fraction,
    ) -> (r: Option<AdbTouchCommand>)
        ensures
            (final(self).spec_tracks(), r) == touch_step(
                old(self).spec_tracks(),
                pointer_id,
                action,
                (
                    Self::pixel_of(x, old(self).spec_target().0),
                    Self::pixel_of(y, old(self).spec_target().1),
                ),
            ),
            final(self).spec_peer() == old(self).spec_peer(),
            final(self).spec_serial() == old(self).spec_serial(),
            final(self).spec_target() == old(self).spec_target(),
    {
        if pointer_id != TRACKED_POINTER {
            return None;
        }
        let wmax = if self.target_width > 1 { self.target_width - 1 } else { 0 };
        let hmax = if self.target_height > 1 { self.target_height - 1 } else { 0 };
        let pos = (scale_clamped(x, wmax), scale_clamped(y, hmax));
        match action {
            PointerAction::Down => {
                self.down_points.insert(pointer_id, pos);
                self.last_points.insert(pointer_id, pos);
                None
            },
            PointerAction::Move => {
                self.last_points.insert(pointer_id, pos);
                None
            },
            PointerAction::Up => {
                let start = match self.down_points.remove(&pointer_id) {
                    Some(p) => p,
                    None => pos,
                };
                let end = match self.last_points.remove(&pointer_id) {
                    Some(p) => p,
                    None => pos,
                };
                let dx: u64 = if start.0 >= end.0 {
                    (start.0 - end.0) as u64
                } else {
                    (end.0 - start.0) as u64
                };
                let dy: u64 = if start.1 >= end.1 {
                    (start.1 - end.1) as u64
                } else {
                    (end.1 - start.1) as u64
                };
                if dx + dy <= TAP_SLOP_PX as u64 {
                    Some(AdbTouchCommand::Tap { x: end.0, y: end.1 })
                } else {
                    Some(
                        AdbTouchCommand::Swipe {
                            start_x: start.0,
                            start_y: start.1,
                            end_x: end.0,
                            end_y: end.1,
                            duration_ms: SWIPE_DURATION_MS,
                        },
                    )
                }
            },
            PointerAction::Cancel => {
                self.down_points.remove(&pointer_id);
                self.last_points.remove(&pointer_id);
                None
            },
        }
    }
}

} // verus!

verus! {

/// A press of the tracked pointer that goes down at `p` and lifts, wherever
/// the lift is reported, is a tap at `p`. One that goes down at `p`, moves to
/// `q` and lifts is a tap at `q` when `q` is within the slop of `p`, and
/// otherwise a swipe from `p` to `q` of the fixed duration. Neither the down
/// nor the move produces a gesture, and the lift forgets the pointer.
pub proof fn lemma_press_is_tap_or_swipe(t: Tracks, p: (u32, u32), q: (u32, u32), lift: (u32, u32))
    ensures
        ({
            let (t1, c1) = touch_step(t, TRACKED_POINTER, PointerAction::Down, p);
            let (t2, c2) = touch_step(t1, TRACKED_POINTER, PointerAction::Up, lift);
            &&& c1 is None
            &&& c2 == Some(AdbTouchCommand::Tap { x: p.0, y: p.1 })
            &&& !t2.0.contains_key(TRACKED_POINTER)
            &&& !t2.1.contains_key(TRACKED_POINTER)
        }),
        ({
            let (t1, c1) = touch_step(t, TRACKED_POINTER, PointerAction::Down, p);
            let (t2, c2) = touch_step(t1, TRACKED_POINTER, PointerAction::Move, q);
            let (t3, c3) = touch_step(t2, TRACKED_POINTER, PointerAction::Up, lift);
            &&& c1 is None
            &&& c2 is None
            &&& manhattan(p, q) <= TAP_SLOP_PX ==> c3 == Some(
                AdbTouchCommand::Tap { x: q.0, y: q.1 },
            )
            &&& manhattan(p, q) > TAP_SLOP_PX ==> c3 == Some(
                AdbTouchCommand::Swipe {
                    start_x: p.0,
                    start_y: p.1,
                    end_x: q.0,
                    end_y: q.1,
                    duration_ms: SWIPE_DURATION_MS,
                },
            )
            &&& !t3.0.contains_key(TRACKED_POINTER)
            &&& !t3.1.contains_key(TRACKED_POINTER)
        }),
{
    let (t1, c1) = touch_step(t, TRACKED_POINTER, PointerAction::Down, p);
    assert(t1.0[TRACKED_POINTER] == p && t1.1[TRACKED_POINTER] == p);
    let (t2, c2) = touch_step(t1, TRACKED_POINTER, PointerAction::Move, q);
    assert(t2.0[TRACKED_POINTER] == p && t2.1[TRACKED_POINTER] == q);
}

} // verus!
