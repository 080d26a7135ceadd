//! Bridge to the emulator: picks the device to drive and turns a batch of
//! pointer events into a multi-touch command stream.
use vstd::prelude::*;

use crate::adb::{
    adb_listing,
    best_candidate,
    lemma_best_candidate_in_range,
    find_mumu_candidate,
    parse_adb_devices,
    AdbDevice,
    DeviceStateModel,
};
use crate::minitouch::{
    commit_line,
    payload_text,
    point_line,
    up_line,
    MinitouchBuilder,
    TouchPoint,
};
use crate::protocol::PointerAction;

verus! {

/// Declares `std::io::Error` as an opaque type, so that the error of a failed
/// run of the device-automation executable can be carried as it came.
#[verifier::external_type_specification]
#[verifier::external_body]
pub struct ExIoError(std::io::Error);

/// Why the bridge could not act.
#[derive(Debug)]
pub enum MumuBridgeError {
    NoDeviceFound,
    EmptyEventBatch,
    AdbExecution(std::io::Error),
    AdbFailed(String),
}

/// A pointer event already scaled to the target: position in device pixels,
/// pressure in percent.
#[derive(Debug, Clone, Copy, PartialEq, Eq, Structural)]
pub struct ScaledEvent {
    pub pointer_id: u8,
    pub action: PointerAction,
    pub x: u32,
    pub y: u32,
    pub pressure: u32,
}

/// The command line for one scaled event.
pub open spec fn event_line(e: ScaledEvent) -> Seq<char> {
    let p = TouchPoint { slot: e.pointer_id, x: e.x, y: e.y, pressure: e.pressure };
    match e.action {
        PointerAction::Down => point_line('d', p),
        PointerAction::Move => point_line('m', p),
        PointerAction::Up | PointerAction::Cancel => up_line(e.pointer_id),
    }
}

/// The serial that the candidate scan settles on for a device listing.
pub open spec fn chosen_serial(devices: Seq<(Seq<char>, DeviceStateModel)>) -> Option<Seq<char>> {
    match best_candidate(devices, devices.len() as int) {
        Some(k) => Some(devices[k].0),
        None => None,
    }
}

/// The device bridge for a target of the given size in pixels.
#[derive(Debug, Clone, Copy)]
pub struct MumuBridge {
    width: u32,
    height: u32,
}

impl MumuBridge {
    pub closed spec fn spec_width(&self) -> u32 {
        self.width
    }

    pub closed spec fn spec_height(&self) -> u32 {
        self.height
    }

    pub fn new(width: u32, height: u32) -> (r: Self)
        ensures
            r.spec_width() == width,
            r.spec_height() == height,
    {
        MumuBridge { width, height }
    }

    pub fn width(&self) -> (r: u32)
        ensures
            r == self.spec_width(),
    {
        self.width
    }

    pub fn height(&self) -> (r: u32)
        ensures
            r == self.spec_height(),
    {
        self.height
    }

    /// The serial of the device to drive, read from the output of the
    /// device-listing command.
    pub fn discover_serial_from_adb_output(&self, raw: &str) -> (r: Result<String, MumuBridgeError>)
        ensures
            match chosen_serial(adb_listing(raw@)) {
                Some(s) => r is Ok && r->Ok_0@ == s,
                None => r matches Err(MumuBridgeError::NoDeviceFound),
            },
    {
        let devices = parse_adb_devices(raw);
        let ghost views = devices@.map_values(|d: AdbDevice| d@);
        assert(views.len() == devices@.len());
        match find_mumu_candidate(devices.as_slice()) {
            Some(device) => {
                let ghost k = best_candidate(views, views.len() as int)->Some_0;
                proof {
                    lemma_best_candidate_in_range(views, views.len() as int);
                }
                assert(views[k] == devices@[k]@);
                Ok(device.serial)
            },
            None => Err(MumuBridgeError::NoDeviceFound),
        }
    }

    /// The command stream for a batch: one line per event, in order, then
    /// the commit line. An empty batch is refused.
    pub fn build_minitouch_payload(&self, events: &[ScaledEvent]) -> (r: Result<
        String,
        MumuBridgeError,
    >)
        ensures
            events@.len() == 0 ==> r matches Err(MumuBridgeError::EmptyEventBatch),
            events@.len() > 0 ==> r is Ok && r->Ok_0@ == payload_text(
                events@.map_values(|e: ScaledEvent| event_line(e)).push(commit_line()),
            ),
    {
        if events.len() == 0 {
            return Err(MumuBridgeError::EmptyEventBatch);
        }
        let mut builder = MinitouchBuilder::default();
        let mut i: usize = 0;
        while i < events.len()
            invariant
                i <= events@.len(),
                builder@ == events@.subrange(0, i as int).map_values(
                    |e: ScaledEvent| event_line(e),
                ),
            decreases events@.len() - i,
        {
            let event = events[i];
            let point = TouchPoint::new(event.pointer_id, event.x, event.y, event.pressure);
            builder = match event.action {
                PointerAction::Down => builder.down(point),
                PointerAction::Move => builder.move_to(point),
                PointerAction::Up | PointerAction::Cancel => builder.up(event.pointer_id),
            };
            assert(events@.subrange(0, i + 1).map_values(|e: ScaledEvent| event_line(e))
                =~= events@.subrange(0, i as int).map_values(|e: ScaledEvent| event_line(e)).push(
                event_line(events@[i as int]),
            ));
            i = i + 1;
        }
        assert(events@.subrange(0, i as int) =~= events@);
        builder = builder.commit();
        Ok(builder.to_string())
    }
}

} // verus!
