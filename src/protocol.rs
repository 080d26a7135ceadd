//! Control frames: pointer actions and the semantic checks a decoded touch
//! frame must pass.
use vstd::prelude::*;

verus! {

/// Largest number of pointer events one touch frame may carry.
pub const MAX_EVENTS_PER_FRAME: usize = 32;

/// Phase of a pointer event.
#[derive(Debug, Clone, Copy, PartialEq, Eq, Structural)]
pub enum PointerAction {
    Down,
    Move,
    Up,
    Cancel,
}

/// Outcome of the range checks on one pointer event: whether both
/// coordinates, and whether the pressure, are finite and within `[0, 1]`.
#[derive(Debug, Clone, Copy, PartialEq, Eq, Structural)]
pub struct EventRanges {
    pub coordinates_ok: bool,
    pub pressure_ok: bool,
}

/// Why a control payload was refused.
#[derive(Debug, Clone, Copy, PartialEq, Eq, Structural)]
pub enum FrameError {
    EmptyPayload,
    EmptyTouchFrame,
    TooManyEvents(usize),
    InvalidCoordinateRange,
    InvalidPressureRange,
}

/// The error of the first event, from `i` on, that fails a range check:
/// coordinates are checked before pressure.
pub open spec fn first_range_error(events: Seq<EventRanges>, i: int) -> Option<FrameError>
    decreases events.len() - i,
{
    if i < 0 || i >= events.len() {
        None
    } else if !events[i].coordinates_ok {
        Some(FrameError::InvalidCoordinateRange)
    } else if !events[i].pressure_ok {
        Some(FrameError::InvalidPressureRange)
    } else {
        first_range_error(events, i + 1)
    }
}

/// The error a touch frame with these events is refused with, if any.
pub open spec fn touch_frame_error(events: Seq<EventRanges>) -> Option<FrameError> {
    if events.len() == 0 {
        Some(FrameError::EmptyTouchFrame)
    } else if events.len() > MAX_EVENTS_PER_FRAME {
        Some(FrameError::TooManyEvents(events.len() as usize))
    } else {
        first_range_error(events, 0)
    }
}

/// A payload must not be empty.
pub fn check_payload(payload: &[u8]) -> (r: Result<(), FrameError>)
    ensures
        payload@.len() == 0 <==> r == Err::<(), FrameError>(FrameError::EmptyPayload),
        payload@.len() != 0 <==> r is Ok,
{
    if payload.len() == 0 {
        Err(FrameError::EmptyPayload)
    } else {
        Ok(())
    }
}

/// Checks the events of a decoded touch frame: at least one, at most
/// `MAX_EVENTS_PER_FRAME`, and every one within range.
pub fn validate_touch_events(events: &[EventRanges]) -> (r: Result<(), FrameError>)
    ensures
        match touch_frame_error(events@) {
            Some(e) => r == Err::<(), FrameError>(e),
            None => r is Ok,
        },
{
    if events.len() == 0 {
        return Err(FrameError::EmptyTouchFrame);
    }
    if events.len() > MAX_EVENTS_PER_FRAME {
        return Err(FrameError::TooManyEvents(events.len()));
    }
    let mut i: usize = 0;
    while i < events.len()
        invariant
            i <= events@.len(),
            0 < events@.len() <= MAX_EVENTS_PER_FRAME,
            first_range_error(events@, 0) == first_range_error(events@, i as int),
        decreases events@.len() - i,
    {
        assert(events[i as int] == events@[i as int]);
        if !events[i].coordinates_ok {
            return Err(FrameError::InvalidCoordinateRange);
        }
        if !events[i].pressure_ok {
            return Err(FrameError::InvalidPressureRange);
        }
        i = i + 1;
    }
    Ok(())
}

} // verus!
