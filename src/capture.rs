//! Screen-capture descriptor derived from a locked profile.
use vstd::prelude::*;

use crate::profile::RuntimeProfile;

verus! {

/// What the capture stage grabs, and from which window.
#[derive(Debug, PartialEq, Eq)]
pub struct CaptureDescriptor {
    pub width: u16,
    pub height: u16,
    pub fps: u16,
    pub source_hint: String,
}

impl Clone for CaptureDescriptor {
    fn clone(&self) -> (r: Self)
        ensures
            r == *self,
    {
        CaptureDescriptor {
            width: self.width,
            height: self.height,
            fps: self.fps,
            source_hint: self.source_hint.clone(),
        }
    }
}

impl CaptureDescriptor {
    /// Capture mirrors the requested geometry and rate.
    pub open spec fn describes(&self, profile: RuntimeProfile) -> bool {
        &&& self.width == profile.width
        &&& self.height == profile.height
        &&& self.fps == profile.fps
        &&& self.source_hint@ == "mumu-window"@
    }

    pub fn from_profile(profile: &RuntimeProfile) -> (r: Self)
        ensures
            r.describes(*profile),
    {
        CaptureDescriptor {
            width: profile.width,
            height: profile.height,
            fps: profile.fps,
            source_hint: String::from_str("mumu-window"),
        }
    }
}

} // verus!
