//! Hardware-encoder descriptor derived from a locked profile.
use vstd::prelude::*;

use crate::profile::{Codec, RuntimeProfile};

verus! {

/// Codec, rate and latency preset handed to the encoder.
#[derive(Debug, PartialEq, Eq)]
pub struct EncoderDescriptor {
    pub codec: Codec,
    pub target_bitrate_kbps: u32,
    pub low_latency: bool,
    pub preset: String,
}

impl Clone for EncoderDescriptor {
    fn clone(&self) -> (r: Self)
        ensures
            r == *self,
    {
        EncoderDescriptor {
            codec: self.codec,
            target_bitrate_kbps: self.target_bitrate_kbps,
            low_latency: self.low_latency,
            preset: self.preset.clone(),
        }
    }
}

/// The latency preset for a frame rate: the high-quality one for the top
/// tier (120 and 144 fps), the faster one otherwise.
pub open spec fn preset_for_fps(fps: u16) -> Seq<char> {
    if fps == 120 || fps == 144 {
        "p1_low_latency_hq"@
    } else {
        "p3_low_latency"@
    }
}

impl EncoderDescriptor {
    pub open spec fn describes(&self, profile: RuntimeProfile) -> bool {
        &&& self.codec == profile.codec
        &&& self.target_bitrate_kbps == profile.target_bitrate_kbps
        &&& self.low_latency
        &&& self.preset@ == preset_for_fps(profile.fps)
    }

    pub fn from_profile(profile: &RuntimeProfile) -> (r: Self)
        ensures
            r.describes(*profile),
    {
        let preset = if profile.fps == 120 || profile.fps == 144 {
            "p1_low_latency_hq"
        } else {
            "p3_low_latency"
        };
        EncoderDescriptor {
            codec: profile.codec,
            target_bitrate_kbps: profile.target_bitrate_kbps,
            low_latency: true,
            preset: String::from_str(preset),
        }
    }
}

} // verus!
