//! Negotiation of a requested profile against what the host can serve.
use vstd::prelude::*;

use crate::capture::CaptureDescriptor;
use crate::encode::EncoderDescriptor;
use crate::profile::{Codec, RuntimeProfile};
use crate::transport::TransportDescriptor;

verus! {

/// The static ceiling the host can serve.
#[derive(Debug, Clone, PartialEq, Eq)]
pub struct HostCapability {
    pub max_width: u16,
    pub max_height: u16,
    pub max_fps: u16,
    pub codecs: Vec<Codec>,
}

/// What an active session runs: produced only by a successful negotiation.
#[derive(Debug, PartialEq, Eq)]
pub struct PipelineDescriptor {
    pub capture: CaptureDescriptor,
    pub encoder: EncoderDescriptor,
    pub transport: TransportDescriptor,
}

impl Clone for PipelineDescriptor {
    fn clone(&self) -> (r: Self)
        ensures
            r == *self,
    {
        PipelineDescriptor {
            capture: self.capture.clone(),
            encoder: self.encoder.clone(),
            transport: self.transport,
        }
    }
}

impl PipelineDescriptor {
    /// The descriptors that locking `profile` produces.
    pub open spec fn describes(&self, profile: RuntimeProfile) -> bool {
        &&& self.capture.describes(profile)
        &&& self.encoder.describes(profile)
        &&& self.transport.is_lan_low_latency()
    }
}

/// Why a profile could not be locked against a capability.
#[derive(Debug, Clone, Copy, PartialEq, Eq, Structural)]
pub enum PipelineError {
    CodecUnsupported(Codec),
    FpsUnsupported { requested: u16, max: u16 },
    ResolutionUnsupported {
        requested_width: u16,
        requested_height: u16,
        max_width: u16,
        max_height: u16,
    },
}

/// The first check that `profile` fails against `capability`, in the order
/// resolution, fps, codec; `None` when it passes all three.
pub open spec fn pipeline_violation(profile: RuntimeProfile, capability: HostCapability) -> Option<
    PipelineError,
> {
    if profile.width > capability.max_width || profile.height > capability.max_height {
        Some(
            PipelineError::ResolutionUnsupported {
                requested_width: profile.width,
                requested_height: profile.height,
                max_width: capability.max_width,
                max_height: capability.max_height,
            },
        )
    } else if profile.fps > capability.max_fps {
        Some(PipelineError::FpsUnsupported { requested: profile.fps, max: capability.max_fps })
    } else if !capability.codecs@.contains(profile.codec) {
        Some(PipelineError::CodecUnsupported(profile.codec))
    } else {
        None
    }
}

/// Validates `profile` against `capability` and freezes it into descriptors.
pub fn build_locked_pipeline(profile: &RuntimeProfile, capability: &HostCapability) -> (r: Result<
    PipelineDescriptor,
    PipelineError,
>)
    ensures
        match pipeline_violation(*profile, *capability) {
            Some(e) => r == Err::<PipelineDescriptor, PipelineError>(e),
            None => r is Ok && r->Ok_0.describes(*profile),
        },
{
    if profile.width > capability.max_width || profile.height > capability.max_height {
        return Err(
            PipelineError::ResolutionUnsupported {
                requested_width: profile.width,
                requested_height: profile.height,
                max_width: capability.max_width,
                max_height: capability.max_height,
            },
        );
    }
    if profile.fps > capability.max_fps {
        return Err(PipelineError::FpsUnsupported { requested: profile.fps, max: capability.max_fps });
    }
    let mut found = false;
    let mut i: usize = 0;
    while i < capability.codecs.len()
        invariant
            i <= capability.codecs@.len(),
            found == (exists|j: int| 0 <= j < i && capability.codecs@[j] == profile.codec),
        decreases capability.codecs@.len() - i,
    {
        if capability.codecs[i] == profile.codec {
            found = true;
        }
        i = i + 1;
    }
    if !found {
        return Err(PipelineError::CodecUnsupported(profile.codec));
    }
    Ok(
        PipelineDescriptor {
            capture: CaptureDescriptor::from_profile(profile),
            encoder: EncoderDescriptor::from_profile(profile),
            transport: TransportDescriptor::lan_low_latency(),
        },
    )
}

} // verus!

verus! {

/// The checks are taken in a fixed order and the first failing one is
/// reported: a resolution beyond the ceiling is reported as such whatever the
/// fps and codec, an fps beyond the ceiling is reported whatever the codec,
/// and a profile that passes all three is locked.
pub proof fn lemma_first_failing_check_wins(profile: RuntimeProfile, capability: HostCapability)
    ensures
        profile.width > capability.max_width || profile.height > capability.max_height
            ==> pipeline_violation(profile, capability) == Some(
            PipelineError::ResolutionUnsupported {
                requested_width: profile.width,
                requested_height: profile.height,
                max_width: capability.max_width,
                max_height: capability.max_height,
            },
        ),
        profile.width <= capability.max_width && profile.height <= capability.max_height
            && profile.fps > capability.max_fps ==> pipeline_violation(profile, capability)
            == Some(
            PipelineError::FpsUnsupported { requested: profile.fps, max: capability.max_fps },
        ),
        profile.width <= capability.max_width && profile.height <= capability.max_height
            && profile.fps <= capability.max_fps && !capability.codecs@.contains(profile.codec)
            ==> pipeline_violation(profile, capability) == Some(
            PipelineError::CodecUnsupported(profile.codec),
        ),
        profile.width <= capability.max_width && profile.height <= capability.max_height
            && profile.fps <= capability.max_fps && capability.codecs@.contains(profile.codec)
            ==> pipeline_violation(profile, capability) is None,
{
}

} // verus!
