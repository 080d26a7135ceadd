//! Requested runtime profile and its validating factory.
use vstd::prelude::*;

use crate::text::{decimal, push_decimal};

verus! {

/// Frame rates a profile may request.
pub const SUPPORTED_FPS: [u16; 4] = [60, 90, 120, 144];

/// Resolutions (width, height) a profile may request.
pub const SUPPORTED_RESOLUTIONS: [(u16, u16); 4] = [(1280, 720), (1600, 900), (1920, 1080), (2460, 1080)];

/// Video codec a session may encode with.
#[derive(Debug, Clone, Copy, PartialEq, Eq, Structural)]
pub enum Codec {
    H264,
    Hevc,
}

/// How a profile is pinned once negotiated.
#[derive(Debug, Clone, Copy, PartialEq, Eq, Structural)]
pub enum LockPolicy {
    TurboLock,
}

/// A requested capture/encode configuration.
#[derive(Debug, Clone, Copy, PartialEq, Eq, Structural)]
pub struct RuntimeProfile {
    pub width: u16,
    pub height: u16,
    pub fps: u16,
    pub target_bitrate_kbps: u32,
    pub codec: Codec,
    pub lock_policy: LockPolicy,
}

/// Why a profile was refused.
#[derive(Debug, Clone, Copy, PartialEq, Eq, Structural)]
pub enum ProfileError {
    UnsupportedFps(u16),
    UnsupportedResolution(u16, u16),
    InvalidBitrate(u32),
}

pub open spec fn fps_supported(fps: u16) -> bool {
    fps == 60 || fps == 90 || fps == 120 || fps == 144
}

pub open spec fn resolution_supported(width: u16, height: u16) -> bool {
    (width == 1280 && height == 720) || (width == 1600 && height == 900) || (width == 1920
        && height == 1080) || (width == 2460 && height == 1080)
}

/// The first rule a requested profile breaks, in the order fps, resolution,
/// bitrate; `None` when it breaks none.
pub open spec fn profile_violation(width: u16, height: u16, fps: u16, bitrate: u32) -> Option<
    ProfileError,
> {
    if !fps_supported(fps) {
        Some(ProfileError::UnsupportedFps(fps))
    } else if !resolution_supported(width, height) {
        Some(ProfileError::UnsupportedResolution(width, height))
    } else if bitrate == 0 {
        Some(ProfileError::InvalidBitrate(bitrate))
    } else {
        None
    }
}

impl RuntimeProfile {
    /// A profile that the factory accepts.
    pub open spec fn valid(&self) -> bool {
        profile_violation(self.width, self.height, self.fps, self.target_bitrate_kbps) is None
    }

    /// Validates the request and builds the profile.
    pub fn new(
        width: u16,
        height: u16,
        fps: u16,
        target_bitrate_kbps: u32,
        codec: Codec,
        lock_policy: LockPolicy,
    ) -> (r: Result<Self, ProfileError>)
        ensures
            match profile_violation(width, height, fps, target_bitrate_kbps) {
                Some(e) => r == Err::<Self, ProfileError>(e),
                None => r == Ok::<Self, ProfileError>(
                    RuntimeProfile { width, height, fps, target_bitrate_kbps, codec, lock_policy },
                ),
            },
    {
        let mut fps_ok = false;
        let mut i: usize = 0;
        while i < SUPPORTED_FPS.len()
            invariant
                i <= SUPPORTED_FPS@.len(),
                SUPPORTED_FPS@ == seq![60u16, 90, 120, 144],
                fps_ok == (exists|j: int| 0 <= j < i && SUPPORTED_FPS@[j] == fps),
            decreases SUPPORTED_FPS@.len() - i,
        {
            if SUPPORTED_FPS[i] == fps {
                fps_ok = true;
            }
            i = i + 1;
        }
        if !fps_ok {
            return Err(ProfileError::UnsupportedFps(fps));
        }
        let mut res_ok = false;
        let mut k: usize = 0;
        while k < SUPPORTED_RESOLUTIONS.len()
            invariant
                k <= SUPPORTED_RESOLUTIONS@.len(),
                SUPPORTED_RESOLUTIONS@ == seq![
                    (1280u16, 720u16),
                    (1600u16, 900u16),
                    (1920u16, 1080u16),
                    (2460u16, 1080u16),
                ],
                res_ok == (exists|j: int|
                    0 <= j < k && SUPPORTED_RESOLUTIONS@[j] == (width, height)),
            decreases SUPPORTED_RESOLUTIONS@.len() - k,
        {
            let (w, h) = SUPPORTED_RESOLUTIONS[k];
            if w == width && h == height {
                res_ok = true;
            }
            k = k + 1;
        }
        if !res_ok {
            return Err(ProfileError::UnsupportedResolution(width, height));
        }
        if target_bitrate_kbps == 0 {
            return Err(ProfileError::InvalidBitrate(target_bitrate_kbps));
        }
        Ok(RuntimeProfile { width, height, fps, target_bitrate_kbps, codec, lock_policy })
    }
}

/// The list of frame rates named in the fps error message.
pub open spec fn fps_list_text() -> Seq<char> {
    "supported fps presets: 60, 90, 120, 144"@
}

/// The list of resolutions named in the resolution error message.
pub open spec fn resolution_list_text() -> Seq<char> {
    "supported resolutions: 1280x720, 1600x900, 1920x1080, 2460x1080"@
}

/// Human-readable text of a profile error.
pub open spec fn profile_error_text(e: ProfileError) -> Seq<char> {
    match e {
        ProfileError::UnsupportedFps(f) => "unsupported fps preset "@ + decimal(f as nat) + "; "@
            + fps_list_text(),
        ProfileError::UnsupportedResolution(w, h) => "unsupported resolution "@ + decimal(
            w as nat,
        ) + "x"@ + decimal(h as nat) + "; "@ + resolution_list_text(),
        ProfileError::InvalidBitrate(_) => "target bitrate must be > 0 kbps"@,
    }
}

impl ProfileError {
    /// Describes the error; the fps and resolution messages list the supported values.
    pub fn to_string(&self) -> (r: String)
        ensures
            r@ == profile_error_text(*self),
    {
        match *self {
            ProfileError::UnsupportedFps(f) => {
                let mut s = String::from_str("unsupported fps preset ");
                push_decimal(&mut s, f as u64);
                s.append("; ");
                s.append("supported fps presets: 60, 90, 120, 144");
                s
            },
            ProfileError::UnsupportedResolution(w, h) => {
                let mut s = String::from_str("unsupported resolution ");
                push_decimal(&mut s, w as u64);
                s.append("x");
                push_decimal(&mut s, h as u64);
                s.append("; ");
                s.append("supported resolutions: 1280x720, 1600x900, 1920x1080, 2460x1080");
                s
            },
            ProfileError::InvalidBitrate(_) => String::from_str("target bitrate must be > 0 kbps"),
        }
    }
}

} // verus!

verus! {

/// `needle` occurs as a contiguous run of characters in `hay`.
pub open spec fn contains_text(hay: Seq<char>, needle: Seq<char>) -> bool {
    exists|i: int|
        0 <= i && i + needle.len() <= hay.len() && #[trigger] hay.subrange(i, i + needle.len())
            == needle
}

/// A request whose fps is not a preset, whose resolution is not in the fixed
/// set, or whose bitrate is zero is refused with the error of the first rule it
/// breaks, and the fps and resolution errors spell out every supported value.
pub proof fn lemma_rejected_profile_lists_supported_values(
    width: u16,
    height: u16,
    fps: u16,
    bitrate: u32,
)
    requires
        !fps_supported(fps) || !resolution_supported(width, height) || bitrate == 0,
    ensures
        profile_violation(width, height, fps, bitrate) is Some,
        !fps_supported(fps) ==> {
            &&& profile_violation(width, height, fps, bitrate) == Some(
                ProfileError::UnsupportedFps(fps),
            )
            &&& contains_text(
                profile_error_text(ProfileError::UnsupportedFps(fps)),
                fps_list_text(),
            )
        },
        fps_supported(fps) && !resolution_supported(width, height) ==> {
            &&& profile_violation(width, height, fps, bitrate) == Some(
                ProfileError::UnsupportedResolution(width, height),
            )
            &&& contains_text(
                profile_error_text(ProfileError::UnsupportedResolution(width, height)),
                resolution_list_text(),
            )
        },
        fps_supported(fps) && resolution_supported(width, height) ==> profile_violation(
            width,
            height,
            fps,
            bitrate,
        ) == Some(ProfileError::InvalidBitrate(0)),
{
    let ft = profile_error_text(ProfileError::UnsupportedFps(fps));
    let fp = "unsupported fps preset "@ + decimal(fps as nat) + "; "@;
    assert(ft =~= fp + fps_list_text());
    assert(ft.subrange(fp.len() as int, fp.len() + fps_list_text().len() as int) =~= fps_list_text());
    let rt = profile_error_text(ProfileError::UnsupportedResolution(width, height));
    let rp = "unsupported resolution "@ + decimal(width as nat) + "x"@ + decimal(height as nat)
        + "; "@;
    assert(rt =~= rp + resolution_list_text());
    assert(rt.subrange(rp.len() as int, rp.len() + resolution_list_text().len() as int)
        =~= resolution_list_text());
}

} // verus!
