use host_core::profile::{Codec, LockPolicy, ProfileError, RuntimeProfile};

#[test]
fn turbo_lock_profile_uses_requested_caps() {
    let profile = RuntimeProfile::new(2460, 1080, 144, 80_000, Codec::Hevc, LockPolicy::TurboLock)
        .expect("profile should be valid");

    assert_eq!(profile.width, 2460);
    assert_eq!(profile.height, 1080);
    assert_eq!(profile.fps, 144);
    assert_eq!(profile.target_bitrate_kbps, 80_000);
    assert_eq!(profile.lock_policy, LockPolicy::TurboLock);
}

#[test]
fn invalid_fps_reports_supported_presets() {
    let err = RuntimeProfile::new(2460, 1080, 75, 80_000, Codec::Hevc, LockPolicy::TurboLock)
        .expect_err("75fps must be rejected");

    assert!(err
        .to_string()
        .contains("supported fps presets: 60, 90, 120, 144"));
}

#[test]
fn invalid_resolution_reports_fallbacks() {
    let err = RuntimeProfile::new(2100, 1000, 120, 50_000, Codec::H264, LockPolicy::TurboLock)
        .expect_err("unknown resolution must be rejected");

    assert!(err
        .to_string()
        .contains("supported resolutions: 1280x720, 1600x900, 1920x1080, 2460x1080"));
}

#[test]
fn fps_error_is_typed_and_names_the_request() {
    let err = RuntimeProfile::new(2460, 1080, 75, 80_000, Codec::Hevc, LockPolicy::TurboLock)
        .expect_err("75fps must be rejected");
    assert_eq!(err, ProfileError::UnsupportedFps(75));
    assert_eq!(
        err.to_string(),
        "unsupported fps preset 75; supported fps presets: 60, 90, 120, 144"
    );
}

#[test]
fn resolution_error_is_typed_and_names_the_request() {
    let err = RuntimeProfile::new(2100, 1000, 120, 50_000, Codec::H264, LockPolicy::TurboLock)
        .expect_err("unknown resolution must be rejected");
    assert_eq!(err, ProfileError::UnsupportedResolution(2100, 1000));
    assert_eq!(
        err.to_string(),
        "unsupported resolution 2100x1000; supported resolutions: 1280x720, 1600x900, 1920x1080, 2460x1080"
    );
}

#[test]
fn zero_bitrate_is_rejected() {
    let err = RuntimeProfile::new(1920, 1080, 60, 0, Codec::H264, LockPolicy::TurboLock)
        .expect_err("zero bitrate must be rejected");
    assert_eq!(err, ProfileError::InvalidBitrate(0));
    assert_eq!(err.to_string(), "target bitrate must be > 0 kbps");
}

#[test]
fn fps_is_checked_before_resolution_and_bitrate() {
    let err = RuntimeProfile::new(1, 1, 61, 0, Codec::H264, LockPolicy::TurboLock)
        .expect_err("every rule is broken");
    assert_eq!(err, ProfileError::UnsupportedFps(61));
    let err = RuntimeProfile::new(1, 1, 90, 0, Codec::H264, LockPolicy::TurboLock)
        .expect_err("resolution and bitrate are broken");
    assert_eq!(err, ProfileError::UnsupportedResolution(1, 1));
}

#[test]
fn every_preset_pair_is_accepted() {
    for fps in [60u16, 90, 120, 144] {
        for (w, h) in [(1280u16, 720u16), (1600, 900), (1920, 1080), (2460, 1080)] {
            let profile = RuntimeProfile::new(w, h, fps, 1, Codec::H264, LockPolicy::TurboLock)
                .expect("preset must be accepted");
            assert_eq!((profile.width, profile.height, profile.fps), (w, h, fps));
        }
    }
}
