use host_core::pipeline::{build_locked_pipeline, HostCapability, PipelineError};
use host_core::profile::{Codec, LockPolicy, RuntimeProfile};

#[test]
fn pipeline_builds_when_capability_matches_locked_profile() {
    let profile = RuntimeProfile::new(2460, 1080, 144, 80_000, Codec::Hevc, LockPolicy::TurboLock)
        .expect("valid profile");

    let capability = HostCapability {
        max_width: 2560,
        max_height: 1440,
        max_fps: 144,
        codecs: vec![Codec::Hevc, Codec::H264],
    };

    let pipeline = build_locked_pipeline(&profile, &capability).expect("pipeline");
    assert_eq!(pipeline.encoder.codec, Codec::Hevc);
    assert!(pipeline.encoder.low_latency);
    assert!(pipeline.transport.force_lan_mode);
}

#[test]
fn pipeline_rejects_profile_when_codec_is_not_supported() {
    let profile = RuntimeProfile::new(2460, 1080, 144, 80_000, Codec::Hevc, LockPolicy::TurboLock)
        .expect("valid profile");
    let capability = HostCapability {
        max_width: 3840,
        max_height: 2160,
        max_fps: 240,
        codecs: vec![Codec::H264],
    };

    let err = build_locked_pipeline(&profile, &capability).expect_err("unsupported codec");
    assert!(matches!(err, PipelineError::CodecUnsupported(Codec::Hevc)));
}

#[test]
fn pipeline_rejects_profile_when_fps_exceeds_capability() {
    let profile = RuntimeProfile::new(1920, 1080, 144, 80_000, Codec::H264, LockPolicy::TurboLock)
        .expect("valid profile");
    let capability = HostCapability {
        max_width: 2560,
        max_height: 1440,
        max_fps: 120,
        codecs: vec![Codec::H264],
    };

    let err = build_locked_pipeline(&profile, &capability).expect_err("fps should be rejected");
    assert!(matches!(
        err,
        PipelineError::FpsUnsupported {
            requested: 144,
            max: 120
        }
    ));
}

#[test]
fn resolution_failure_wins_over_fps_and_codec() {
    let profile = RuntimeProfile::new(2460, 1080, 144, 80_000, Codec::Hevc, LockPolicy::TurboLock)
        .expect("valid profile");
    let capability = HostCapability {
        max_width: 1920,
        max_height: 1080,
        max_fps: 120,
        codecs: vec![Codec::H264],
    };
    let err = build_locked_pipeline(&profile, &capability).expect_err("too wide");
    assert_eq!(
        err,
        PipelineError::ResolutionUnsupported {
            requested_width: 2460,
            requested_height: 1080,
            max_width: 1920,
            max_height: 1080,
        }
    );
}

#[test]
fn descriptors_follow_the_profile() {
    let capability = HostCapability {
        max_width: 2560,
        max_height: 1440,
        max_fps: 144,
        codecs: vec![Codec::H264, Codec::Hevc],
    };
    let fast = RuntimeProfile::new(1600, 900, 90, 30_000, Codec::H264, LockPolicy::TurboLock)
        .expect("valid profile");
    let p = build_locked_pipeline(&fast, &capability).expect("pipeline");
    assert_eq!((p.capture.width, p.capture.height, p.capture.fps), (1600, 900, 90));
    assert_eq!(p.capture.source_hint, "mumu-window");
    assert_eq!(p.encoder.preset, "p3_low_latency");
    assert_eq!(p.encoder.target_bitrate_kbps, 30_000);
    assert!(p.transport.enable_unordered_move_channel);
    assert_eq!(p.transport.max_datagram_size, 1200);

    let hq = RuntimeProfile::new(1920, 1080, 120, 60_000, Codec::Hevc, LockPolicy::TurboLock)
        .expect("valid profile");
    let p = build_locked_pipeline(&hq, &capability).expect("pipeline");
    assert_eq!(p.encoder.preset, "p1_low_latency_hq");
    assert_eq!(p.encoder.codec, Codec::Hevc);
}
