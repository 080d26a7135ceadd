use host_core::pipeline::{HostCapability, PipelineError};
use host_core::profile::{Codec, LockPolicy, RuntimeProfile};
use host_core::session::{SessionError, SessionManager, SessionState};

#[test]
fn start_session_moves_state_to_running_when_capability_matches() {
    let profile = RuntimeProfile::new(2460, 1080, 144, 80_000, Codec::Hevc, LockPolicy::TurboLock)
        .expect("profile");
    let capability = HostCapability {
        max_width: 2560,
        max_height: 1440,
        max_fps: 144,
        codecs: vec![Codec::Hevc, Codec::H264],
    };
    let mut manager = SessionManager::new();

    let started = manager.start(profile, capability).expect("start succeeds");

    assert_eq!(manager.state(), SessionState::Running);
    assert_eq!(started.pipeline.capture.fps, 144);
}

#[test]
fn start_session_fails_and_keeps_idle_state_when_capability_is_insufficient() {
    let profile = RuntimeProfile::new(2460, 1080, 144, 80_000, Codec::Hevc, LockPolicy::TurboLock)
        .expect("profile");
    let capability = HostCapability {
        max_width: 1920,
        max_height: 1080,
        max_fps: 120,
        codecs: vec![Codec::H264],
    };
    let mut manager = SessionManager::new();

    let err = manager
        .start(profile, capability)
        .expect_err("insufficient capability");

    assert!(matches!(err, SessionError::Pipeline(_)));
    assert_eq!(manager.state(), SessionState::Idle);
}

#[test]
fn stop_session_moves_running_state_back_to_idle() {
    let profile = RuntimeProfile::new(1920, 1080, 120, 60_000, Codec::H264, LockPolicy::TurboLock)
        .expect("profile");
    let capability = HostCapability {
        max_width: 2560,
        max_height: 1440,
        max_fps: 144,
        codecs: vec![Codec::H264],
    };
    let mut manager = SessionManager::new();

    manager.start(profile, capability).expect("start succeeds");
    manager.stop();

    assert_eq!(manager.state(), SessionState::Idle);
}

fn wide_capability() -> HostCapability {
    HostCapability {
        max_width: 2560,
        max_height: 1440,
        max_fps: 144,
        codecs: vec![Codec::Hevc, Codec::H264],
    }
}

#[test]
fn second_start_while_running_is_refused() {
    let profile = RuntimeProfile::new(1920, 1080, 60, 20_000, Codec::H264, LockPolicy::TurboLock)
        .expect("profile");
    let mut manager = SessionManager::new();
    let started = manager.start(profile, wide_capability()).expect("start succeeds");
    assert_eq!(started.pipeline.encoder.codec, Codec::H264);
    assert!(manager.active().is_some());

    let err = manager
        .start(profile, wide_capability())
        .expect_err("already running");
    assert_eq!(
        err,
        SessionError::InvalidTransition(SessionState::Running, SessionState::Starting)
    );
    assert_eq!(manager.state(), SessionState::Running);
}

#[test]
fn failed_start_reports_the_pipeline_cause() {
    let profile = RuntimeProfile::new(1920, 1080, 144, 20_000, Codec::H264, LockPolicy::TurboLock)
        .expect("profile");
    let capability = HostCapability {
        max_width: 2560,
        max_height: 1440,
        max_fps: 120,
        codecs: vec![Codec::H264],
    };
    let mut manager = SessionManager::new();
    let err = manager.start(profile, capability).expect_err("fps too high");
    assert_eq!(
        err,
        SessionError::Pipeline(PipelineError::FpsUnsupported {
            requested: 144,
            max: 120
        })
    );
    assert!(manager.active().is_none());
}

#[test]
fn stop_from_idle_stays_idle() {
    let mut manager = SessionManager::new();
    manager.stop();
    manager.stop();
    assert_eq!(manager.state(), SessionState::Idle);
    assert!(manager.active().is_none());
}

#[test]
fn restart_after_stop_succeeds() {
    let profile = RuntimeProfile::new(1280, 720, 60, 8_000, Codec::Hevc, LockPolicy::TurboLock)
        .expect("profile");
    let mut manager = SessionManager::new();
    manager.start(profile, wide_capability()).expect("first start");
    manager.stop();
    let started = manager.start(profile, wide_capability()).expect("second start");
    assert_eq!(started.pipeline.capture.width, 1280);
    assert_eq!(manager.state(), SessionState::Running);
}
