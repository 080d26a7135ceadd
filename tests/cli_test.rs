use host_core::cli::{
    default_host_capability, parse_codec, parse_resolution, parse_u16, parse_u32,
    profile_from_request, read_profile_from_args, CliError, CliOption, ResolutionError,
    SessionRequestError,
};
use host_core::profile::{Codec, ProfileError};

#[test]
fn integers_parse_like_the_standard_library() {
    assert_eq!(parse_u16("144"), Some(144));
    assert_eq!(parse_u16("+7"), Some(7));
    assert_eq!(parse_u16("65535"), Some(65535));
    assert_eq!(parse_u16("65536"), None);
    assert_eq!(parse_u16(""), None);
    assert_eq!(parse_u16("+"), None);
    assert_eq!(parse_u16("-1"), None);
    assert_eq!(parse_u16(" 1"), None);
    assert_eq!(parse_u32("4294967295"), Some(4294967295));
    assert_eq!(parse_u32("4294967296"), None);
    assert_eq!(parse_u32("80000"), Some(80000));
}

#[test]
fn resolutions_split_at_the_first_x() {
    assert_eq!(parse_resolution("2460x1080"), Ok((2460, 1080)));
    assert_eq!(parse_resolution("2460*1080"), Err(ResolutionError::MissingSeparator));
    assert_eq!(parse_resolution("x1080"), Err(ResolutionError::InvalidWidth));
    assert_eq!(parse_resolution("1920x1080x2"), Err(ResolutionError::InvalidHeight));
}

#[test]
fn codec_names() {
    assert_eq!(parse_codec("h264"), Some(Codec::H264));
    assert_eq!(parse_codec("hevc"), Some(Codec::Hevc));
    assert_eq!(parse_codec("HEVC"), None);
}

#[test]
fn session_requests_become_hevc_profiles() {
    let profile = profile_from_request("turbo_lock", "1920x1080", 120, 50_000).expect("profile");
    assert_eq!((profile.width, profile.height, profile.fps), (1920, 1080, 120));
    assert_eq!(profile.codec, Codec::Hevc);
    assert_eq!(
        profile_from_request("balanced", "1920x1080", 120, 50_000),
        Err(SessionRequestError::LockPolicy)
    );
    assert_eq!(
        profile_from_request("turbo_lock", "1920-1080", 120, 50_000),
        Err(SessionRequestError::Resolution(ResolutionError::MissingSeparator))
    );
    assert_eq!(
        profile_from_request("turbo_lock", "1920x1080", 30, 50_000),
        Err(SessionRequestError::Profile(ProfileError::UnsupportedFps(30)))
    );
}

#[test]
fn host_capability_defaults() {
    let capability = default_host_capability();
    assert_eq!((capability.max_width, capability.max_height, capability.max_fps), (2560, 1440, 144));
    assert_eq!(capability.codecs, vec![Codec::Hevc, Codec::H264]);
}

fn strings(args: &[&str]) -> Vec<String> {
    args.iter().map(|a| a.to_string()).collect()
}

#[test]
fn command_line_defaults_and_overrides() {
    let profile = read_profile_from_args(&[]).expect("defaults are valid");
    assert_eq!((profile.width, profile.height, profile.fps), (2460, 1080, 144));
    assert_eq!((profile.target_bitrate_kbps, profile.codec), (80_000, Codec::Hevc));

    let profile = read_profile_from_args(&strings(&[
        "--fps", "60", "--resolution", "1280x720", "--bitrate", "9000", "--codec", "h264", "--fps", "90",
    ]))
    .expect("valid");
    assert_eq!((profile.width, profile.height, profile.fps), (1280, 720, 90));
    assert_eq!((profile.target_bitrate_kbps, profile.codec), (9000, Codec::H264));
}

#[test]
fn command_line_errors() {
    assert_eq!(
        read_profile_from_args(&strings(&["--fps"])),
        Err(CliError::MissingValue(CliOption::Fps))
    );
    assert_eq!(
        read_profile_from_args(&strings(&["--codec", "vp9"])),
        Err(CliError::InvalidValue(CliOption::Codec))
    );
    assert_eq!(
        read_profile_from_args(&strings(&["--verbose"])),
        Err(CliError::UnknownArgument("--verbose".to_string()))
    );
    assert_eq!(
        read_profile_from_args(&strings(&["--fps", "75"])),
        Err(CliError::Profile(ProfileError::UnsupportedFps(75)))
    );
}
