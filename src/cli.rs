//! Reading a requested profile from text: integers, `WIDTHxHEIGHT`
//! resolutions, codec names and lock policies.
use vstd::prelude::*;

use crate::pipeline::HostCapability;
use crate::profile::{profile_violation, Codec, LockPolicy, ProfileError, RuntimeProfile};
use crate::text::{chars_of, parse_unsigned, parse_unsigned_text, same_text};

verus! {

/// Reads a decimal `u16`.
pub fn parse_u16(value: &str) -> (r: Option<u16>)
    ensures
        match parse_unsigned(value@, 65535) {
            Some(v) => r is Some && r->Some_0 == v,
            None => r is None,
        },
{
    match parse_unsigned_text(value, 65535) {
        Some(v) => Some(v as u16),
        None => None,
    }
}

/// Reads a decimal `u32`.
pub fn parse_u32(value: &str) -> (r: Option<u32>)
    ensures
        match parse_unsigned(value@, 4294967295) {
            Some(v) => r is Some && r->Some_0 == v,
            None => r is None,
        },
{
    parse_unsigned_text(value, 4294967295)
}

/// Why a resolution text was refused.
#[derive(Debug, Clone, Copy, PartialEq, Eq, Structural)]
pub enum ResolutionError {
    MissingSeparator,
    InvalidWidth,
    InvalidHeight,
}

/// Index of the first `x` at or after `i`, or the length of `s`.
pub open spec fn x_index(s: Seq<char>, i: int) -> int
    decreases s.len() - i,
{
    if i < 0 || i >= s.len() {
        s.len() as int
    } else if s[i] == 'x' {
        i
    } else {
        x_index(s, i + 1)
    }
}

/// The resolution spelled `WIDTHxHEIGHT`, split at the first `x`.
pub open spec fn resolution_of(s: Seq<char>) -> Result<(u16, u16), ResolutionError> {
    let k = x_index(s, 0);
    if k >= s.len() {
        Err(ResolutionError::MissingSeparator)
    } else {
        match parse_unsigned(s.subrange(0, k), 65535) {
            None => Err(ResolutionError::InvalidWidth),
            Some(w) => match parse_unsigned(s.subrange(k + 1, s.len() as int), 65535) {
                None => Err(ResolutionError::InvalidHeight),
                Some(h) => Ok((w as u16, h as u16)),
            },
        }
    }
}

/// Reads a `WIDTHxHEIGHT` resolution.
pub fn parse_resolution(value: &str) -> (r: Result<(u16, u16), ResolutionError>)
    ensures
        r == resolution_of(value@),
{
    let cs = chars_of(value);
    let n = cs.len();
    let mut k: usize = 0;
    while k < n && cs[k] != 'x'
        invariant
            k <= n,
            n == cs@.len(),
            x_index(cs@, k as int) == x_index(cs@, 0),
        decreases n - k,
    {
        k = k + 1;
    }
    if k >= n {
        return Err(ResolutionError::MissingSeparator);
    }
    let width = match parse_u16(value.substring_char(0, k)) {
        Some(w) => w,
        None => {
            return Err(ResolutionError::InvalidWidth);
        },
    };
    let height = match parse_u16(value.substring_char(k + 1, n)) {
        Some(h) => h,
        None => {
            return Err(ResolutionError::InvalidHeight);
        },
    };
    Ok((width, height))
}

/// The codec named `h264` or `hevc`.
pub open spec fn codec_named(s: Seq<char>) -> Option<Codec> {
    if s == "h264"@ {
        Some(Codec::H264)
    } else if s == "hevc"@ {
        Some(Codec::Hevc)
    } else {
        None
    }
}

/// Reads a codec name.
pub fn parse_codec(value: &str) -> (r: Option<Codec>)
    ensures
        r == codec_named(value@),
{
    if same_text(value, "h264") {
        Some(Codec::H264)
    } else if same_text(value, "hevc") {
        Some(Codec::Hevc)
    } else {
        None
    }
}

/// What the host serves: up to 2560 x 1440 at 144 fps, HEVC or H.264.
pub fn default_host_capability() -> (r: HostCapability)
    ensures
        r.max_width == 2560,
        r.max_height == 1440,
        r.max_fps == 144,
        r.codecs@ == seq![Codec::Hevc, Codec::H264],
{
    let mut codecs: Vec<Codec> = Vec::new();
    codecs.push(Codec::Hevc);
    codecs.push(Codec::H264);
    assert(codecs@ =~= seq![Codec::Hevc, Codec::H264]);
    HostCapability { max_width: 2560, max_height: 1440, max_fps: 144, codecs }
}

/// Why a session request was refused before negotiation.
#[derive(Debug, Clone, Copy, PartialEq, Eq, Structural)]
pub enum SessionRequestError {
    LockPolicy,
    Resolution(ResolutionError),
    Profile(ProfileError),
}

/// The profile a session request asks for: the lock policy must be
/// `turbo_lock`, the resolution `WIDTHxHEIGHT`, and the codec is HEVC.
pub open spec fn requested_profile(
    lock_policy: Seq<char>,
    resolution: Seq<char>,
    fps: u16,
    bitrate_kbps: u32,
) -> Result<RuntimeProfile, SessionRequestError> {
    if lock_policy != "turbo_lock"@ {
        Err(SessionRequestError::LockPolicy)
    } else {
        match resolution_of(resolution) {
            Err(e) => Err(SessionRequestError::Resolution(e)),
            Ok((w, h)) => match profile_violation(w, h, fps, bitrate_kbps) {
                Some(e) => Err(SessionRequestError::Profile(e)),
                None => Ok(
                    RuntimeProfile {
                        width: w,
                        height: h,
                        fps,
                        target_bitrate_kbps: bitrate_kbps,
                        codec: Codec::Hevc,
                        lock_policy: LockPolicy::TurboLock,
                    },
                ),
            },
        }
    }
}

/// Builds the profile of a session request; see `requested_profile`.
pub fn profile_from_request(
    lock_policy: &str,
    resolution: &str,
    fps: u16,
    bitrate_kbps: u32,
) -> (r: Result<RuntimeProfile, SessionRequestError>)
    ensures
        r == requested_profile(lock_policy@, resolution@, fps, bitrate_kbps),
{
    if !same_text(lock_policy, "turbo_lock") {
        return Err(SessionRequestError::LockPolicy);
    }
    let (width, height) = match parse_resolution(resolution) {
        Ok(wh) => wh,
        Err(e) => {
            return Err(SessionRequestError::Resolution(e));
        },
    };
    match RuntimeProfile::new(width, height, fps, bitrate_kbps, Codec::Hevc, LockPolicy::TurboLock) {
        Ok(p) => Ok(p),
        Err(e) => Err(SessionRequestError::Profile(e)),
    }
}

/// An option of the command line that takes a value.
#[derive(Debug, Clone, Copy, PartialEq, Eq, Structural)]
pub enum CliOption {
    Fps,
    Resolution,
    Bitrate,
    Codec,
}

/// Why the command line was refused.
#[derive(Debug, Clone, PartialEq, Eq)]
pub enum CliError {
    MissingValue(CliOption),
    InvalidValue(CliOption),
    UnknownArgument(String),
    Profile(ProfileError),
}

/// A command-line error as a mathematical value.
pub enum CliErrorModel {
    MissingValue(CliOption),
    InvalidValue(CliOption),
    UnknownArgument(Seq<char>),
    Profile(ProfileError),
}

impl View for CliError {
    type V = CliErrorModel;

    open spec fn view(&self) -> CliErrorModel {
        match self {
            CliError::MissingValue(o) => CliErrorModel::MissingValue(*o),
            CliError::InvalidValue(o) => CliErrorModel::InvalidValue(*o),
            CliError::UnknownArgument(a) => CliErrorModel::UnknownArgument(a@),
            CliError::Profile(e) => CliErrorModel::Profile(*e),
        }
    }
}

/// The settings the command line has given so far.
#[derive(Debug, Clone, Copy, PartialEq, Eq, Structural)]
pub struct CliSettings {
    pub width: u16,
    pub height: u16,
    pub fps: u16,
    pub bitrate_kbps: u32,
    pub codec: Codec,
}

/// Settings before any option: 2460 x 1080 at 144 fps, 80000 kbps, HEVC.
pub open spec fn default_settings() -> CliSettings {
    CliSettings { width: 2460, height: 1080, fps: 144, bitrate_kbps: 80000, codec: Codec::Hevc }
}

/// The settings after reading `args` from index `i` on, starting from `st`:
/// each of `--fps`, `--resolution`, `--bitrate` and `--codec` takes the next
/// argument as its value, a later option overriding an earlier one; any
/// other argument is refused.
pub open spec fn settings_from(args: Seq<Seq<char>>, i: int, st: CliSettings) -> Result<
    CliSettings,
    CliErrorModel,
>
    decreases args.len() - i,
{
    if i < 0 || i >= args.len() {
        Ok(st)
    } else {
        let a = args[i];
        let opt = if a == "--fps"@ {
            Some(CliOption::Fps)
        } else if a == "--resolution"@ {
            Some(CliOption::Resolution)
        } else if a == "--bitrate"@ {
            Some(CliOption::Bitrate)
        } else if a == "--codec"@ {
            Some(CliOption::Codec)
        } else {
            None
        };
        match opt {
            None => Err(CliErrorModel::UnknownArgument(a)),
            Some(o) => if i + 1 >= args.len() {
                Err(CliErrorModel::MissingValue(o))
            } else {
                match apply_option(o, args[i + 1], st) {
                    None => Err(CliErrorModel::InvalidValue(o)),
                    Some(next) => settings_from(args, i + 2, next),
                }
            },
        }
    }
}

/// `st` with option `o` set to `value`, if the value is well formed.
pub open spec fn apply_option(o: CliOption, value: Seq<char>, st: CliSettings) -> Option<CliSettings> {
    match o {
        CliOption::Fps => match parse_unsigned(value, 65535) {
            Some(v) => Some(CliSettings { fps: v as u16, ..st }),
            None => None,
        },
        CliOption::Resolution => match resolution_of(value) {
            Ok((w, h)) => Some(CliSettings { width: w, height: h, ..st }),
            Err(_) => None,
        },
        CliOption::Bitrate => match parse_unsigned(value, 4294967295) {
            Some(v) => Some(CliSettings { bitrate_kbps: v as u32, ..st }),
            None => None,
        },
        CliOption::Codec => match codec_named(value) {
            Some(c) => Some(CliSettings { codec: c, ..st }),
            None => None,
        },
    }
}

/// The profile a command line asks for, if it asks for a valid one.
pub open spec fn profile_from_args_spec(args: Seq<Seq<char>>) -> Result<RuntimeProfile, CliErrorModel> {
    match settings_from(args, 0, default_settings()) {
        Err(e) => Err(e),
        Ok(st) => match profile_violation(st.width, st.height, st.fps, st.bitrate_kbps) {
            Some(e) => Err(CliErrorModel::Profile(e)),
            None => Ok(
                RuntimeProfile {
                    width: st.width,
                    height: st.height,
                    fps: st.fps,
                    target_bitrate_kbps: st.bitrate_kbps,
                    codec: st.codec,
                    lock_policy: LockPolicy::TurboLock,
                },
            ),
        },
    }
}

fn option_named(a: &str) -> (r: Option<CliOption>)
    ensures
        r == (if a@ == "--fps"@ {
            Some(CliOption::Fps)
        } else if a@ == "--resolution"@ {
            Some(CliOption::Resolution)
        } else if a@ == "--bitrate"@ {
            Some(CliOption::Bitrate)
        } else if a@ == "--codec"@ {
            Some(CliOption::Codec)
        } else {
            None::<CliOption>
        }),
{
    if same_text(a, "--fps") {
        Some(CliOption::Fps)
    } else if same_text(a, "--resolution") {
        Some(CliOption::Resolution)
    } else if same_text(a, "--bitrate") {
        Some(CliOption::Bitrate)
    } else if same_text(a, "--codec") {
        Some(CliOption::Codec)
    } else {
        None
    }
}

fn apply_option_exec(o: CliOption, value: &str, st: CliSettings) -> (r: Option<CliSettings>)
    ensures
        r == apply_option(o, value@, st),
{
    match o {
        CliOption::Fps => match parse_u16(value) {
            Some(v) => Some(CliSettings { fps: v, ..st }),
            None => None,
        },
        CliOption::Resolution => match parse_resolution(value) {
            Ok((w, h)) => Some(CliSettings { width: w, height: h, ..st }),
            Err(_) => None,
        },
        CliOption::Bitrate => match parse_u32(value) {
            Some(v) => Some(CliSettings { bitrate_kbps: v, ..st }),
            None => None,
        },
        CliOption::Codec => match parse_codec(value) {
            Some(c) => Some(CliSettings { codec: c, ..st }),
            None => None,
        },
    }
}

/// Reads the requested profile from the command-line arguments (without the
/// program name); see `profile_from_args_spec`.
pub fn read_profile_from_args(args: &[String]) -> (r: Result<RuntimeProfile, CliError>)
    ensures
        match profile_from_args_spec(args@.map_values(|a: String| a@)) {
            Ok(p) => r == Ok::<RuntimeProfile, CliError>(p),
            Err(e) => r is Err && r->Err_0@ == e,
        },
{
    let ghost av = args@.map_values(|a: String| a@);
    let mut st = CliSettings {
        width: 2460,
        height: 1080,
        fps: 144,
        bitrate_kbps: 80000,
        codec: Codec::Hevc,
    };
    let mut i: usize = 0;
    while i < args.len()
        invariant
            av == args@.map_values(|a: String| a@),
            i <= args@.len(),
            settings_from(av, i as int, st) == settings_from(av, 0, default_settings()),
        decreases args@.len() - i,
    {
        assert(av[i as int] == args@[i as int]@);
        let o = match option_named(args[i].as_str()) {
            Some(o) => o,
            None => {
                return Err(CliError::UnknownArgument(args[i].clone()));
            },
        };
        if i + 1 >= args.len() {
            return Err(CliError::MissingValue(o));
        }
        assert(av[i + 1] == args@[i + 1]@);
        st = match apply_option_exec(o, args[i + 1].as_str(), st) {
            Some(next) => next,
            None => {
                return Err(CliError::InvalidValue(o));
            },
        };
        i = i + 2;
    }
    match RuntimeProfile::new(st.width, st.height, st.fps, st.bitrate_kbps, st.codec, LockPolicy::TurboLock) {
        Ok(p) => Ok(p),
        Err(e) => Err(CliError::Profile(e)),
    }
}

} // verus!
