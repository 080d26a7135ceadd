//! Viewport geometry: maps normalized and window-pixel coordinates onto the
//! device's pixel grid for a letterboxed (fit-to-smaller-axis, centred) view.
//!
//! All arithmetic is exact: the scale and the offsets are rationals, and a
//! result is rounded to the nearest integer, halves away from zero.
use vstd::prelude::*;

verus! {

/// A device pixel.
#[derive(Debug, Clone, Copy, PartialEq, Eq, Structural)]
pub struct EmulatorPoint {
    pub x: u32,
    pub y: u32,
}

/// A non-negative rational `num / den`. A zero `den` stands for a value below
/// zero or not a number.
#[derive(Debug, Clone, Copy, PartialEq, Eq, Structural)]
pub struct Fraction {
    pub num: u64,
    pub den: u64,
}

impl Fraction {
    pub fn new(num: u64, den: u64) -> (r: Self)
        ensures
            r == (Fraction { num, den }),
    {
        Fraction { num, den }
    }

    /// The value lies in `[0, 1]`.
    pub open spec fn in_unit_range(&self) -> bool {
        self.den > 0 && self.num <= self.den
    }
}

/// Why a coordinate could not be mapped.
#[derive(Debug, Clone, Copy, PartialEq, Eq, Structural)]
pub enum MappingError {
    InvalidDimensions,
    OutOfRangeNormalized,
    OutOfWindowBounds,
    OutsideActiveViewport,
}

impl MappingError {
    /// Describes the error.
    pub fn to_string(&self) -> (r: String)
        ensures
            r@ == match *self {
                MappingError::InvalidDimensions => "window/emulator dimensions must be > 0"@,
                MappingError::OutOfRangeNormalized =>
                    "normalized coordinates must be in range [0.0, 1.0]"@,
                MappingError::OutOfWindowBounds =>
                    "window coordinates are outside host window bounds"@,
                MappingError::OutsideActiveViewport =>
                    "window coordinates are outside active emulator viewport"@,
            },
    {
        match *self {
            MappingError::InvalidDimensions => String::from_str(
                "window/emulator dimensions must be > 0",
            ),
            MappingError::OutOfRangeNormalized => String::from_str(
                "normalized coordinates must be in range [0.0, 1.0]",
            ),
            MappingError::OutOfWindowBounds => String::from_str(
                "window coordinates are outside host window bounds",
            ),
            MappingError::OutsideActiveViewport => String::from_str(
                "window coordinates are outside active emulator viewport",
            ),
        }
    }
}

/// `n / d` rounded to the nearest integer, halves away from zero (`n >= 0`, `d > 0`).
pub open spec fn round_div(n: int, d: int) -> int {
    (2 * n + d) / (2 * d)
}

/// `v` clamped to `[0, 1]`, times `max`, rounded; a value below zero or not
/// a number counts as zero.
pub open spec fn scale_clamped_spec(v: Fraction, max: u32) -> int {
    if v.den == 0 {
        0
    } else if v.num >= v.den {
        max as int
    } else {
        round_div(v.num * max, v.den as int)
    }
}

proof fn lemma_round_div_bounds(n: int, d: int, m: int)
    requires
        0 <= n <= d * m,
        d > 0,
        m >= 0,
    ensures
        0 <= round_div(n, d) <= m,
{
    assert(2 * n + d < 2 * d * (m + 1)) by (nonlinear_arith)
        requires
            0 <= n <= d * m,
            d > 0,
    ;
    assert((2 * n + d) / (2 * d) < m + 1) by (nonlinear_arith)
        requires
            2 * n + d < 2 * d * (m + 1),
            d > 0,
            m >= 0,
    ;
    assert(0 <= (2 * n + d) / (2 * d)) by (nonlinear_arith)
        requires
            0 <= n,
            d > 0,
    ;
}

/// Rounds `clamp(v, 0, 1) * max` to the nearest integer.
pub fn scale_clamped(v: Fraction, max: u32) -> (r: u32)
    ensures
        r as int == scale_clamped_spec(v, max),
        r <= max,
{
    if v.den == 0 {
        0
    } else if v.num >= v.den {
        max
    } else {
        proof {
            assert(v.num * max <= v.den * max) by (nonlinear_arith)
                requires
                    v.num < v.den,
            ;
            assert(v.num * max <= u64::MAX as int * u32::MAX as int) by (nonlinear_arith)
                requires
                    v.num <= u64::MAX,
                    max <= u32::MAX,
            ;
            lemma_round_div_bounds(v.num * max, v.den as int, max as int);
        }
        let n = v.num as u128 * max as u128;
        let d = v.den as u128;
        ((2 * n + d) / (2 * d)) as u32
    }
}

/// The scale of the fit as a fraction: the smaller of the two axis ratios.
pub open spec fn fit_scale(ww: int, wh: int, ew: int, eh: int) -> (int, int) {
    if ww * eh <= wh * ew {
        (ww, ew)
    } else {
        (wh, eh)
    }
}

/// Where window coordinate `p` falls on one axis of the device: `None` in the
/// letterbox bars; otherwise `(p - offset) / scale` clamped to
/// `[0, dev - 1]` and rounded, where the scale is `sn / sd` and the offset
/// `(win - dev * scale) / 2`.
pub open spec fn window_axis(p: int, win: int, dev: int, sn: int, sd: int) -> Option<int> {
    let lo = win * sd - dev * sn;
    let hi = win * sd + dev * sn;
    if 2 * sd * p < lo || 2 * sd * p > hi {
        None
    } else {
        let n = 2 * sd * p - lo;
        if n >= 2 * sn * (dev - 1) {
            Some(dev - 1)
        } else {
            Some(round_div(n, 2 * sn))
        }
    }
}

/// Letterboxed geometry of a device image shown in a window.
#[derive(Debug, Clone, Copy, PartialEq, Eq, Structural)]
pub struct ViewportMapping {
    window_width: u32,
    window_height: u32,
    emulator_width: u32,
    emulator_height: u32,
    scale_num: u32,
    scale_den: u32,
}

impl ViewportMapping {
    pub closed spec fn spec_window_width(&self) -> u32 {
        self.window_width
    }

    pub closed spec fn spec_window_height(&self) -> u32 {
        self.window_height
    }

    pub closed spec fn spec_emulator_width(&self) -> u32 {
        self.emulator_width
    }

    pub closed spec fn spec_emulator_height(&self) -> u32 {
        self.emulator_height
    }

    /// The scale of the fit, as a fraction.
    pub closed spec fn spec_scale(&self) -> (int, int) {
        (self.scale_num as int, self.scale_den as int)
    }

    /// All dimensions are positive and the scale is the fit of the two sizes.
    #[verifier::type_invariant]
    pub closed spec fn wf(&self) -> bool {
        &&& self.window_width > 0
        &&& self.window_height > 0
        &&& self.emulator_width > 0
        &&& self.emulator_height > 0
        &&& (self.scale_num as int, self.scale_den as int) == fit_scale(
            self.window_width as int,
            self.window_height as int,
            self.emulator_width as int,
            self.emulator_height as int,
        )
    }

    /// The geometry for a device of `emulator_width` x `emulator_height`
    /// shown in a window of `window_width` x `window_height`.
    pub fn for_letterboxed(
        window_width: u32,
        window_height: u32,
        emulator_width: u32,
        emulator_height: u32,
    ) -> (r: Result<Self, MappingError>)
        ensures
            window_width == 0 || window_height == 0 || emulator_width == 0 || emulator_height
                == 0 <==> r == Err::<Self, MappingError>(MappingError::InvalidDimensions),
            window_width > 0 && window_height > 0 && emulator_width > 0 && emulator_height > 0
                ==> r is Ok,
            r is Ok ==> {
                let m = r->Ok_0;
                &&& m.spec_window_width() == window_width
                &&& m.spec_window_height() == window_height
                &&& m.spec_emulator_width() == emulator_width
                &&& m.spec_emulator_height() == emulator_height
                &&& m.spec_scale() == fit_scale(
                    window_width as int,
                    window_height as int,
                    emulator_width as int,
                    emulator_height as int,
                )
            },
    {
        if window_width == 0 || window_height == 0 || emulator_width == 0 || emulator_height == 0 {
            return Err(MappingError::InvalidDimensions);
        }
        proof {
            assert(window_width * emulator_height <= u32::MAX as int * u32::MAX as int)
                by (nonlinear_arith)
                requires
                    window_width <= u32::MAX,
                    emulator_height <= u32::MAX,
            ;
            assert(window_height * emulator_width <= u32::MAX as int * u32::MAX as int)
                by (nonlinear_arith)
                requires
                    window_height <= u32::MAX,
                    emulator_width <= u32::MAX,
            ;
        }
        let (scale_num, scale_den) = if (window_width as u64) * (emulator_height as u64) <= (
        window_height as u64) * (emulator_width as u64) {
            (window_width, emulator_width)
        } else {
            (window_height, emulator_height)
        };
        Ok(
            ViewportMapping {
                window_width,
                window_height,
                emulator_width,
                emulator_height,
                scale_num,
                scale_den,
            },
        )
    }

    pub fn emulator_width(&self) -> (r: u32)
        ensures
            r == self.spec_emulator_width(),
    {
        self.emulator_width
    }

    pub fn emulator_height(&self) -> (r: u32)
        ensures
            r == self.spec_emulator_height(),
    {
        self.emulator_height
    }

    /// Maps a normalized coordinate pair, each in `[0, 1]`, linearly onto
    /// `[0, dim - 1]` of the device, rounding to the nearest pixel.
    pub fn normalized_to_emulator(&self, x: Fraction, y: Fraction) -> (r: Result<
        EmulatorPoint,
        MappingError,
    >)
        ensures
            !x.in_unit_range() || !y.in_unit_range() <==> r == Err::<
                EmulatorPoint,
                MappingError,
            >(MappingError::OutOfRangeNormalized),
            x.in_unit_range() && y.in_unit_range() ==> r is Ok,
            r is Ok ==> {
                &&& r->Ok_0.x == scale_clamped_spec(x, (self.spec_emulator_width() - 1) as u32)
                &&& r->Ok_0.y == scale_clamped_spec(y, (self.spec_emulator_height() - 1) as u32)
            },
    {
        proof {
            use_type_invariant(self);
        }
        if x.den == 0 || x.num > x.den || y.den == 0 || y.num > y.den {
            return Err(MappingError::OutOfRangeNormalized);
        }
        Ok(
            EmulatorPoint {
                x: scale_clamped(x, self.emulator_width - 1),
                y: scale_clamped(y, self.emulator_height - 1),
            },
        )
    }

    /// Maps a window pixel onto the device: refused outside the window, and
    /// in the letterbox bars around the scaled image.
    pub fn window_to_emulator(&self, x: u32, y: u32) -> (r: Result<EmulatorPoint, MappingError>)
        ensures
            x >= self.spec_window_width() || y >= self.spec_window_height() <==> r == Err::<
                EmulatorPoint,
                MappingError,
            >(MappingError::OutOfWindowBounds),
            x < self.spec_window_width() && y < self.spec_window_height() ==> {
                let ax = window_axis(
                    x as int,
                    self.spec_window_width() as int,
                    self.spec_emulator_width() as int,
                    self.spec_scale().0,
                    self.spec_scale().1,
                );
                let ay = window_axis(
                    y as int,
                    self.spec_window_height() as int,
                    self.spec_emulator_height() as int,
                    self.spec_scale().0,
                    self.spec_scale().1,
                );
                if ax is None || ay is None {
                    r == Err::<EmulatorPoint, MappingError>(MappingError::OutsideActiveViewport)
                } else {
                    r == Ok::<EmulatorPoint, MappingError>(
                        EmulatorPoint { x: ax->Some_0 as u32, y: ay->Some_0 as u32 },
                    )
                }
            },
    {
        proof {
            use_type_invariant(self);
        }
        if x >= self.window_width || y >= self.window_height {
            return Err(MappingError::OutOfWindowBounds);
        }
        let ax = map_axis(x, self.window_width, self.emulator_width, self.scale_num, self.scale_den);
        let ay = map_axis(
            y,
            self.window_height,
            self.emulator_height,
            self.scale_num,
            self.scale_den,
        );
        match (ax, ay) {
            (Some(px), Some(py)) => Ok(EmulatorPoint { x: px, y: py }),
            _ => Err(MappingError::OutsideActiveViewport),
        }
    }
}

fn map_axis(p: u32, win: u32, dev: u32, sn: u32, sd: u32) -> (r: Option<u32>)
    requires
        dev > 0,
        sn > 0,
        sd > 0,
    ensures
        match window_axis(p as int, win as int, dev as int, sn as int, sd as int) {
            Some(v) => r == Some(v as u32) && 0 <= v < dev,
            None => r is None,
        },
{
    let p = p as u128;
    let win = win as u128;
    let dev = dev as u128;
    let sn = sn as u128;
    let sd = sd as u128;
    proof {
        assert(win * sd <= u32::MAX as int * u32::MAX as int) by (nonlinear_arith)
            requires
                win <= u32::MAX,
                sd <= u32::MAX,
        ;
        assert(dev * sn <= u32::MAX as int * u32::MAX as int) by (nonlinear_arith)
            requires
                dev <= u32::MAX,
                sn <= u32::MAX,
        ;
        assert(sd * p <= u32::MAX as int * u32::MAX as int) by (nonlinear_arith)
            requires
                p <= u32::MAX,
                sd <= u32::MAX,
        ;
        assert(sn * (dev - 1) <= u32::MAX as int * u32::MAX as int) by (nonlinear_arith)
            requires
                dev - 1 <= u32::MAX,
                sn <= u32::MAX,
                dev >= 1,
        ;
        assert(2 * sd * p == 2 * (sd * p)) by (nonlinear_arith);
        assert(2 * sn * (dev - 1) == 2 * (sn * (dev - 1))) by (nonlinear_arith);
    }
    let twice_p = 2 * (sd * p);
    let hi = win * sd + dev * sn;
    if twice_p + dev * sn < win * sd || twice_p > hi {
        return None;
    }
    let n = twice_p + dev * sn - win * sd;
    let top = 2 * (sn * (dev - 1));
    if n >= top {
        Some((dev - 1) as u32)
    } else {
        proof {
            lemma_round_div_bounds(n as int, 2 * sn, dev - 1);
        }
        Some(((2 * n + 2 * sn) / (4 * sn)) as u32)
    }
}

} // verus!
