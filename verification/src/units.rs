//! Integer arithmetic on frames, frame rates, tempo and time.
//!
//! Positions and durations on a timeline are counted in nanoseconds, tempo in
//! thousandths of a beat per minute, and material in frames. Every conversion
//! rounds in a stated way and saturates at the bounds of its result type, so
//! that none of them can fail.

use vstd::prelude::*;

verus! {

/// Nanoseconds in one second.
pub const NANOS_PER_SECOND: u64 = 1_000_000_000;

/// The frame rate at which MIDI material is counted.
pub const MIDI_FRAME_RATE: u32 = 1_024_000;

/// The tempo that MIDI material is taken to be written in, in thousandths of
/// a beat per minute.
pub const MIDI_BASE_TEMPO: u32 = 120_000;

/// The integer nearest to `x / d`, a half going up.
pub open spec fn round_div(x: nat, d: nat) -> nat
    recommends
        d > 0,
{
    if 2 * (x % d) >= d {
        x / d + 1
    } else {
        x / d
    }
}

/// `x`, brought into the range of `u64`.
pub open spec fn clamp_u64(x: int) -> u64 {
    if x < 0 {
        0u64
    } else if x > u64::MAX {
        u64::MAX
    } else {
        x as u64
    }
}

/// `x`, brought into the range of `i64`.
pub open spec fn clamp_i64(x: int) -> i64 {
    if x < i64::MIN {
        i64::MIN
    } else if x > i64::MAX {
        i64::MAX
    } else {
        x as i64
    }
}

/// A denominator that is never zero: zero counts as one.
pub open spec fn at_least_one(d: nat) -> nat {
    if d == 0 {
        1
    } else {
        d
    }
}

/// `a * num / den`, rounded to the nearest integer and saturated at `u64::MAX`.
pub open spec fn scale_spec(a: nat, num: nat, den: nat) -> u64 {
    clamp_u64(round_div(a * num, at_least_one(den)) as int)
}

/// `a * num / den`, rounded down and saturated at `u64::MAX`.
pub open spec fn scale_floor_spec(a: nat, num: nat, den: nat) -> u64 {
    clamp_u64(((a * num) / at_least_one(den)) as int)
}

proof fn lemma_product_fits(a: u64, b: u64)
    ensures
        0 <= a * b <= 0xFFFF_FFFF_FFFF_FFFE_0000_0000_0000_0001,
{
    assert(0 <= a * b <= 0xFFFF_FFFF_FFFF_FFFF * 0xFFFF_FFFF_FFFF_FFFF) by (nonlinear_arith)
        requires
            0 <= a <= 0xFFFF_FFFF_FFFF_FFFF,
            0 <= b <= 0xFFFF_FFFF_FFFF_FFFF,
    ;
}

/// Scales a frame count by the ratio `num / den`, rounding to the nearest
/// frame. A zero denominator counts as one.
pub fn scale(a: u64, num: u64, den: u64) -> (r: u64)
    ensures
        r == scale_spec(a as nat, num as nat, den as nat),
{
    let d: u128 = if den == 0 {
        1
    } else {
        den as u128
    };
    proof {
        lemma_product_fits(a, num);
    }
    let product: u128 = (a as u128) * (num as u128);
    let q: u128 = product / d;
    let rem: u128 = product % d;
    let rounded: u128 = if 2 * rem >= d {
        q + 1
    } else {
        q
    };
    if rounded > u64::MAX as u128 {
        u64::MAX
    } else {
        rounded as u64
    }
}

/// Scales a count by the ratio `num / den`, rounding down. A zero
/// denominator counts as one.
pub fn scale_floor(a: u64, num: u64, den: u64) -> (r: u64)
    ensures
        r == scale_floor_spec(a as nat, num as nat, den as nat),
{
    let d: u128 = if den == 0 {
        1
    } else {
        den as u128
    };
    proof {
        lemma_product_fits(a, num);
    }
    let product: u128 = (a as u128) * (num as u128);
    let q: u128 = product / d;
    if q > u64::MAX as u128 {
        u64::MAX
    } else {
        q as u64
    }
}

/// Moves a frame position forward by a frame count, saturating at `i64::MAX`.
pub fn advance(pos: i64, frames: u64) -> (r: i64)
    ensures
        r == clamp_i64(pos + frames),
{
    let sum: i128 = pos as i128 + frames as i128;
    if sum > i64::MAX as i128 {
        i64::MAX
    } else {
        sum as i64
    }
}

/// Brings a wide integer into the range of `i64`.
pub fn saturate_i64(x: i128) -> (r: i64)
    ensures
        r == clamp_i64(x as int),
{
    if x > i64::MAX as i128 {
        i64::MAX
    } else if x < i64::MIN as i128 {
        i64::MIN
    } else {
        x as i64
    }
}

/// Brings a wide integer into the range of `u64`.
pub fn saturate_u64(x: i128) -> (r: u64)
    ensures
        r == clamp_u64(x as int),
{
    if x > u64::MAX as i128 {
        u64::MAX
    } else if x < 0 {
        0
    } else {
        x as u64
    }
}

/// `x * num / den` for a signed `x`: the magnitude is rounded to the nearest
/// integer, the sign kept, and the result saturated at the bounds of `i64`.
pub open spec fn signed_scale_spec(x: int, num: nat, den: nat) -> i64 {
    if x >= 0 {
        clamp_i64(scale_spec(x as nat, num, den) as int)
    } else {
        clamp_i64(-(scale_spec((-x) as nat, num, den) as int))
    }
}

/// `x * num / den` for a signed `x`: the magnitude is rounded down, the sign
/// kept, and the result saturated at the bounds of `i64`.
pub open spec fn signed_scale_floor_spec(x: int, num: nat, den: nat) -> i64 {
    if x >= 0 {
        clamp_i64(scale_floor_spec(x as nat, num, den) as int)
    } else {
        clamp_i64(-(scale_floor_spec((-x) as nat, num, den) as int))
    }
}

/// The magnitude of a signed integer.
pub fn magnitude(x: i64) -> (r: u64)
    ensures
        r == (if x >= 0 {
            x as int
        } else {
            -(x as int)
        }),
{
    if x >= 0 {
        x as u64
    } else {
        (-(x as i128)) as u64
    }
}

/// Scales a signed count by the ratio `num / den`, rounding the magnitude to
/// the nearest integer.
pub fn signed_scale(x: i64, num: u64, den: u64) -> (r: i64)
    ensures
        r == signed_scale_spec(x as int, num as nat, den as nat),
{
    let scaled = scale(magnitude(x), num, den);
    if x >= 0 {
        saturate_i64(scaled as i128)
    } else {
        saturate_i64(-(scaled as i128))
    }
}

/// Scales a signed count by the ratio `num / den`, rounding the magnitude
/// down.
pub fn signed_scale_floor(x: i64, num: u64, den: u64) -> (r: i64)
    ensures
        r == signed_scale_floor_spec(x as int, num as nat, den as nat),
{
    let scaled = scale_floor(magnitude(x), num, den);
    if x >= 0 {
        saturate_i64(scaled as i128)
    } else {
        saturate_i64(-(scaled as i128))
    }
}

/// Scaling by a ratio of two equal parts changes nothing.
pub proof fn lemma_scale_by_equal_parts(a: nat, k: nat)
    requires
        k > 0,
        a <= u64::MAX,
    ensures
        scale_spec(a, k, k) == a,
{
    vstd::arithmetic::div_mod::lemma_div_multiples_vanish(a as int, k as int);
    vstd::arithmetic::div_mod::lemma_mod_multiples_basic(a as int, k as int);
    assert(a * k == k * a) by (nonlinear_arith);
}

/// A frame count that is turned into nanoseconds, rounded down, and back
/// into frames, rounded to the nearest, is the same count again, at every
/// frame rate below half a gigahertz and as long as the time fits.
pub proof fn lemma_frames_survive_the_way_through_time(frames: nat, rate: nat)
    requires
        0 < rate < 500_000_000,
        frames * 1_000_000_000 <= u64::MAX,
    ensures
        scale_spec(frames_to_nanos_spec(frames, rate) as nat, rate, NANOS_PER_SECOND as nat)
            == frames,
{
    let n: int = 1_000_000_000;
    let total = (frames * 1_000_000_000) as int;
    let a = total / (rate as int);
    let r = total % (rate as int);
    vstd::arithmetic::div_mod::lemma_fundamental_div_mod(total, rate as int);
    vstd::arithmetic::div_mod::lemma_mod_pos_bound(total, rate as int);
    assert(0 <= a <= total) by (nonlinear_arith)
        requires
            total == (rate as int) * a + r,
            0 <= r < rate,
            rate > 0,
            total >= 0,
    ;
    assert(frames_to_nanos_spec(frames, rate) == a);
    let back = a * (rate as int);
    assert(back == total - r) by (nonlinear_arith)
        requires
            total == (rate as int) * a + r,
            back == a * (rate as int),
    ;
    if r == 0 {
        assert(back == (frames as int) * n + 0);
        vstd::arithmetic::div_mod::lemma_fundamental_div_mod_converse(back, n, frames as int, 0);
    } else {
        assert(frames >= 1);
        assert(back == (frames as int - 1) * n + (n - r)) by (nonlinear_arith)
            requires
                back == frames * 1_000_000_000 - r,
                n == 1_000_000_000,
        ;
        vstd::arithmetic::div_mod::lemma_fundamental_div_mod_converse(
            back,
            n,
            frames as int - 1,
            n - r,
        );
    }
    assert((a as nat) * rate == back);
}

/// The ratio by which the timeline's tempo differs from a source's own
/// tempo. Both parts are at least one wherever the ratio is used, which keeps
/// the factor strictly positive.
#[derive(Copy, Clone, Debug, PartialEq, Eq, Structural)]
pub struct TempoFactor {
    pub num: u32,
    pub den: u32,
}

impl TempoFactor {
    /// The factor that leaves the tempo as it is.
    pub open spec fn one() -> TempoFactor {
        TempoFactor { num: 1, den: 1 }
    }

    /// The numerator in use: never zero.
    pub open spec fn eff_num(self) -> nat {
        at_least_one(self.num as nat)
    }

    /// The denominator in use: never zero.
    pub open spec fn eff_den(self) -> nat {
        at_least_one(self.den as nat)
    }

    /// Whether both parts are positive as stored.
    pub open spec fn is_positive(self) -> bool {
        self.num >= 1 && self.den >= 1
    }

    /// The factor `num / den`, raised to the smallest positive parts where a
    /// part is zero.
    pub fn new(num: u32, den: u32) -> (f: TempoFactor)
        ensures
            f.is_positive(),
            f.num as nat == at_least_one(num as nat),
            f.den as nat == at_least_one(den as nat),
    {
        TempoFactor { num: if num == 0 {
            1
        } else {
            num
        }, den: if den == 0 {
            1
        } else {
            den
        } }
    }

    /// The factor one.
    pub fn unity() -> (f: TempoFactor)
        ensures
            f == TempoFactor::one(),
    {
        TempoFactor { num: 1, den: 1 }
    }

    /// The same factor with zero parts raised to one.
    pub fn floored(self) -> (f: TempoFactor)
        ensures
            f.is_positive(),
            f.num as nat == self.eff_num(),
            f.den as nat == self.eff_den(),
    {
        TempoFactor::new(self.num, self.den)
    }
}

/// How many frames at `to_rate` last as long as `frames` frames at
/// `from_rate`.
pub open spec fn convert_frames_spec(frames: nat, from_rate: nat, to_rate: nat) -> u64 {
    scale_spec(frames, to_rate, from_rate)
}

/// Converts a duration counted in frames of one rate into frames of another
/// rate, rounding to the nearest frame.
pub fn convert_duration_in_frames_to_other_frame_rate(
    frames: u64,
    from_rate: u32,
    to_rate: u32,
) -> (r: u64)
    ensures
        r == convert_frames_spec(frames as nat, from_rate as nat, to_rate as nat),
{
    scale(frames, to_rate as u64, from_rate as u64)
}

/// The nanoseconds that `frames` frames last at `rate` frames per second,
/// rounded down.
pub open spec fn frames_to_nanos_spec(frames: nat, rate: nat) -> u64 {
    scale_floor_spec(frames, NANOS_PER_SECOND as nat, rate)
}

/// Converts a duration counted in frames into nanoseconds, rounding down.
pub fn convert_duration_in_frames_to_seconds(frames: u64, rate: u32) -> (r: u64)
    ensures
        r == frames_to_nanos_spec(frames as nat, rate as nat),
{
    scale_floor(frames, NANOS_PER_SECOND, rate as u64)
}

/// The frames at `rate` frames per second that fit into `nanos` nanoseconds.
pub open spec fn nanos_to_frames_spec(nanos: nat, rate: nat) -> u64 {
    scale_floor_spec(nanos, rate, NANOS_PER_SECOND as nat)
}

/// Converts a duration in nanoseconds into whole frames, rounding down.
pub fn convert_duration_in_seconds_to_frames(nanos: u64, rate: u32) -> (r: u64)
    ensures
        r == nanos_to_frames_spec(nanos as nat, rate as nat),
{
    scale_floor(nanos, rate as u64, NANOS_PER_SECOND)
}

/// The frame that a signed time stands for at `rate` frames per second. The
/// magnitude is rounded down, so the result is rounded towards zero.
pub open spec fn signed_nanos_to_frames_spec(nanos: int, rate: nat) -> i64 {
    signed_scale_floor_spec(nanos, rate, NANOS_PER_SECOND as nat)
}

/// Converts a signed time in nanoseconds into a frame position, rounding
/// towards zero.
pub fn convert_position_in_seconds_to_frames(nanos: i64, rate: u32) -> (r: i64)
    ensures
        r == signed_nanos_to_frames_spec(nanos as int, rate as nat),
{
    signed_scale_floor(nanos, rate as u64, NANOS_PER_SECOND)
}

/// The signed time that a frame position stands for at `rate` frames per
/// second, rounded towards zero.
pub open spec fn signed_frames_to_nanos_spec(frames: int, rate: nat) -> i64 {
    signed_scale_floor_spec(frames, NANOS_PER_SECOND as nat, rate)
}

/// Converts a frame position into a signed time in nanoseconds, rounding
/// towards zero.
pub fn convert_position_in_frames_to_seconds(frames: i64, rate: u32) -> (r: i64)
    ensures
        r == signed_frames_to_nanos_spec(frames as int, rate as nat),
{
    signed_scale_floor(frames, NANOS_PER_SECOND, rate as u64)
}

} // verus!
