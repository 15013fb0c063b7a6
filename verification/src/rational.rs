use vstd::prelude::*;

verus! {

/// A rational number, used for stream timebases and frame rates.
#[derive(Clone, Copy, Debug, PartialEq, Eq, Structural)]
pub struct Rational {
    pub num: i32,
    pub den: i32,
}

impl Rational {
    /// True when the rational denotes a valid, positive timebase.
    pub open spec fn valid(self) -> bool {
        self.num > 0 && self.den > 0
    }

    pub fn new(num: i32, den: i32) -> (r: Rational)
        ensures
            r.num == num,
            r.den == den,
    {
        Rational { num, den }
    }

    /// The reciprocal, as the engine computes for turning a frame rate
    /// into a timebase.
    pub fn inverse(self) -> (r: Rational)
        ensures
            r.num == self.den,
            r.den == self.num,
    {
        Rational { num: self.den, den: self.num }
    }
}

/// `a * b / c`, rounded to the nearest integer with ties away from zero:
/// the engine's rounding mode for timestamp rescaling.
pub open spec fn rescale_rnd_spec(a: int, b: int, c: int) -> int
    recommends
        b >= 0,
        c > 0,
{
    if a >= 0 {
        (a * b + c / 2) / c
    } else {
        -(((-a) * b + c / 2) / c)
    }
}

/// A timestamp `a` counted in timebase `src`, recounted in timebase `dst`,
/// rounded to nearest with ties away from zero.
pub open spec fn rescale_q_spec(a: int, src: Rational, dst: Rational) -> int
    recommends
        src.valid(),
        dst.valid(),
{
    rescale_rnd_spec(a, (src.num as int) * (dst.den as int), (dst.num as int) * (src.den as int))
}

/// Whether the rescaled value of `a` stays within the signed 64-bit range.
pub open spec fn rescale_q_fits(a: int, src: Rational, dst: Rational) -> bool {
    i64::MIN <= rescale_q_spec(a, src, dst) <= i64::MAX
}

/// `a * b / c` rounded to nearest, ties away from zero.
pub fn rescale_rnd(a: i64, b: i64, c: i64) -> (r: i64)
    requires
        b >= 0,
        c > 0,
        i64::MIN <= rescale_rnd_spec(a as int, b as int, c as int) <= i64::MAX,
    ensures
        r == rescale_rnd_spec(a as int, b as int, c as int),
{
    let neg = a < 0;
    let mag: u128 = if neg {
        (-(a as i128)) as u128
    } else {
        a as u128
    };
    proof {
        assert(mag * (b as u128) <= 0x1_0000_0000_0000_0000u128 * 0x8000_0000_0000_0000u128)
            by (nonlinear_arith)
            requires
                mag <= 0x1_0000_0000_0000_0000u128,
                b as u128 <= 0x8000_0000_0000_0000u128,
        ;
    }
    let p: u128 = mag * (b as u128);
    let half: u128 = (c as u128) / 2;
    let q: u128 = (p + half) / (c as u128);
    if neg {
        proof {
            assert(q <= 0x8000_0000_0000_0000u128);
        }
        (-(q as i128)) as i64
    } else {
        proof {
            assert(q <= i64::MAX as u128);
        }
        q as i64
    }
}

/// Recount timestamp `a` from timebase `src` into timebase `dst`.
pub fn rescale_q(a: i64, src: Rational, dst: Rational) -> (r: i64)
    requires
        src.valid(),
        dst.valid(),
        rescale_q_fits(a as int, src, dst),
    ensures
        r == rescale_q_spec(a as int, src, dst),
{
    proof {
        assert(1 <= (src.num as int) * (dst.den as int) <= 0x4000_0000_0000_0000int
            && 1 <= (dst.num as int) * (src.den as int) <= 0x4000_0000_0000_0000int)
            by (nonlinear_arith)
            requires
                1 <= src.num <= 0x7fff_ffff,
                1 <= src.den <= 0x7fff_ffff,
                1 <= dst.num <= 0x7fff_ffff,
                1 <= dst.den <= 0x7fff_ffff,
        ;
    }
    let b: i64 = (src.num as i64) * (dst.den as i64);
    let c: i64 = (dst.num as i64) * (src.den as i64);
    rescale_rnd(a, b, c)
}

} // verus!
