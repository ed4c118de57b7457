//! The size of the framebuffer that a pass writes.

use crate::common::{Binary32, Size};
use crate::presets::{Scale2D, ScaleFactor, ScaleType, Scaling};
use vstd::arithmetic::power2::{
    lemma2_to64, lemma2_to64_rest, lemma_pow2_pos, lemma_pow2_strictly_increases,
    lemma_pow2_unfold, pow2,
};
use vstd::prelude::*;

verus! {

/// The length of an axis that comes out as `len` texels: a result of zero or
/// less falls back to one texel, and one beyond 32 bits stops at the largest
/// length that 32 bits hold.
pub open spec fn axis_len(len: int) -> u32 {
    if len <= 0 {
        1
    } else if len >= u32::MAX {
        u32::MAX
    } else {
        len as u32
    }
}

/// The number `p` times two to the power of `q`, as a whole number: rounded
/// up where `round_up` holds, and down else.
pub open spec fn dyadic(p: nat, q: int, round_up: bool) -> int {
    if q >= 0 {
        p as int * pow2(q as nat) as int
    } else if round_up {
        (p + pow2((-q) as nat) - 1) / (pow2((-q) as nat) as int)
    } else {
        p as int / pow2((-q) as nat) as int
    }
}

/// The length of an axis of `base` texels scaled by `factor`, rounded up.
///
/// A factor that is no number, or negative, gives a result that is not
/// positive, and so does any factor on a base of zero.
pub open spec fn scaled_len(base: u32, factor: ScaleFactor) -> u32 {
    match factor {
        ScaleFactor::Absolute(times) => axis_len(base * times),
        ScaleFactor::Float(number) => if number.is_nan() || number.is_negative() || base == 0 {
            1
        } else if number.is_infinite() {
            u32::MAX
        } else {
            axis_len(dyadic(base as nat * number.significand(), number.exponent(), true))
        },
    }
}

/// The length of an axis whose size is `factor` texels, whatever the base:
/// the factor cut off to a whole number.
pub open spec fn absolute_len(factor: ScaleFactor) -> u32 {
    match factor {
        ScaleFactor::Absolute(len) => axis_len(len as int),
        ScaleFactor::Float(number) => if number.is_nan() || number.is_negative() {
            1
        } else if number.is_infinite() {
            u32::MAX
        } else {
            axis_len(dyadic(number.significand(), number.exponent(), false))
        },
    }
}

/// The length of one axis of the output of a pass.
pub open spec fn output_len(scaling: Scaling, source: u32, viewport: u32) -> u32 {
    match scaling.scale_type {
        ScaleType::Source => scaled_len(source, scaling.factor),
        ScaleType::Viewport => scaled_len(viewport, scaling.factor),
        ScaleType::Absolute => absolute_len(scaling.factor),
    }
}

/// Two to the power of `e`.
fn power_of_two(e: u32) -> (power: u64)
    requires
        e < 64,
    ensures
        power == pow2(e as nat),
{
    let mut power: u64 = 1;
    let mut i: u32 = 0;
    proof {
        lemma2_to64();
    }
    while i < e
        invariant
            i <= e < 64,
            power == pow2(i as nat),
        decreases e - i,
    {
        proof {
            lemma_pow2_unfold((i + 1) as nat);
            lemma2_to64_rest();
            if i + 1 < 63 {
                lemma_pow2_strictly_increases((i + 1) as nat, 63);
            }
        }
        power = power * 2;
        i += 1;
    }
    power
}

/// The axis length for `p` times two to the power of `q`.
fn dyadic_len(p: u64, q: i32, round_up: bool) -> (len: u32)
    requires
        p < 0x100_0000_0000_0000,
        -149 <= q <= 104,
    ensures
        len == axis_len(dyadic(p as nat, q as int, round_up)),
{
    proof {
        lemma2_to64();
        lemma2_to64_rest();
    }
    if p == 0 {
        proof {
            if q >= 0 {
            } else {
                lemma_pow2_pos((-q) as nat);
                let unit = pow2((-q) as nat) as int;
                assert((unit - 1) / unit == 0) by (nonlinear_arith)
                    requires
                        unit > 0,
                ;
                assert(0int / unit == 0) by (nonlinear_arith)
                    requires
                        unit > 0,
                ;
            }
        }
        return 1;
    }
    if q >= 0 {
        if q >= 32 || p > 0xffff_ffff {
            proof {
                let unit = pow2(q as nat) as int;
                lemma_pow2_pos(q as nat);
                if q > 32 {
                    lemma_pow2_strictly_increases(32, q as nat);
                }
                assert(p * unit >= 0x1_0000_0000) by (nonlinear_arith)
                    requires
                        p >= 1,
                        unit >= 1,
                        p > 0xffff_ffff || unit >= 0x1_0000_0000,
                ;
            }
            return u32::MAX;
        }
        let unit = power_of_two(q as u32);
        proof {
            if q < 31 {
                lemma_pow2_strictly_increases(q as nat, 31);
            }
            assert(1 <= p * unit <= 0xffff_ffff * 0x8000_0000) by (nonlinear_arith)
                requires
                    1 <= p <= 0xffff_ffff,
                    1 <= unit <= 0x8000_0000,
            ;
        }
        let product = p * unit;
        if product >= 0xffff_ffff {
            u32::MAX
        } else {
            product as u32
        }
    } else {
        let shift: u32 = (-q) as u32;
        if shift >= 56 {
            proof {
                let unit = pow2(shift as nat) as int;
                if shift > 56 {
                    lemma_pow2_strictly_increases(56, shift as nat);
                }
                assert((p + unit - 1) / unit == 1) by (nonlinear_arith)
                    requires
                        0 < p <= unit,
                ;
                assert(p as int / unit == 0) by (nonlinear_arith)
                    requires
                        0 < p < unit,
                ;
            }
            return 1;
        }
        let unit = power_of_two(shift);
        proof {
            if shift < 55 {
                lemma_pow2_strictly_increases(shift as nat, 55);
            }
            lemma_pow2_pos(shift as nat);
        }
        let whole = if round_up {
            (p + unit - 1) / unit
        } else {
            p / unit
        };
        if whole == 0 {
            1
        } else if whole >= 0xffff_ffff {
            u32::MAX
        } else {
            whole as u32
        }
    }
}

/// A finite number that is not negative: `significand` times two to the
/// power of `exponent`.
struct Dyadic {
    significand: u64,
    exponent: i32,
}

/// The significand and the exponent of a finite number, and `None` for an
/// infinity and for what is no number.
fn decode(number: Binary32) -> (parts: Option<Dyadic>)
    ensures
        parts is None <==> number.is_nan() || number.is_infinite(),
        parts is Some ==> parts->0.significand == number.significand() && parts->0.exponent
            == number.exponent() && parts->0.significand < 0x100_0000 && -149
            <= parts->0.exponent <= 104,
{
    let field = (number.bits / 0x80_0000) % 256;
    let fraction = number.bits % 0x80_0000;
    if field == 255 {
        None
    } else if field == 0 {
        Some(Dyadic { significand: fraction as u64, exponent: -149 })
    } else {
        Some(Dyadic { significand: 0x80_0000 + fraction as u64, exponent: field as i32 - 150 })
    }
}

/// Scales an axis of `base` texels by `factor`, rounding up.
pub fn scale_len(base: u32, factor: ScaleFactor) -> (len: u32)
    ensures
        len == scaled_len(base, factor),
{
    match factor {
        ScaleFactor::Absolute(times) => {
            assert(-0x8000_0000_0000_0000 < base * times < 0x8000_0000_0000_0000) by (
                nonlinear_arith)
                requires
                    0 <= base <= 0xffff_ffff,
                    -0x8000_0000 <= times <= 0x7fff_ffff,
            ;
            let product: i64 = base as i64 * times as i64;
            if product <= 0 {
                1
            } else if product >= 0xffff_ffff {
                u32::MAX
            } else {
                product as u32
            }
        },
        ScaleFactor::Float(number) => {
            if number.bits >= 0x8000_0000 || base == 0 {
                return 1;
            }
            match decode(number) {
                None => if number.bits % 0x80_0000 != 0 {
                    1
                } else {
                    u32::MAX
                },
                Some(Dyadic { significand, exponent }) => {
                    assert(base * significand < 0x100_0000_0000_0000) by (nonlinear_arith)
                        requires
                            base <= 0xffff_ffff,
                            significand < 0x100_0000,
                    ;
                    dyadic_len(base as u64 * significand, exponent, true)
                },
            }
        },
    }
}

/// The length of an axis whose size is `factor` texels.
pub fn absolute_axis(factor: ScaleFactor) -> (len: u32)
    ensures
        len == absolute_len(factor),
{
    match factor {
        ScaleFactor::Absolute(len) => if len <= 0 {
            1
        } else {
            len as u32
        },
        ScaleFactor::Float(number) => {
            if number.bits >= 0x8000_0000 {
                return 1;
            }
            match decode(number) {
                None => if number.bits % 0x80_0000 != 0 {
                    1
                } else {
                    u32::MAX
                },
                Some(Dyadic { significand, exponent }) => dyadic_len(significand, exponent, false),
            }
        },
    }
}

impl Scale2D {
    /// The size of the output of a pass that is scaled in this way, for an
    /// input of size `source` and a viewport of size `viewport`.
    pub open spec fn spec_scale(&self, source: Size<u32>, viewport: Size<u32>) -> Size<u32> {
        Size {
            width: output_len(self.x, source.width, viewport.width),
            height: output_len(self.y, source.height, viewport.height),
        }
    }

    /// The size of the framebuffer that a pass with this scaling writes.
    ///
    /// Each axis goes by its own rule: scaled from the input of the pass,
    /// scaled from the viewport, or of an absolute length. No axis comes out
    /// shorter than one texel.
    pub fn scale(&self, source: Size<u32>, viewport: Size<u32>) -> (output: Size<u32>)
        ensures
            output == self.spec_scale(source, viewport),
            output.width >= 1,
            output.height >= 1,
    {
        let width = match self.x.scale_type {
            ScaleType::Source => scale_len(source.width, self.x.factor),
            ScaleType::Viewport => scale_len(viewport.width, self.x.factor),
            ScaleType::Absolute => absolute_axis(self.x.factor),
        };
        let height = match self.y.scale_type {
            ScaleType::Source => scale_len(source.height, self.y.factor),
            ScaleType::Viewport => scale_len(viewport.height, self.y.factor),
            ScaleType::Absolute => absolute_axis(self.y.factor),
        };
        Size { width, height }
    }
}

} // verus!
