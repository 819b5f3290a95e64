//! Colours on their way to the image: which branch of a curve a channel
//! takes, and what becomes of the alpha channel.

use crate::matvec::{Color, MatVec, RGBA};
use crate::scalar::Scalar;
use vstd::prelude::*;

verus! {

/// The bit pattern of 0.0031308: up to it the sRGB curve is a line.
pub const LINEAR_LIMIT_BITS: u32 = 0x3b4d_2e1c;

/// The share of a light that reaches a surface: the cosine between the
/// normal and the direction of the light where that is above zero, and
/// nothing for a surface that faces away.
pub fn lambert(cosine: Scalar) -> (r: Scalar)
    ensures
        r == if Scalar::of(0).less_than(cosine) {
            cosine
        } else {
            Scalar::of(0)
        },
{
    let zero = Scalar { bits: 0 };
    if cosine.gt(zero) {
        cosine
    } else {
        zero
    }
}

/// A value rounded to a multiple of `precision`. `rounded` is the nearest
/// multiple and `gap` how far the value lies from it: the multiple is
/// taken where the gap is under the precision, the value itself otherwise.
pub fn round_precision(value: Scalar, rounded: Scalar, gap: Scalar, precision: Scalar) -> (r: Scalar)
    ensures
        r == if gap.less_than(precision) {
            rounded
        } else {
            value
        },
{
    if gap.lt(precision) {
        rounded
    } else {
        value
    }
}

/// The sRGB encoding of a linear channel: `linear`, the value on the line,
/// for a value up to 0.0031308, and `curved`, the value on the power curve,
/// above it.
pub fn gamma_correct(value: Scalar, linear: Scalar, curved: Scalar) -> (r: Scalar)
    ensures
        r == if value.at_most(Scalar::of(LINEAR_LIMIT_BITS)) {
            linear
        } else {
            curved
        },
{
    if value.le(Scalar { bits: LINEAR_LIMIT_BITS }) {
        linear
    } else {
        curved
    }
}

/// The sRGB encoding of a linear colour: each of red, green and blue takes
/// its branch of the curve, and alpha passes through.
#[allow(non_snake_case)]
pub fn sRGB(color: &RGBA, linear: &Color, curved: &Color) -> (r: RGBA)
    ensures
        r@.len() == 4,
        forall|i: int|
            0 <= i < 3 ==> #[trigger] r@[i] == if color@[i].at_most(Scalar::of(LINEAR_LIMIT_BITS)) {
                linear@[i]
            } else {
                curved@[i]
            },
        r@[3] == color@[3],
{
    MatVec {
        data: [
            gamma_correct(color.get(0), linear.get(0), curved.get(0)),
            gamma_correct(color.get(1), linear.get(1), curved.get(1)),
            gamma_correct(color.get(2), linear.get(2), curved.get(2)),
            color.get(3),
        ],
    }
}

/// The colour with the given alpha behind it.
pub fn color_to_rgba(color: Color, alpha: Scalar) -> (r: RGBA)
    ensures
        r@ == color@.push(alpha),
{
    let r = MatVec { data: [color.get(0), color.get(1), color.get(2), alpha] };
    assert(r@ =~= color@.push(alpha));
    r
}

/// The colour without its alpha.
pub fn rgba_to_color(color: RGBA) -> (r: Color)
    ensures
        r@ == color@.subrange(0, 3),
{
    let r = MatVec { data: [color.get(0), color.get(1), color.get(2)] };
    assert(r@ =~= color@.subrange(0, 3));
    r
}

/// An exposed colour: `exposed` holds red, green and blue after the
/// exposure, and alpha passes through from `color`.
pub fn appy_exposure(color: &RGBA, exposed: Color) -> (r: RGBA)
    ensures
        r@ == exposed@.push(color@[3]),
{
    color_to_rgba(exposed, color.get(3))
}

} // verus!
