use vstd::prelude::*;
use crate::float::{fraction, ratio, Float};

verus! {

/// Sixty-four random bits from `rand::random`, which draws them from the
/// generator of the current thread.  Nothing is known of the bits.  The call
/// panics only where that generator cannot be seeded by the operating system.
#[verifier::external_body]
fn random_bits() -> (bits: u64) {
    rand::random::<u64>()
}

/// The number in `[0, 1)` that sixty-four random bits stand for: the upper
/// fifty-three of them, read as an integer and scaled by `2^-53`.
pub open spec fn unit_float<T: Float>(bits: u64) -> T {
    ratio::<T>(1, 0x20_0000_0000_0000).mul_spec(T::from_i64_spec((bits >> 11) as i64))
}

/// The point of `[min, max)` at the share `u` of the way from `min` to `max`.
pub open spec fn range_point<T: Float>(min: T, max: T, u: T) -> T {
    min.add_spec(max.sub_spec(min).mul_spec(u))
}

/// The number in `[0, 1)` that the given bits stand for.
pub fn float_from_bits<T: Float>(bits: u64) -> (r: T)
    ensures
        r == unit_float::<T>(bits),
{
    let upper: u64 = bits >> 11;
    assert(bits >> 11 <= 0x1f_ffff_ffff_ffff) by (bit_vector);
    let scale: T = fraction(1, 0x20_0000_0000_0000);
    scale.mul(T::from_i64(upper as i64))
}

/// A random number, uniform over `[0, 1)`, with the bits it was made of.
pub(crate) fn draw_float<T: Float>() -> (r: (T, Ghost<u64>))
    ensures
        r.0 == unit_float::<T>(r.1@),
{
    let bits = random_bits();
    (float_from_bits(bits), Ghost(bits))
}

/// A random number, uniform over `[0, 1)`.
pub fn random_float<T: Float>() -> (r: T)
    ensures
        exists|bits: u64| r == unit_float::<T>(bits),
{
    let (r, Ghost(bits)) = draw_float();
    r
}

/// A random number, uniform over `[min, max)`, with the bits it was made of.
pub(crate) fn random_between<T: Float>(min: T, max: T) -> (r: (T, Ghost<u64>))
    ensures
        r.0 == range_point(min, max, unit_float::<T>(r.1@)),
{
    let (u, bits) = draw_float::<T>();
    (min.add(max.sub(min).mul(u)), bits)
}

/// A random number, uniform over `[min, max)`.
pub fn random_range<T: Float>(min: T, max: T) -> (r: T)
    ensures
        exists|bits: u64| r == range_point(min, max, unit_float::<T>(bits)),
{
    let (r, Ghost(bits)) = random_between(min, max);
    r
}

} // verus!
