use vstd::prelude::*;

verus! {

/// A floating-point scalar, such as an IEEE 754 double.
///
/// The first group of members is the mathematical model of the type: what each
/// operation computes, as a function of its operands.  The second group holds
/// the operations themselves, each of which returns exactly what the model says.
/// The third group holds two laws of the model, which the arithmetic of
/// IEEE 754 meets when it rounds to the nearest value.
/// The library is proved against the model and its laws.  It cannot check an
/// implementation against them: that is left to whoever implements the trait.
///
/// Two values are the same in the model when no operation can tell them apart.
/// For an IEEE 754 type this makes all NaNs one value, while the two zeros stay
/// distinct.
pub trait Float: Copy + Sized {
    /// Whether the value is not a number.
    spec fn is_nan_spec(self) -> bool;

    /// The place of a number on the number line, as an integer: numbers compare
    /// as their places do.  Both zeros have the same place.  The place of a
    /// value that is no number means nothing.
    spec fn ord(self) -> i64;

    /// The nearest value to the integer `n`.
    spec fn from_i64_spec(n: i64) -> Self;

    /// The value after rounding toward zero and clamping into `i32`.
    spec fn to_i32_spec(self) -> i32;

    /// The value after rounding toward zero and clamping into `u8`.
    spec fn to_u8_spec(self) -> u8;

    /// Positive infinity.
    spec fn infinity_spec() -> Self;

    spec fn neg_spec(self) -> Self;

    spec fn add_spec(self, rhs: Self) -> Self;

    spec fn sub_spec(self, rhs: Self) -> Self;

    spec fn mul_spec(self, rhs: Self) -> Self;

    spec fn div_spec(self, rhs: Self) -> Self;

    spec fn sqrt_spec(self) -> Self;

    /// `self * a + b` with a single rounding.
    spec fn mul_add_spec(self, a: Self, b: Self) -> Self;

    fn from_i64(n: i64) -> (r: Self)
        ensures
            r == Self::from_i64_spec(n),
    ;

    fn to_i32(self) -> (r: i32)
        ensures
            r == self.to_i32_spec(),
    ;

    fn to_u8(self) -> (r: u8)
        ensures
            r == self.to_u8_spec(),
    ;

    fn infinity() -> (r: Self)
        ensures
            r == Self::infinity_spec(),
    ;

    fn is_nan(self) -> (r: bool)
        ensures
            r == self.is_nan_spec(),
    ;

    fn lt(self, rhs: Self) -> (r: bool)
        ensures
            r == (!self.is_nan_spec() && !rhs.is_nan_spec() && self.ord() < rhs.ord()),
    ;

    fn le(self, rhs: Self) -> (r: bool)
        ensures
            r == (!self.is_nan_spec() && !rhs.is_nan_spec() && self.ord() <= rhs.ord()),
    ;

    fn neg(self) -> (r: Self)
        ensures
            r == self.neg_spec(),
    ;

    fn add(self, rhs: Self) -> (r: Self)
        ensures
            r == self.add_spec(rhs),
    ;

    fn sub(self, rhs: Self) -> (r: Self)
        ensures
            r == self.sub_spec(rhs),
    ;

    fn mul(self, rhs: Self) -> (r: Self)
        ensures
            r == self.mul_spec(rhs),
    ;

    fn div(self, rhs: Self) -> (r: Self)
        ensures
            r == self.div_spec(rhs),
    ;

    fn sqrt(self) -> (r: Self)
        ensures
            r == self.sqrt_spec(),
    ;

    fn mul_add(self, a: Self, b: Self) -> (r: Self)
        ensures
            r == self.mul_add_spec(a, b),
    ;

    /// The operations that round keep the order of what they round: the square
    /// root of a number from zero up is such a number, and of two such numbers
    /// the larger has no smaller a root; the products of 256 with two numbers
    /// are numbers in the order of the two; the conversion to `u8` of the
    /// larger of two numbers is no smaller.  An operation that returns the value
    /// nearest to the exact result keeps order, and so does a conversion that
    /// cuts off the fraction and clamps.
    proof fn rounding_keeps_order()
        ensures
            forall|a: Self|
                !Self::from_i64_spec(0).is_nan_spec() && !a.is_nan_spec() && Self::from_i64_spec(
                    0,
                ).ord() <= a.ord() ==> !(#[trigger] a.sqrt_spec()).is_nan_spec()
                    && Self::from_i64_spec(0).ord() <= a.sqrt_spec().ord(),
            forall|a: Self, b: Self|
                !Self::from_i64_spec(0).is_nan_spec() && !a.is_nan_spec() && !b.is_nan_spec()
                    && Self::from_i64_spec(0).ord() <= a.ord() && a.ord() <= b.ord() ==> !(
                #[trigger] a.sqrt_spec()).is_nan_spec() && !(#[trigger] b.sqrt_spec()).is_nan_spec()
                    && a.sqrt_spec().ord() <= b.sqrt_spec().ord(),
            forall|a: Self, b: Self|
                !a.is_nan_spec() && !b.is_nan_spec() && a.ord() <= b.ord() ==> !(
                #[trigger] Self::from_i64_spec(256).mul_spec(a)).is_nan_spec() && !(
                #[trigger] Self::from_i64_spec(256).mul_spec(b)).is_nan_spec()
                    && Self::from_i64_spec(256).mul_spec(a).ord() <= Self::from_i64_spec(
                    256,
                ).mul_spec(b).ord(),
            forall|a: Self, b: Self|
                !a.is_nan_spec() && !b.is_nan_spec() && a.ord() <= b.ord()
                    ==> #[trigger] a.to_u8_spec() <= #[trigger] b.to_u8_spec(),
    ;

    /// The arithmetic treats the two signs alike: zero is the number at place 0;
    /// negation keeps what is no number and mirrors the number line; a product
    /// does not depend on the order of its factors; the sign of a factor can be
    /// taken out of a product, and the common sign of two terms out of their
    /// sum, up to the sign of a zero; and a sum does not depend on the sign of a
    /// term that is zero.
    proof fn signs_are_alike()
        ensures
            !Self::from_i64_spec(0).is_nan_spec(),
            Self::from_i64_spec(0).ord() == 0,
            forall|a: Self|
                (#[trigger] a.neg_spec()).is_nan_spec() == a.is_nan_spec() && (!a.is_nan_spec()
                    ==> a.neg_spec().ord() == -a.ord()),
            forall|a: Self, b: Self| #[trigger] a.mul_spec(b) == b.mul_spec(a),
            forall|a: Self, b: Self|
                #[trigger] a.neg_spec().mul_spec(b) == a.mul_spec(b).neg_spec(),
            forall|a: Self, b: Self|
                (#[trigger] a.neg_spec().add_spec(b.neg_spec())).is_nan_spec() == a.add_spec(
                    b,
                ).neg_spec().is_nan_spec() && (!a.neg_spec().add_spec(b.neg_spec()).is_nan_spec()
                    ==> a.neg_spec().add_spec(b.neg_spec()).ord() == a.add_spec(
                    b,
                ).neg_spec().ord()),
            forall|a: Self, b: Self, c: Self|
                a.is_nan_spec() == b.is_nan_spec() && (!a.is_nan_spec() ==> a.ord() == b.ord())
                    ==> (#[trigger] a.add_spec(c)).is_nan_spec() == (#[trigger] b.add_spec(
                    c,
                )).is_nan_spec() && (!a.add_spec(c).is_nan_spec() ==> a.add_spec(c).ord()
                    == b.add_spec(c).ord()),
    ;
}

/// `a < b`: both are numbers and `a` comes first on the number line.
pub open spec fn lt<T: Float>(a: T, b: T) -> bool {
    !a.is_nan_spec() && !b.is_nan_spec() && a.ord() < b.ord()
}

/// `a <= b`: both are numbers and `b` does not come first.
pub open spec fn le<T: Float>(a: T, b: T) -> bool {
    !a.is_nan_spec() && !b.is_nan_spec() && a.ord() <= b.ord()
}

/// The quotient of the values nearest to two integers.  Where the type holds
/// both integers exactly and its division rounds to the nearest value, this is
/// the value nearest to the fraction `n / d`: the one that a decimal literal
/// for the fraction denotes.
pub open spec fn ratio<T: Float>(n: i64, d: i64) -> T {
    T::from_i64_spec(n).div_spec(T::from_i64_spec(d))
}

/// The smaller of two values; the other one where one of them is no number.
pub open spec fn minimum<T: Float>(a: T, b: T) -> T {
    if a.is_nan_spec() {
        b
    } else if lt(b, a) {
        b
    } else {
        a
    }
}

/// The larger of two values; the other one where one of them is no number.
pub open spec fn maximum<T: Float>(a: T, b: T) -> T {
    if a.is_nan_spec() {
        b
    } else if lt(a, b) {
        b
    } else {
        a
    }
}

/// Whether two values are the same number up to the sign of zero, or both are
/// no number.
pub open spec fn same_number<T: Float>(a: T, b: T) -> bool {
    a.is_nan_spec() == b.is_nan_spec() && (!a.is_nan_spec() ==> a.ord() == b.ord())
}

/// The law of the signs, over `same_number`: zero is the number at place 0,
/// negation mirrors the number line, a product does not depend on the order of
/// its factors, the sign of a factor can be taken out of a product and the
/// common sign of two terms out of their sum, and a sum does not depend on the
/// sign of a term that is zero.
pub open spec fn sign_symmetric<T: Float>() -> bool {
    &&& !T::from_i64_spec(0).is_nan_spec()
    &&& T::from_i64_spec(0).ord() == 0
    &&& forall|a: T|
        (#[trigger] a.neg_spec()).is_nan_spec() == a.is_nan_spec() && (!a.is_nan_spec()
            ==> a.neg_spec().ord() == -a.ord())
    &&& forall|a: T, b: T| #[trigger] a.mul_spec(b) == b.mul_spec(a)
    &&& forall|a: T, b: T| #[trigger] a.neg_spec().mul_spec(b) == a.mul_spec(b).neg_spec()
    &&& forall|a: T, b: T|
        same_number(#[trigger] a.neg_spec().add_spec(b.neg_spec()), a.add_spec(b).neg_spec())
    &&& forall|a: T, b: T, c: T|
        same_number(a, b) ==> same_number(#[trigger] a.add_spec(c), #[trigger] b.add_spec(c))
}

/// The law of the order, over `le`: the square root of numbers from zero up,
/// the product with 256 and the conversion to `u8` keep the order of what they
/// round.
pub open spec fn keeps_order<T: Float>() -> bool {
    &&& forall|a: T| le(T::from_i64_spec(0), a) ==> le(T::from_i64_spec(0), #[trigger] a.sqrt_spec())
    &&& forall|a: T, b: T|
        le(T::from_i64_spec(0), a) && le(a, b) ==> le(
            #[trigger] a.sqrt_spec(),
            #[trigger] b.sqrt_spec(),
        )
    &&& forall|a: T, b: T|
        le(a, b) ==> le(
            #[trigger] T::from_i64_spec(256).mul_spec(a),
            #[trigger] T::from_i64_spec(256).mul_spec(b),
        )
    &&& forall|a: T, b: T| le(a, b) ==> #[trigger] a.to_u8_spec() <= #[trigger] b.to_u8_spec()
}

/// Every scalar type keeps order when it rounds.
pub proof fn lemma_keeps_order<T: Float>()
    ensures
        keeps_order::<T>(),
{
    T::rounding_keeps_order();
}

/// Every scalar type treats the two signs alike.
pub proof fn lemma_sign_symmetric<T: Float>()
    ensures
        sign_symmetric::<T>(),
{
    T::signs_are_alike();
}

/// The value nearest to 0.
pub fn zero<T: Float>() -> (r: T)
    ensures
        r == T::from_i64_spec(0),
{
    T::from_i64(0)
}

/// The value nearest to 1.
pub fn one<T: Float>() -> (r: T)
    ensures
        r == T::from_i64_spec(1),
{
    T::from_i64(1)
}

/// The quotient of the values nearest to two integers.
pub fn fraction<T: Float>(n: i64, d: i64) -> (r: T)
    ensures
        r == ratio::<T>(n, d),
{
    T::from_i64(n).div(T::from_i64(d))
}

/// The smaller of two values; the other one where one of them is no number.
pub fn min<T: Float>(a: T, b: T) -> (r: T)
    ensures
        r == minimum(a, b),
{
    if a.is_nan() {
        b
    } else if b.lt(a) {
        b
    } else {
        a
    }
}

/// The larger of two values; the other one where one of them is no number.
pub fn max<T: Float>(a: T, b: T) -> (r: T)
    ensures
        r == maximum(a, b),
{
    if a.is_nan() {
        b
    } else if a.lt(b) {
        b
    } else {
        a
    }
}

} // verus!
