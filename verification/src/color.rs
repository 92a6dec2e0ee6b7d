use vstd::prelude::*;
use crate::float::{fraction, keeps_order, le, lemma_keeps_order, lt, ratio, zero, Float};
use crate::interval::Interval;
use crate::text::{all_digits, decimal, decimal_value, lemma_decimal, push_char, push_decimal};
use crate::vec3::Vec3;

verus! {

/// A colour in linear red, green and blue, held as the `x`, `y` and `z` of a
/// vector.  The components are not bounded until the colour is written out.
#[derive(Clone, Copy, Debug, PartialEq)]
pub struct Color<T>(pub Vec3<T>);

/// The line of an image file for a pixel with the given channels: the three
/// numbers in decimal, a space between them, and a newline.
pub open spec fn pixel_line(rgb: (u8, u8, u8)) -> Seq<char> {
    decimal(rgb.0 as nat) + seq![' '] + decimal(rgb.1 as nat) + seq![' '] + decimal(rgb.2 as nat)
        + seq!['\n']
}

/// Whether the text is a number from 0 to 255 in one to three decimal digits.
pub open spec fn is_level_text(text: Seq<char>) -> bool {
    1 <= text.len() <= 3 && all_digits(text) && decimal_value(text) <= 255
}

/// Whether the line is three such numbers, a space between them, and a newline.
pub open spec fn is_pixel_text(line: Seq<char>) -> bool {
    exists|r: Seq<char>, g: Seq<char>, b: Seq<char>|
        #![trigger r + seq![' '] + g + seq![' '] + b]
        is_level_text(r) && is_level_text(g) && is_level_text(b) && line == r + seq![' '] + g
            + seq![' '] + b + seq!['\n']
}

/// The line for a pixel is three numbers from 0 to 255, each in one to three
/// decimal digits, with a space between them and a newline behind them.
pub proof fn lemma_pixel_line_is_pixel_text(rgb: (u8, u8, u8))
    ensures
        is_pixel_text(pixel_line(rgb)),
{
    lemma_decimal(rgb.0 as nat);
    lemma_decimal(rgb.1 as nat);
    lemma_decimal(rgb.2 as nat);
    let r = decimal(rgb.0 as nat);
    let g = decimal(rgb.1 as nat);
    let b = decimal(rgb.2 as nat);
    assert(is_level_text(r) && is_level_text(g) && is_level_text(b));
    assert(pixel_line(rgb) == r + seq![' '] + g + seq![' '] + b + seq!['\n']);
}

impl<T: Float> Color<T> {
    pub open spec fn spec_new(r: T, g: T, b: T) -> Self {
        Color(Vec3 { x: r, y: g, z: b })
    }

    /// The colour whose channels are all zero.
    pub open spec fn spec_black() -> Self {
        Color(Vec3::<T>::spec_zero())
    }

    /// Each channel times the scalar `k`.
    pub open spec fn spec_mul(self, k: T) -> Self {
        Color(self.0.spec_mul(k))
    }

    pub open spec fn spec_add(self, rhs: Self) -> Self {
        Color(self.0.spec_add(rhs.0))
    }

    /// Each channel of the light `rhs`, weakened by the same channel of `self`.
    pub open spec fn spec_attenuate(self, rhs: Self) -> Self {
        Color(self.0.spec_mul_each(rhs.0))
    }

    /// A linear channel in gamma 2: its square root, and zero for anything that
    /// is not above zero.
    pub open spec fn spec_linear_to_gamma(component: T) -> T {
        if lt(T::from_i64_spec(0), component) {
            component.sqrt_spec()
        } else {
            T::from_i64_spec(0)
        }
    }

    pub open spec fn spec_to_gamma_space(self) -> Self {
        Color(
            Vec3 {
                x: Self::spec_linear_to_gamma(self.0.x),
                y: Self::spec_linear_to_gamma(self.0.y),
                z: Self::spec_linear_to_gamma(self.0.z),
            },
        )
    }

    /// The intensities that can be written out: from 0 to 0.999.
    pub open spec fn spec_intensity() -> Interval<T> {
        Interval { min: ratio::<T>(0, 1000), max: ratio::<T>(999, 1000) }
    }

    /// A channel in gamma space as one of 256 levels: clamped into the
    /// intensities that can be written, times 256, rounded down.
    pub open spec fn spec_level(component: T) -> u8 {
        T::from_i64_spec(256).mul_spec(Self::spec_intensity().spec_clamp(component)).to_u8_spec()
    }

    /// The level of a linear channel.
    pub open spec fn spec_channel(component: T) -> u8 {
        Self::spec_level(Self::spec_linear_to_gamma(component))
    }

    /// The three levels of the colour: red, green, blue.
    pub open spec fn spec_to_rgb(self) -> (u8, u8, u8) {
        (
            Self::spec_channel(self.0.x),
            Self::spec_channel(self.0.y),
            Self::spec_channel(self.0.z),
        )
    }

    pub fn new(r: T, g: T, b: T) -> (c: Self)
        ensures
            c == Self::spec_new(r, g, b),
    {
        Color(Vec3 { x: r, y: g, z: b })
    }

    pub fn black() -> (c: Self)
        ensures
            c == Self::spec_black(),
    {
        Color(Vec3 { x: zero(), y: zero(), z: zero() })
    }

    pub fn to_gamma_space(&self) -> (c: Self)
        ensures
            c == self.spec_to_gamma_space(),
    {
        Color(
            Vec3 {
                x: Self::linear_to_gamma(self.0.x),
                y: Self::linear_to_gamma(self.0.y),
                z: Self::linear_to_gamma(self.0.z),
            },
        )
    }

    pub fn linear_to_gamma(component: T) -> (r: T)
        ensures
            r == Self::spec_linear_to_gamma(component),
    {
        if zero::<T>().lt(component) {
            component.sqrt()
        } else {
            zero()
        }
    }

    fn level(component: T) -> (r: u8)
        ensures
            r == Self::spec_level(component),
    {
        let intensity: Interval<T> = Interval { min: fraction(0, 1000), max: fraction(999, 1000) };
        T::from_i64(256).mul(intensity.clamp(component)).to_u8()
    }

    /// The colour as it is written out: each channel gamma-encoded, clamped and
    /// cut to one of 256 levels.
    pub fn to_rgb(&self) -> (rgb: (u8, u8, u8))
        ensures
            rgb == self.spec_to_rgb(),
    {
        let color = self.to_gamma_space();
        (Self::level(color.0.x), Self::level(color.0.y), Self::level(color.0.z))
    }

    /// The colour as a line of an image file.
    pub fn to_string(&self) -> (line: String)
        ensures
            line@ == pixel_line(self.spec_to_rgb()),
            is_pixel_text(line@),
    {
        proof {
            lemma_pixel_line_is_pixel_text(self.spec_to_rgb());
        }
        let (r, g, b) = self.to_rgb();
        let mut line = String::new();
        push_decimal(&mut line, r as u32);
        push_char(&mut line, ' ');
        push_decimal(&mut line, g as u32);
        push_char(&mut line, ' ');
        push_decimal(&mut line, b as u32);
        push_char(&mut line, '\n');
        assert(line@ =~= pixel_line((r, g, b)));
        line
    }

    pub fn mul(self, k: T) -> (c: Self)
        ensures
            c == self.spec_mul(k),
    {
        Color(self.0.mul(k))
    }

    pub fn add(self, rhs: Self) -> (c: Self)
        ensures
            c == self.spec_add(rhs),
    {
        Color(self.0.add(rhs.0))
    }

    pub fn add_assign(&mut self, rhs: Self)
        ensures
            *final(self) == old(self).spec_add(rhs),
    {
        self.0.add_assign(rhs.0);
    }

    /// The light `rhs` after a surface of this colour has weakened it, channel
    /// by channel.
    pub fn attenuate(self, rhs: Self) -> (c: Self)
        ensures
            c == self.spec_attenuate(rhs),
    {
        Color(self.0.mul_each(rhs.0))
    }
}

/// A gamma-encoded channel that is a number no larger than another gets no
/// higher a level.
pub proof fn lemma_level_keeps_order<T: Float>(a: T, b: T)
    requires
        le(a, b),
    ensures
        Color::<T>::spec_level(a) <= Color::<T>::spec_level(b),
{
    lemma_keeps_order::<T>();
    let i = Color::<T>::spec_intensity();
    assert(le(i.spec_clamp(a), i.spec_clamp(b)));
    assert(le(
        T::from_i64_spec(256).mul_spec(i.spec_clamp(a)),
        T::from_i64_spec(256).mul_spec(i.spec_clamp(b)),
    ));
}

/// Of two linear colours, the one whose red channel is the smaller number gets
/// no higher a red level when written out; likewise for green and for blue.
pub proof fn lemma_quantization_keeps_order<T: Float>(c1: Color<T>, c2: Color<T>)
    ensures
        le(c1.0.x, c2.0.x) ==> c1.spec_to_rgb().0 <= c2.spec_to_rgb().0,
        le(c1.0.y, c2.0.y) ==> c1.spec_to_rgb().1 <= c2.spec_to_rgb().1,
        le(c1.0.z, c2.0.z) ==> c1.spec_to_rgb().2 <= c2.spec_to_rgb().2,
{
    if le(c1.0.x, c2.0.x) {
        lemma_channel_keeps_order(c1.0.x, c2.0.x);
    }
    if le(c1.0.y, c2.0.y) {
        lemma_channel_keeps_order(c1.0.y, c2.0.y);
    }
    if le(c1.0.z, c2.0.z) {
        lemma_channel_keeps_order(c1.0.z, c2.0.z);
    }
}

proof fn lemma_channel_keeps_order<T: Float>(a: T, b: T)
    requires
        le(a, b),
    ensures
        Color::<T>::spec_channel(a) <= Color::<T>::spec_channel(b),
{
    lemma_keeps_order::<T>();
    let zero = T::from_i64_spec(0);
    let ga = Color::<T>::spec_linear_to_gamma(a);
    let gb = Color::<T>::spec_linear_to_gamma(b);
    if lt(zero, a) {
        assert(le(zero, a));
        assert(le(a.sqrt_spec(), b.sqrt_spec()));
        lemma_level_keeps_order(ga, gb);
    } else if lt(zero, b) {
        assert(le(zero, b));
        assert(le(zero, b.sqrt_spec()));
        lemma_level_keeps_order(ga, gb);
    } else {
        assert(ga == gb);
    }
}

} // verus!
