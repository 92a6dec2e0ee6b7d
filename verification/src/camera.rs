use vstd::prelude::*;
use crate::color::{is_pixel_text, pixel_line, Color};
use crate::float::{fraction, one, ratio, zero, Float};
use crate::hittable::Hittable;
use crate::interval::Interval;
use crate::material::{Material, Scatter};
use crate::random::{draw_float, unit_float};
use crate::ray::Ray;
use crate::text::{push_char, push_decimal, push_signed_decimal, signed_decimal};
use crate::vec3::Vec3;

verus! {

/// A camera at the origin that looks along the negative `z` axis at a viewport
/// two units high and one unit away.  The image is at least one pixel high.
#[derive(Clone, Copy, Debug, PartialEq)]
pub struct Camera<T> {
    pub image_width: i32,
    pub image_height: i32,
    pub samples_per_pixel: i32,
    pub max_depth: i32,
    pub pixel_samples_scale: T,
    pub center: Vec3<T>,
    pub pixel00_loc: Vec3<T>,
    pub pixel_delta_u: Vec3<T>,
    pub pixel_delta_v: Vec3<T>,
}

/// The number of bounces after which a path is given up.
pub const MAX_DEPTH: i32 = 50;

/// The parameters at which a ray can hit: from 0.001, so that a ray does not
/// hit the surface it leaves, up to infinity.
pub open spec fn spec_visible<T: Float>() -> Interval<T> {
    Interval { min: ratio::<T>(1, 1000), max: T::infinity_spec() }
}

/// The colour of the sky in the direction `unit`: white at the bottom, blue at
/// the top, `(1 - a) (1, 1, 1) + a (0.5, 0.7, 1)` with `a = 0.5 (y + 1)` for the
/// height `y` of the direction.
pub open spec fn spec_sky_toward<T: Float>(unit: Vec3<T>) -> Color<T> {
    let one = T::from_i64_spec(1);
    let a = ratio::<T>(1, 2).mul_spec(unit.y.add_spec(one));
    Color::spec_new(one, one, one).spec_mul(one.sub_spec(a)).spec_add(
        Color::spec_new(ratio::<T>(1, 2), ratio::<T>(7, 10), one).spec_mul(a),
    )
}

/// The colour of the sky along the ray: that in the ray's direction, and black
/// for a ray that has no direction.
pub open spec fn spec_sky<T: Float>(ray: Ray<T>) -> Color<T> {
    if ray.direction.has_direction() {
        spec_sky_toward(ray.direction.spec_unit())
    } else {
        Color::<T>::spec_black()
    }
}

/// Whether `c` is a light that may come back along the ray with `depth` bounces
/// left.  With none left it is black.  A ray that hits nothing sees the sky.
/// One that hits a surface is absorbed, which gives black, or scattered, which
/// gives the light along the scattered ray, weakened by the surface.
pub open spec fn is_radiance<T: Float, W: Hittable<T>>(
    world: W,
    ray: Ray<T>,
    depth: int,
    c: Color<T>,
) -> bool
    decreases depth,
{
    if depth <= 0 {
        c == Color::<T>::spec_black()
    } else {
        match world.spec_hit(ray, spec_visible()) {
            None => c == spec_sky(ray),
            Some(hit) => {
                ||| hit.material.may_scatter(ray, hit, None) && c == Color::<T>::spec_black()
                ||| exists|s: Scatter<T>, incoming: Color<T>|
                    hit.material.may_scatter(ray, hit, Some(s)) && is_radiance(
                        world,
                        s.ray,
                        depth - 1,
                        incoming,
                    ) && c == #[trigger] s.attenuation.spec_attenuate(incoming)
            },
        }
    }
}

/// The sum of the colours, added up in their order, from black.
pub open spec fn total<T: Float>(colors: Seq<Color<T>>) -> Color<T>
    decreases colors.len(),
{
    if colors.len() == 0 {
        Color::<T>::spec_black()
    } else {
        total(colors.drop_last()).spec_add(colors.last())
    }
}

impl<T: Float> Camera<T> {
    /// The height of an image of the given width and aspect ratio: the ratio of
    /// the two, rounded down, and 1 where that is less.
    pub open spec fn spec_height(aspect_ratio: T, image_width: i32) -> i32 {
        let height = T::from_i64_spec(image_width as i64).div_spec(aspect_ratio).to_i32_spec();
        if height < 1 {
            1
        } else {
            height
        }
    }

    /// The viewport's edge from left to right: `2 W / H` wide.
    pub open spec fn spec_viewport_u(image_width: i32, image_height: i32) -> Vec3<T> {
        Vec3 {
            x: T::from_i64_spec(2).mul_spec(
                T::from_i64_spec(image_width as i64).div_spec(
                    T::from_i64_spec(image_height as i64),
                ),
            ),
            y: T::from_i64_spec(0),
            z: T::from_i64_spec(0),
        }
    }

    /// The viewport's edge from top to bottom: 2 high, downward.
    pub open spec fn spec_viewport_v() -> Vec3<T> {
        Vec3 { x: T::from_i64_spec(0), y: T::from_i64_spec(2).neg_spec(), z: T::from_i64_spec(0) }
    }

    /// The upper left corner of the viewport:
    /// `center - (0, 0, 1) - viewport_u / 2 - viewport_v / 2`.
    pub open spec fn spec_upper_left(viewport_u: Vec3<T>, viewport_v: Vec3<T>) -> Vec3<T> {
        let focal_point = Vec3 {
            x: T::from_i64_spec(0),
            y: T::from_i64_spec(0),
            z: T::from_i64_spec(1),
        };
        Vec3::<T>::spec_zero().spec_sub(focal_point).spec_sub(
            viewport_u.spec_div(T::from_i64_spec(2)),
        ).spec_sub(viewport_v.spec_div(T::from_i64_spec(2)))
    }

    pub open spec fn spec_new(aspect_ratio: T, image_width: i32, samples_per_pixel: i32) -> Self {
        let image_height = Self::spec_height(aspect_ratio, image_width);
        let viewport_u = Self::spec_viewport_u(image_width, image_height);
        let viewport_v = Self::spec_viewport_v();
        let pixel_delta_u = viewport_u.spec_div(T::from_i64_spec(image_width as i64));
        let pixel_delta_v = viewport_v.spec_div(T::from_i64_spec(image_height as i64));
        Camera {
            image_width,
            image_height,
            samples_per_pixel,
            max_depth: MAX_DEPTH,
            pixel_samples_scale: T::from_i64_spec(1).div_spec(
                T::from_i64_spec(samples_per_pixel as i64),
            ),
            center: Vec3::<T>::spec_zero(),
            pixel00_loc: Self::spec_upper_left(viewport_u, viewport_v).spec_add(
                pixel_delta_u.spec_add(pixel_delta_v).spec_mul(ratio::<T>(1, 2)),
            ),
            pixel_delta_u,
            pixel_delta_v,
        }
    }

    /// The offset within a pixel that two words of random bits stand for: a
    /// point of the square `[-0.5, 0.5)^2`.
    pub open spec fn square_point(bits: (u64, u64)) -> Vec3<T> {
        Vec3 {
            x: unit_float::<T>(bits.0).sub_spec(ratio::<T>(1, 2)),
            y: unit_float::<T>(bits.1).sub_spec(ratio::<T>(1, 2)),
            z: T::from_i64_spec(0),
        }
    }

    /// The ray from the camera's centre through the point of pixel `(i, j)` at
    /// the given offset from the pixel's middle:
    /// `pixel00 + (i + dx) delta_u + (j + dy) delta_v`.
    pub open spec fn spec_ray_through(self, i: i32, j: i32, offset: Vec3<T>) -> Ray<T> {
        let sample = self.pixel00_loc.spec_add(
            self.pixel_delta_u.spec_mul(T::from_i64_spec(i as i64).add_spec(offset.x)),
        ).spec_add(self.pixel_delta_v.spec_mul(T::from_i64_spec(j as i64).add_spec(offset.y)));
        Ray { origin: self.center, direction: sample.spec_sub(self.center) }
    }

    /// Whether `ray` is a ray that the camera may send through pixel `(i, j)`.
    pub open spec fn is_camera_ray(self, i: i32, j: i32, ray: Ray<T>) -> bool {
        exists|bits: (u64, u64)|
            ray == self.spec_ray_through(i, j, #[trigger] Self::square_point(bits))
    }

    /// Whether `c` is a light that one sample of pixel `(i, j)` may see.
    pub open spec fn is_sample<W: Hittable<T>>(self, world: W, i: i32, j: i32, c: Color<T>) -> bool {
        exists|ray: Ray<T>|
            self.is_camera_ray(i, j, ray) && #[trigger] is_radiance(
                world,
                ray,
                self.max_depth as int,
                c,
            )
    }

    /// Whether `c` is a colour that the camera may find for pixel `(i, j)`: the
    /// sum of as many samples as the camera takes, times the scale.
    pub open spec fn is_pixel<W: Hittable<T>>(self, world: W, i: i32, j: i32, c: Color<T>) -> bool {
        exists|samples: Seq<Color<T>>|
            #![trigger total(samples)]
            {
                &&& samples.len() == if self.samples_per_pixel > 0 {
                    self.samples_per_pixel as nat
                } else {
                    0
                }
                &&& forall|s: int|
                    0 <= s < samples.len() ==> self.is_sample(world, i, j, #[trigger] samples[s])
                &&& c == total(samples).spec_mul(self.pixel_samples_scale)
            }
    }

    /// The index of the line for pixel `(i, j)`, behind the three lines of the
    /// header.
    pub open spec fn line_of(self, i: int, j: int) -> int {
        3 + j * self.image_width + i
    }

    /// Whether the line for pixel `(i, j)` is the line of a colour that the
    /// camera may find for that pixel.
    pub open spec fn shows<W: Hittable<T>>(self, world: W, lines: Seq<String>, i: int, j: int) -> bool {
        exists|c: Color<T>|
            #![trigger c.spec_to_rgb()]
            self.is_pixel(world, i as i32, j as i32, c) && lines[self.line_of(i, j)]@
                == pixel_line(c.spec_to_rgb())
    }

    /// Whether the lines hold the first `rows` rows of the image, painted in
    /// the given colours.
    spec fn paints<W: Hittable<T>>(
        self,
        world: W,
        lines: Seq<String>,
        colors: Seq<Color<T>>,
        rows: int,
    ) -> bool {
        &&& colors.len() == lines.len() - 3
        &&& forall|i: int, j: int|
            0 <= i < self.image_width && 0 <= j < rows ==> self.is_pixel(
                world,
                i as i32,
                j as i32,
                #[trigger] colors[self.line_of(i, j) - 3],
            ) && lines[self.line_of(i, j)]@ == pixel_line(
                colors[self.line_of(i, j) - 3].spec_to_rgb(),
            )
    }

    /// The number of pixels of the image.
    pub open spec fn spec_pixels(self) -> int {
        if self.image_width > 0 && self.image_height > 0 {
            self.image_width * self.image_height
        } else {
            0
        }
    }

    /// The second line of the image file: width and height.
    pub open spec fn spec_size_line(self) -> Seq<char> {
        signed_decimal(self.image_width as int) + seq![' '] + signed_decimal(
            self.image_height as int,
        ) + seq!['\n']
    }

    pub fn new(aspect_ratio: T, image_width: i32, samples_per_pixel: i32) -> (cam: Self)
        ensures
            cam == Self::spec_new(aspect_ratio, image_width, samples_per_pixel),
            cam.image_width == image_width,
            cam.image_height >= 1,
            cam.samples_per_pixel == samples_per_pixel,
            cam.max_depth == MAX_DEPTH,
    {
        let max_depth = MAX_DEPTH;
        let pixel_samples_scale = one::<T>().div(T::from_i64(samples_per_pixel as i64));
        let image_height = T::from_i64(image_width as i64).div(aspect_ratio).to_i32();
        let image_height = if image_height < 1 {
            1
        } else {
            image_height
        };

        let focal_length: T = one();
        let viewport_height: T = T::from_i64(2);
        let viewport_width = viewport_height.mul(
            T::from_i64(image_width as i64).div(T::from_i64(image_height as i64)),
        );
        let center: Vec3<T> = Vec3::new(zero(), zero(), zero());
        let focal_point: Vec3<T> = Vec3::new(zero(), zero(), focal_length);

        let viewport_u: Vec3<T> = Vec3::new(viewport_width, zero(), zero());
        let viewport_v: Vec3<T> = Vec3::new(zero(), viewport_height.neg(), zero());

        let pixel_delta_u = viewport_u.div(T::from_i64(image_width as i64));
        let pixel_delta_v = viewport_v.div(T::from_i64(image_height as i64));

        let mut viewport_upper_left = center.sub(focal_point);
        viewport_upper_left.sub_assign(viewport_u.div(T::from_i64(2)));
        viewport_upper_left.sub_assign(viewport_v.div(T::from_i64(2)));

        let pixel00_loc = viewport_upper_left.add(
            pixel_delta_u.add(pixel_delta_v).mul(fraction(1, 2)),
        );
        Camera {
            image_width,
            image_height,
            samples_per_pixel,
            max_depth,
            pixel_samples_scale,
            center,
            pixel00_loc,
            pixel_delta_u,
            pixel_delta_v,
        }
    }

    /// A random offset within a pixel: a point of the square `[-0.5, 0.5)^2`.
    pub fn sample_square() -> (r: Vec3<T>)
        ensures
            exists|bits: (u64, u64)| r == #[trigger] Self::square_point(bits),
    {
        let (x, Ghost(bx)) = draw_float::<T>();
        let (y, Ghost(by)) = draw_float::<T>();
        let half: T = fraction(1, 2);
        let r = Vec3 { x: x.sub(half), y: y.sub(half), z: zero() };
        assert(r == Self::square_point((bx, by)));
        r
    }

    /// The ray through pixel `(i, j)` at the given offset from its middle.
    pub fn ray_through(&self, i: i32, j: i32, offset: &Vec3<T>) -> (ray: Ray<T>)
        ensures
            ray == self.spec_ray_through(i, j, *offset),
    {
        let sample = self.pixel00_loc.add(
            self.pixel_delta_u.mul(T::from_i64(i as i64).add(offset.x)),
        ).add(self.pixel_delta_v.mul(T::from_i64(j as i64).add(offset.y)));
        Ray::new(self.center, sample.sub(self.center))
    }

    /// A ray through a random point of pixel `(i, j)`.
    pub fn get_ray(&self, i: i32, j: i32) -> (ray: Ray<T>)
        ensures
            self.is_camera_ray(i, j, ray),
    {
        let offset = Self::sample_square();
        self.ray_through(i, j, &offset)
    }

    /// The colour of the sky along the ray, and black for a ray that has no
    /// direction.
    pub fn sky(ray: &Ray<T>) -> (c: Color<T>)
        ensures
            c == spec_sky(*ray),
    {
        match ray.direction.try_unit() {
            Ok(unit_direction) => {
                let one: T = one();
                let half: T = fraction(1, 2);
                let a = half.mul(unit_direction.y.add(one));
                Color::new(one, one, one).mul(one.sub(a)).add(
                    Color::new(half, fraction(7, 10), one).mul(a),
                )
            },
            Err(_) => Color::black(),
        }
    }

    /// The light that comes back along the ray, followed through at most
    /// `depth` bounces.
    pub fn ray_color<W: Hittable<T>>(ray: &Ray<T>, world: &W, depth: i32) -> (c: Color<T>)
        ensures
            is_radiance(*world, *ray, depth as int, c),
        decreases depth,
    {
        if depth <= 0 {
            return Color::black();
        }
        let visible: Interval<T> = Interval::new(fraction(1, 1000), T::infinity());
        match world.hit(ray, &visible) {
            Some(hit) => {
                match hit.material.scatter(ray, &hit) {
                    Some(scatter) => {
                        let incoming = Self::ray_color(&scatter.ray, world, depth - 1);
                        let c = scatter.attenuation.attenuate(incoming);
                        assert(is_radiance(*world, *ray, depth as int, c));
                        c
                    },
                    None => Color::black(),
                }
            },
            None => Self::sky(ray),
        }
    }

    /// The colour of pixel `(i, j)`: the mean of the light along as many random
    /// rays through it as the camera takes samples.
    pub fn pixel_color<W: Hittable<T>>(&self, world: &W, i: i32, j: i32) -> (c: Color<T>)
        ensures
            self.is_pixel(*world, i, j, c),
    {
        let mut sum: Color<T> = Color::black();
        let ghost mut samples: Seq<Color<T>> = Seq::empty();
        let mut s: i32 = 0;
        while s < self.samples_per_pixel
            invariant
                0 <= s,
                s <= self.samples_per_pixel || (s == 0 && self.samples_per_pixel <= 0),
                samples.len() == s,
                sum == total(samples),
                forall|k: int|
                    0 <= k < samples.len() ==> self.is_sample(*world, i, j, #[trigger] samples[k]),
            decreases self.samples_per_pixel - s,
        {
            let ray = self.get_ray(i, j);
            let sample = Self::ray_color(&ray, world, self.max_depth);
            assert(self.is_sample(*world, i, j, sample));
            sum.add_assign(sample);
            proof {
                let before = samples;
                samples = samples.push(sample);
                assert(samples.drop_last() =~= before);
            }
            s += 1;
        }
        sum.mul(self.pixel_samples_scale)
    }

    /// The three lines that open the image file: `P3`, width and height, and
    /// `255`, the highest level of a channel.
    pub fn header(&self) -> (lines: Vec<String>)
        ensures
            lines.len() == 3,
            lines[0]@ == seq!['P', '3', '\n'],
            lines[1]@ == self.spec_size_line(),
            lines[2]@ == seq!['2', '5', '5', '\n'],
    {
        let mut lines: Vec<String> = Vec::new();
        lines.push(Self::magic_line());
        lines.push(self.size_line());
        lines.push(Self::depth_line());
        lines
    }

    /// The image of the world as the lines of a plain-text pixmap: `P3`, width
    /// and height, `255`, then one line for each pixel, row by row from the top
    /// and from left to right within a row.
    pub fn render<W: Hittable<T>>(&self, world: &W) -> (lines: Vec<String>)
        ensures
            lines.len() == self.spec_pixels() + 3,
            lines[0]@ == seq!['P', '3', '\n'],
            lines[1]@ == self.spec_size_line(),
            lines[2]@ == seq!['2', '5', '5', '\n'],
            forall|k: int| 3 <= k < lines.len() ==> is_pixel_text(#[trigger] lines[k]@),
            forall|i: int, j: int|
                0 <= i < self.image_width && 0 <= j < self.image_height ==> #[trigger] self.shows(
                    *world,
                    lines@,
                    i,
                    j,
                ),
    {
        let mut lines: Vec<String> = self.header();
        let ghost mut colors: Seq<Color<T>> = Seq::empty();
        let mut j: i32 = 0;
        while j < self.image_height
            invariant
                0 <= j,
                j <= self.image_height || j == 0,
                self.image_width > 0 ==> lines.len() == 3 + j * self.image_width,
                self.image_width <= 0 ==> lines.len() == 3,
                lines[0]@ == seq!['P', '3', '\n'],
                lines[1]@ == self.spec_size_line(),
                lines[2]@ == seq!['2', '5', '5', '\n'],
                self.paints(*world, lines@, colors, j as int),
                forall|k: int| 3 <= k < lines.len() ==> is_pixel_text(#[trigger] lines[k]@),
            decreases self.image_height - j,
        {
            let mut i: i32 = 0;
            while i < self.image_width
                invariant
                    0 <= i,
                    i <= self.image_width || i == 0,
                    0 <= j < self.image_height,
                    self.image_width > 0 ==> lines.len() == 3 + j * self.image_width + i,
                    self.image_width <= 0 ==> lines.len() == 3,
                    lines[0]@ == seq!['P', '3', '\n'],
                    lines[1]@ == self.spec_size_line(),
                    lines[2]@ == seq!['2', '5', '5', '\n'],
                    self.paints(*world, lines@, colors, j as int),
                    colors.len() == lines.len() - 3,
                    forall|k: int| 3 <= k < lines.len() ==> is_pixel_text(#[trigger] lines[k]@),
                    forall|h: int|
                        0 <= h < i ==> self.is_pixel(
                            *world,
                            h as i32,
                            j,
                            #[trigger] colors[self.line_of(h, j as int) - 3],
                        ) && lines[self.line_of(h, j as int)]@ == pixel_line(
                            colors[self.line_of(h, j as int) - 3].spec_to_rgb(),
                        ),
                decreases self.image_width - i,
            {
                let color = self.pixel_color(world, i, j);
                let line = color.to_string();
                let ghost lines_before = lines@;
                let ghost colors_before = colors;
                lines.push(line);
                proof {
                    colors = colors.push(color);
                    assert forall|h: int, v: int|
                        0 <= h < self.image_width && 0 <= v < j implies self.is_pixel(
                        *world,
                        h as i32,
                        v as i32,
                        #[trigger] colors[self.line_of(h, v) - 3],
                    ) && lines[self.line_of(h, v)]@ == pixel_line(
                        colors[self.line_of(h, v) - 3].spec_to_rgb(),
                    ) by {
                        lemma_line_of(self.image_width as int, j as int, h, v);
                        assert(colors[self.line_of(h, v) - 3] == colors_before[self.line_of(h, v)
                            - 3]);
                        assert(lines[self.line_of(h, v)] == lines_before[self.line_of(h, v)]);
                    }
                    assert forall|h: int| 0 <= h < i + 1 implies self.is_pixel(
                        *world,
                        h as i32,
                        j,
                        #[trigger] colors[self.line_of(h, j as int) - 3],
                    ) && lines[self.line_of(h, j as int)]@ == pixel_line(
                        colors[self.line_of(h, j as int) - 3].spec_to_rgb(),
                    ) by {
                        if h < i {
                            assert(colors[self.line_of(h, j as int) - 3] == colors_before[self.line_of(
                                h,
                                j as int,
                            ) - 3]);
                            assert(lines[self.line_of(h, j as int)] == lines_before[self.line_of(
                                h,
                                j as int,
                            )]);
                        }
                    }
                }
                i += 1;
            }
            proof {
                if self.image_width > 0 {
                    assert((j + 1) * self.image_width == j * self.image_width + self.image_width)
                        by (nonlinear_arith);
                }
            }
            j += 1;
        }
        proof {
            if self.image_width > 0 && self.image_height > 0 {
                assert(j * self.image_width == self.image_width * self.image_height)
                    by (nonlinear_arith)
                    requires
                        j == self.image_height,
                ;
            }
            assert forall|i: int, j: int|
                0 <= i < self.image_width && 0 <= j < self.image_height implies #[trigger] self.shows(
                *world,
                lines@,
                i,
                j,
            ) by {
                lemma_line_of(self.image_width as int, self.image_height as int, i, j);
                let c = colors[self.line_of(i, j) - 3];
                assert(self.is_pixel(*world, i as i32, j as i32, c));
                assert(lines@[self.line_of(i, j)]@ == pixel_line(c.spec_to_rgb()));
            }
        }
        lines
    }

    fn magic_line() -> (line: String)
        ensures
            line@ == seq!['P', '3', '\n'],
    {
        let mut line = String::new();
        push_char(&mut line, 'P');
        push_char(&mut line, '3');
        push_char(&mut line, '\n');
        assert(line@ =~= seq!['P', '3', '\n']);
        line
    }

    fn size_line(&self) -> (line: String)
        ensures
            line@ == self.spec_size_line(),
    {
        let mut line = String::new();
        push_signed_decimal(&mut line, self.image_width);
        push_char(&mut line, ' ');
        push_signed_decimal(&mut line, self.image_height);
        push_char(&mut line, '\n');
        assert(line@ =~= self.spec_size_line());
        line
    }

    fn depth_line() -> (line: String)
        ensures
            line@ == seq!['2', '5', '5', '\n'],
    {
        let mut line = String::new();
        push_decimal(&mut line, 255);
        push_char(&mut line, '\n');
        proof {
            reveal_with_fuel(crate::text::decimal, 4);
        }
        assert(line@ =~= seq!['2', '5', '5', '\n']);
        line
    }
}

/// The line of a pixel in one of the first `rows` rows of an image `width`
/// wide comes before the end of those rows.
proof fn lemma_line_of(width: int, rows: int, i: int, j: int)
    requires
        0 <= i < width,
        0 <= j < rows,
    ensures
        0 <= j * width + i < rows * width,
{
    assert(j * width >= 0) by (nonlinear_arith)
        requires
            j >= 0,
            width > 0,
    ;
    assert(j * width + i < rows * width) by (nonlinear_arith)
        requires
            0 <= i < width,
            0 <= j < rows,
    ;
}

} // verus!
