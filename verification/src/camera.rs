//! The camera: how an image is split into pixels and sub-samples, what a
//! traced ray adds to its pixel, and how the radiance of all pixels becomes a
//! displayable image.

use vstd::prelude::*;
use vstd::arithmetic::div_mod::lemma_fundamental_div_mod_converse;
use crate::fraction::Fraction;
use crate::obstacle::{Position, Rgb};
use crate::ray::{Ray, Status};

verus! {

/// A camera: where it stands, and the width and height of its image in
/// pixels.
#[derive(Clone, Copy, Debug, PartialEq, Eq)]
pub struct Camera {
    pub position: Position,
    pub im_size: [u32; 2],
}

/// One pixel of the finished image.
#[derive(Clone, Copy, Debug, PartialEq, Eq, Structural)]
pub struct Pixel {
    pub r: u8,
    pub g: u8,
    pub b: u8,
}

/// The curve that takes radiance, as a share of the image's peak, to a
/// display value: exposure and gamma, tabulated at evenly spaced shares from
/// none (the first level) to the peak (the last), and never falling.
pub struct ToneCurve {
    levels: Vec<u8>,
}

/// No level of the curve is lower than one before it.
pub open spec fn never_falls(levels: Seq<u8>) -> bool {
    forall|i: int, j: int| 0 <= i <= j < levels.len() ==> levels[i] <= levels[j]
}

/// The largest of the three channels.
pub open spec fn brightest(c: Rgb) -> int {
    if c.r >= c.g && c.r >= c.b {
        c.r as int
    } else if c.g >= c.b {
        c.g as int
    } else {
        c.b as int
    }
}

/// The largest channel among the first `n` entries of the buffer; 0 for
/// none.
pub open spec fn peak_of(buffer: Seq<Rgb>, n: int) -> int
    decreases n,
{
    if n <= 0 {
        0
    } else {
        let before = peak_of(buffer, n - 1);
        if brightest(buffer[n - 1]) > before {
            brightest(buffer[n - 1])
        } else {
            before
        }
    }
}

/// The largest channel of the whole buffer; 0 for an empty one.
pub open spec fn peak(buffer: Seq<Rgb>) -> int {
    peak_of(buffer, buffer.len() as int)
}

/// The place on a curve of `len` levels of the share `value / peak`, rounded
/// down, and the last place for a value beyond the peak; the first place
/// where there is no light at all.
pub open spec fn level_index(value: int, peak: int, len: int) -> int {
    if peak <= 0 {
        0
    } else if value >= peak {
        len - 1
    } else {
        value * (len - 1) / peak
    }
}

/// The display value of one channel.
pub open spec fn toned(levels: Seq<u8>, value: int, peak: int) -> u8 {
    levels[level_index(value, peak, levels.len() as int)]
}

/// The pixel that a curve makes of the radiance `c` in an image of the given
/// peak.
pub open spec fn toned_pixel(levels: Seq<u8>, c: Rgb, peak: int) -> Pixel {
    Pixel {
        r: toned(levels, c.r as int, peak),
        g: toned(levels, c.g as int, peak),
        b: toned(levels, c.b as int, peak),
    }
}

/// Numerator of a sample's offset from the middle of the view, as a share of
/// the field of view along one axis.
///
/// The axis holds `size` pixels of `grid` sub-samples each; sample number
/// `pixel * grid + sub` sits in the middle of its cell.
pub open spec fn offset_num(size: int, pixel: int, grid: int, sub: int) -> int {
    2 * (pixel * grid + sub) + 1 - grid * size
}

/// Denominator of a sample's offset: twice the number of samples along the
/// axis.
pub open spec fn offset_den(size: int, grid: int) -> int {
    2 * grid * size
}

/// What a traced ray adds to its pixel: the colour of the surface it met; a
/// full red channel for a ray that diverged; a full blue channel for any
/// other ray, which has met nothing.
pub open spec fn sample_of(status: Status, surface: Rgb, full: u64) -> Rgb {
    match status {
        Status::Collided(_) => surface,
        Status::Diverged => Rgb { r: full, g: 0, b: 0 },
        _ => Rgb { r: 0, g: 0, b: full },
    }
}

/// `num_integer::Roots::sqrt` on a `usize`: the square root rounded down,
/// which is the one number whose square does not exceed `n` while the square
/// of the next does.
#[verifier::external_body]
fn integer_sqrt(n: usize) -> (root: usize)
    ensures
        root * root <= n < (root + 1) * (root + 1),
{
    num_integer::Roots::sqrt(&n)
}

/// `image::ImageBuffer::new` and `enumerate_pixels` on the new image: the
/// coordinates of its pixels in the order in which the image holds them, row
/// after row from the top, each row from the left. The image is made only to
/// be walked; making it fails where three bytes for each pixel of a row, or
/// of the image, exceed what a `usize` counts.
#[verifier::external_body]
fn image_coordinates(width: u32, height: u32) -> (coordinates: Vec<(u32, u32)>)
    requires
        3 * width <= usize::MAX,
        3 * width * height <= usize::MAX,
    ensures
        coordinates@.len() == width * height,
        forall|k: int|
            0 <= k < coordinates@.len() ==> (#[trigger] coordinates@[k]).0 == k % (width as int)
                && coordinates@[k].1 == k / (width as int),
{
    let img: image::RgbImage = image::ImageBuffer::new(width, height);
    img.enumerate_pixels().map(|(x, y, _)| (x, y)).collect()
}

impl ToneCurve {
    /// The levels of the curve, from no light to the peak.
    pub closed spec fn view(&self) -> Seq<u8> {
        self.levels@
    }

    #[verifier::type_invariant]
    spec fn valid(&self) -> bool {
        self.levels@.len() >= 1 && never_falls(self.levels@)
    }

    /// The curve with the given levels, if there is at least one and none is
    /// lower than one before it.
    pub fn from_levels(levels: Vec<u8>) -> (curve: Option<ToneCurve>)
        ensures
            curve is Some <==> levels@.len() >= 1 && never_falls(levels@),
            curve matches Some(c) ==> c@ == levels@,
    {
        if levels.len() == 0 {
            return None;
        }
        let mut i: usize = 1;
        while i < levels.len()
            invariant
                1 <= i <= levels.len(),
                forall|a: int, b: int| 0 <= a <= b < i ==> levels@[a] <= levels@[b],
            decreases levels.len() - i,
        {
            if levels[i - 1] > levels[i] {
                return None;
            }
            i = i + 1;
        }
        Some(ToneCurve { levels })
    }

    /// The curve of 256 levels that shows a share of the peak as the same
    /// share of full brightness: exposure 1 and gamma 1.
    pub fn linear() -> (curve: ToneCurve)
        ensures
            curve@.len() == 256,
            forall|i: int| 0 <= i < 256 ==> curve@[i] == i,
    {
        let mut levels: Vec<u8> = Vec::new();
        let mut i: usize = 0;
        while i < 256
            invariant
                i <= 256,
                levels@.len() == i,
                forall|k: int| 0 <= k < i ==> levels@[k] == k,
            decreases 256 - i,
        {
            levels.push(i as u8);
            i = i + 1;
        }
        ToneCurve { levels }
    }

    /// The number of levels, which is at least one.
    pub fn len(&self) -> (n: usize)
        ensures
            n == self@.len(),
            n >= 1,
    {
        proof {
            use_type_invariant(self);
        }
        self.levels.len()
    }

    /// The display value of the channel `value` in an image whose largest
    /// channel is `peak`.
    pub fn level(&self, value: u64, peak: u64) -> (shown: u8)
        ensures
            shown == toned(self@, value as int, peak as int),
    {
        proof {
            use_type_invariant(self);
        }
        if peak == 0 {
            self.levels[0]
        } else if value >= peak {
            self.levels[self.levels.len() - 1]
        } else {
            let top: u128 = (self.levels.len() - 1) as u128;
            let v: u128 = value as u128;
            let p: u128 = peak as u128;
            assert(v * top <= p * top <= 0xffff_ffff_ffff_ffff * 0xffff_ffff_ffff_ffff)
                by (nonlinear_arith)
                requires
                    0 <= v <= p <= 0xffff_ffff_ffff_ffff,
                    0 <= top <= 0xffff_ffff_ffff_ffff,
            ;
            assert(v * top / (p as int) <= top) by (nonlinear_arith)
                requires
                    0 <= v * top <= p * top,
                    p > 0,
            ;
            let index: u128 = v * top / p;
            self.levels[index as usize]
        }
    }
}

impl Camera {
    /// A camera at the origin of the coordinates with an image of 100 by 100
    /// pixels.
    pub fn new() -> (camera: Camera)
        ensures
            camera.position == (Position { radius: 0, polar: 0, altitude: 0 }),
            camera.im_size[0] == 100,
            camera.im_size[1] == 100,
    {
        Camera { position: Position { radius: 0, polar: 0, altitude: 0 }, im_size: [100, 100] }
    }

    /// A ray that starts at the camera.
    pub fn emit(&self) -> (ray: Ray)
        ensures
            ray == (Ray { position: self.position, steps: 0, status: Status::Stepping }),
    {
        Ray::new_i(&self.position)
    }

    /// The number of sub-samples along each side of a pixel for `n_rays`
    /// rays per pixel: the largest whose square does not exceed `n_rays`.
    pub fn grid_side(n_rays: usize) -> (side: usize)
        ensures
            side * side <= n_rays < (side + 1) * (side + 1),
    {
        integer_sqrt(n_rays)
    }

    /// The coordinates of the image's pixels, column and row, in the order
    /// of the finished image: row after row from the top, each row from the
    /// left. `None` for an image too large to be held: one whose rows, or
    /// whose pixels in all, take more bytes than a `usize` counts, at three
    /// bytes for each pixel.
    pub fn pixels(&self) -> (coordinates: Option<Vec<(u32, u32)>>)
        ensures
            coordinates is Some <==> 3 * self.im_size[0] <= usize::MAX && 3 * self.im_size[0]
                * self.im_size[1] <= usize::MAX,
            coordinates matches Some(list) ==> {
                &&& list@.len() == self.im_size[0] * self.im_size[1]
                &&& forall|k: int|
                    0 <= k < list@.len() ==> (#[trigger] list@[k]).0 == k % (self.im_size[0] as int)
                        && list@[k].1 == k / (self.im_size[0] as int)
            },
    {
        let width: u32 = self.im_size[0];
        let height: u32 = self.im_size[1];
        assert(0 <= width * height <= 0xffff_ffff * 0xffff_ffff) by (nonlinear_arith)
            requires
                0 <= width <= 0xffff_ffff,
                0 <= height <= 0xffff_ffff,
        ;
        let area: u128 = (width as u128) * (height as u128);
        if 3 * (width as u128) <= usize::MAX as u128 && 3 * area <= usize::MAX as u128 {
            assert(3 * width * height == 3 * (width * height)) by (nonlinear_arith);
            Some(image_coordinates(width, height))
        } else {
            assert(3 * width * height == 3 * (width * height)) by (nonlinear_arith);
            None
        }
    }

    /// The offset of a sample from the middle of the view along one axis (0
    /// for the width, anything else for the height), as a share of the field
    /// of view along that axis. `None` where the axis holds no sample: an
    /// image without pixels along it, or a grid without sub-samples.
    pub fn sample_offset(&self, axis: usize, pixel: u32, grid: usize, sub: usize) -> (offset: Option<
        Fraction,
    >)
        ensures
            ({
                let size = if axis == 0 {
                    self.im_size[0]
                } else {
                    self.im_size[1]
                };
                match offset {
                    Some(f) => {
                        &&& size > 0 && grid > 0
                        &&& f.num == offset_num(size as int, pixel as int, grid as int, sub as int)
                        &&& f.den == offset_den(size as int, grid as int)
                        &&& f.wf()
                    },
                    None => size == 0 || grid == 0,
                }
            }),
    {
        let size: u32 = if axis == 0 {
            self.im_size[0]
        } else {
            self.im_size[1]
        };
        if size == 0 || grid == 0 {
            return None;
        }
        let s: i128 = size as i128;
        let p: i128 = pixel as i128;
        let n: i128 = grid as i128;
        let k: i128 = sub as i128;
        assert(0 <= p * n <= 0xffff_ffff * 0xffff_ffff_ffff_ffff) by (nonlinear_arith)
            requires
                0 <= p <= 0xffff_ffff,
                0 <= n <= 0xffff_ffff_ffff_ffff,
        ;
        assert(0 < n * s <= 0xffff_ffff_ffff_ffff * 0xffff_ffff) by (nonlinear_arith)
            requires
                0 < s <= 0xffff_ffff,
                0 < n <= 0xffff_ffff_ffff_ffff,
        ;
        let num: i128 = 2 * (p * n + k) + 1 - n * s;
        let den: i128 = 2 * (n * s);
        assert(2 * (n * s) == 2 * n * s) by (nonlinear_arith);
        Some(Fraction { num, den })
    }

    /// The image: each entry of the radiance buffer shown through the curve,
    /// relative to the largest channel of the whole buffer. `None` unless
    /// the buffer holds one entry for each pixel of the image.
    pub fn render(&self, radiance: &Vec<Rgb>, curve: &ToneCurve) -> (image: Option<Vec<Pixel>>)
        ensures
            image is Some <==> radiance@.len() == self.im_size[0] * self.im_size[1],
            image matches Some(pixels) ==> {
                &&& pixels@.len() == radiance@.len()
                &&& forall|i: int|
                    0 <= i < pixels@.len() ==> #[trigger] pixels@[i] == toned_pixel(
                        curve@,
                        radiance@[i],
                        peak(radiance@),
                    )
            },
    {
        let width: u32 = self.im_size[0];
        let height: u32 = self.im_size[1];
        assert(0 <= width * height <= 0xffff_ffff * 0xffff_ffff) by (nonlinear_arith)
            requires
                0 <= width <= 0xffff_ffff,
                0 <= height <= 0xffff_ffff,
        ;
        let area: u128 = (width as u128) * (height as u128);
        if radiance.len() as u128 == area {
            Some(tone_map(radiance, curve))
        } else {
            None
        }
    }
}

/// What a traced ray adds to its pixel, in a scale of radiance in which
/// `full` is a full channel.
pub fn sample_radiance(ray: &Ray, surface: Rgb, full: u64) -> (sample: Rgb)
    ensures
        sample == sample_of(ray.status, surface, full),
{
    match ray.status {
        Status::Collided(_) => surface,
        Status::Diverged => Rgb { r: full, g: 0, b: 0 },
        _ => Rgb { r: 0, g: 0, b: full },
    }
}

/// The sum of two amounts of radiance, channel by channel; `None` where a
/// channel's sum does not fit.
pub fn accumulate(total: &Rgb, sample: &Rgb) -> (sum: Option<Rgb>)
    ensures
        sum is Some <==> total.r + sample.r <= u64::MAX && total.g + sample.g <= u64::MAX
            && total.b + sample.b <= u64::MAX,
        sum matches Some(s) ==> s.r == total.r + sample.r && s.g == total.g + sample.g && s.b
            == total.b + sample.b,
{
    match (total.r.checked_add(sample.r), total.g.checked_add(sample.g), total.b.checked_add(sample.b)) {
        (Some(r), Some(g), Some(b)) => Some(Rgb { r, g, b }),
        _ => None,
    }
}

/// The largest channel of the whole buffer: the radiance that the image is
/// shown relative to.
pub fn max_radiance(buffer: &Vec<Rgb>) -> (m: u64)
    ensures
        m == peak(buffer@),
{
    let mut m: u64 = 0;
    let mut i: usize = 0;
    while i < buffer.len()
        invariant
            i <= buffer.len(),
            m == peak_of(buffer@, i as int),
        decreases buffer.len() - i,
    {
        let c = buffer[i];
        let top: u64 = if c.r >= c.g && c.r >= c.b {
            c.r
        } else if c.g >= c.b {
            c.g
        } else {
            c.b
        };
        if top > m {
            m = top;
        }
        i = i + 1;
    }
    m
}

/// Shows a radiance buffer through a curve: finds the largest channel of the
/// whole buffer, then takes every channel, as a share of it, to its display
/// value.
pub fn tone_map(buffer: &Vec<Rgb>, curve: &ToneCurve) -> (pixels: Vec<Pixel>)
    ensures
        pixels@.len() == buffer@.len(),
        forall|i: int|
            0 <= i < pixels@.len() ==> #[trigger] pixels@[i] == toned_pixel(
                curve@,
                buffer@[i],
                peak(buffer@),
            ),
{
    let top: u64 = max_radiance(buffer);
    let mut pixels: Vec<Pixel> = Vec::new();
    let mut i: usize = 0;
    while i < buffer.len()
        invariant
            i <= buffer.len(),
            top == peak(buffer@),
            pixels@.len() == i,
            forall|k: int|
                0 <= k < i ==> #[trigger] pixels@[k] == toned_pixel(curve@, buffer@[k], top as int),
        decreases buffer.len() - i,
    {
        let c = buffer[i];
        let pixel = Pixel {
            r: curve.level(c.r, top),
            g: curve.level(c.g, top),
            b: curve.level(c.b, top),
        };
        pixels.push(pixel);
        i = i + 1;
    }
    pixels
}

/// No channel among the first `n` entries exceeds their peak.
proof fn peak_bounds(buffer: Seq<Rgb>, n: int, j: int)
    requires
        0 <= j < n <= buffer.len(),
    ensures
        brightest(buffer[j]) <= peak_of(buffer, n),
        buffer[j].r <= peak_of(buffer, n),
        buffer[j].g <= peak_of(buffer, n),
        buffer[j].b <= peak_of(buffer, n),
    decreases n,
{
    if j < n - 1 {
        peak_bounds(buffer, n - 1, j);
    }
}

/// The peak of a buffer that holds any light is a channel of one of its
/// entries.
proof fn peak_attained(buffer: Seq<Rgb>, n: int) -> (j: int)
    requires
        0 <= n <= buffer.len(),
        peak_of(buffer, n) > 0,
    ensures
        0 <= j < n,
        brightest(buffer[j]) == peak_of(buffer, n),
    decreases n,
{
    if brightest(buffer[n - 1]) > peak_of(buffer, n - 1) {
        n - 1
    } else {
        peak_attained(buffer, n - 1)
    }
}

/// The peak is the maximum: no channel of the buffer exceeds it, and a buffer
/// that holds any light has a channel equal to it.
pub proof fn peak_is_maximum(buffer: Seq<Rgb>)
    ensures
        forall|i: int|
            0 <= i < buffer.len() ==> (#[trigger] buffer[i]).r <= peak(buffer) && buffer[i].g
                <= peak(buffer) && buffer[i].b <= peak(buffer),
        peak(buffer) > 0 ==> exists|i: int|
            0 <= i < buffer.len() && brightest(#[trigger] buffer[i]) == peak(buffer),
        peak(buffer) >= 0,
{
    assert forall|i: int| 0 <= i < buffer.len() implies (#[trigger] buffer[i]).r <= peak(buffer)
        && buffer[i].g <= peak(buffer) && buffer[i].b <= peak(buffer) by {
        peak_bounds(buffer, buffer.len() as int, i);
    }
    if peak(buffer) > 0 {
        let j = peak_attained(buffer, buffer.len() as int);
        assert(brightest(buffer[j]) == peak(buffer));
    }
    peak_nonnegative(buffer, buffer.len() as int);
}

proof fn peak_nonnegative(buffer: Seq<Rgb>, n: int)
    ensures
        peak_of(buffer, n) >= 0,
    decreases n,
{
    if n > 0 {
        peak_nonnegative(buffer, n - 1);
    }
}

/// In an image that holds any light, a channel equal to the peak is shown at
/// the curve's last level, and no channel of the image is shown brighter.
pub proof fn peak_shows_brightest(buffer: Seq<Rgb>, levels: Seq<u8>, i: int)
    requires
        levels.len() >= 1,
        never_falls(levels),
        0 <= i < buffer.len(),
        peak(buffer) > 0,
    ensures
        buffer[i].r == peak(buffer) ==> toned_pixel(levels, buffer[i], peak(buffer)).r
            == levels.last(),
        buffer[i].g == peak(buffer) ==> toned_pixel(levels, buffer[i], peak(buffer)).g
            == levels.last(),
        buffer[i].b == peak(buffer) ==> toned_pixel(levels, buffer[i], peak(buffer)).b
            == levels.last(),
        toned_pixel(levels, buffer[i], peak(buffer)).r <= levels.last(),
        toned_pixel(levels, buffer[i], peak(buffer)).g <= levels.last(),
        toned_pixel(levels, buffer[i], peak(buffer)).b <= levels.last(),
{
    peak_bounds(buffer, buffer.len() as int, i);
    let p = peak(buffer);
    let top = levels.len() - 1;
    level_index_in_range(buffer[i].r as int, p, levels.len() as int);
    level_index_in_range(buffer[i].g as int, p, levels.len() as int);
    level_index_in_range(buffer[i].b as int, p, levels.len() as int);
}

/// A channel that does not exceed the peak has its place on the curve, and
/// the peak itself has the last place.
proof fn level_index_in_range(value: int, peak: int, len: int)
    requires
        0 <= value <= peak,
        peak > 0,
        len >= 1,
    ensures
        0 <= level_index(value, peak, len) <= len - 1,
        value == peak ==> level_index(value, peak, len) == len - 1,
{
    let top = len - 1;
    assert(0 <= value * top <= peak * top) by (nonlinear_arith)
        requires
            0 <= value <= peak,
            0 <= top,
    ;
    assert(0 <= value * top / peak <= top) by (nonlinear_arith)
        requires
            0 <= value * top <= peak * top,
            peak > 0,
    ;
}

/// Shown through the linear curve, a channel equal to the peak of an image
/// that holds any light is at full brightness, 255, and every channel is
/// shown at 255 times its share of the peak, rounded down.
pub proof fn linear_curve_shows_share(levels: Seq<u8>, value: int, peak: int)
    requires
        levels.len() == 256,
        forall|i: int| 0 <= i < 256 ==> levels[i] == i,
        0 <= value <= peak,
        peak > 0,
    ensures
        toned(levels, value, peak) == value * 255 / peak,
        value == peak ==> toned(levels, value, peak) == 255,
{
    level_index_in_range(value, peak, 256);
    assert(peak * 255 / peak == 255) by (nonlinear_arith)
        requires
            peak > 0,
    ;
}

/// A brighter channel is never shown darker: the display value does not fall
/// as the radiance rises.
pub proof fn brighter_never_darker(levels: Seq<u8>, low: int, high: int, peak: int)
    requires
        levels.len() >= 1,
        never_falls(levels),
        0 <= low <= high,
    ensures
        toned(levels, low, peak) <= toned(levels, high, peak),
{
    if peak > 0 {
        let top = levels.len() - 1;
        if low < peak {
            level_index_in_range(low, peak, levels.len() as int);
        }
        if high < peak {
            level_index_in_range(high, peak, levels.len() as int);
            assert(low * top <= high * top) by (nonlinear_arith)
                requires
                    low <= high,
                    top >= 0,
            ;
            assert(low * top / peak <= high * top / peak) by (nonlinear_arith)
                requires
                    low * top <= high * top,
                    peak > 0,
            ;
        }
    }
}

/// Every pixel of the image has a place of its own in the image's order: the
/// pixel in column `x` of row `y` is the one listed at place `y * width + x`,
/// and at no other.
pub proof fn pixel_has_one_place(width: int, x: int, y: int, k: int)
    requires
        0 <= x < width,
        0 <= y,
        0 <= k,
    ensures
        (k % width == x && k / width == y) <==> k == y * width + x,
{
    if k == y * width + x {
        lemma_fundamental_div_mod_converse(k, width, y, x);
    } else if k % width == x && k / width == y {
        assert(k == width * (k / width) + k % width) by (nonlinear_arith)
            requires
                width > 0,
        ;
        assert(width * y == y * width) by (nonlinear_arith);
    }
}

/// Every sample of a pixel inside the image lies strictly inside the field
/// of view: its offset from the middle is less than half the field either
/// way.
pub proof fn offset_inside_view(size: int, pixel: int, grid: int, sub: int)
    requires
        0 <= pixel < size,
        0 <= sub < grid,
    ensures
        offset_den(size, grid) > 0,
        -offset_den(size, grid) < 2 * offset_num(size, pixel, grid, sub) < offset_den(size, grid),
{
    assert(0 <= pixel * grid <= (size - 1) * grid) by (nonlinear_arith)
        requires
            0 <= pixel <= size - 1,
            0 < grid,
    ;
    assert((size - 1) * grid == grid * size - grid) by (nonlinear_arith);
    assert(2 * grid * size == 2 * (grid * size)) by (nonlinear_arith);
    assert(grid * size >= 1) by (nonlinear_arith)
        requires
            size >= 1,
            grid >= 1,
    ;
}

/// Every sample lies strictly inside its own pixel: between the edges that
/// the pixel has in the view, which lie `pixel / size` and `(pixel + 1) /
/// size` of the field from the view's edge.
pub proof fn offset_inside_pixel(size: int, pixel: int, grid: int, sub: int)
    requires
        0 <= sub < grid,
    ensures
        (2 * pixel - size) * grid < offset_num(size, pixel, grid, sub) < (2 * pixel + 2 - size)
            * grid,
{
    assert((2 * pixel - size) * grid == 2 * (pixel * grid) - grid * size) by (nonlinear_arith);
    assert((2 * pixel + 2 - size) * grid == 2 * (pixel * grid) + 2 * grid - grid * size)
        by (nonlinear_arith);
}

/// The samples along an axis are evenly spaced, one sample's width apart:
/// from one sub-sample to the next within a pixel, and from the last
/// sub-sample of a pixel to the first of the next pixel.
pub proof fn offsets_evenly_spaced(size: int, pixel: int, grid: int, sub: int)
    requires
        grid > 0,
    ensures
        offset_num(size, pixel, grid, sub + 1) == offset_num(size, pixel, grid, sub) + 2,
        offset_num(size, pixel + 1, grid, 0) == offset_num(size, pixel, grid, grid - 1) + 2,
{
    assert((pixel + 1) * grid == pixel * grid + grid) by (nonlinear_arith);
}

/// The samples along an axis mirror each other about the middle of the view.
pub proof fn offsets_mirror(size: int, pixel: int, grid: int, sub: int)
    ensures
        offset_num(size, size - 1 - pixel, grid, grid - 1 - sub) == -offset_num(
            size,
            pixel,
            grid,
            sub,
        ),
{
    assert((size - 1 - pixel) * grid == grid * size - grid - pixel * grid) by (nonlinear_arith);
}

} // verus!
