//! The pixel canvas: an RGB raster kept in an `image::RgbImage`, with the
//! operations that build the bordered picture.

use vstd::prelude::*;

verus! {

/// A colour: red, green, blue.
pub type Rgb = (u8, u8, u8);

/// The colour of the border.
pub open spec fn white() -> Rgb {
    (255u8, 255u8, 255u8)
}

/// The mathematical value of a canvas: its size, and the colour at each
/// coordinate inside it. `x` runs to the right and `y` downwards.
#[verifier::ext_equal]
pub struct Raster {
    pub width: nat,
    pub height: nat,
    pub pixels: Map<(int, int), Rgb>,
}

impl Raster {
    /// Whether `(x, y)` lies inside the raster.
    pub open spec fn contains(self, x: int, y: int) -> bool {
        0 <= x < self.width && 0 <= y < self.height
    }

    /// The colour at `(x, y)`.
    pub open spec fn pixel(self, x: int, y: int) -> Rgb {
        self.pixels[(x, y)]
    }

    /// The raster of the given size that has the colour `color(x, y)` at each
    /// coordinate.
    pub open spec fn new(width: nat, height: nat, color: spec_fn(int, int) -> Rgb) -> Raster {
        Raster {
            width,
            height,
            pixels: Map::new(
                |p: (int, int)| 0 <= p.0 < width && 0 <= p.1 < height,
                |p: (int, int)| color(p.0, p.1),
            ),
        }
    }

    /// The raster of the given size with one colour everywhere.
    pub open spec fn filled(width: nat, height: nat, fill: Rgb) -> Raster {
        Raster::new(width, height, |x: int, y: int| fill)
    }

    /// The raster that a buffer of samples describes: three samples for each
    /// pixel, the pixels row after row.
    pub open spec fn of_samples(width: nat, height: nat, samples: Seq<u8>) -> Raster {
        Raster::new(
            width,
            height,
            |x: int, y: int|
                (
                    samples[3 * (y * width + x)],
                    samples[3 * (y * width + x) + 1],
                    samples[3 * (y * width + x) + 2],
                ),
        )
    }

    /// This raster with `top` laid over it, the upper left corner of `top` at
    /// `(x, y)`. What of `top` falls outside this raster is cut off.
    pub open spec fn overlaid(self, top: Raster, x: int, y: int) -> Raster {
        Raster::new(
            self.width,
            self.height,
            |i: int, j: int|
                if top.contains(i - x, j - y) {
                    top.pixel(i - x, j - y)
                } else {
                    self.pixel(i, j)
                },
        )
    }

    /// This raster inside a white border of the given thickness
    /// `(top, right, bottom, left)`.
    pub open spec fn bordered(self, insets: (int, int, int, int)) -> Raster {
        Raster::new(
            (self.width + insets.3 + insets.1) as nat,
            (self.height + insets.0 + insets.2) as nat,
            |i: int, j: int|
                if self.contains(i - insets.3, j - insets.0) {
                    self.pixel(i - insets.3, j - insets.0)
                } else {
                    white()
                },
        )
    }
}

/// Whether a raster of this size can be held in memory: the samples of one
/// row must be countable, and the three samples a pixel of the whole raster
/// must fit a `Vec`.
pub open spec fn fits_memory(width: int, height: int) -> bool {
    3 * width <= usize::MAX && 3 * width * height <= isize::MAX
}

/// Whether a buffer of `len` samples is long enough for a raster of this
/// size.
pub open spec fn holds_raster(len: int, width: int, height: int) -> bool {
    3 * width <= usize::MAX && 3 * width * height <= len
}

/// `image::DynamicImage`: a decoded image of any pixel format. Nothing of
/// its inside is known here.
#[verifier::external_type_specification]
#[verifier::external_body]
pub struct ExDynamicImage(image::DynamicImage);

/// The sample format of a decoded image.
#[derive(Debug, Clone, Copy, PartialEq, Eq, Structural)]
pub enum PixelFormat {
    L8,
    La8,
    Rgb8,
    Rgba8,
    L16,
    La16,
    Rgb16,
    Rgba16,
    Rgb32F,
    Rgba32F,
    /// A format that this library does not know.
    Other,
}

impl PixelFormat {
    /// Whether the samples are integers of 8 or 16 bits. The conversion of
    /// such samples to RGB cannot fail.
    pub open spec fn has_integer_samples(self) -> bool {
        !(self is Rgb32F || self is Rgba32F || self is Other)
    }

    /// Tests [`PixelFormat::has_integer_samples`].
    pub fn check_integer_samples(&self) -> (integer: bool)
        ensures
            integer == self.has_integer_samples(),
    {
        match self {
            PixelFormat::Rgb32F => false,
            PixelFormat::Rgba32F => false,
            PixelFormat::Other => false,
            _ => true,
        }
    }
}

/// The sample format of a decoded image.
pub uninterp spec fn decoded_format(img: image::DynamicImage) -> PixelFormat;

/// The width of a decoded image.
pub uninterp spec fn decoded_width(img: image::DynamicImage) -> u32;

/// The height of a decoded image.
pub uninterp spec fn decoded_height(img: image::DynamicImage) -> u32;

/// The pixels of a decoded image as `image::DynamicImage::to_rgb8` renders
/// them, row after row.
pub uninterp spec fn decoded_rgb(img: image::DynamicImage) -> Seq<Rgb>;

/// An RGB pixel buffer of a fixed size, held in an `image::RgbImage`. What is
/// known of the buffer is what [`canvas_width`], [`canvas_height`] and
/// [`canvas_pixels`] say of it.
#[derive(Debug)]
#[verifier::external_body]
pub struct PixelCanvas {
    img: image::RgbImage,
}

/// The width of the buffer that a canvas holds.
pub uninterp spec fn canvas_width(canvas: PixelCanvas) -> u32;

/// The height of the buffer that a canvas holds.
pub uninterp spec fn canvas_height(canvas: PixelCanvas) -> u32;

/// The pixels of the buffer that a canvas holds, row after row.
pub uninterp spec fn canvas_pixels(canvas: PixelCanvas) -> Seq<Rgb>;

/// The pixel of a canvas at `(x, y)`.
pub open spec fn pixel_at(canvas: PixelCanvas, x: int, y: int) -> Rgb {
    canvas_pixels(canvas)[y * canvas_width(canvas) + x]
}

/// Whether `(x, y)` lies inside a canvas.
pub open spec fn inside(canvas: PixelCanvas, x: int, y: int) -> bool {
    0 <= x < canvas_width(canvas) && 0 <= y < canvas_height(canvas)
}

/// Calls `image::ImageBuffer::width`.
#[verifier::external_body]
fn buffer_width(canvas: &PixelCanvas) -> (width: u32)
    ensures
        width == canvas_width(*canvas),
{
    canvas.img.width()
}

/// Calls `image::ImageBuffer::height`.
#[verifier::external_body]
fn buffer_height(canvas: &PixelCanvas) -> (height: u32)
    ensures
        height == canvas_height(*canvas),
{
    canvas.img.height()
}

/// Calls `image::ImageBuffer::get_pixel`, which panics outside the buffer and
/// inside it returns the pixel at index `y * width + x` of the row-major
/// order.
#[verifier::external_body]
fn buffer_pixel(canvas: &PixelCanvas, x: u32, y: u32) -> (color: Rgb)
    requires
        x < canvas_width(*canvas),
        y < canvas_height(*canvas),
    ensures
        color == canvas_pixels(*canvas)[y * canvas_width(*canvas) + x],
{
    let pixel = canvas.img.get_pixel(x, y);
    (pixel.0[0], pixel.0[1], pixel.0[2])
}

/// Calls `image::ImageBuffer::from_raw`, which accepts a buffer exactly when
/// three times the width times the height can be computed in `usize` and the
/// buffer holds at least that many samples, and reads the pixels from its
/// beginning.
#[verifier::external_body]
fn buffer_from_raw(width: u32, height: u32, samples: Vec<u8>) -> (made: Option<PixelCanvas>)
    ensures
        made is Some <==> holds_raster(samples@.len() as int, width as int, height as int),
        made matches Some(canvas) ==> canvas_width(canvas) == width && canvas_height(canvas)
            == height && forall|x: int, y: int|
            0 <= x < width && 0 <= y < height ==> #[trigger] pixel_at(canvas, x, y) == (
                samples@[3 * (y * width + x)],
                samples@[3 * (y * width + x) + 1],
                samples@[3 * (y * width + x) + 2],
            ),
{
    image::RgbImage::from_raw(width, height, samples).map(|img| PixelCanvas { img })
}

/// Calls `image::ImageBuffer::into_raw`, which hands out the buffer that the
/// pixels are read from.
#[verifier::external_body]
fn buffer_into_raw(canvas: PixelCanvas) -> (samples: Vec<u8>)
    ensures
        3 * canvas_width(canvas) * canvas_height(canvas) <= samples@.len(),
        forall|x: int, y: int|
            inside(canvas, x, y) ==> #[trigger] pixel_at(canvas, x, y) == (
                samples@[3 * (y * canvas_width(canvas) + x)],
                samples@[3 * (y * canvas_width(canvas) + x) + 1],
                samples@[3 * (y * canvas_width(canvas) + x) + 2],
            ),
{
    canvas.img.into_raw()
}

/// Calls `image::ImageBuffer::from_pixel`, which panics where the length of
/// the buffer cannot be computed or the buffer would not fit a `Vec`, and else
/// gives every pixel the same colour.
#[verifier::external_body]
fn buffer_from_pixel(width: u32, height: u32, fill: Rgb) -> (canvas: PixelCanvas)
    requires
        fits_memory(width as int, height as int),
    ensures
        canvas_width(canvas) == width,
        canvas_height(canvas) == height,
        forall|x: int, y: int| inside(canvas, x, y) ==> #[trigger] pixel_at(canvas, x, y) == fill,
{
    PixelCanvas { img: image::RgbImage::from_pixel(width, height, image::Rgb([fill.0, fill.1, fill.2])) }
}

/// Calls `image::imageops::overlay`. With RGB pixels the pixel of `top`
/// replaces the one below it; the part of `top` that falls outside `bottom`
/// is cut off, and the rest of `bottom` stays as it was.
#[verifier::external_body]
fn buffer_overlay(bottom: &mut PixelCanvas, top: &PixelCanvas, x: i64, y: i64)
    ensures
        canvas_width(*final(bottom)) == canvas_width(*old(bottom)),
        canvas_height(*final(bottom)) == canvas_height(*old(bottom)),
        forall|i: int, j: int|
            inside(*old(bottom), i, j) ==> #[trigger] pixel_at(*final(bottom), i, j) == (if inside(
                *top,
                i - x,
                j - y,
            ) {
                pixel_at(*top, i - x, j - y)
            } else {
                pixel_at(*old(bottom), i, j)
            }),
{
    image::imageops::overlay(&mut bottom.img, &top.img, x, y)
}

/// Calls `image::GenericImageView::dimensions` on a decoded image, which
/// gives its width and its height.
#[verifier::external_body]
pub(crate) fn decoded_dimensions(img: &image::DynamicImage) -> (size: (u32, u32))
    ensures
        size.0 == decoded_width(*img),
        size.1 == decoded_height(*img),
{
    image::GenericImageView::dimensions(img)
}

/// Calls `image::DynamicImage::color` and names the variant it returns.
#[verifier::external_body]
pub(crate) fn decoded_color(img: &image::DynamicImage) -> (format: PixelFormat)
    ensures
        format == decoded_format(*img),
{
    match img.color() {
        image::ColorType::L8 => PixelFormat::L8,
        image::ColorType::La8 => PixelFormat::La8,
        image::ColorType::Rgb8 => PixelFormat::Rgb8,
        image::ColorType::Rgba8 => PixelFormat::Rgba8,
        image::ColorType::L16 => PixelFormat::L16,
        image::ColorType::La16 => PixelFormat::La16,
        image::ColorType::Rgb16 => PixelFormat::Rgb16,
        image::ColorType::Rgba16 => PixelFormat::Rgba16,
        image::ColorType::Rgb32F => PixelFormat::Rgb32F,
        image::ColorType::Rgba32F => PixelFormat::Rgba32F,
        _ => PixelFormat::Other,
    }
}

/// Calls `image::DynamicImage::to_rgb8`, which allocates a buffer of the
/// image's size, as `image::ImageBuffer::from_pixel` does, and converts each
/// pixel to RGB. The conversion of a floating-point sample can panic, that of
/// an integer sample cannot.
#[verifier::external_body]
fn decoded_to_rgb8(img: &image::DynamicImage) -> (canvas: PixelCanvas)
    requires
        decoded_format(*img).has_integer_samples(),
        fits_memory(decoded_width(*img) as int, decoded_height(*img) as int),
    ensures
        canvas_width(canvas) == decoded_width(*img),
        canvas_height(canvas) == decoded_height(*img),
        forall|x: int, y: int|
            inside(canvas, x, y) ==> #[trigger] pixel_at(canvas, x, y) == decoded_rgb(*img)[y
                * decoded_width(*img) + x],
{
    PixelCanvas { img: img.to_rgb8() }
}

/// The raster of a decoded image after its pixels were converted to RGB.
pub open spec fn decoded_raster(img: image::DynamicImage) -> Raster {
    Raster::new(
        decoded_width(img) as nat,
        decoded_height(img) as nat,
        |x: int, y: int| decoded_rgb(img)[y * decoded_width(img) + x],
    )
}

impl View for PixelCanvas {
    type V = Raster;

    open spec fn view(&self) -> Raster {
        Raster::new(
            canvas_width(*self) as nat,
            canvas_height(*self) as nat,
            |x: int, y: int| pixel_at(*self, x, y),
        )
    }
}

/// Whether a raster of `width` by `height` pixels fits in memory.
pub fn check_fits_memory(width: u32, height: u32) -> (fits: bool)
    ensures
        fits == fits_memory(width as int, height as int),
{
    let w: u128 = width as u128;
    let h: u128 = height as u128;
    assert(3 * w * h <= 3 * 0x1_0000_0000 * 0x1_0000_0000) by (nonlinear_arith)
        requires
            0 <= w <= 0x1_0000_0000,
            0 <= h <= 0x1_0000_0000,
    ;
    let samples: u128 = 3 * w * h;
    3 * w <= usize::MAX as u128 && samples <= isize::MAX as u128
}

impl PixelCanvas {
    /// The width in pixels.
    pub fn width(&self) -> (width: u32)
        ensures
            width == self@.width,
    {
        buffer_width(self)
    }

    /// The height in pixels.
    pub fn height(&self) -> (height: u32)
        ensures
            height == self@.height,
    {
        buffer_height(self)
    }

    /// The colour at `(x, y)`, or `None` outside the canvas.
    pub fn get_pixel(&self, x: u32, y: u32) -> (color: Option<Rgb>)
        ensures
            color == if self@.contains(x as int, y as int) {
                Some(self@.pixel(x as int, y as int))
            } else {
                None
            },
    {
        if x < buffer_width(self) && y < buffer_height(self) {
            Some(buffer_pixel(self, x, y))
        } else {
            None
        }
    }

    /// Makes a canvas from a buffer of samples, three for each pixel, the
    /// pixels row after row. Returns `None` where the buffer is too short for
    /// the size.
    pub fn from_raw(width: u32, height: u32, samples: Vec<u8>) -> (made: Option<PixelCanvas>)
        ensures
            made is Some <==> holds_raster(samples@.len() as int, width as int, height as int),
            made matches Some(canvas) ==> canvas@ == Raster::of_samples(
                width as nat,
                height as nat,
                samples@,
            ),
    {
        let made = buffer_from_raw(width, height, samples);
        proof {
            if made is Some {
                assert(made->0@ =~= Raster::of_samples(width as nat, height as nat, samples@));
            }
        }
        made
    }

    /// Hands out the samples of the canvas, three for each pixel, the pixels
    /// row after row.
    pub fn into_raw(self) -> (samples: Vec<u8>)
        ensures
            3 * self@.width * self@.height <= samples@.len(),
            self@ == Raster::of_samples(self@.width, self@.height, samples@),
    {
        let ghost raster = self@;
        let ghost width = canvas_width(self);
        let ghost height = canvas_height(self);
        let samples = buffer_into_raw(self);
        proof {
            assert(raster =~= Raster::of_samples(width as nat, height as nat, samples@));
        }
        samples
    }

    /// Makes a canvas of the given size with one colour everywhere.
    pub fn filled(width: u32, height: u32, fill: Rgb) -> (canvas: PixelCanvas)
        requires
            fits_memory(width as int, height as int),
        ensures
            canvas@ == Raster::filled(width as nat, height as nat, fill),
    {
        let canvas = buffer_from_pixel(width, height, fill);
        proof {
            assert(canvas@ =~= Raster::filled(width as nat, height as nat, fill));
        }
        canvas
    }

    /// Lays `top` over this canvas, its upper left corner at `(x, y)`.
    pub fn overlay(&mut self, top: &PixelCanvas, x: i64, y: i64)
        ensures
            final(self)@ == old(self)@.overlaid(top@, x as int, y as int),
    {
        buffer_overlay(self, top, x, y);
        proof {
            assert(self@ =~= old(self)@.overlaid(top@, x as int, y as int));
        }
    }

    /// Whether a decoded image can be converted to RGB: its samples must be
    /// integers, and the RGB buffer must fit in memory.
    pub open spec fn can_flatten(img: image::DynamicImage) -> bool {
        &&& decoded_format(img).has_integer_samples()
        &&& fits_memory(decoded_width(img) as int, decoded_height(img) as int)
    }

    /// Tests [`PixelCanvas::can_flatten`].
    pub fn check_can_flatten(img: &image::DynamicImage) -> (can: bool)
        ensures
            can == Self::can_flatten(*img),
    {
        let size = decoded_dimensions(img);
        decoded_color(img).check_integer_samples() && check_fits_memory(size.0, size.1)
    }

    /// Converts a decoded image to RGB. An alpha channel is dropped.
    pub fn flatten(img: &image::DynamicImage) -> (canvas: PixelCanvas)
        requires
            Self::can_flatten(*img),
        ensures
            canvas@ == decoded_raster(*img),
    {
        let canvas = decoded_to_rgb8(img);
        proof {
            assert(canvas@ =~= decoded_raster(*img));
        }
        canvas
    }

    /// Whether a border of the given thickness `(top, right, bottom, left)`
    /// can be put round a source of the given size: the bordered size must fit
    /// the canvas's coordinates and its buffer must fit in memory.
    pub open spec fn can_border(width: int, height: int, insets: (int, int, int, int)) -> bool {
        &&& width + insets.3 + insets.1 <= u32::MAX
        &&& height + insets.0 + insets.2 <= u32::MAX
        &&& fits_memory(width + insets.3 + insets.1, height + insets.0 + insets.2)
    }

    /// Tests [`PixelCanvas::can_border`].
    pub fn check_can_border(width: u32, height: u32, insets: (u32, u32, u32, u32)) -> (can: bool)
        ensures
            can == Self::can_border(
                width as int,
                height as int,
                (insets.0 as int, insets.1 as int, insets.2 as int, insets.3 as int),
            ),
    {
        let new_width: u64 = width as u64 + insets.3 as u64 + insets.1 as u64;
        let new_height: u64 = height as u64 + insets.0 as u64 + insets.2 as u64;
        new_width <= u32::MAX as u64 && new_height <= u32::MAX as u64 && check_fits_memory(
            new_width as u32,
            new_height as u32,
        )
    }

    /// Builds the bordered picture: a white canvas that is larger than
    /// `source` by the thickness `(top, right, bottom, left)` of the border,
    /// with `source` copied into it at `(left, top)`.
    pub fn compose(source: &PixelCanvas, insets: (u32, u32, u32, u32)) -> (framed: PixelCanvas)
        requires
            Self::can_border(
                source@.width as int,
                source@.height as int,
                (insets.0 as int, insets.1 as int, insets.2 as int, insets.3 as int),
            ),
        ensures
            framed@ == source@.bordered(
                (insets.0 as int, insets.1 as int, insets.2 as int, insets.3 as int),
            ),
            framed@.width == source@.width + insets.3 + insets.1,
            framed@.height == source@.height + insets.0 + insets.2,
            forall|x: int, y: int|
                source@.contains(x, y) ==> #[trigger] framed@.pixel(x + insets.3, y + insets.0)
                    == source@.pixel(x, y),
            forall|x: int, y: int|
                framed@.contains(x, y) && !source@.contains(x - insets.3, y - insets.0)
                    ==> #[trigger] framed@.pixel(x, y) == white(),
    {
        let width: u32 = source.width();
        let height: u32 = source.height();
        let new_width: u32 = width + insets.3 + insets.1;
        let new_height: u32 = height + insets.0 + insets.2;
        let mut framed = PixelCanvas::filled(new_width, new_height, (255u8, 255u8, 255u8));
        framed.overlay(source, insets.3 as i64, insets.0 as i64);
        proof {
            let expected = source@.bordered(
                (insets.0 as int, insets.1 as int, insets.2 as int, insets.3 as int),
            );
            assert(framed@ =~= expected);
            assert forall|x: int, y: int| source@.contains(x, y) implies #[trigger] framed@.pixel(
                x + insets.3,
                y + insets.0,
            ) == source@.pixel(x, y) by {
                assert(source@.contains(x + insets.3 - insets.3, y + insets.0 - insets.0));
            }
        }
        framed
    }
}

/// Composing is a function of the source and the insets: two canvases
/// composed from equal sources with equal insets are equal, pixel for pixel.
pub proof fn lemma_compose_is_deterministic(
    first_source: Raster,
    second_source: Raster,
    insets: (int, int, int, int),
    first: Raster,
    second: Raster,
)
    requires
        first_source == second_source,
        first == first_source.bordered(insets),
        second == second_source.bordered(insets),
    ensures
        first == second,
{
}

/// Two buffers of samples that describe the same raster agree on every
/// sample of every pixel: equal canvases are equal byte for byte.
pub proof fn lemma_equal_rasters_have_equal_samples(
    width: nat,
    height: nat,
    first: Seq<u8>,
    second: Seq<u8>,
)
    requires
        Raster::of_samples(width, height, first) == Raster::of_samples(width, height, second),
    ensures
        forall|k: int| 0 <= k < 3 * width * height ==> first[k] == second[k],
{
    let a = Raster::of_samples(width, height, first);
    let b = Raster::of_samples(width, height, second);
    assert forall|k: int| 0 <= k < 3 * width * height implies first[k] == second[k] by {
        let w = width as int;
        let h = height as int;
        assert(w > 0 && h > 0) by (nonlinear_arith)
            requires
                0 <= k < 3 * w * h,
                w >= 0,
                h >= 0,
        ;
        let i = k / 3;
        let c = k % 3;
        let x = i % w;
        let y = i / w;
        assert(i < w * h) by (nonlinear_arith)
            requires
                0 <= k < 3 * w * h,
                i == k / 3,
        ;
        assert(i == y * w + x && 0 <= x < w && 0 <= y) by (nonlinear_arith)
            requires
                0 <= i,
                w > 0,
                x == i % w,
                y == i / w,
        ;
        assert(y < h) by (nonlinear_arith)
            requires
                i == y * w + x,
                0 <= x,
                i < w * h,
                w > 0,
        ;
        assert(a.pixels.contains_key((x, y)));
        assert(a.pixel(x, y) == b.pixel(x, y));
        assert(k == 3 * (y * w + x) + c);
    }
}

} // verus!
