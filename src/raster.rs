//! Pixel grids: the framebuffer a render pass fills, and the packed buffer a window shows.
use image::DynamicImage;
use image::GenericImage;
use image::GenericImageView;
use vstd::prelude::*;

verus! {

#[verifier::external_type_specification]
#[verifier::external_body]
pub struct ExDynamicImage(image::DynamicImage);

/// What `get_pixel` returns at each position of an image, row by row, as RGBA samples.
pub uninterp spec fn image_pixels(img: DynamicImage) -> Seq<(u8, u8, u8, u8)>;

/// The width an image was made with.
pub uninterp spec fn image_width(img: DynamicImage) -> u32;

/// The height an image was made with.
pub uninterp spec fn image_height(img: DynamicImage) -> u32;

/// Whether an image stores 8-bit RGB samples (no alpha channel).
pub uninterp spec fn image_is_rgb8(img: DynamicImage) -> bool;

/// Whether an image stores 32-bit float samples, which reading as bytes fails on when NaN.
pub uninterp spec fn image_has_float_samples(img: DynamicImage) -> bool;

/// An opaque 8-bit RGB color.
#[derive(Clone, Copy, Debug, PartialEq, Eq, Structural)]
pub struct Rgb8 {
    pub r: u8,
    pub g: u8,
    pub b: u8,
}

/// The RGBA sample an opaque color reads back as.
pub open spec fn opaque(c: Rgb8) -> (u8, u8, u8, u8) {
    (c.r, c.g, c.b, 255u8)
}

/// Position of pixel `(x, y)` in a row-major grid of the given width.
pub open spec fn cell(x: int, y: int, width: int) -> int {
    y * width + x
}

/// The value a pixel takes in a packed `0RGB` display buffer.
pub open spec fn packed(r: u8, g: u8, b: u8) -> int {
    r as int * 65536 + g as int * 256 + b as int
}

/// Relies on `DynamicImage::new_rgb8`: an RGB8 image of the given size, every sample zero.
#[verifier::external_body]
fn blank_rgb8(width: u32, height: u32) -> (img: DynamicImage)
    requires
        3 * (width as int) <= usize::MAX,
        3 * (width as int) * (height as int) <= usize::MAX,
    ensures
        image_width(img) == width,
        image_height(img) == height,
        image_is_rgb8(img),
        !image_has_float_samples(img),
        image_pixels(img) == Seq::new(
            (width as int * height as int) as nat,
            |i: int| (0u8, 0u8, 0u8, 255u8),
        ),
{
    DynamicImage::new_rgb8(width, height)
}

/// Relies on `GenericImageView::dimensions` for `DynamicImage`: its width and height.
#[verifier::external_body]
pub(crate) fn dimensions(img: &DynamicImage) -> (r: (u32, u32))
    ensures
        r.0 == image_width(*img),
        r.1 == image_height(*img),
        image_pixels(*img).len() == r.0 as int * r.1 as int,
{
    img.dimensions()
}

/// Relies on the variants of `DynamicImage`: whether it is `ImageRgb32F` or `ImageRgba32F`.
#[verifier::external_body]
pub(crate) fn has_float_samples(img: &DynamicImage) -> (r: bool)
    ensures
        r == image_has_float_samples(*img),
{
    match img {
        DynamicImage::ImageRgb32F(_) => true,
        DynamicImage::ImageRgba32F(_) => true,
        _ => false,
    }
}

/// Relies on `GenericImageView::get_pixel` for `DynamicImage`: the pixel at `(x, y)` as RGBA.
/// Float samples are left out: turning a NaN sample into a byte panics.
#[verifier::external_body]
pub(crate) fn pixel_at(img: &DynamicImage, x: u32, y: u32) -> (r: (u8, u8, u8, u8))
    requires
        x < image_width(*img),
        y < image_height(*img),
        !image_has_float_samples(*img),
    ensures
        r == image_pixels(*img)[cell(x as int, y as int, image_width(*img) as int)],
{
    let p = img.get_pixel(x, y);
    (p[0], p[1], p[2], p[3])
}

/// Relies on `GenericImage::put_pixel` for `DynamicImage`: on an RGB8 image it stores the
/// red, green and blue samples and drops alpha.
#[verifier::external_body]
fn put_rgb(img: &mut DynamicImage, x: u32, y: u32, c: Rgb8)
    requires
        x < image_width(*old(img)),
        y < image_height(*old(img)),
        image_is_rgb8(*old(img)),
    ensures
        image_width(*final(img)) == image_width(*old(img)),
        image_height(*final(img)) == image_height(*old(img)),
        image_is_rgb8(*final(img)),
        !image_has_float_samples(*final(img)),
        image_pixels(*final(img)) == image_pixels(*old(img)).update(
            cell(x as int, y as int, image_width(*old(img)) as int),
            opaque(c),
        ),
{
    img.put_pixel(x, y, image::Rgba([c.r, c.g, c.b, 255]))
}

/// The color a pixel gets: its shaded color where its ray hit, the background where it missed.
pub open spec fn resolved(sample: Option<Rgb8>, background: Rgb8) -> Rgb8 {
    match sample {
        Some(c) => c,
        None => background,
    }
}

proof fn lemma_cell_of_index(i: int, width: int)
    requires
        0 <= i,
        0 < width,
    ensures
        0 <= i % width < width,
        cell(i % width, i / width, width) == i,
{
    vstd::arithmetic::div_mod::lemma_fundamental_div_mod(i, width);
    vstd::arithmetic::mul::lemma_mul_is_commutative(width, i / width);
}

/// Column and row of the `i`-th pixel of a row-major grid.
fn grid_position(i: usize, width: u32, height: u32) -> (r: (u32, u32))
    requires
        i < width as int * height as int,
    ensures
        r.0 < width,
        r.1 < height,
        cell(r.0 as int, r.1 as int, width as int) == i,
{
    assert(width > 0) by (nonlinear_arith)
        requires
            0 <= i < width as int * height as int,
    ;
    let col: usize = i % (width as usize);
    let row: usize = i / (width as usize);
    proof {
        lemma_cell_of_index(i as int, width as int);
        assert(row < height) by (nonlinear_arith)
            requires
                row == i as int / width as int,
                i < width as int * height as int,
                0 < width,
        ;
    }
    (col as u32, row as u32)
}

/// Builds the framebuffer of one render pass from its per-pixel results, given row by row:
/// `Some(color)` where the pixel's ray hit the scene, `None` where it missed.
/// Every pixel is opaque; a missed pixel takes the background color.
pub fn fill_frame(width: u32, height: u32, samples: &Vec<Option<Rgb8>>, background: Rgb8) -> (img:
    DynamicImage)
    requires
        samples@.len() == width as int * height as int,
        3 * (width as int) <= usize::MAX,
        3 * (width as int) * (height as int) <= usize::MAX,
    ensures
        image_width(img) == width,
        image_height(img) == height,
        image_is_rgb8(img),
        !image_has_float_samples(img),
        image_pixels(img).len() == samples@.len(),
        forall|i: int|
            0 <= i < samples@.len() ==> #[trigger] image_pixels(img)[i] == opaque(
                resolved(samples@[i], background),
            ),
{
    let mut img = blank_rgb8(width, height);
    let n: usize = samples.len();
    let mut i: usize = 0;
    while i < n
        invariant
            n == samples@.len(),
            n == width as int * height as int,
            i <= n,
            image_width(img) == width,
            image_height(img) == height,
            image_is_rgb8(img),
            !image_has_float_samples(img),
            image_pixels(img).len() == n,
            forall|j: int|
                0 <= j < i ==> #[trigger] image_pixels(img)[j] == opaque(
                    resolved(samples@[j], background),
                ),
        decreases n - i,
    {
        let (x, y) = grid_position(i, width, height);
        let c = match samples[i] {
            Some(c) => c,
            None => background,
        };
        put_rgb(&mut img, x, y, c);
        i = i + 1;
    }
    img
}

/// Packs a color into the `0RGB` word a display buffer holds.
pub fn pack_rgb(r: u8, g: u8, b: u8) -> (w: u32)
    ensures
        w == packed(r, g, b),
{
    let w: u32 = ((r as u32) << 16) | ((g as u32) << 8) | (b as u32);
    assert(w == r as u32 * 65536 + g as u32 * 256 + b as u32) by (bit_vector)
        requires
            w == ((r as u32) << 16) | ((g as u32) << 8) | (b as u32),
    ;
    w
}

/// Converts an image of integer samples into a display buffer: one packed `0RGB` word per
/// pixel, row by row.
pub fn image_to_buffer(img: &DynamicImage) -> (buf: Vec<u32>)
    requires
        image_width(*img) as int * image_height(*img) as int <= usize::MAX,
        !image_has_float_samples(*img),
    ensures
        buf@.len() == image_pixels(*img).len(),
        forall|i: int|
            0 <= i < buf@.len() ==> {
                let p = #[trigger] image_pixels(*img)[i];
                buf@[i] == packed(p.0, p.1, p.2)
            },
{
    let (width, height) = dimensions(img);
    let n: usize = (width as usize) * (height as usize);
    let mut buf: Vec<u32> = Vec::with_capacity(n);
    let mut i: usize = 0;
    while i < n
        invariant
            n == width as int * height as int,
            n == image_pixels(*img).len(),
            width == image_width(*img),
            height == image_height(*img),
            !image_has_float_samples(*img),
            i <= n,
            buf@.len() == i,
            forall|j: int|
                0 <= j < i ==> {
                    let p = #[trigger] image_pixels(*img)[j];
                    buf@[j] == packed(p.0, p.1, p.2)
                },
        decreases n - i,
    {
        let (x, y) = grid_position(i, width, height);
        let p = pixel_at(img, x, y);
        buf.push(pack_rgb(p.0, p.1, p.2));
        i = i + 1;
    }
    buf
}

} // verus!
