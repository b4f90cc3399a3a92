//! The texture image: decoded, turned bottom-up and held as RGBA bytes.
//!
//! Image files store their rows from the top down, while the graphics card
//! takes the first row it is given as the lowest. The texture therefore holds
//! the decoded rows in reverse order, and the quad's texture coordinates can
//! run upwards with the screen.

use crate::mesh::{corner, lemma_unit_times, quad};
use crate::ratio::Ratio;
use vstd::arithmetic::div_mod::lemma_fundamental_div_mod_converse;
use vstd::prelude::*;

verus! {

/// The decoded picture of the `image` crate, carried through but never looked into.
#[verifier::external_type_specification]
#[verifier::external_body]
pub struct ExDynamicImage(image::DynamicImage);

/// The decoding error of the `image` crate, carried through but never looked into.
#[verifier::external_type_specification]
#[verifier::external_body]
pub struct ExImageError(image::ImageError);

/// The number of bytes in an image of `width` by `height` pixels: four for
/// each pixel, for red, green, blue and alpha.
pub open spec fn byte_count(width: u32, height: u32) -> int {
    4 * width * height
}

/// The rows of an image in reverse order.
///
/// `rows` holds at least `height` rows of `width` pixels of four bytes; the
/// result holds exactly those rows, the last one first, each row unchanged.
pub open spec fn flipped(rows: Seq<u8>, width: u32, height: u32) -> Seq<u8> {
    Seq::new(
        byte_count(width, height) as nat,
        |i: int| rows[(height - 1 - i / (4 * width)) * (4 * width) + i % (4 * width)],
    )
}

/// The four bytes of the pixel in `column` and `row` of an image `width` pixels wide.
pub open spec fn pixel_at(pixels: Seq<u8>, width: u32, column: int, row: int) -> Seq<u8> {
    pixels.subrange(4 * (row * width + column), 4 * (row * width + column) + 4)
}

/// A signed 32-bit reading of an unsigned extent: the same number up to
/// `i32::MAX`, and `2^32` less above it.
pub open spec fn signed_extent(extent: u32) -> int {
    if extent <= i32::MAX {
        extent as int
    } else {
        extent - 0x1_0000_0000
    }
}

/// How texture coordinates beyond the image are wrapped.
#[derive(Clone, Copy, Debug, PartialEq, Eq, Structural)]
pub enum Wrap {
    /// The image repeats.
    Repeat,
}

/// How texels are blended where the image is drawn smaller or larger than it is.
#[derive(Clone, Copy, Debug, PartialEq, Eq, Structural)]
pub enum Filter {
    /// Neighbouring texels are blended linearly.
    Linear,
}

/// How the texture is sampled.
#[derive(Clone, Copy, Debug, PartialEq, Eq, Structural)]
pub struct Sampling {
    /// Wrapping along the horizontal axis.
    pub wrap_s: Wrap,
    /// Wrapping along the vertical axis.
    pub wrap_t: Wrap,
    /// Filtering where the image is drawn smaller than it is.
    pub min_filter: Filter,
    /// Filtering where the image is drawn larger than it is.
    pub mag_filter: Filter,
    /// Whether the chain of mipmaps is built once the image is uploaded.
    pub mipmaps: bool,
}

/// A texture image with its rows stored from the bottom up.
#[derive(Clone, Debug, PartialEq, Eq)]
pub struct Texture {
    /// The number of pixels in a row.
    pub width: u32,
    /// The number of rows.
    pub height: u32,
    /// The pixels, four bytes each, row after row from the lowest.
    pub pixels: Vec<u8>,
}

/// Why an image could not be loaded.
#[derive(Clone, Debug, PartialEq, Eq)]
pub struct LoadError {
    /// What the decoder reported.
    pub detail: String,
}

impl Texture {
    /// A texture is well formed when it holds exactly four bytes for each pixel.
    pub open spec fn wf(&self) -> bool {
        self.pixels@.len() == byte_count(self.width, self.height)
    }

    /// Builds the texture of an image whose `rows` run from the top down.
    ///
    /// Fails where `rows` is too short for `width` by `height` pixels. Bytes
    /// beyond the last row are left out, as an upload of `width` by `height`
    /// pixels would never read them.
    pub fn from_top_down(width: u32, height: u32, rows: Vec<u8>) -> (made: Option<Texture>)
        ensures
            made.is_some() == (rows@.len() >= byte_count(width, height)),
            made.is_some() ==> {
                &&& made.unwrap().wf()
                &&& made.unwrap().width == width
                &&& made.unwrap().height == height
                &&& made.unwrap().pixels@ == flipped(rows@, width, height)
            },
    {
        assert(width * height <= 0xffff_ffff * 0xffff_ffff) by (nonlinear_arith)
            requires
                0 <= width <= 0xffff_ffff,
                0 <= height <= 0xffff_ffff,
        ;
        let needed: u128 = 4 * (width as u128 * height as u128);
        assert(needed == byte_count(width, height)) by (nonlinear_arith)
            requires
                needed == 4 * (width * height),
        ;
        if (rows.len() as u128) < needed {
            return None;
        }
        let pixels: Vec<u8> = flip_vertical(width, height, rows);
        Some(Texture { width, height, pixels })
    }

    /// The width as the graphics interface counts it, in signed 32 bits.
    ///
    /// A width above `i32::MAX` comes out negative, which the interface refuses.
    pub fn signed_width(&self) -> (w: i32)
        ensures
            w == signed_extent(self.width),
    {
        to_signed(self.width)
    }

    /// The height as the graphics interface counts it, in signed 32 bits.
    ///
    /// A height above `i32::MAX` comes out negative, which the interface refuses.
    pub fn signed_height(&self) -> (h: i32)
        ensures
            h == signed_extent(self.height),
    {
        to_signed(self.height)
    }
}

/// How the texture of the quad is sampled: repeated along both axes,
/// filtered linearly both ways, with mipmaps.
pub fn sampling() -> (s: Sampling)
    ensures
        s == (Sampling {
            wrap_s: Wrap::Repeat,
            wrap_t: Wrap::Repeat,
            min_filter: Filter::Linear,
            mag_filter: Filter::Linear,
            mipmaps: true,
        }),
{
    Sampling {
        wrap_s: Wrap::Repeat,
        wrap_t: Wrap::Repeat,
        min_filter: Filter::Linear,
        mag_filter: Filter::Linear,
        mipmaps: true,
    }
}

fn to_signed(extent: u32) -> (signed: i32)
    ensures
        signed == signed_extent(extent),
{
    if extent <= 0x7fff_ffff {
        extent as i32
    } else {
        ((extent - 0x8000_0000) as i32) + i32::MIN
    }
}

/// Decodes an image file held in memory and builds its texture.
///
/// The decoder alone decides whether `encoded` is an image, and not by the
/// bytes alone (see `decode`); a texture that comes back is well formed and
/// holds the decoded rows bottom-up, as [`Texture::from_top_down`] builds them.
pub fn load_image(encoded: &[u8]) -> (loaded: Result<Texture, LoadError>)
    ensures
        loaded.is_ok() ==> loaded.unwrap().wf(),
{
    match decode(encoded) {
        Err(error) => Err(LoadError { detail: failure_text(&error) }),
        Ok(picture) => {
            let (width, height, rows) = rgba_rows(&picture);
            Ok(Texture::from_top_down(width, height, rows).unwrap())
        },
    }
}

/// Calls `image::load_from_memory`, which guesses the file format from the
/// first bytes and decodes the whole picture.
///
/// Nothing is claimed of the outcome, and it is given no name: it does not
/// depend on the bytes alone. The `image` crate asks the format hooks that
/// were registered in the process before it looks for the signatures it
/// knows, and its JPEG decoder picks its arithmetic by the processor.
#[verifier::external_body]
fn decode(encoded: &[u8]) -> (outcome: Result<image::DynamicImage, image::ImageError>) {
    image::load_from_memory(encoded)
}

/// Writes a decoding error out as text, by the `Debug` form that the `image`
/// crate gives `ImageError`. Nothing is claimed of the text.
#[verifier::external_body]
fn failure_text(error: &image::ImageError) -> (text: String) {
    format!("{:?}", error)
}

/// Calls `DynamicImage::to_rgba8` and hands out the width, the height and the
/// raw bytes of the RGBA buffer it returns.
///
/// Claimed: the bytes suffice for `width * height` pixels of four bytes, which
/// every `ImageBuffer` of the `image` crate guarantees of its container.
#[verifier::external_body]
fn rgba_rows(picture: &image::DynamicImage) -> (out: (u32, u32, Vec<u8>))
    ensures
        out.2@.len() >= byte_count(out.0, out.1),
{
    let rgba = picture.to_rgba8();
    let (width, height) = rgba.dimensions();
    (width, height, rgba.into_raw())
}

/// Calls `image::imageops::flip_vertical` on the RGBA image that
/// `ImageBuffer::from_raw` makes of `rows`.
///
/// Claimed: the result holds exactly `width * height` pixels, and the pixel in
/// column `x` of row `y` of `rows` stands in column `x` of row
/// `height - 1 - y` of the result.
#[verifier::external_body]
fn flip_vertical(width: u32, height: u32, rows: Vec<u8>) -> (out: Vec<u8>)
    requires
        rows@.len() >= byte_count(width, height),
    ensures
        out@ == flipped(rows@, width, height),
{
    let picture = image::RgbaImage::from_raw(width, height, rows).unwrap();
    image::imageops::flip_vertical(&picture).into_raw()
}

/// The column that a horizontal texture coordinate of zero or one samples:
/// the first or the last.
pub open spec fn sampled_column(u: Ratio, width: u32) -> int {
    u.times(width - 1)
}

/// The stored row that a vertical texture coordinate of zero or one samples:
/// the first or the last.
pub open spec fn sampled_row(v: Ratio, height: u32) -> int {
    v.times(height - 1)
}

/// Row `row` of a flipped image is row `height - 1 - row` of the image it was
/// made from, pixel for pixel.
pub proof fn lemma_flipped_pixel(rows: Seq<u8>, width: u32, height: u32, column: int, row: int)
    requires
        rows.len() >= byte_count(width, height),
        0 <= column < width,
        0 <= row < height,
    ensures
        pixel_at(flipped(rows, width, height), width, column, row) == pixel_at(
            rows,
            width,
            column,
            height - 1 - row,
        ),
{
    let w: int = width as int;
    let h: int = height as int;
    let start: int = 4 * (row * w + column);
    let source: int = 4 * ((h - 1 - row) * w + column);
    assert(start == row * (4 * w) + 4 * column) by (nonlinear_arith)
        requires
            start == 4 * (row * w + column),
    ;
    assert(source == (h - 1 - row) * (4 * w) + 4 * column) by (nonlinear_arith)
        requires
            source == 4 * ((h - 1 - row) * w + column),
    ;
    assert(start + 4 <= 4 * w * h && source + 4 <= 4 * w * h && source >= 0 && start >= 0)
        by (nonlinear_arith)
        requires
            start == 4 * (row * w + column),
            source == 4 * ((h - 1 - row) * w + column),
            0 <= column < w,
            0 <= row < h,
    ;
    let turned = flipped(rows, width, height);
    assert forall|j: int| start <= j < start + 4 implies #[trigger] turned[j] == rows[j - start
        + source] by {
        lemma_fundamental_div_mod_converse(j, 4 * w, row, 4 * column + (j - start));
    }
    assert(pixel_at(turned, width, column, row) =~= pixel_at(rows, width, column, h - 1 - row));
}

/// Flipping an image twice gives back its rows.
pub proof fn lemma_flip_twice(rows: Seq<u8>, width: u32, height: u32)
    requires
        rows.len() >= byte_count(width, height),
    ensures
        flipped(flipped(rows, width, height), width, height) == rows.take(
            byte_count(width, height),
        ),
{
    let w: int = width as int;
    let h: int = height as int;
    let once = flipped(rows, width, height);
    let twice = flipped(once, width, height);
    assert forall|i: int| 0 <= i < byte_count(width, height) implies twice[i] == rows[i] by {
        assert(w > 0 && h > 0) by (nonlinear_arith)
            requires
                0 <= i < 4 * w * h,
                w >= 0,
                h >= 0,
        ;
        let r: int = i / (4 * w);
        let c: int = i % (4 * w);
        assert(i == (4 * w) * r + c && 0 <= c < 4 * w) by {
            vstd::arithmetic::div_mod::lemma_fundamental_div_mod(i, 4 * w);
            vstd::arithmetic::div_mod::lemma_mod_bound(i, 4 * w);
        }
        assert(0 <= r < h) by (nonlinear_arith)
            requires
                i == (4 * w) * r + c,
                0 <= c < 4 * w,
                0 <= i < 4 * w * h,
                w > 0,
        ;
        let j: int = (h - 1 - r) * (4 * w) + c;
        assert(0 <= j < 4 * w * h) by (nonlinear_arith)
            requires
                j == (h - 1 - r) * (4 * w) + c,
                0 <= c < 4 * w,
                0 <= r < h,
        ;
        lemma_fundamental_div_mod_converse(j, 4 * w, h - 1 - r, c);
        assert((h - 1 - (h - 1 - r)) * (4 * w) + c == i) by (nonlinear_arith)
            requires
                i == (4 * w) * r + c,
        ;
    }
    assert(twice =~= rows.take(byte_count(width, height)));
}

/// The image appears upright on the quad.
///
/// Whatever well-sized image is turned into a texture, each corner of the
/// quad samples the pixel in the like corner of the image: the quad's upper
/// corners the image's first row, its lower corners the last row, its left
/// corners the first column and its right corners the last.
pub proof fn lemma_image_upright(rows: Seq<u8>, width: u32, height: u32, i: int)
    requires
        0 <= i < 4,
        width >= 1,
        height >= 1,
        rows.len() >= byte_count(width, height),
    ensures
        ({
            let vertex = quad()[i];
            let right = vertex.x.num > 0;
            let top = vertex.y.num > 0;
            pixel_at(
                flipped(rows, width, height),
                width,
                sampled_column(vertex.u, width),
                sampled_row(vertex.v, height),
            ) == pixel_at(
                rows,
                width,
                if right { width - 1 } else { 0 },
                if top { 0 } else { height - 1 },
            )
        }),
{
    let vertex = quad()[i];
    assert(vertex == corner(i == 1 || i == 2, i >= 2));
    lemma_unit_times(i == 1 || i == 2, width - 1);
    lemma_unit_times(i >= 2, height - 1);
    lemma_flipped_pixel(
        rows,
        width,
        height,
        sampled_column(vertex.u, width),
        sampled_row(vertex.v, height),
    );
}

} // verus!
