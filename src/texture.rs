use crate::error::ErrorKind;
use vstd::prelude::*;

verus! {

/// How a texture is sampled between texels.
#[derive(Clone, Copy, PartialEq, Eq, Structural, Debug)]
pub enum FilterMode {
    Linear,
    Nearest,
}

#[verifier::external_type_specification]
#[verifier::external_body]
pub struct ExImageError(image::ImageError);

/// What decoding `bytes` as an image file gives: its width, its height and its
/// pixels as RGBA bytes, row by row; `None` where the bytes are no image.
pub uninterp spec fn decoded_rgba(bytes: Seq<u8>) -> Option<(u32, u32, Seq<u8>)>;

/// Relies on image::load_from_memory, which guesses the format from the bytes
/// and decodes them, and on DynamicImage::to_rgba8, which converts the result
/// into a new RGBA buffer of exactly four bytes per pixel.
#[verifier::external_body]
fn decode_rgba(bytes: &[u8]) -> (r: Result<(u32, u32, Vec<u8>), image::ImageError>)
    ensures
        r is Ok <==> decoded_rgba(bytes@) is Some,
        r matches Ok((w, h, px)) ==> decoded_rgba(bytes@) == Some((w, h, px@)) && px@.len() == 4
            * w * h,
{
    let img = image::load_from_memory(bytes)?.to_rgba8();
    Ok((img.width(), img.height(), img.into_raw()))
}

/// Relies on image::ImageBuffer::from_raw for RGBA images: it accepts the buffer
/// exactly when it holds at least four bytes for each of `width * height`
/// pixels, and keeps the buffer as it is.
#[verifier::external_body]
fn rgba_from_raw(width: u32, height: u32, bytes: Vec<u8>) -> (r: Option<Vec<u8>>)
    ensures
        r is Some <==> 4 * width * height <= bytes@.len(),
        r matches Some(px) ==> px@ == bytes@,
{
    match image::RgbaImage::from_raw(width, height, bytes) {
        Some(img) => Some(img.into_raw()),
        None => None,
    }
}

/// The pixel data of a 2D texture, RGBA with one byte per channel, row by row,
/// and the filter that its sampler uses. The sampler clamps to the edge.
pub struct Texture {
    width: u32,
    height: u32,
    pixels: Vec<u8>,
    filter_mode: FilterMode,
}

impl Texture {
    pub closed spec fn width_spec(&self) -> u32 {
        self.width
    }

    pub closed spec fn height_spec(&self) -> u32 {
        self.height
    }

    pub closed spec fn pixels_spec(&self) -> Seq<u8> {
        self.pixels@
    }

    pub closed spec fn filter_mode_spec(&self) -> FilterMode {
        self.filter_mode
    }

    /// The pixel data covers every texel.
    pub closed spec fn wf(&self) -> bool {
        4 * self.width * self.height <= self.pixels@.len()
    }

    /// A texture of `width` by `height` texels from raw RGBA bytes. Fails with
    /// `ImageError` when the bytes are fewer than four per texel.
    pub fn from_raw(width: u32, height: u32, bytes: Vec<u8>, filter_mode: FilterMode) -> (r:
        Result<Texture, ErrorKind>)
        ensures
            r is Ok <==> 4 * width * height <= bytes@.len(),
            r is Err ==> r == Err::<Texture, ErrorKind>(ErrorKind::ImageError),
            r matches Ok(t) ==> t.wf() && t.width_spec() == width && t.height_spec() == height
                && t.pixels_spec() == bytes@ && t.filter_mode_spec() == filter_mode,
    {
        match rgba_from_raw(width, height, bytes) {
            Some(pixels) => Ok(Texture { width, height, pixels, filter_mode }),
            None => Err(ErrorKind::ImageError),
        }
    }

    /// A texture of a single texel from its four RGBA bytes, such as the plain
    /// white texture that untextured quads sample. Fails with `ImageError` when
    /// fewer than four bytes are given.
    pub fn from_bytes(bytes: Vec<u8>, filter_mode: FilterMode) -> (r: Result<Texture, ErrorKind>)
        ensures
            r is Ok <==> 4 <= bytes@.len(),
            r is Err ==> r == Err::<Texture, ErrorKind>(ErrorKind::ImageError),
            r matches Ok(t) ==> t.wf() && t.width_spec() == 1 && t.height_spec() == 1
                && t.pixels_spec() == bytes@ && t.filter_mode_spec() == filter_mode,
    {
        Texture::from_raw(1, 1, bytes, filter_mode)
    }

    /// A texture from the bytes of an image file (PNG). Fails with `ImageError`
    /// when they cannot be decoded.
    pub fn from_memory(encoded: &[u8], filter_mode: FilterMode) -> (r: Result<Texture, ErrorKind>)
        ensures
            r is Ok <==> decoded_rgba(encoded@) is Some,
            r is Err ==> r == Err::<Texture, ErrorKind>(ErrorKind::ImageError),
            r matches Ok(t) ==> t.wf() && t.filter_mode_spec() == filter_mode && decoded_rgba(
                encoded@,
            ) == Some((t.width_spec(), t.height_spec(), t.pixels_spec())),
    {
        match decode_rgba(encoded) {
            Ok((width, height, pixels)) => Ok(Texture { width, height, pixels, filter_mode }),
            Err(_) => Err(ErrorKind::ImageError),
        }
    }

    pub fn width(&self) -> (r: u32)
        ensures
            r == self.width_spec(),
    {
        self.width
    }

    pub fn height(&self) -> (r: u32)
        ensures
            r == self.height_spec(),
    {
        self.height
    }

    /// The RGBA bytes, row by row.
    pub fn pixels(&self) -> (r: &[u8])
        ensures
            r@ == self.pixels_spec(),
    {
        self.pixels.as_slice()
    }

    pub fn filter_mode(&self) -> (r: FilterMode)
        ensures
            r == self.filter_mode_spec(),
    {
        self.filter_mode
    }

    /// How many bytes one row of texels takes.
    pub fn bytes_per_row(&self) -> (r: u64)
        ensures
            r == 4 * self.width_spec(),
    {
        4 * self.width as u64
    }
}

} // verus!
