//! Turns a raw clipboard bitmap into what is stored on disk: checks that the
//! buffer matches its dimensions, names the file after the fingerprint and
//! encodes the pixels as PNG.

use crate::snapshot::{RawImage, RawImageView, WriteFailed};
use crate::text::{decimal, decimal_digits};
use image::ImageEncoder;
use vstd::prelude::*;
use vstd::string::*;

verus! {

/// The buffer holds exactly four bytes for each pixel of the stated
/// dimensions, and the dimensions fit the 32 bits that a PNG header has.
pub open spec fn spec_well_formed(img: RawImageView) -> bool {
    &&& img.width <= u32::MAX
    &&& img.height <= u32::MAX
    &&& img.bytes.len() == img.width * img.height * 4
}

/// The name of the file that holds the image with this fingerprint.
pub open spec fn spec_filename(fingerprint: u64) -> Seq<char> {
    decimal_digits(fingerprint as nat) + ".png"@
}

/// The PNG byte stream that the encoder produces for RGBA pixels of the
/// given dimensions, or `None` where it reports an error.
pub uninterp spec fn png_stream(pixels: Seq<u8>, width: u32, height: u32) -> Option<Seq<u8>>;

/// `image::codecs::png::PngEncoder::write_image` into a fresh buffer, with
/// the encoder's default settings and the colour type RGBA8. The encoder
/// panics on a buffer whose length is not `width * height * 4`, so that is
/// required; its output depends on the pixels and dimensions alone.
#[verifier::external_body]
fn png_encode(pixels: &Vec<u8>, width: u32, height: u32) -> (r: Option<Vec<u8>>)
    requires
        pixels@.len() == width * height * 4,
    ensures
        match r {
            Some(out) => png_stream(pixels@, width, height) == Some(out@),
            None => png_stream(pixels@, width, height) is None,
        },
{
    let mut out: Vec<u8> = Vec::new();
    let encoder = image::codecs::png::PngEncoder::new(&mut out);
    match encoder.write_image(pixels, width, height, image::ExtendedColorType::Rgba8) {
        Ok(()) => Some(out),
        Err(_) => None,
    }
}

/// Whether the image's buffer matches its dimensions.
pub fn is_well_formed(img: &RawImage) -> (r: bool)
    ensures
        r == spec_well_formed(img@),
{
    if img.width > 0xFFFF_FFFF || img.height > 0xFFFF_FFFF {
        return false;
    }
    let w: u128 = img.width as u128;
    let h: u128 = img.height as u128;
    assert(w * h <= 0xFFFF_FFFF * 0xFFFF_FFFF) by (nonlinear_arith)
        requires
            w <= 0xFFFF_FFFF,
            h <= 0xFFFF_FFFF,
    ;
    w * h * 4 == img.bytes.len() as u128
}

/// The file name for an image: its fingerprint in decimal, then `.png`.
pub fn filename_for(fingerprint: u64) -> (r: String)
    ensures
        r@ == spec_filename(fingerprint),
{
    decimal(fingerprint).concat(".png")
}

/// The image as a PNG byte stream. A malformed image yields `None`, and so
/// does one that the encoder rejects.
pub fn encode_png(img: &RawImage) -> (r: Option<Vec<u8>>)
    ensures
        match r {
            Some(out) => spec_well_formed(img@) && png_stream(
                img@.bytes,
                img@.width as u32,
                img@.height as u32,
            ) == Some(out@),
            None => !spec_well_formed(img@) || png_stream(
                img@.bytes,
                img@.width as u32,
                img@.height as u32,
            ) is None,
        },
{
    if !is_well_formed(img) {
        return None;
    }
    png_encode(&img.bytes, img.width as u32, img.height as u32)
}

/// The bytes to write for a new image: none where a file of its name
/// exists already, since the name is derived from the content; else the PNG
/// stream, if the image can be encoded.
pub fn png_to_write(img: &RawImage, file_exists: bool) -> (r: Option<Vec<u8>>)
    ensures
        file_exists ==> r is None,
        !file_exists ==> match r {
            Some(out) => spec_well_formed(img@) && png_stream(
                img@.bytes,
                img@.width as u32,
                img@.height as u32,
            ) == Some(out@),
            None => !spec_well_formed(img@) || png_stream(
                img@.bytes,
                img@.width as u32,
                img@.height as u32,
            ) is None,
        },
{
    if file_exists {
        None
    } else {
        encode_png(img)
    }
}

/// Checks an image before it is written to the clipboard: a buffer that
/// does not match its dimensions is refused and never reaches the backend.
pub fn check_for_write(img: &RawImage) -> (r: Result<(), WriteFailed>)
    ensures
        r is Ok <==> spec_well_formed(img@),
{
    if is_well_formed(img) {
        Ok(())
    } else {
        Err(WriteFailed {})
    }
}

} // verus!
