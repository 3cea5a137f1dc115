//! Image format detection by magic bytes, and the canonical extension
//! and MIME type of each recognized format.

use vstd::prelude::*;
use crate::text::{ext_bmp, ext_gif, ext_ico, ext_jpg, ext_png, ext_tiff, ext_webp, mime_bmp,
    mime_gif, mime_ico, mime_jpeg, mime_png, mime_tiff, mime_webp, spec_ext_bmp, spec_ext_gif,
    spec_ext_ico, spec_ext_jpg, spec_ext_png, spec_ext_tiff, spec_ext_webp, spec_mime_bmp,
    spec_mime_gif, spec_mime_ico, spec_mime_jpeg, spec_mime_png, spec_mime_tiff, spec_mime_webp};

verus! {

/// The raster image formats this service accepts.
#[derive(Clone, Copy, Debug, PartialEq, Eq, Structural)]
pub enum ImageFormat {
    Png,
    Jpeg,
    Gif,
    WebP,
    Bmp,
    Tiff,
    Ico,
}

pub open spec fn starts_with(s: Seq<u8>, p: Seq<u8>) -> bool {
    p.len() <= s.len() && s.subrange(0, p.len() as int) == p
}

pub open spec fn spec_png_magic() -> Seq<u8> {
    seq![137u8, 80u8, 78u8, 71u8, 13u8, 10u8, 26u8, 10u8]
}

pub open spec fn spec_jpeg_magic() -> Seq<u8> {
    seq![255u8, 216u8, 255u8]
}

pub open spec fn spec_gif89_magic() -> Seq<u8> {
    seq![71u8, 73u8, 70u8, 56u8, 57u8, 97u8]
}

pub open spec fn spec_gif87_magic() -> Seq<u8> {
    seq![71u8, 73u8, 70u8, 56u8, 55u8, 97u8]
}

pub open spec fn spec_riff_magic() -> Seq<u8> {
    seq![82u8, 73u8, 70u8, 70u8]
}

pub open spec fn spec_webp_tag() -> Seq<u8> {
    seq![87u8, 69u8, 66u8, 80u8]
}

pub open spec fn spec_tiff_be_magic() -> Seq<u8> {
    seq![77u8, 77u8, 0u8, 42u8]
}

pub open spec fn spec_tiff_le_magic() -> Seq<u8> {
    seq![73u8, 73u8, 42u8, 0u8]
}

pub open spec fn spec_bmp_magic() -> Seq<u8> {
    seq![66u8, 77u8]
}

pub open spec fn spec_ico_magic() -> Seq<u8> {
    seq![0u8, 0u8, 1u8, 0u8]
}

/// Which of the accepted formats the leading bytes of `b` announce, if
/// any. WebP is the RIFF container with a `WEBP` tag at offset 8; every
/// other format is a plain prefix.
pub open spec fn spec_sniff(b: Seq<u8>) -> Option<ImageFormat> {
    if starts_with(b, spec_png_magic()) {
        Some(ImageFormat::Png)
    } else if starts_with(b, spec_jpeg_magic()) {
        Some(ImageFormat::Jpeg)
    } else if starts_with(b, spec_gif89_magic()) || starts_with(b, spec_gif87_magic()) {
        Some(ImageFormat::Gif)
    } else if b.len() >= 12 && b.subrange(0, 4) == spec_riff_magic() && b.subrange(8, 12)
        == spec_webp_tag() {
        Some(ImageFormat::WebP)
    } else if starts_with(b, spec_tiff_be_magic()) || starts_with(b, spec_tiff_le_magic()) {
        Some(ImageFormat::Tiff)
    } else if starts_with(b, spec_bmp_magic()) {
        Some(ImageFormat::Bmp)
    } else if starts_with(b, spec_ico_magic()) {
        Some(ImageFormat::Ico)
    } else {
        None
    }
}

/// Relies on image::guess_format, which recognizes a format from the
/// magic bytes at the start of the buffer; the formats in its table that
/// this service does not accept are mapped to `None`, and their magic
/// bytes never collide with an accepted format's, so the result is
/// exactly the prefix test of `spec_sniff`.
#[verifier::external_body]
pub(crate) fn sniff_format(buf: &[u8]) -> (r: Option<ImageFormat>)
    ensures
        r == spec_sniff(buf@),
{
    match image::guess_format(buf) {
        Ok(image::ImageFormat::Png) => Some(ImageFormat::Png),
        Ok(image::ImageFormat::Jpeg) => Some(ImageFormat::Jpeg),
        Ok(image::ImageFormat::Gif) => Some(ImageFormat::Gif),
        Ok(image::ImageFormat::WebP) => Some(ImageFormat::WebP),
        Ok(image::ImageFormat::Tiff) => Some(ImageFormat::Tiff),
        Ok(image::ImageFormat::Bmp) => Some(ImageFormat::Bmp),
        Ok(image::ImageFormat::Ico) => Some(ImageFormat::Ico),
        _ => None,
    }
}

/// The lower-case canonical file extension of a format.
pub open spec fn spec_ext(f: ImageFormat) -> Seq<u8> {
    match f {
        ImageFormat::Png => spec_ext_png(),
        ImageFormat::Jpeg => spec_ext_jpg(),
        ImageFormat::Gif => spec_ext_gif(),
        ImageFormat::WebP => spec_ext_webp(),
        ImageFormat::Bmp => spec_ext_bmp(),
        ImageFormat::Tiff => spec_ext_tiff(),
        ImageFormat::Ico => spec_ext_ico(),
    }
}

pub fn ext_of(f: ImageFormat) -> (r: Vec<u8>)
    ensures
        r@ == spec_ext(f),
{
    match f {
        ImageFormat::Png => ext_png(),
        ImageFormat::Jpeg => ext_jpg(),
        ImageFormat::Gif => ext_gif(),
        ImageFormat::WebP => ext_webp(),
        ImageFormat::Bmp => ext_bmp(),
        ImageFormat::Tiff => ext_tiff(),
        ImageFormat::Ico => ext_ico(),
    }
}

/// The canonical MIME type of a format.
pub open spec fn spec_mime(f: ImageFormat) -> Seq<u8> {
    match f {
        ImageFormat::Png => spec_mime_png(),
        ImageFormat::Jpeg => spec_mime_jpeg(),
        ImageFormat::Gif => spec_mime_gif(),
        ImageFormat::WebP => spec_mime_webp(),
        ImageFormat::Bmp => spec_mime_bmp(),
        ImageFormat::Tiff => spec_mime_tiff(),
        ImageFormat::Ico => spec_mime_ico(),
    }
}

pub fn mime_of(f: ImageFormat) -> (r: Vec<u8>)
    ensures
        r@ == spec_mime(f),
{
    match f {
        ImageFormat::Png => mime_png(),
        ImageFormat::Jpeg => mime_jpeg(),
        ImageFormat::Gif => mime_gif(),
        ImageFormat::WebP => mime_webp(),
        ImageFormat::Bmp => mime_bmp(),
        ImageFormat::Tiff => mime_tiff(),
        ImageFormat::Ico => mime_ico(),
    }
}

} // verus!
