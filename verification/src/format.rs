//! Recognition of image files by their leading signature bytes.
use vstd::prelude::*;

use crate::error::ImageError;

verus! {

/// The image formats the client accepts and produces.
#[derive(Debug, Clone, Copy, PartialEq, Eq, Structural)]
pub enum ImageFormat {
    Png,
    Jpeg,
    Webp,
    Gif,
}

/// `bytes` begins with `sig`.
pub open spec fn has_prefix(bytes: Seq<u8>, sig: Seq<u8>) -> bool {
    sig.len() <= bytes.len() && bytes.subrange(0, sig.len() as int) == sig
}

/// The eight-byte PNG file signature.
pub open spec fn png_signature() -> Seq<u8> {
    seq![0x89u8, 0x50u8, 0x4eu8, 0x47u8, 0x0du8, 0x0au8, 0x1au8, 0x0au8]
}

/// The JPEG start-of-image marker followed by the first byte of the next marker.
pub open spec fn jpeg_signature() -> Seq<u8> {
    seq![0xffu8, 0xd8u8, 0xffu8]
}

/// `RIFF`, the container header that a WebP file starts with.
pub open spec fn riff_signature() -> Seq<u8> {
    seq![0x52u8, 0x49u8, 0x46u8, 0x46u8]
}

/// `WEBP`, the form type at offset 8 of a WebP file.
pub open spec fn webp_form() -> Seq<u8> {
    seq![0x57u8, 0x45u8, 0x42u8, 0x50u8]
}

/// `GIF87a`.
pub open spec fn gif87a_signature() -> Seq<u8> {
    seq![0x47u8, 0x49u8, 0x46u8, 0x38u8, 0x37u8, 0x61u8]
}

/// `GIF89a`.
pub open spec fn gif89a_signature() -> Seq<u8> {
    seq![0x47u8, 0x49u8, 0x46u8, 0x38u8, 0x39u8, 0x61u8]
}

/// The format that a file starting with `bytes` has, checked in the order
/// PNG, JPEG, WebP, GIF; `None` when no signature matches.
pub open spec fn format_of(bytes: Seq<u8>) -> Option<ImageFormat> {
    if has_prefix(bytes, png_signature()) {
        Some(ImageFormat::Png)
    } else if has_prefix(bytes, jpeg_signature()) {
        Some(ImageFormat::Jpeg)
    } else if bytes.len() >= 12 && has_prefix(bytes, riff_signature())
        && bytes.subrange(8, 12) == webp_form() {
        Some(ImageFormat::Webp)
    } else if has_prefix(bytes, gif87a_signature()) || has_prefix(bytes, gif89a_signature()) {
        Some(ImageFormat::Gif)
    } else {
        None
    }
}

/// The file extension used for a format.
pub open spec fn extension_of(format: ImageFormat) -> Seq<char> {
    match format {
        ImageFormat::Png => "png"@,
        ImageFormat::Jpeg => "jpg"@,
        ImageFormat::Webp => "webp"@,
        ImageFormat::Gif => "gif"@,
    }
}

/// The MIME type used when a format is uploaded.
pub open spec fn mime_type_of(format: ImageFormat) -> Seq<char> {
    match format {
        ImageFormat::Png => "image/png"@,
        ImageFormat::Jpeg => "image/jpeg"@,
        ImageFormat::Webp => "image/webp"@,
        ImageFormat::Gif => "image/gif"@,
    }
}

impl ImageFormat {
    /// The extension of the files written for this format.
    pub fn extension(self) -> (ext: &'static str)
        ensures
            ext@ == extension_of(self),
    {
        match self {
            ImageFormat::Png => "png",
            ImageFormat::Jpeg => "jpg",
            ImageFormat::Webp => "webp",
            ImageFormat::Gif => "gif",
        }
    }

    /// The MIME type sent with an uploaded image of this format.
    pub fn mime_type(self) -> (mime: &'static str)
        ensures
            mime@ == mime_type_of(self),
    {
        match self {
            ImageFormat::Png => "image/png",
            ImageFormat::Jpeg => "image/jpeg",
            ImageFormat::Webp => "image/webp",
            ImageFormat::Gif => "image/gif",
        }
    }
}

/// Whether `bytes[offset..offset + sig.len()]` exists and equals `sig`.
fn matches_at(bytes: &[u8], offset: usize, sig: &[u8]) -> (r: bool)
    ensures
        r == (offset + sig@.len() <= bytes@.len() && bytes@.subrange(
            offset as int,
            offset + sig@.len(),
        ) == sig@),
{
    if bytes.len() < offset || bytes.len() - offset < sig.len() {
        return false;
    }
    let mut i: usize = 0;
    while i < sig.len()
        invariant
            offset + sig@.len() <= bytes@.len(),
            bytes@.len() == bytes.len(),
            sig@.len() == sig.len(),
            i <= sig@.len(),
            forall|j: int| 0 <= j < i ==> bytes@[offset + j] == sig@[j],
        decreases sig@.len() - i,
    {
        if bytes[offset + i] != sig[i] {
            assert(bytes@.subrange(offset as int, offset + sig@.len())[i as int] != sig@[i as int]);
            return false;
        }
        i = i + 1;
    }
    assert(bytes@.subrange(offset as int, offset + sig@.len()) =~= sig@);
    true
}

/// Recognises PNG, JPEG, WebP and GIF data by its signature.
pub fn detect_image_format(bytes: &[u8]) -> (r: Result<ImageFormat, ImageError>)
    ensures
        match format_of(bytes@) {
            Some(f) => r == Ok::<ImageFormat, ImageError>(f),
            None => r == Err::<ImageFormat, ImageError>(ImageError::UnsupportedImageData),
        },
{
    let png: [u8; 8] = [0x89, 0x50, 0x4e, 0x47, 0x0d, 0x0a, 0x1a, 0x0a];
    let jpeg: [u8; 3] = [0xff, 0xd8, 0xff];
    let riff: [u8; 4] = [0x52, 0x49, 0x46, 0x46];
    let webp: [u8; 4] = [0x57, 0x45, 0x42, 0x50];
    let gif87a: [u8; 6] = [0x47, 0x49, 0x46, 0x38, 0x37, 0x61];
    let gif89a: [u8; 6] = [0x47, 0x49, 0x46, 0x38, 0x39, 0x61];
    assert(png@ == png_signature());
    assert(jpeg@ == jpeg_signature());
    assert(riff@ == riff_signature());
    assert(webp@ == webp_form());
    assert(gif87a@ == gif87a_signature());
    assert(gif89a@ == gif89a_signature());
    if matches_at(bytes, 0, png.as_slice()) {
        return Ok(ImageFormat::Png);
    }
    if matches_at(bytes, 0, jpeg.as_slice()) {
        return Ok(ImageFormat::Jpeg);
    }
    if bytes.len() >= 12 && matches_at(bytes, 0, riff.as_slice()) && matches_at(
        bytes,
        8,
        webp.as_slice(),
    ) {
        return Ok(ImageFormat::Webp);
    }
    if matches_at(bytes, 0, gif87a.as_slice()) || matches_at(bytes, 0, gif89a.as_slice()) {
        return Ok(ImageFormat::Gif);
    }
    Err(ImageError::UnsupportedImageData)
}

} // verus!
