//! Limits of the client and the checks made before a request is sent.
use vstd::prelude::*;

use crate::error::ImageError;
use crate::format::{detect_image_format, format_of, ImageFormat};
use std::path::PathBuf;
use crate::text::{is_blank, is_blank_text};
use vstd::string::StringSliceAdditionalSpecFns;
use vstd::utf8::is_char_boundary;

verus! {

broadcast use vstd::utf8::encode_utf8_valid_utf8;

/// `std::path::PathBuf`, a file system path; carried here, never read.
#[verifier::external_type_specification]
#[verifier::external_body]
pub struct ExPathBuf(PathBuf);

/// A request to generate images from a prompt.
pub struct GenerationRequest {
    pub prompt: String,
    pub model: String,
    pub size: String,
    pub image_count: u32,
    pub output_dir: PathBuf,
    /// The overall deadline, in nanoseconds.
    pub timeout_nanos: u128,
    pub max_image_bytes: u64,
}

/// A request to edit a source image, optionally within a mask.
pub struct EditRequest {
    pub prompt: String,
    pub image: PathBuf,
    pub mask: Option<PathBuf>,
    pub model: String,
    pub size: String,
    pub image_count: u32,
    pub output_dir: PathBuf,
    /// The overall deadline, in nanoseconds.
    pub timeout_nanos: u128,
    pub max_image_bytes: u64,
}

/// The JSON summary printed after a successful run.
pub struct GenerationSummary {
    pub model: String,
    pub images: Vec<GeneratedImage>,
}

/// One committed image and the URL the provider gave for it, if any.
pub struct GeneratedImage {
    pub path: PathBuf,
    pub url: Option<String>,
}

/// The most images one request may ask for.
pub const MAX_IMAGE_COUNT: u32 = 10;

/// The most bytes a prompt may have.
pub const MAX_PROMPT_BYTES: usize = 1048576;

/// The most bytes a successful response body may have.
pub const MAX_RESPONSE_BYTES: u64 = 83886080;

/// The most bytes read of an error response body.
pub const MAX_ERROR_BYTES: u64 = 65536;

/// The most bytes of provider error text that is shown.
pub const MAX_ERROR_TEXT_BYTES: usize = 1000;

/// The first reason, in the order the checks are made, why a request
/// with these parameters is refused; `None` when it is accepted.
pub open spec fn request_rejection(
    prompt: Seq<char>,
    prompt_bytes: nat,
    model: Seq<char>,
    size: Seq<char>,
    image_count: u32,
    timeout_nanos: u128,
    max_image_bytes: u64,
) -> Option<ImageError> {
    if is_blank_text(prompt) {
        Some(ImageError::EmptyPrompt)
    } else if prompt_bytes > MAX_PROMPT_BYTES {
        Some(ImageError::PromptTooLong)
    } else if is_blank_text(model) {
        Some(ImageError::EmptyModel)
    } else if is_blank_text(size) {
        Some(ImageError::EmptySize)
    } else if !(1 <= image_count <= MAX_IMAGE_COUNT) {
        Some(ImageError::ImageCountOutOfRange)
    } else if timeout_nanos == 0 {
        Some(ImageError::ZeroTimeout)
    } else if max_image_bytes == 0 {
        Some(ImageError::ZeroMaxImageBytes)
    } else {
        None
    }
}

/// Checks the parameters of a generation or edit request: prompt, model
/// and size must hold more than white space, the prompt may have at most
/// [`MAX_PROMPT_BYTES`] bytes, between 1 and [`MAX_IMAGE_COUNT`] images may
/// be asked for, and the timeout (in nanoseconds) and the image size limit
/// must be positive.
pub fn validate_request(
    prompt: &str,
    model: &str,
    size: &str,
    image_count: u32,
    timeout_nanos: u128,
    max_image_bytes: u64,
) -> (r: Result<(), ImageError>)
    ensures
        match request_rejection(
            prompt@,
            prompt.spec_bytes().len(),
            model@,
            size@,
            image_count,
            timeout_nanos,
            max_image_bytes,
        ) {
            Some(e) => r == Err::<(), ImageError>(e),
            None => r is Ok,
        },
{
    if is_blank(prompt) {
        return Err(ImageError::EmptyPrompt);
    }
    if prompt.as_bytes().len() > MAX_PROMPT_BYTES {
        return Err(ImageError::PromptTooLong);
    }
    if is_blank(model) {
        return Err(ImageError::EmptyModel);
    }
    if is_blank(size) {
        return Err(ImageError::EmptySize);
    }
    if !(1 <= image_count && image_count <= MAX_IMAGE_COUNT) {
        return Err(ImageError::ImageCountOutOfRange);
    }
    if timeout_nanos == 0 {
        return Err(ImageError::ZeroTimeout);
    }
    if max_image_bytes == 0 {
        return Err(ImageError::ZeroMaxImageBytes);
    }
    Ok(())
}

/// `min(x, u64::MAX)`.
pub open spec fn saturate(x: int) -> int {
    if x > u64::MAX {
        u64::MAX as int
    } else {
        x
    }
}

/// The longest base64 text that can decode to at most `max_image_bytes`
/// bytes, with room for padding: `4 * ceil(max / 3) + 4`, each step
/// saturating at `u64::MAX`.
pub open spec fn max_encoded_len(max_image_bytes: u64) -> int {
    saturate(saturate((saturate(max_image_bytes + 2) / 3) * 4) + 4)
}

/// `x * y`, or `u64::MAX` where the product does not fit.
fn saturating_mul_u64(x: u64, y: u64) -> (r: u64)
    ensures
        r == saturate(x * y),
{
    match x.checked_mul(y) {
        Some(p) => p,
        None => u64::MAX,
    }
}

/// Refuses base64 text too long to decode to an image within the limit.
pub fn ensure_encoded_size(encoded_len: usize, max_image_bytes: u64) -> (r: Result<(), ImageError>)
    ensures
        encoded_len > max_encoded_len(max_image_bytes) ==> r == Err::<(), ImageError>(
            ImageError::EncodedImageTooLarge,
        ),
        encoded_len <= max_encoded_len(max_image_bytes) ==> r is Ok,
{
    let max_encoded_len = saturating_mul_u64(max_image_bytes.saturating_add(2) / 3, 4).saturating_add(4);
    if encoded_len as u64 > max_encoded_len {
        return Err(ImageError::EncodedImageTooLarge);
    }
    Ok(())
}

/// How many bytes to read of a body that may have at most `limit` bytes:
/// one more, so that a longer body is noticed.
pub fn bounded_read_len(limit: u64) -> (n: u64)
    ensures
        n == saturate(limit + 1),
{
    limit.saturating_add(1)
}

/// Accepts the bytes read of a body that may have at most `limit` bytes
/// and refuses them when there are more.
pub fn read_bounded(bytes: Vec<u8>, limit: u64, description: &str) -> (r: Result<
    Vec<u8>,
    ImageError,
>)
    ensures
        bytes@.len() <= limit ==> r == Ok::<Vec<u8>, ImageError>(bytes),
        bytes@.len() > limit ==> (r matches Err(ImageError::BodyTooLarge { description: d, limit: l })
            && d@ == description@ && l == limit),
{
    if bytes.len() as u64 > limit {
        return Err(ImageError::BodyTooLarge { description: description.to_owned(), limit });
    }
    Ok(bytes)
}

/// The first `limit` bytes of what was read of an error body.
pub fn read_prefix(bytes: Vec<u8>, limit: u64) -> (r: Vec<u8>)
    ensures
        bytes@.len() <= limit ==> r@ == bytes@,
        bytes@.len() > limit ==> r@ == bytes@.take(limit as int),
{
    let mut bytes = bytes;
    if bytes.len() as u64 > limit {
        bytes.truncate(limit as usize);
    }
    bytes
}

/// The largest character boundary of `bytes` that is at most `max`.
pub open spec fn is_truncation_end(bytes: Seq<u8>, max: int, end: int) -> bool {
    let top = if bytes.len() < max {
        bytes.len() as int
    } else {
        max
    };
    &&& 0 <= end <= top
    &&& is_char_boundary(bytes, end)
    &&& forall|j: int| end < j <= top ==> !is_char_boundary(bytes, j)
}

/// The longest prefix of `value` that has at most
/// [`MAX_ERROR_TEXT_BYTES`] bytes and ends on a character boundary.
pub fn truncate_error(value: &str) -> (r: &str)
    ensures
        is_truncation_end(value.spec_bytes(), MAX_ERROR_TEXT_BYTES as int, r.spec_bytes().len() as int),
        r.spec_bytes() == value.spec_bytes().take(r.spec_bytes().len() as int),
        r@ == value@.take(r@.len() as int),
{
    let ghost b = value.spec_bytes();
    proof {
        vstd::utf8::is_char_boundary_start_end_of_seq(b);
    }
    let len = value.as_bytes().len();
    let top = if len < MAX_ERROR_TEXT_BYTES {
        len
    } else {
        MAX_ERROR_TEXT_BYTES
    };
    let mut end = top;
    while !value.is_char_boundary(end)
        invariant
            b == value.spec_bytes(),
            vstd::utf8::valid_utf8(b),
            is_char_boundary(b, 0),
            top == (if b.len() < MAX_ERROR_TEXT_BYTES {
                b.len() as int
            } else {
                MAX_ERROR_TEXT_BYTES as int
            }),
            0 <= end <= top,
            forall|j: int| end < j <= top ==> !is_char_boundary(b, j),
        decreases end,
    {
        end = end - 1;
    }
    let (head, _tail) = value.split_at(end);
    proof {
        vstd::utf8::decode_utf8_split(b, end as int);
        vstd::utf8::encode_utf8_decode_utf8(value@);
        vstd::utf8::encode_utf8_decode_utf8(head@);
        assert(b.subrange(0, end as int) == b.take(end as int));
    }
    head
}


impl GenerationRequest {
    /// Checks the request as [`validate_request`] does.
    pub fn validate(&self) -> (r: Result<(), ImageError>)
        ensures
            match request_rejection(
                self.prompt@,
                encode_len(self.prompt@),
                self.model@,
                self.size@,
                self.image_count,
                self.timeout_nanos,
                self.max_image_bytes,
            ) {
                Some(e) => r == Err::<(), ImageError>(e),
                None => r is Ok,
            },
    {
        validate_request(
            self.prompt.as_str(),
            self.model.as_str(),
            self.size.as_str(),
            self.image_count,
            self.timeout_nanos,
            self.max_image_bytes,
        )
    }
}

impl EditRequest {
    /// Checks the request as [`validate_request`] does.
    pub fn validate(&self) -> (r: Result<(), ImageError>)
        ensures
            match request_rejection(
                self.prompt@,
                encode_len(self.prompt@),
                self.model@,
                self.size@,
                self.image_count,
                self.timeout_nanos,
                self.max_image_bytes,
            ) {
                Some(e) => r == Err::<(), ImageError>(e),
                None => r is Ok,
            },
    {
        validate_request(
            self.prompt.as_str(),
            self.model.as_str(),
            self.size.as_str(),
            self.image_count,
            self.timeout_nanos,
            self.max_image_bytes,
        )
    }
}

/// The number of bytes of the UTF-8 encoding of `s`.
pub open spec fn encode_len(s: Seq<char>) -> nat {
    vstd::utf8::encode_utf8(s).len()
}

/// The image size limit in bytes for a limit of `mib` MiB, `None` when it
/// does not fit in a `u64`.
pub fn max_image_bytes_from_mib(mib: u64) -> (r: Option<u64>)
    ensures
        mib * 1048576 <= u64::MAX ==> r == Some((mib * 1048576) as u64),
        mib * 1048576 > u64::MAX ==> r is None,
{
    mib.checked_mul(1048576)
}

/// An upload whose file is larger than the limit is refused before it is
/// read.
pub fn check_upload_size(file_len: u64, max_image_bytes: u64) -> (r: Result<(), ImageError>)
    ensures
        file_len > max_image_bytes ==> r == Err::<(), ImageError>(ImageError::SourceImageTooLarge),
        file_len <= max_image_bytes ==> r is Ok,
{
    if file_len > max_image_bytes {
        Err(ImageError::SourceImageTooLarge)
    } else {
        Ok(())
    }
}

/// The format of an image to upload: its bytes must fit the limit and be
/// PNG, JPEG, WebP or GIF data.
pub fn upload_format(bytes: &[u8], max_image_bytes: u64) -> (r: Result<ImageFormat, ImageError>)
    ensures
        bytes@.len() > max_image_bytes ==> r == Err::<ImageFormat, ImageError>(
            ImageError::SourceImageTooLarge,
        ),
        bytes@.len() <= max_image_bytes ==> match format_of(bytes@) {
            Some(f) => r == Ok::<ImageFormat, ImageError>(f),
            None => r == Err::<ImageFormat, ImageError>(ImageError::UnsupportedImageData),
        },
{
    if bytes.len() as u64 > max_image_bytes {
        return Err(ImageError::SourceImageTooLarge);
    }
    detect_image_format(bytes)
}

} // verus!
