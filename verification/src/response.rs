//! Decisions on the provider's response: how many items it must hold,
//! where each image comes from, how base64 data and downloads are bounded,
//! and which names the staged and committed files get.
use vstd::prelude::*;

use crate::error::ImageError;
use crate::format::{extension_of, ImageFormat};
use crate::request::{saturate, ensure_encoded_size, max_encoded_len, truncate_error, is_truncation_end, MAX_ERROR_TEXT_BYTES};
use crate::text::{decimal, decimal_string, starts_with, str_eq, strip_leading, strip_leading_all};
use base64::Engine;
use vstd::utf8::encode_utf8;
use vstd::string::{StringExecFns, StringSliceAdditionalSpecFns};

verus! {

/// One item of the `data` array of an images response.
#[derive(Debug, Clone)]
pub struct ImageData {
    pub b64_json: Option<String>,
    pub url: Option<String>,
}

/// Where the bytes of one response item come from.
#[derive(Debug)]
pub enum ImageSource<'a> {
    /// Inline base64 text (`b64_json`), which takes precedence.
    Base64(&'a str),
    /// A URL to download (`url`).
    Url(&'a str),
}

/// The item holds inline base64 data when it has any, else its URL, and
/// is refused when it has neither.
pub fn image_source(item: &ImageData) -> (r: Result<ImageSource<'_>, ImageError>)
    ensures
        match item.b64_json {
            Some(b) => r matches Ok(ImageSource::Base64(s)) && s@ == b@,
            None => match item.url {
                Some(u) => r matches Ok(ImageSource::Url(s)) && s@ == u@,
                None => r == Err::<ImageSource<'_>, ImageError>(ImageError::MissingImageData),
            },
        },
{
    match &item.b64_json {
        Some(b) => Ok(ImageSource::Base64(b.as_str())),
        None => match &item.url {
            Some(u) => Ok(ImageSource::Url(u.as_str())),
            None => Err(ImageError::MissingImageData),
        },
    }
}

/// The response must hold exactly as many items as images were asked for.
pub fn check_image_count(returned: usize, expected: u32, operation: &str) -> (r: Result<
    (),
    ImageError,
>)
    ensures
        returned == expected ==> r is Ok,
        returned != expected ==> (r matches Err(ImageError::CountMismatch {
            operation: o,
            returned: n,
            expected: m,
        }) && o@ == operation@ && n == returned && m == expected),
{
    if returned as u64 != expected as u64 {
        return Err(
            ImageError::CountMismatch { operation: operation.to_owned(), returned, expected },
        );
    }
    Ok(())
}

/// What the standard base64 engine (alphabet `A-Z a-z 0-9 + /`, canonical
/// `=` padding) decodes `encoded` to, `None` where it refuses it.
pub uninterp spec fn base64_standard_decode(encoded: Seq<u8>) -> Option<Seq<u8>>;

/// `base64::DecodeError`, the reason a base64 text was refused; opaque here.
#[verifier::external_type_specification]
#[verifier::external_body]
pub struct ExDecodeError(base64::DecodeError);

/// Calls `Engine::decode` of `base64::engine::general_purpose::STANDARD`.
/// The contract claims that the call succeeds exactly where
/// [`base64_standard_decode`] gives bytes and then returns those bytes,
/// that is, that the result depends on `encoded` alone.
#[verifier::external_body]
fn decode_base64_standard(encoded: &[u8]) -> (r: Result<Vec<u8>, base64::DecodeError>)
    ensures
        match base64_standard_decode(encoded@) {
            Some(b) => r matches Ok(v) && v@ == b,
            None => r is Err,
        },
{
    base64::engine::general_purpose::STANDARD.decode(encoded)
}

/// Accepts the result of decoding the base64 data of item `index`: it must
/// have decoded, and to at most `max_image_bytes` bytes.
pub fn accept_decoded_image(decoded: Option<Vec<u8>>, max_image_bytes: u64, index: usize) -> (r:
    Result<Vec<u8>, ImageError>)
    ensures
        match decoded {
            None => r == Err::<Vec<u8>, ImageError>(ImageError::InvalidBase64),
            Some(v) => if v@.len() > max_image_bytes {
                r == Err::<Vec<u8>, ImageError>(ImageError::DecodedImageTooLarge { index })
            } else {
                r == Ok::<Vec<u8>, ImageError>(v)
            },
        },
{
    match decoded {
        None => Err(ImageError::InvalidBase64),
        Some(v) => {
            if v.len() as u64 > max_image_bytes {
                Err(ImageError::DecodedImageTooLarge { index })
            } else {
                Ok(v)
            }
        },
    }
}

/// Decodes the base64 data of item `index`: text too long for the limit
/// is refused before decoding, and the decoded image must fit the limit.
pub fn decode_image_data(encoded: &str, max_image_bytes: u64, index: usize) -> (r: Result<
    Vec<u8>,
    ImageError,
>)
    ensures
        encoded.spec_bytes().len() > max_encoded_len(max_image_bytes) ==> r == Err::<
            Vec<u8>,
            ImageError,
        >(ImageError::EncodedImageTooLarge),
        encoded.spec_bytes().len() <= max_encoded_len(max_image_bytes) ==> match base64_standard_decode(
            encoded.spec_bytes(),
        ) {
            None => r == Err::<Vec<u8>, ImageError>(ImageError::InvalidBase64),
            Some(b) => if b.len() > max_image_bytes {
                r == Err::<Vec<u8>, ImageError>(ImageError::DecodedImageTooLarge { index })
            } else {
                r matches Ok(v) && v@ == b
            },
        },
{
    let bytes = encoded.as_bytes();
    match ensure_encoded_size(bytes.len(), max_image_bytes) {
        Ok(()) => {},
        Err(e) => return Err(e),
    }
    let decoded = match decode_base64_standard(bytes) {
        Ok(v) => Some(v),
        Err(_) => None,
    };
    accept_decoded_image(decoded, max_image_bytes, index)
}

/// The scheme of `url` as the URL parser of `reqwest` reads it (lower
/// case), `None` where it does not parse `url` as an absolute URL.
pub uninterp spec fn parsed_url_scheme(url: Seq<char>) -> Option<Seq<char>>;

/// Calls `reqwest::Url::parse` and, on success, `Url::scheme`.  The
/// contract claims that the scheme is [`parsed_url_scheme`] of the text,
/// that is, that it depends on the text alone.
#[verifier::external_body]
fn url_scheme(url: &str) -> (r: Option<String>)
    ensures
        match r {
            Some(s) => parsed_url_scheme(url@) == Some(s@),
            None => parsed_url_scheme(url@) is None,
        },
{
    match reqwest::Url::parse(url) {
        Ok(parsed) => Some(parsed.scheme().to_owned()),
        Err(_) => None,
    }
}

/// Accepts the scheme of an image URL: the URL must parse, and its scheme
/// be `http` or `https`.
pub fn check_url_scheme(scheme: Option<String>) -> (r: Result<(), ImageError>)
    ensures
        match scheme {
            None => r == Err::<(), ImageError>(ImageError::InvalidImageUrl),
            Some(s) => if s@ == "http"@ || s@ == "https"@ {
                r is Ok
            } else {
                r == Err::<(), ImageError>(ImageError::UnsupportedUrlScheme)
            },
        },
{
    proof {
        reveal_strlit("http");
        reveal_strlit("https");
    }
    match scheme {
        None => Err(ImageError::InvalidImageUrl),
        Some(s) => {
            if str_eq(s.as_str(), "http") || str_eq(s.as_str(), "https") {
                Ok(())
            } else {
                Err(ImageError::UnsupportedUrlScheme)
            }
        },
    }
}

/// An image URL must parse and use `http` or `https`.
pub fn check_image_url(url: &str) -> (r: Result<(), ImageError>)
    ensures
        match parsed_url_scheme(url@) {
            None => r == Err::<(), ImageError>(ImageError::InvalidImageUrl),
            Some(s) => if s == "http"@ || s == "https"@ {
                r is Ok
            } else {
                r == Err::<(), ImageError>(ImageError::UnsupportedUrlScheme)
            },
        },
{
    check_url_scheme(url_scheme(url))
}

/// A download whose announced `Content-Length` exceeds the limit is
/// refused before its body is read.
pub fn check_content_length(content_length: Option<u64>, max_image_bytes: u64) -> (r: Result<
    (),
    ImageError,
>)
    ensures
        match content_length {
            Some(n) => if n > max_image_bytes {
                r == Err::<(), ImageError>(ImageError::DownloadTooLarge)
            } else {
                r is Ok
            },
            None => r is Ok,
        },
{
    match content_length {
        Some(n) => {
            if n > max_image_bytes {
                Err(ImageError::DownloadTooLarge)
            } else {
                Ok(())
            }
        },
        None => Ok(()),
    }
}

/// A content type that a downloaded image may have: `image/...` or
/// `application/octet-stream`.
pub open spec fn is_image_content_type(content_type: Seq<char>) -> bool {
    ||| ("image/"@).len() <= content_type.len() && content_type.take(("image/"@).len() as int)
        == "image/"@
    ||| content_type == "application/octet-stream"@
}

/// A download that declares a content type must declare an image one.
pub fn check_content_type(content_type: &str) -> (r: Result<(), ImageError>)
    ensures
        is_image_content_type(content_type@) ==> r is Ok,
        !is_image_content_type(content_type@) ==> (r matches Err(
            ImageError::UnsupportedContentType { content_type: c },
        ) && c@ == content_type@),
{
    if starts_with(content_type, "image/") || str_eq(content_type, "application/octet-stream") {
        Ok(())
    } else {
        Err(ImageError::UnsupportedContentType { content_type: content_type.to_owned() })
    }
}

/// The byte count of a download after a chunk of `read` more bytes
/// (saturating at `u64::MAX`), which is refused once it exceeds the limit.
pub fn accept_chunk(total: u64, read: usize, max_image_bytes: u64) -> (r: Result<u64, ImageError>)
    ensures
        saturate(total + read) > max_image_bytes ==> r == Err::<u64, ImageError>(
            ImageError::DownloadTooLarge,
        ),
        saturate(total + read) <= max_image_bytes ==> r == Ok::<u64, ImageError>(
            saturate(total + read) as u64,
        ),
{
    let read64: u64 = if read as u128 > u64::MAX as u128 {
        u64::MAX
    } else {
        read as u64
    };
    let next = total.saturating_add(read64);
    if next > max_image_bytes {
        return Err(ImageError::DownloadTooLarge);
    }
    Ok(next)
}

/// `image-<n>.tmp`, the staged file of item `index`, `n = index + 1`.
pub open spec fn staged_name_of(index: nat) -> Seq<char> {
    "image-"@ + decimal(index + 1) + ".tmp"@
}

/// `codex-image-<run>-<n>.<ext>`, the committed file of item `index`.
pub open spec fn final_name_of(run_id: Seq<char>, index: nat, format: ImageFormat) -> Seq<char> {
    "codex-image-"@ + run_id + "-"@ + decimal(index + 1) + "."@ + extension_of(format)
}

/// The name of the file that item `index` is staged in.
pub fn staged_file_name(index: usize) -> (r: String)
    requires
        index < u64::MAX,
    ensures
        r@ == staged_name_of(index as nat),
{
    let mut r = "image-".to_owned();
    r.append(decimal_string(index as u64 + 1).as_str());
    r.append(".tmp");
    r
}

/// The name under which item `index` of run `run_id` is committed.
pub fn final_file_name(run_id: &str, index: usize, format: ImageFormat) -> (r: String)
    requires
        index < u64::MAX,
    ensures
        r@ == final_name_of(run_id@, index as nat, format),
{
    let mut r = "codex-image-".to_owned();
    r.append(run_id);
    r.append("-");
    r.append(decimal_string(index as u64 + 1).as_str());
    r.append(".");
    r.append(format.extension());
    r
}

/// The run id taken from the name of the staging directory: the name
/// without its leading `.codex-image-run-` (repeated), or
/// `codex-image-run` when the name is not valid Unicode.
pub fn run_id_from_dir_name(dir_name: Option<&str>) -> (r: String)
    ensures
        match dir_name {
            Some(n) => r@ == strip_leading(n@, ".codex-image-run-"@),
            None => r@ == strip_leading("codex-image-run"@, ".codex-image-run-"@),
        },
{
    proof {
        reveal_strlit(".codex-image-run-");
    }
    let name = match dir_name {
        Some(n) => n,
        None => "codex-image-run",
    };
    strip_leading_all(name, ".codex-image-run-")
}

/// The characters of `bytes` decoded as UTF-8 with each invalid sequence
/// replaced by U+FFFD, as `String::from_utf8_lossy` gives them.
pub uninterp spec fn utf8_lossy(bytes: Seq<u8>) -> Seq<char>;

/// Calls `String::from_utf8_lossy`.  The contract claims that the text
/// depends on the bytes alone and that valid UTF-8 is decoded unchanged,
/// as the function's documentation says.
#[verifier::external_body]
fn from_utf8_lossy(bytes: &[u8]) -> (r: String)
    ensures
        r@ == utf8_lossy(bytes@),
        vstd::utf8::valid_utf8(bytes@) ==> r@ == vstd::utf8::decode_utf8(bytes@),
{
    String::from_utf8_lossy(bytes).into_owned()
}

/// The error for a response with a failure status: the operation, the
/// status line, and the start of the body as text, cut to at most
/// [`MAX_ERROR_TEXT_BYTES`] bytes on a character boundary.
pub fn failed_response_error(operation: &str, status: &str, body: &[u8]) -> (r: ImageError)
    ensures
        r matches ImageError::HttpStatus { operation: o, status: s, detail: d } && o@ == operation@
            && s@ == status@ && d@ == utf8_lossy(body@).take(d@.len() as int) && is_truncation_end(
            encode_utf8(utf8_lossy(body@)),
            MAX_ERROR_TEXT_BYTES as int,
            encode_utf8(d@).len() as int,
        ),
        r matches ImageError::HttpStatus { detail: d, .. } && (vstd::utf8::valid_utf8(body@)
            ==> d@ == vstd::utf8::decode_utf8(body@).take(d@.len() as int) && is_truncation_end(
            body@,
            MAX_ERROR_TEXT_BYTES as int,
            encode_utf8(d@).len() as int,
        )),
{
    let text = from_utf8_lossy(body);
    proof {
        if vstd::utf8::valid_utf8(body@) {
            vstd::utf8::decode_utf8_encode_utf8(body@);
        }
    }
    let detail = truncate_error(text.as_str());
    ImageError::HttpStatus {
        operation: operation.to_owned(),
        status: status.to_owned(),
        detail: detail.to_owned(),
    }
}

} // verus!
