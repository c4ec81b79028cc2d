//! Errors of the library.  Each variant carries the values that the
//! program needs to print the message the user sees.
use vstd::prelude::*;

verus! {

/// Why a provider configuration could not be turned into a connection.
#[derive(Debug, PartialEq, Eq)]
pub enum ConfigError {
    /// The active `model_provider` names no entry of `model_providers`.
    ProviderNotConfigured { name: String },
    /// Neither an override, the provider, the configuration nor a built-in
    /// default gives a base URL.
    NoBaseUrl,
    /// The active provider has no `env_key` and does not use Codex auth.
    NoCredentialSource,
    /// `auth.json` holds an API key made of whitespace only.
    EmptyAuthKey,
    /// The credential that the plan asked for was not handed over.
    MissingCredential,
}

/// Why an image request or response was refused.
#[derive(Debug, PartialEq, Eq)]
pub enum ImageError {
    EmptyPrompt,
    PromptTooLong,
    EmptyModel,
    EmptySize,
    ImageCountOutOfRange,
    ZeroTimeout,
    ZeroMaxImageBytes,
    /// Bytes that are neither PNG, JPEG, WebP nor GIF.
    UnsupportedImageData,
    /// base64 text longer than an image within the size limit can be.
    EncodedImageTooLarge,
    /// A body with more bytes than its limit.
    BodyTooLarge { description: String, limit: u64 },
    /// The overall deadline has passed.
    DeadlineExceeded,
    /// A response item with neither `b64_json` nor `url`.
    MissingImageData,
    /// The response holds another number of items than was asked for.
    CountMismatch { operation: String, returned: usize, expected: u32 },
    /// `b64_json` that is not valid standard base64.
    InvalidBase64,
    /// The decoded image of the item at `index` (from 0) exceeds the limit.
    DecodedImageTooLarge { index: usize },
    /// An image URL that does not parse.
    InvalidImageUrl,
    /// An image URL whose scheme is neither `http` nor `https`.
    UnsupportedUrlScheme,
    /// A download that exceeds the image size limit.
    DownloadTooLarge,
    /// A download whose content type is not an image type.
    UnsupportedContentType { content_type: String },
    /// A source image or mask larger than the size limit.
    SourceImageTooLarge,
    /// More images staged than the batch expects.
    TooManyImages,
    /// A batch committed before every image was staged.
    IncompleteBatch,
    /// A response with a failure status.
    HttpStatus { operation: String, status: String, detail: String },
}

} // verus!
