use codex_image_cli::clock::{remaining, remaining_after, Deadline};
use codex_image_cli::error::ImageError;
use codex_image_cli::request::{
    bounded_read_len, ensure_encoded_size, read_bounded, read_prefix, truncate_error,
    validate_request, GenerationRequest, MAX_IMAGE_COUNT, MAX_PROMPT_BYTES,
};
use std::path::PathBuf;
use std::time::Duration;

#[test]
fn error_messages_are_bounded() {
    let error = "x".repeat(1_200);
    assert_eq!(truncate_error(&error).len(), 1_000);
}

#[test]
fn unicode_error_messages_are_bounded() {
    let error = format!("{}tail", "界".repeat(334));
    let truncated = truncate_error(&error);

    assert!(truncated.len() <= 1_000);
    assert!(truncated.is_char_boundary(truncated.len()));
}

#[test]
fn truncation_keeps_short_text_and_cuts_before_a_split_character() {
    assert_eq!(truncate_error("short"), "short");
    assert_eq!(truncate_error(""), "");
    let error = format!("{}界", "x".repeat(999));
    assert_eq!(truncate_error(&error), "x".repeat(999));
    let exact = "y".repeat(1_000);
    assert_eq!(truncate_error(&exact), exact);
    let error = "界".repeat(334);
    assert_eq!(truncate_error(&error), "界".repeat(333));
}

const SECOND: u128 = 1_000_000_000;

#[test]
fn accepts_a_well_formed_request() {
    assert_eq!(validate_request("a cat", "gpt-image-2", "1024x1024", 1, SECOND, 1), Ok(()));
    assert_eq!(validate_request("a cat", "m", "s", MAX_IMAGE_COUNT, 1, u64::MAX), Ok(()));
}

#[test]
fn refuses_each_invalid_parameter_in_order() {
    assert_eq!(validate_request(" \t\n", "m", "s", 1, SECOND, 1), Err(ImageError::EmptyPrompt));
    assert_eq!(validate_request("\u{3000}", "", "", 0, 0, 0), Err(ImageError::EmptyPrompt));
    let long = "p".repeat(MAX_PROMPT_BYTES + 1);
    assert_eq!(validate_request(&long, "m", "s", 1, SECOND, 1), Err(ImageError::PromptTooLong));
    let exact = "p".repeat(MAX_PROMPT_BYTES);
    assert_eq!(validate_request(&exact, "m", "s", 1, SECOND, 1), Ok(()));
    assert_eq!(validate_request("p", " ", "s", 1, SECOND, 1), Err(ImageError::EmptyModel));
    assert_eq!(validate_request("p", "m", "", 1, SECOND, 1), Err(ImageError::EmptySize));
    assert_eq!(validate_request("p", "m", "s", 0, SECOND, 1), Err(ImageError::ImageCountOutOfRange));
    assert_eq!(validate_request("p", "m", "s", 11, SECOND, 1), Err(ImageError::ImageCountOutOfRange));
    assert_eq!(validate_request("p", "m", "s", 1, 0, 1), Err(ImageError::ZeroTimeout));
    assert_eq!(validate_request("p", "m", "s", 1, SECOND, 0), Err(ImageError::ZeroMaxImageBytes));
}

#[test]
fn validates_a_generation_request_with_its_timeout() {
    let mut request = GenerationRequest {
        prompt: "test image".to_owned(),
        model: "test-model".to_owned(),
        size: "1024x1024".to_owned(),
        image_count: 1,
        output_dir: PathBuf::from("out"),
        timeout_nanos: Duration::from_secs(5).as_nanos(),
        max_image_bytes: 1024,
    };
    assert_eq!(request.validate(), Ok(()));
    request.timeout_nanos = 0;
    assert_eq!(request.validate(), Err(ImageError::ZeroTimeout));
    request.image_count = 11;
    assert_eq!(request.validate(), Err(ImageError::ImageCountOutOfRange));
}

#[test]
fn encoded_size_limit_is_four_thirds_of_the_image_limit_plus_padding() {
    // max 8 bytes: 4 * ((8 + 2) / 3) + 4 = 16 characters.
    assert_eq!(ensure_encoded_size(16, 8), Ok(()));
    assert_eq!(ensure_encoded_size(17, 8), Err(ImageError::EncodedImageTooLarge));
    // The encoding of an image that fits always passes: 8 bytes -> 12 characters.
    assert_eq!(ensure_encoded_size(12, 8), Ok(()));
    // Saturation at u64::MAX never refuses.
    assert_eq!(ensure_encoded_size(usize::MAX, u64::MAX), Ok(()));
}

#[test]
fn bounded_reads_accept_up_to_the_limit() {
    assert_eq!(bounded_read_len(10), 11);
    assert_eq!(bounded_read_len(u64::MAX), u64::MAX);
    assert_eq!(read_bounded(vec![1, 2, 3], 3, "body"), Ok(vec![1, 2, 3]));
    assert_eq!(
        read_bounded(vec![1, 2, 3, 4], 3, "image generation response"),
        Err(ImageError::BodyTooLarge {
            description: "image generation response".to_owned(),
            limit: 3
        })
    );
    assert_eq!(read_prefix(vec![1, 2, 3, 4], 2), vec![1, 2]);
    assert_eq!(read_prefix(vec![1, 2], 5), vec![1, 2]);
}

#[test]
fn remaining_time_counts_down_to_an_error() {
    assert_eq!(remaining_after(10, 3), Ok(7));
    assert_eq!(remaining_after(10, 10), Err(ImageError::DeadlineExceeded));
    assert_eq!(remaining_after(10, 11), Err(ImageError::DeadlineExceeded));
    let deadline = Deadline::after(3_600 * SECOND);
    let left = remaining(&deadline).unwrap();
    assert!(left > 0 && left <= 3_600 * SECOND);
    let passed = Deadline::after(1);
    let mut left = remaining(&passed);
    while left.is_ok() {
        left = remaining(&passed);
    }
    assert_eq!(left, Err(ImageError::DeadlineExceeded));
}
