use codex_image_cli::error::ImageError;
use codex_image_cli::format::ImageFormat;
use codex_image_cli::response::{
    accept_chunk, accept_decoded_image, check_content_length, check_content_type,
    check_image_count, check_image_url, check_url_scheme, decode_image_data,
    failed_response_error, final_file_name, image_source, run_id_from_dir_name,
    staged_file_name, ImageData, ImageSource,
};

#[test]
fn rejects_an_incomplete_response_before_creating_output() {
    let error = check_image_count(1, 2, "generation").unwrap_err();
    assert_eq!(
        error,
        ImageError::CountMismatch { operation: "generation".to_owned(), returned: 1, expected: 2 }
    );
    assert_eq!(check_image_count(2, 2, "edit"), Ok(()));
}

#[test]
fn base64_takes_precedence_over_url() {
    let both = ImageData { b64_json: Some("QQ==".to_owned()), url: Some("http://x".to_owned()) };
    assert!(matches!(image_source(&both), Ok(ImageSource::Base64("QQ=="))));
    let url = ImageData { b64_json: None, url: Some("http://x".to_owned()) };
    assert!(matches!(image_source(&url), Ok(ImageSource::Url("http://x"))));
    let neither = ImageData { b64_json: None, url: None };
    assert!(matches!(image_source(&neither), Err(ImageError::MissingImageData)));
}

#[test]
fn decodes_base64_images_within_the_limit() {
    // "/9j/bW9jaw==" is the standard base64 of b"\xff\xd8\xffmock".
    assert_eq!(decode_image_data("/9j/bW9jaw==", 7, 0), Ok(b"\xff\xd8\xffmock".to_vec()));
    assert_eq!(decode_image_data("/9j/bW9jaw==", 6, 3), Err(ImageError::DecodedImageTooLarge { index: 3 }));
    assert_eq!(decode_image_data("/9j/bW9jaw==", 1, 0), Err(ImageError::EncodedImageTooLarge));
    assert_eq!(decode_image_data("not base64!", 100, 0), Err(ImageError::InvalidBase64));
    assert_eq!(decode_image_data("QQ", 100, 0), Err(ImageError::InvalidBase64));
    assert_eq!(accept_decoded_image(None, 5, 0), Err(ImageError::InvalidBase64));
    assert_eq!(accept_decoded_image(Some(vec![1, 2]), 2, 0), Ok(vec![1, 2]));
}

#[test]
fn image_urls_must_be_http_or_https() {
    assert_eq!(check_image_url("http://127.0.0.1:8080/image"), Ok(()));
    assert_eq!(check_image_url("HTTPS://example.com/a.png"), Ok(()));
    assert_eq!(check_image_url("ftp://example.com/a.png"), Err(ImageError::UnsupportedUrlScheme));
    assert_eq!(check_image_url("file:///etc/passwd"), Err(ImageError::UnsupportedUrlScheme));
    assert_eq!(check_image_url("not a url"), Err(ImageError::InvalidImageUrl));
    assert_eq!(check_url_scheme(Some("https".to_owned())), Ok(()));
    assert_eq!(check_url_scheme(None), Err(ImageError::InvalidImageUrl));
}

#[test]
fn refuses_downloads_over_the_limit() {
    assert_eq!(check_content_length(Some(12), 8), Err(ImageError::DownloadTooLarge));
    assert_eq!(check_content_length(Some(8), 8), Ok(()));
    assert_eq!(check_content_length(None, 8), Ok(()));
    assert_eq!(accept_chunk(0, 12, 8), Err(ImageError::DownloadTooLarge));
    assert_eq!(accept_chunk(4, 4, 8), Ok(8));
    assert_eq!(accept_chunk(u64::MAX, 1, u64::MAX), Ok(u64::MAX));
}

#[test]
fn content_types_must_be_images() {
    assert_eq!(check_content_type("image/png"), Ok(()));
    assert_eq!(check_content_type("application/octet-stream"), Ok(()));
    assert_eq!(
        check_content_type("text/html"),
        Err(ImageError::UnsupportedContentType { content_type: "text/html".to_owned() })
    );
    assert_eq!(
        check_content_type("image"),
        Err(ImageError::UnsupportedContentType { content_type: "image".to_owned() })
    );
}

#[test]
fn file_names_carry_run_id_number_and_extension() {
    assert_eq!(staged_file_name(0), "image-1.tmp");
    assert_eq!(staged_file_name(9), "image-10.tmp");
    assert_eq!(final_file_name("abc123", 0, ImageFormat::Jpeg), "codex-image-abc123-1.jpg");
    assert_eq!(final_file_name("r", 1, ImageFormat::Png), "codex-image-r-2.png");
    assert_eq!(final_file_name("r", 99, ImageFormat::Webp), "codex-image-r-100.webp");
}

#[test]
fn run_id_drops_the_staging_prefix() {
    assert_eq!(run_id_from_dir_name(Some(".codex-image-run-AbC123")), "AbC123");
    assert_eq!(run_id_from_dir_name(Some(".codex-image-run-.codex-image-run-x")), "x");
    assert_eq!(run_id_from_dir_name(Some("plain")), "plain");
    assert_eq!(run_id_from_dir_name(None), "codex-image-run");
}

#[test]
fn failed_responses_report_status_and_bounded_text() {
    let body = br#"{"error":"intentional test failure"}"#;
    let error = failed_response_error("generation", "400 Bad Request", body);
    assert_eq!(
        error,
        ImageError::HttpStatus {
            operation: "generation".to_owned(),
            status: "400 Bad Request".to_owned(),
            detail: r#"{"error":"intentional test failure"}"#.to_owned(),
        }
    );
    let long = vec![b'z'; 5000];
    match failed_response_error("edit", "500 Internal Server Error", &long) {
        ImageError::HttpStatus { detail, .. } => assert_eq!(detail.len(), 1000),
        other => panic!("unexpected {other:?}"),
    }
    match failed_response_error("edit", "502 Bad Gateway", b"bad \xff byte") {
        ImageError::HttpStatus { detail, .. } => assert_eq!(detail, "bad \u{fffd} byte"),
        other => panic!("unexpected {other:?}"),
    }
    match failed_response_error("edit", "500 Internal Server Error", "é".repeat(600).as_bytes()) {
        ImageError::HttpStatus { detail, .. } => assert_eq!(detail, "é".repeat(500)),
        other => panic!("unexpected {other:?}"),
    }
}

#[test]
fn names_of_one_batch_never_collide() {
    let staged: Vec<String> = (0..12).map(staged_file_name).collect();
    let finals: Vec<String> = (0..12)
        .map(|i| final_file_name("run", i, if i % 2 == 0 { ImageFormat::Png } else { ImageFormat::Gif }))
        .collect();
    for i in 0..12 {
        for j in 0..12 {
            if i != j {
                assert_ne!(staged[i], staged[j]);
                assert_ne!(finals[i], finals[j]);
            }
        }
    }
    assert_ne!(final_file_name("r", 0, ImageFormat::Png), final_file_name("r", 10, ImageFormat::Png));
}
