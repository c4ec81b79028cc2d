use codex_image_cli::error::ImageError;
use codex_image_cli::format::{detect_image_format, ImageFormat};
use codex_image_cli::request::{check_upload_size, upload_format};

#[test]
fn detects_supported_image_formats() {
    assert_eq!(
        detect_image_format(b"\x89PNG\r\n\x1a\nrest").unwrap(),
        ImageFormat::Png
    );
    assert_eq!(
        detect_image_format(b"\xff\xd8\xffrest").unwrap(),
        ImageFormat::Jpeg
    );
    assert_eq!(
        detect_image_format(b"RIFF\x04\x00\x00\x00WEBPrest").unwrap(),
        ImageFormat::Webp
    );
    assert_eq!(
        detect_image_format(b"GIF89arest").unwrap(),
        ImageFormat::Gif
    );
}

#[test]
fn detects_gif87a_and_bare_signatures() {
    assert_eq!(detect_image_format(b"GIF87a").unwrap(), ImageFormat::Gif);
    assert_eq!(detect_image_format(b"\x89PNG\r\n\x1a\n").unwrap(), ImageFormat::Png);
    assert_eq!(detect_image_format(b"\xff\xd8\xff").unwrap(), ImageFormat::Jpeg);
    assert_eq!(detect_image_format(b"RIFF\0\0\0\0WEBP").unwrap(), ImageFormat::Webp);
}

#[test]
fn refuses_unknown_and_truncated_data() {
    assert_eq!(detect_image_format(b""), Err(ImageError::UnsupportedImageData));
    assert_eq!(detect_image_format(b"\x89PNG\r\n\x1a"), Err(ImageError::UnsupportedImageData));
    assert_eq!(detect_image_format(b"\xff\xd8"), Err(ImageError::UnsupportedImageData));
    assert_eq!(detect_image_format(b"RIFF\0\0\0\0WEB"), Err(ImageError::UnsupportedImageData));
    assert_eq!(detect_image_format(b"RIFF\0\0\0\0WAVEdata"), Err(ImageError::UnsupportedImageData));
    assert_eq!(detect_image_format(b"GIF88a"), Err(ImageError::UnsupportedImageData));
    assert_eq!(detect_image_format(b"hello world!"), Err(ImageError::UnsupportedImageData));
}

#[test]
fn extensions_and_mime_types_follow_the_format() {
    assert_eq!(ImageFormat::Png.extension(), "png");
    assert_eq!(ImageFormat::Jpeg.extension(), "jpg");
    assert_eq!(ImageFormat::Webp.extension(), "webp");
    assert_eq!(ImageFormat::Gif.extension(), "gif");
    assert_eq!(ImageFormat::Png.mime_type(), "image/png");
    assert_eq!(ImageFormat::Jpeg.mime_type(), "image/jpeg");
    assert_eq!(ImageFormat::Webp.mime_type(), "image/webp");
    assert_eq!(ImageFormat::Gif.mime_type(), "image/gif");
}

#[test]
fn uploads_must_fit_the_limit_and_be_images() {
    assert_eq!(check_upload_size(9, 8), Err(ImageError::SourceImageTooLarge));
    assert_eq!(check_upload_size(8, 8), Ok(()));
    assert_eq!(upload_format(b"\x89PNG\r\n\x1a\nmock", 12), Ok(ImageFormat::Png));
    assert_eq!(upload_format(b"\x89PNG\r\n\x1a\nmock", 11), Err(ImageError::SourceImageTooLarge));
    assert_eq!(upload_format(b"not an image", 100), Err(ImageError::UnsupportedImageData));
}
