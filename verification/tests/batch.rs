use codex_image_cli::batch::{
    commit_step, CommitAction, CommitEvent, CommitState, ImageBatch, StagingAction,
};
use codex_image_cli::response::ImageData;

const PNG: &[u8] = b"\x89PNG\r\n\x1a\nrest";
const JPEG: &[u8] = b"\xff\xd8\xffrest";
const GIF: &[u8] = b"GIF89arest";

fn item(url: Option<&str>) -> ImageData {
    ImageData { b64_json: None, url: url.map(str::to_owned) }
}
use codex_image_cli::error::ImageError;
use codex_image_cli::format::ImageFormat;

#[test]
fn an_incomplete_batch_is_not_committed() {
    let mut batch = ImageBatch::new("run".to_owned(), 2);
    assert_eq!(batch.stage_item(&item(None), PNG), Ok(ImageFormat::Png));
    assert_eq!(batch.into_staged().unwrap_err(), ImageError::IncompleteBatch);
}

#[test]
fn commits_a_complete_batch_in_order() {
    let mut batch = ImageBatch::new("abc".to_owned(), 2);
    assert_eq!(batch.stage_item(&item(None), b"not an image"), Err(ImageError::UnsupportedImageData));
    assert_eq!(batch.stage_item(&item(None), JPEG), Ok(ImageFormat::Jpeg));
    assert_eq!(batch.stage_item(&item(Some("http://x/2")), GIF), Ok(ImageFormat::Gif));
    assert_eq!(batch.stage_item(&item(None), PNG), Err(ImageError::TooManyImages));
    let staged = batch.into_staged().unwrap();
    assert_eq!(staged[0].staged_name, "image-1.tmp");
    assert_eq!(staged[0].final_name, "codex-image-abc-1.jpg");
    assert_eq!(staged[0].url, None);
    assert_eq!(staged[1].final_name, "codex-image-abc-2.gif");
    assert_eq!(staged[1].url.as_deref(), Some("http://x/2"));
}

#[test]
fn commit_renames_in_order_and_finishes() {
    let (s, a) = commit_step(CommitState { total: 2, committed: 0, failed: false }, CommitEvent::Start);
    assert_eq!(a, CommitAction::Rename { index: 0 });
    let (s, a) = commit_step(s, CommitEvent::Renamed);
    assert_eq!(a, CommitAction::Rename { index: 1 });
    let (s, a) = commit_step(s, CommitEvent::Renamed);
    assert_eq!(a, CommitAction::Finished);
    assert_eq!(s, CommitState { total: 2, committed: 2, failed: false });
    let (_, a) = commit_step(CommitState { total: 0, committed: 0, failed: false }, CommitEvent::Start);
    assert_eq!(a, CommitAction::Finished);
}

#[test]
fn a_failed_rename_rolls_back_what_was_committed() {
    let (s, _) = commit_step(CommitState { total: 3, committed: 0, failed: false }, CommitEvent::Start);
    let (s, _) = commit_step(s, CommitEvent::Renamed);
    let (s, a) = commit_step(s, CommitEvent::RenameFailed);
    assert_eq!(a, CommitAction::RollBack { count: 1 });
    assert!(s.failed);
}

#[test]
fn plans_each_item_by_its_source() {
    let mut batch = ImageBatch::new("r".to_owned(), 3);
    let inline = ImageData { b64_json: Some("/9j/bW9jaw==".to_owned()), url: Some("ftp://x".to_owned()) };
    match batch.plan_next(&inline, 1024).unwrap() {
        StagingAction::Write { staged_name, bytes } => {
            assert_eq!(staged_name, "image-1.tmp");
            assert_eq!(bytes, b"\xff\xd8\xffmock".to_vec());
        }
        other => panic!("unexpected {other:?}"),
    }
    batch.stage_item(&inline, JPEG).unwrap();
    let remote = ImageData { b64_json: None, url: Some("http://127.0.0.1/image".to_owned()) };
    match batch.plan_next(&remote, 1024).unwrap() {
        StagingAction::Download { staged_name, url } => {
            assert_eq!(staged_name, "image-2.tmp");
            assert_eq!(url, "http://127.0.0.1/image");
        }
        other => panic!("unexpected {other:?}"),
    }
    assert_eq!(
        batch.plan_next(&ImageData { b64_json: None, url: None }, 1024).unwrap_err(),
        ImageError::MissingImageData
    );
    assert_eq!(
        batch.plan_next(&ImageData { b64_json: None, url: Some("ftp://x/y".to_owned()) }, 1024).unwrap_err(),
        ImageError::UnsupportedUrlScheme
    );
    assert_eq!(
        batch.plan_next(&ImageData { b64_json: Some("/9j/bW9jaw==".to_owned()), url: None }, 6).unwrap_err(),
        ImageError::DecodedImageTooLarge { index: 1 }
    );
}
