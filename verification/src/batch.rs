//! A batch of response images: each is staged under a temporary name, and
//! the batch is committed to the output directory only once every image
//! of it was staged.  A commit that fails part way removes what it had
//! already committed, so no partial batch is left behind.
use vstd::prelude::*;

use crate::error::ImageError;
use crate::format::{detect_image_format, format_of, ImageFormat};
use crate::request::max_encoded_len;
use crate::response::{
    base64_standard_decode, check_image_url, decode_image_data, final_file_name, final_name_of,
    image_source, parsed_url_scheme, staged_file_name, staged_name_of, ImageData, ImageSource,
};
use vstd::utf8::encode_utf8;

verus! {

/// One image written to the staging directory.
#[derive(Debug)]
pub struct StagedImage {
    /// The file name in the staging directory.
    pub staged_name: String,
    /// The file name in the output directory.
    pub final_name: String,
    /// The URL the provider gave for the image, if any.
    pub url: Option<String>,
}

/// How the next image of a batch reaches its staging file.
#[derive(Debug)]
pub enum StagingAction {
    /// Write these decoded bytes to the staging file of this name.
    Write { staged_name: String, bytes: Vec<u8> },
    /// Download this URL into the staging file of this name.
    Download { staged_name: String, url: String },
}

/// The images of one response, staged in order.
pub struct ImageBatch {
    run_id: String,
    expected: usize,
    staged: Vec<StagedImage>,
    formats: Ghost<Seq<ImageFormat>>,
}

impl ImageBatch {
    /// The run id that committed names carry.
    pub closed spec fn spec_run_id(&self) -> Seq<char> {
        self.run_id@
    }

    /// How many images the batch must hold to be committed.
    pub closed spec fn spec_expected(&self) -> nat {
        self.expected as nat
    }

    /// The images staged so far.
    pub closed spec fn spec_staged(&self) -> Seq<StagedImage> {
        self.staged@
    }

    /// The formats of the images staged so far.
    pub closed spec fn spec_formats(&self) -> Seq<ImageFormat> {
        self.formats@
    }

    /// Image `i` is staged as `image-<i+1>.tmp` and committed as
    /// `codex-image-<run>-<i+1>.<ext>` in its format, and no more images
    /// are staged than the batch expects.
    pub open spec fn wf(&self) -> bool {
        &&& self.spec_staged().len() <= self.spec_expected()
        &&& self.spec_formats().len() >= self.spec_staged().len()
        &&& forall|i: int|
            0 <= i < self.spec_staged().len() ==> {
                &&& (#[trigger] self.spec_staged()[i]).staged_name@ == staged_name_of(i as nat)
                &&& self.spec_staged()[i].final_name@ == final_name_of(
                    self.spec_run_id(),
                    i as nat,
                    self.spec_formats()[i],
                )
            }
    }

    #[verifier::type_invariant]
    spec fn inv(&self) -> bool {
        self.wf()
    }

    /// An empty batch of `expected` images for run `run_id`.
    pub fn new(run_id: String, expected: usize) -> (b: Self)
        ensures
            b.wf(),
            b.spec_run_id() == run_id@,
            b.spec_expected() == expected,
            b.spec_staged().len() == 0,
    {
        ImageBatch { run_id, expected, staged: Vec::new(), formats: Ghost(Seq::empty()) }
    }

    /// How the next image, from response item `item`, is staged: its inline
    /// base64 data decoded within the limit, or else its URL, which must be
    /// an `http` or `https` URL, downloaded; refused once the batch holds
    /// every expected image.
    pub fn plan_next(&self, item: &ImageData, max_image_bytes: u64) -> (r: Result<
        StagingAction,
        ImageError,
    >)
        ensures
            self.spec_staged().len() >= self.spec_expected() ==> r == Err::<
                StagingAction,
                ImageError,
            >(ImageError::TooManyImages),
            self.spec_staged().len() < self.spec_expected() ==> match item.b64_json {
                Some(b) => {
                    let index = self.spec_staged().len() as usize;
                    if encode_utf8(b@).len() > max_encoded_len(max_image_bytes) {
                        r == Err::<StagingAction, ImageError>(ImageError::EncodedImageTooLarge)
                    } else {
                        match base64_standard_decode(encode_utf8(b@)) {
                            None => r == Err::<StagingAction, ImageError>(ImageError::InvalidBase64),
                            Some(d) => if d.len() > max_image_bytes {
                                r == Err::<StagingAction, ImageError>(
                                    ImageError::DecodedImageTooLarge { index },
                                )
                            } else {
                                r matches Ok(StagingAction::Write { staged_name, bytes })
                                    && staged_name@ == staged_name_of(index as nat) && bytes@ == d
                            },
                        }
                    }
                },
                None => match item.url {
                    None => r == Err::<StagingAction, ImageError>(ImageError::MissingImageData),
                    Some(u) => match parsed_url_scheme(u@) {
                        None => r == Err::<StagingAction, ImageError>(ImageError::InvalidImageUrl),
                        Some(scheme) => if scheme == "http"@ || scheme == "https"@ {
                            r matches Ok(StagingAction::Download { staged_name, url }) && staged_name@
                                == staged_name_of(self.spec_staged().len()) && url@ == u@
                        } else {
                            r == Err::<StagingAction, ImageError>(ImageError::UnsupportedUrlScheme)
                        },
                    },
                },
            },
    {
        proof {
            use_type_invariant(self);
        }
        let index = self.staged.len();
        if index >= self.expected {
            return Err(ImageError::TooManyImages);
        }
        match image_source(item) {
            Err(e) => Err(e),
            Ok(ImageSource::Base64(encoded)) => {
                match decode_image_data(encoded, max_image_bytes, index) {
                    Err(e) => Err(e),
                    Ok(bytes) => Ok(StagingAction::Write { staged_name: staged_file_name(index), bytes }),
                }
            },
            Ok(ImageSource::Url(url)) => match check_image_url(url) {
                Err(e) => Err(e),
                Ok(()) => Ok(
                    StagingAction::Download { staged_name: staged_file_name(index), url: url.to_owned() },
                ),
            },
        }
    }

    /// Records the next image as staged, from response item `item`, in the
    /// format that the first bytes `header` of its staged file show, with
    /// the URL the item gives; refused when the batch already holds every
    /// expected image or when `header` is no supported image signature.
    pub fn stage_item(&mut self, item: &ImageData, header: &[u8]) -> (r: Result<ImageFormat, ImageError>)
        ensures
            final(self).wf(),
            final(self).spec_run_id() == old(self).spec_run_id(),
            final(self).spec_expected() == old(self).spec_expected(),
            old(self).spec_staged().len() >= old(self).spec_expected() ==> {
                &&& r == Err::<ImageFormat, ImageError>(ImageError::TooManyImages)
                &&& final(self).spec_staged() == old(self).spec_staged()
            },
            old(self).spec_staged().len() < old(self).spec_expected() ==> match format_of(header@) {
                None => {
                    &&& r == Err::<ImageFormat, ImageError>(ImageError::UnsupportedImageData)
                    &&& final(self).spec_staged() == old(self).spec_staged()
                },
                Some(f) => {
                    &&& r == Ok::<ImageFormat, ImageError>(f)
                    &&& final(self).spec_staged().len() == old(self).spec_staged().len() + 1
                    &&& final(self).spec_staged().take(old(self).spec_staged().len() as int)
                        == old(self).spec_staged()
                    &&& final(self).spec_formats()[old(self).spec_staged().len() as int] == f
                    &&& final(self).spec_staged().last().url == item.url
                },
            },
    {
        proof {
            use_type_invariant(&*self);
        }
        let n = self.staged.len();
        if n >= self.expected {
            return Err(ImageError::TooManyImages);
        }
        let format = match detect_image_format(header) {
            Ok(f) => f,
            Err(e) => return Err(e),
        };
        let url = match &item.url {
            Some(u) => Some(u.clone()),
            None => None,
        };
        let staged_name = staged_file_name(n);
        let final_name = final_file_name(self.run_id.as_str(), n, format);
        let mut staged = Vec::new();
        std::mem::swap(&mut staged, &mut self.staged);
        staged.push(StagedImage { staged_name, final_name, url });
        self.formats = Ghost(old(self).formats@.take(n as int).push(format));
        self.staged = staged;
        assert(self.staged@.take(n as int) =~= old(self).staged@);
        Ok(format)
    }

    /// The staged images, in order, once every expected image is staged;
    /// an incomplete batch is refused and nothing of it is committed.
    pub fn into_staged(self) -> (r: Result<Vec<StagedImage>, ImageError>)
        ensures
            self.wf(),
            self.spec_staged().len() == self.spec_expected() ==> (r matches Ok(v) && v@
                == self.spec_staged()),
            self.spec_staged().len() != self.spec_expected() ==> r == Err::<
                Vec<StagedImage>,
                ImageError,
            >(ImageError::IncompleteBatch),
    {
        proof {
            use_type_invariant(&self);
        }
        if self.staged.len() != self.expected {
            return Err(ImageError::IncompleteBatch);
        }
        Ok(self.staged)
    }
}

/// What the program does next while committing `total` staged images.
#[derive(Debug, PartialEq, Eq, Structural)]
pub enum CommitAction {
    /// Move staged image `index` to its final name.
    Rename { index: usize },
    /// Remove the first `count` committed images and fail.
    RollBack { count: usize },
    /// Every image is committed.
    Finished,
}

/// Progress of a commit: how many of `total` images are renamed.
#[derive(Debug, PartialEq, Eq, Structural)]
pub struct CommitState {
    pub total: usize,
    pub committed: usize,
    pub failed: bool,
}

/// The outcome of the last action.
#[derive(Debug, PartialEq, Eq, Structural)]
pub enum CommitEvent {
    /// Nothing done yet.
    Start,
    /// The last rename succeeded.
    Renamed,
    /// The last rename failed.
    RenameFailed,
}

/// A commit state that can occur.
pub open spec fn commit_state_wf(s: CommitState) -> bool {
    s.committed <= s.total
}

/// The state and action that [`commit_step`] gives.
pub open spec fn spec_commit_step(state: CommitState, event: CommitEvent) -> (CommitState, CommitAction) {
    match event {
        CommitEvent::RenameFailed => (
            CommitState { total: state.total, committed: state.committed, failed: true },
            CommitAction::RollBack { count: state.committed },
        ),
        _ => {
            let c = if event == CommitEvent::Renamed {
                (state.committed + 1) as usize
            } else {
                state.committed
            };
            (
                CommitState { total: state.total, committed: c, failed: false },
                if c < state.total {
                    CommitAction::Rename { index: c }
                } else {
                    CommitAction::Finished
                },
            )
        },
    }
}

/// One step of a commit: after a successful rename one more image counts
/// as committed; a failed rename rolls back the committed images; the next
/// rename is always the first one not yet done.
pub fn commit_step(state: CommitState, event: CommitEvent) -> (r: (CommitState, CommitAction))
    requires
        commit_state_wf(state),
        !state.failed,
        event == CommitEvent::Renamed ==> state.committed < state.total,
    ensures
        r == spec_commit_step(state, event),
        commit_state_wf(r.0),
        r.0.total == state.total,
        match event {
            CommitEvent::RenameFailed => r.0 == (CommitState {
                failed: true,
                ..state
            }) && r.1 == (CommitAction::RollBack { count: state.committed }),
            _ => {
                let c = if event == CommitEvent::Renamed {
                    state.committed + 1
                } else {
                    state.committed as int
                };
                &&& !r.0.failed
                &&& r.0.committed == c
                &&& c < state.total ==> r.1 == (CommitAction::Rename { index: c as usize })
                &&& c == state.total ==> r.1 == CommitAction::Finished
            },
        },
{
    match event {
        CommitEvent::RenameFailed => (
            CommitState { total: state.total, committed: state.committed, failed: true },
            CommitAction::RollBack { count: state.committed },
        ),
        _ => {
            let c = match event {
                CommitEvent::Renamed => state.committed + 1,
                _ => state.committed,
            };
            let action = if c < state.total {
                CommitAction::Rename { index: c }
            } else {
                CommitAction::Finished
            };
            (CommitState { total: state.total, committed: c, failed: false }, action)
        },
    }
}

} // verus!
