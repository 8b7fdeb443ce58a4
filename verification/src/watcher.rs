//! The watch loop's decisions: what each poll of the clipboard changes in
//! the remembered state, and what the host has to do about it. The host
//! polls, sleeps, touches the disk and delivers events; everything it has to
//! decide is decided here.

use crate::classify::{classify, spec_classify, Classification, ClassificationView};
use crate::dedup::{after_image, after_text, DedupState, DedupView};
use crate::event::{ChangeEvent, ChangeEventView, ImageMetadata, ImageMetadataView};
use crate::fingerprint::{fingerprint, spec_fingerprint};
use crate::materialize::{filename_for, is_well_formed, spec_filename, spec_well_formed};
use crate::snapshot::{ClipboardSnapshot, RawImage, RawImageView, SnapshotView};
use vstd::prelude::*;
use vstd::string::*;

verus! {

/// Milliseconds between two polls of the clipboard.
pub const POLL_INTERVAL_MS: u64 = 200;

/// Milliseconds between startup and the first poll, so that subscribers can
/// attach before the first event.
pub const STARTUP_GRACE_MS: u64 = 500;

/// What startup found out about the world.
#[derive(Clone, Copy, Debug, PartialEq, Eq)]
pub struct StartupProbe {
    /// The clipboard backend could be opened.
    pub clipboard_available: bool,
    /// A throwaway write into the images directory succeeded.
    pub images_dir_writable: bool,
}

/// Why the watcher did not start.
#[derive(Clone, Copy, Debug, PartialEq, Eq, Structural)]
pub enum StartupError {
    /// The clipboard backend is unreachable.
    ClipboardUnavailable,
    /// The images directory is missing or cannot be written.
    ImagesDirUnwritable,
}

/// Where a new image goes: the file is named after the fingerprint.
#[derive(Clone, Debug, PartialEq, Eq)]
pub struct ImagePlan {
    pub fingerprint: u64,
    pub filename: String,
    pub width: usize,
    pub height: usize,
}

/// The mathematical content of an [`ImagePlan`].
pub struct ImagePlanView {
    pub fingerprint: u64,
    pub filename: Seq<char>,
    pub width: usize,
    pub height: usize,
}

impl View for ImagePlan {
    type V = ImagePlanView;

    open spec fn view(&self) -> ImagePlanView {
        ImagePlanView {
            fingerprint: self.fingerprint,
            filename: self.filename@,
            width: self.width,
            height: self.height,
        }
    }
}

/// What the host does after a poll.
#[derive(Clone, Debug, PartialEq, Eq)]
pub enum Action {
    /// Nothing; sleep until the next poll.
    Idle,
    /// Deliver the event.
    Emit(ChangeEvent),
    /// Load the image file at this path and hand the pixels to
    /// [`Watcher::observe_image`]; skip the poll if it cannot be decoded.
    LoadReference(String),
    /// Store the image under the plan's file name unless a file of that name
    /// exists, then deliver [`ImagePlan::into_event`].
    StoreImage(ImagePlan, RawImage),
}

/// The mathematical content of an [`Action`].
pub enum ActionView {
    Idle,
    Emit(ChangeEventView),
    LoadReference(Seq<char>),
    StoreImage(ImagePlanView, RawImageView),
}

impl View for Action {
    type V = ActionView;

    open spec fn view(&self) -> ActionView {
        match self {
            Action::Idle => ActionView::Idle,
            Action::Emit(event) => ActionView::Emit(event@),
            Action::LoadReference(path) => ActionView::LoadReference(path@),
            Action::StoreImage(plan, img) => ActionView::StoreImage(plan@, img@),
        }
    }
}

/// The fingerprint of an image.
pub open spec fn image_fingerprint(img: RawImageView) -> u64 {
    spec_fingerprint(img.bytes, img.width, img.height)
}

/// The plan for storing an image.
pub open spec fn plan_for(img: RawImageView) -> ImagePlanView {
    ImagePlanView {
        fingerprint: image_fingerprint(img),
        filename: spec_filename(image_fingerprint(img)),
        width: img.width,
        height: img.height,
    }
}

/// The event for an image stored according to `plan`. A file size that
/// could not be read counts as 0.
pub open spec fn spec_image_event(
    plan: ImagePlanView,
    absolute_path: Seq<char>,
    byte_size: Option<u64>,
) -> ChangeEventView {
    ChangeEventView::Image {
        filename: plan.filename,
        absolute_path,
        metadata: ImageMetadataView {
            width: plan.width,
            height: plan.height,
            format: "png"@,
            hash: plan.fingerprint,
            byte_size: match byte_size {
                Some(n) => n,
                None => 0,
            },
        },
    }
}

/// The remembered state after an image was seen.
pub open spec fn image_state(s: DedupView, img: RawImageView) -> DedupView {
    after_image(s, image_fingerprint(img))
}

/// What follows from seeing an image: it is stored if it differs from the
/// current image and its buffer matches its dimensions.
pub open spec fn image_action(s: DedupView, img: RawImageView) -> ActionView {
    if s.last_image != Some(image_fingerprint(img)) && spec_well_formed(img) {
        ActionView::StoreImage(plan_for(img), img)
    } else {
        ActionView::Idle
    }
}

/// What follows from seeing plain text: it is reported if it differs from
/// the remembered text.
pub open spec fn text_action(s: DedupView, text: Seq<char>) -> ActionView {
    if s.last_text != text {
        ActionView::Emit(ChangeEventView::Text { content: text })
    } else {
        ActionView::Idle
    }
}

/// The remembered state after a classified poll.
pub open spec fn step_state(s: DedupView, c: ClassificationView) -> DedupView {
    match c {
        ClassificationView::Image(img) => image_state(s, img),
        ClassificationView::ImageFileReference(_) => s,
        ClassificationView::PlainText(text) => after_text(s, text),
        ClassificationView::Ignore => s,
    }
}

/// What the host does after a classified poll.
pub open spec fn step_action(s: DedupView, c: ClassificationView) -> ActionView {
    match c {
        ClassificationView::Image(img) => image_action(s, img),
        ClassificationView::ImageFileReference(path) => ActionView::LoadReference(path),
        ClassificationView::PlainText(text) => text_action(s, text),
        ClassificationView::Ignore => ActionView::Idle,
    }
}

/// The state that startup remembers: nothing, or what is on the clipboard
/// at that moment.
pub open spec fn seeded(snapshot: SnapshotView) -> DedupView {
    step_state(
        DedupView { last_text: Seq::empty(), last_image: None },
        spec_classify(snapshot, false),
    )
}

/// The outcome of startup.
pub open spec fn spec_start(probe: StartupProbe, snapshot: SnapshotView) -> Result<
    DedupView,
    StartupError,
> {
    if !probe.clipboard_available {
        Err(StartupError::ClipboardUnavailable)
    } else if !probe.images_dir_writable {
        Err(StartupError::ImagesDirUnwritable)
    } else {
        Ok(seeded(snapshot))
    }
}

impl ImagePlan {
    /// The event to deliver once the image is stored. `byte_size` is the
    /// size of the file on disk, `None` where it could not be read.
    pub fn into_event(self, absolute_path: String, byte_size: Option<u64>) -> (event: ChangeEvent)
        ensures
            event@ == spec_image_event(self@, absolute_path@, byte_size),
    {
        ChangeEvent::Image {
            filename: self.filename,
            absolute_path,
            metadata: ImageMetadata {
                width: self.width,
                height: self.height,
                format: String::from_str("png"),
                hash: self.fingerprint,
                byte_size: match byte_size {
                    Some(n) => n,
                    None => 0,
                },
            },
        }
    }
}

/// The watch loop in its steady state. A value of this type exists only
/// after a successful startup.
pub struct Watcher {
    dedup: DedupState,
}

impl View for Watcher {
    type V = DedupView;

    closed spec fn view(&self) -> DedupView {
        self.dedup@
    }
}

impl Watcher {
    /// Starts the watcher. It fails if the clipboard or the images directory
    /// is unusable. Otherwise what is on the clipboard now is remembered, and
    /// is never reported as a change. A file reference on the clipboard is
    /// remembered as text; a host that wants it remembered as an image puts
    /// the loaded pixels into the snapshot.
    pub fn start(probe: StartupProbe, snapshot: ClipboardSnapshot) -> (r: Result<
        Watcher,
        StartupError,
    >)
        ensures
            match r {
                Ok(w) => spec_start(probe, snapshot@) == Ok::<DedupView, StartupError>(w@),
                Err(e) => spec_start(probe, snapshot@) == Err::<DedupView, StartupError>(e),
            },
    {
        if !probe.clipboard_available {
            return Err(StartupError::ClipboardUnavailable);
        }
        if !probe.images_dir_writable {
            return Err(StartupError::ImagesDirUnwritable);
        }
        let mut w = Watcher { dedup: DedupState::new() };
        let _ = w.step(snapshot, false);
        Ok(w)
    }

    /// The remembered state.
    pub fn dedup(&self) -> (r: &DedupState)
        ensures
            r@ == self@,
    {
        &self.dedup
    }

    /// Takes in an image, from the clipboard or loaded from a referenced
    /// file. A new image is remembered, and stored if its buffer matches its
    /// dimensions; a malformed one is remembered and skipped.
    pub fn observe_image(&mut self, img: RawImage) -> (action: Action)
        ensures
            final(self)@ == image_state(old(self)@, img@),
            action@ == image_action(old(self)@, img@),
    {
        let fp = fingerprint(img.bytes.as_slice(), img.width, img.height);
        let fresh = self.dedup.is_new_image(fp);
        if fresh && is_well_formed(&img) {
            let plan = ImagePlan {
                fingerprint: fp,
                filename: filename_for(fp),
                width: img.width,
                height: img.height,
            };
            Action::StoreImage(plan, img)
        } else {
            Action::Idle
        }
    }

    /// Takes in plain text: if it differs from the remembered text it is
    /// reported and ends the current image.
    pub fn observe_text(&mut self, text: String) -> (action: Action)
        ensures
            final(self)@ == after_text(old(self)@, text@),
            action@ == text_action(old(self)@, text@),
    {
        if self.dedup.is_new_text(text.as_str()) {
            Action::Emit(ChangeEvent::Text { content: text })
        } else {
            Action::Idle
        }
    }

    /// Acts on a classified poll.
    pub fn apply(&mut self, c: Classification) -> (action: Action)
        ensures
            final(self)@ == step_state(old(self)@, c@),
            action@ == step_action(old(self)@, c@),
    {
        match c {
            Classification::Image(img) => self.observe_image(img),
            Classification::ImageFileReference(path) => Action::LoadReference(path),
            Classification::PlainText(text) => self.observe_text(text),
            Classification::Ignore => Action::Idle,
        }
    }

    /// One iteration of the steady state: classifies the poll, updates the
    /// remembered state and says what the host has to do.
    pub fn step(&mut self, snapshot: ClipboardSnapshot, reference_exists: bool) -> (action: Action)
        ensures
            final(self)@ == step_state(old(self)@, spec_classify(snapshot@, reference_exists)),
            action@ == step_action(old(self)@, spec_classify(snapshot@, reference_exists)),
    {
        let c = classify(snapshot, reference_exists);
        self.apply(c)
    }
}

} // verus!
