//! What one poll of the clipboard yields.

use vstd::prelude::*;

verus! {

/// A raw bitmap as the clipboard hands it out: row-major RGBA, four bytes
/// per pixel.
#[derive(Clone, Debug, PartialEq, Eq)]
pub struct RawImage {
    pub width: usize,
    pub height: usize,
    pub bytes: Vec<u8>,
}

/// The mathematical content of a [`RawImage`].
pub struct RawImageView {
    pub width: usize,
    pub height: usize,
    pub bytes: Seq<u8>,
}

impl View for RawImage {
    type V = RawImageView;

    open spec fn view(&self) -> RawImageView {
        RawImageView { width: self.width, height: self.height, bytes: self.bytes@ }
    }
}

/// The result of one poll: the text on the clipboard, if any, and the image
/// on the clipboard, if any.
#[derive(Clone, Debug, PartialEq, Eq)]
pub struct ClipboardSnapshot {
    pub text: Option<String>,
    pub image: Option<RawImage>,
}

/// The mathematical content of a [`ClipboardSnapshot`].
pub struct SnapshotView {
    pub text: Option<Seq<char>>,
    pub image: Option<RawImageView>,
}

impl View for ClipboardSnapshot {
    type V = SnapshotView;

    open spec fn view(&self) -> SnapshotView {
        SnapshotView {
            text: match self.text {
                Some(t) => Some(t@),
                None => None,
            },
            image: match self.image {
                Some(i) => Some(i@),
                None => None,
            },
        }
    }
}

/// The clipboard holds nothing of the kind that was asked for. This is an
/// ordinary outcome of a read, not a failure.
#[derive(Clone, Copy, Debug, PartialEq, Eq, Structural)]
pub struct NotAvailable {}

/// The clipboard did not take what was to be written.
#[derive(Clone, Copy, Debug, PartialEq, Eq, Structural)]
pub struct WriteFailed {}

impl ClipboardSnapshot {
    /// The snapshot for the two reads of one poll: a read that found nothing
    /// of its kind leaves that part empty.
    pub fn from_reads(
        text: Result<String, NotAvailable>,
        image: Result<RawImage, NotAvailable>,
    ) -> (r: ClipboardSnapshot)
        ensures
            r.text == (match text {
                Ok(t) => Some(t),
                Err(_) => None,
            }),
            r.image == (match image {
                Ok(i) => Some(i),
                Err(_) => None,
            }),
    {
        ClipboardSnapshot {
            text: match text {
                Ok(t) => Some(t),
                Err(_) => None,
            },
            image: match image {
                Ok(i) => Some(i),
                Err(_) => None,
            },
        }
    }
}

} // verus!
