//! Decides what a poll of the clipboard holds: an image, a reference to an
//! image file, plain text, or nothing worth reporting.

use crate::snapshot::{ClipboardSnapshot, RawImage, RawImageView, SnapshotView};
use crate::text::{contains, ends_with, has_infix, starts_with, string_from_utf8, trim, trimmed};
use vstd::prelude::*;
use vstd::utf8::{decode_utf8, encode_utf8, valid_utf8};

verus! {

/// Text that describes an image in HTML rather than being content of its
/// own: after trimming it opens with `<meta` or `<!DOCTYPE`, or it holds both
/// `<img` and `src=`.
pub open spec fn spec_is_html_image_marker(text: Seq<char>) -> bool {
    ||| "<meta"@.is_prefix_of(trimmed(text))
    ||| "<!DOCTYPE"@.is_prefix_of(trimmed(text))
    ||| (has_infix(text, "<img"@) && has_infix(text, "src="@))
}

/// Whether `text` is an HTML image marker.
pub fn is_html_image_marker(text: &str) -> (r: bool)
    ensures
        r == spec_is_html_image_marker(text@),
{
    let t = trim(text);
    starts_with(t, "<meta") || starts_with(t, "<!DOCTYPE") || (contains(text, "<img") && contains(
        text,
        "src=",
    ))
}

/// The value of a hexadecimal digit given as an ASCII byte.
pub open spec fn hex_value(b: u8) -> Option<u8> {
    if 48 <= b <= 57 {
        Some((b - 48) as u8)
    } else if 65 <= b <= 70 {
        Some((b - 55) as u8)
    } else if 97 <= b <= 102 {
        Some((b - 87) as u8)
    } else {
        None
    }
}

/// Whether a `%` escape of two hexadecimal digits starts at the front of `s`.
pub open spec fn escape_at_front(s: Seq<u8>) -> bool {
    s.len() >= 3 && s[0] == 37 && hex_value(s[1]) is Some && hex_value(s[2]) is Some
}

/// `s` with every `%XX` escape replaced by the byte it names. A `%` that is
/// not followed by two hexadecimal digits stands for itself.
pub open spec fn percent_decoded(s: Seq<u8>) -> Seq<u8>
    decreases s.len(),
{
    if s.len() == 0 {
        s
    } else if escape_at_front(s) {
        seq![(hex_value(s[1])->0 * 16 + hex_value(s[2])->0) as u8] + percent_decoded(s.skip(3))
    } else {
        seq![s[0]] + percent_decoded(s.skip(1))
    }
}

/// The path ends in one of the image file extensions.
pub open spec fn has_image_extension(path: Seq<char>) -> bool {
    ||| ".png"@.is_suffix_of(path)
    ||| ".jpg"@.is_suffix_of(path)
    ||| ".jpeg"@.is_suffix_of(path)
    ||| ".gif"@.is_suffix_of(path)
    ||| ".bmp"@.is_suffix_of(path)
    ||| ".webp"@.is_suffix_of(path)
    ||| ".tiff"@.is_suffix_of(path)
    ||| ".tif"@.is_suffix_of(path)
}

/// The bytes of the path that a `file://` URI names, if the trimmed text is
/// such a URI.
pub open spec fn referenced_path_bytes(text: Seq<char>) -> Option<Seq<u8>> {
    let uri = trimmed(text);
    if "file://"@.is_prefix_of(uri) {
        Some(percent_decoded(encode_utf8(uri.skip(7))))
    } else {
        None
    }
}

/// The image file that `text` refers to: the trimmed text is a `file://`
/// URI, and its percent-decoded path is valid UTF-8 and ends in an image
/// extension.
pub open spec fn spec_file_reference(text: Seq<char>) -> Option<Seq<char>> {
    match referenced_path_bytes(text) {
        Some(raw) => if valid_utf8(raw) && has_image_extension(decode_utf8(raw)) {
            Some(decode_utf8(raw))
        } else {
            None
        },
        None => None,
    }
}

fn hex_digit(b: u8) -> (r: Option<u8>)
    ensures
        r == hex_value(b),
{
    if 48 <= b && b <= 57 {
        Some(b - 48)
    } else if 65 <= b && b <= 70 {
        Some(b - 55)
    } else if 97 <= b && b <= 102 {
        Some(b - 87)
    } else {
        None
    }
}

/// Replaces every `%XX` escape in `s` by the byte it names.
pub fn percent_decode(s: &[u8]) -> (out: Vec<u8>)
    ensures
        out@ == percent_decoded(s@),
{
    let mut out: Vec<u8> = Vec::new();
    let mut i: usize = 0;
    proof {
        assert(s@.skip(0) =~= s@);
        assert(out@ + percent_decoded(s@) =~= percent_decoded(s@));
    }
    while i < s.len()
        invariant
            i <= s.len(),
            out@ + percent_decoded(s@.skip(i as int)) == percent_decoded(s@),
        decreases s.len() - i,
    {
        let ghost rest = s@.skip(i as int);
        let mut step: usize = 1;
        let mut byte: u8 = s[i];
        if s[i] == 37 && s.len() - i >= 3 {
            match (hex_digit(s[i + 1]), hex_digit(s[i + 2])) {
                (Some(hi), Some(lo)) => {
                    byte = hi * 16 + lo;
                    step = 3;
                },
                _ => {},
            }
        }
        proof {
            assert(rest.skip(step as int) =~= s@.skip(i + step));
            assert(percent_decoded(rest) == seq![byte] + percent_decoded(rest.skip(step as int)));
            assert(out@.push(byte) + percent_decoded(s@.skip(i + step)) =~= out@
                + percent_decoded(rest));
        }
        out.push(byte);
        i = i + step;
    }
    assert(s@.skip(i as int) =~= Seq::<u8>::empty());
    assert(out@ + Seq::<u8>::empty() =~= out@);
    out
}

/// Whether `path` ends in one of the image file extensions.
pub fn is_image_path(path: &str) -> (r: bool)
    ensures
        r == has_image_extension(path@),
{
    ends_with(path, ".png") || ends_with(path, ".jpg") || ends_with(path, ".jpeg") || ends_with(
        path,
        ".gif",
    ) || ends_with(path, ".bmp") || ends_with(path, ".webp") || ends_with(path, ".tiff")
        || ends_with(path, ".tif")
}

/// The path of the image file that `text` refers to, if it refers to one.
/// Whether the file exists is for the caller to find out.
pub fn file_reference(text: &str) -> (r: Option<String>)
    ensures
        match r {
            Some(path) => spec_file_reference(text@) == Some(path@),
            None => spec_file_reference(text@) is None,
        },
{
    let uri = trim(text);
    proof {
        reveal_strlit("file://");
    }
    if !starts_with(uri, "file://") {
        return None;
    }
    let n = uri.unicode_len();
    let rest = uri.substring_char(7, n);
    let raw = percent_decode(rest.as_bytes());
    match string_from_utf8(raw) {
        Some(path) => {
            if is_image_path(path.as_str()) {
                Some(path)
            } else {
                None
            }
        },
        None => None,
    }
}

/// What a poll holds, with the payload that each case needs.
#[derive(Clone, Debug, PartialEq, Eq)]
pub enum Classification {
    /// An image is on the clipboard.
    Image(RawImage),
    /// The text names an image file that exists; the path is carried.
    ImageFileReference(String),
    /// Ordinary text.
    PlainText(String),
    /// Nothing to report: an empty read or an HTML image marker.
    Ignore,
}

/// The mathematical content of a [`Classification`].
pub enum ClassificationView {
    Image(RawImageView),
    ImageFileReference(Seq<char>),
    PlainText(Seq<char>),
    Ignore,
}

impl View for Classification {
    type V = ClassificationView;

    open spec fn view(&self) -> ClassificationView {
        match self {
            Classification::Image(img) => ClassificationView::Image(img@),
            Classification::ImageFileReference(path) => ClassificationView::ImageFileReference(
                path@,
            ),
            Classification::PlainText(text) => ClassificationView::PlainText(text@),
            Classification::Ignore => ClassificationView::Ignore,
        }
    }
}

/// The classification of a text-only poll. `reference_exists` says whether
/// the file that the text refers to, if it refers to one, is on disk.
pub open spec fn spec_classify_text(text: Seq<char>, reference_exists: bool) -> ClassificationView {
    if reference_exists && spec_file_reference(text) is Some {
        ClassificationView::ImageFileReference(spec_file_reference(text)->0)
    } else if !spec_is_html_image_marker(text) {
        ClassificationView::PlainText(text)
    } else {
        ClassificationView::Ignore
    }
}

/// The classification of a poll: an image wins over text, a reference to an
/// existing image file over the text that spells it, and HTML image markers
/// and empty reads are ignored.
pub open spec fn spec_classify(s: SnapshotView, reference_exists: bool) -> ClassificationView {
    match s.image {
        Some(img) => ClassificationView::Image(img),
        None => match s.text {
            Some(text) => spec_classify_text(text, reference_exists),
            None => ClassificationView::Ignore,
        },
    }
}

/// Classifies one poll of the clipboard. `reference_exists` is the answer to
/// whether the file named by [`file_reference`] of the text exists; it is
/// not looked at when the text names none.
pub fn classify(snapshot: ClipboardSnapshot, reference_exists: bool) -> (r: Classification)
    ensures
        r@ == spec_classify(snapshot@, reference_exists),
{
    let ClipboardSnapshot { text, image } = snapshot;
    match image {
        Some(img) => Classification::Image(img),
        None => match text {
            Some(t) => {
                if reference_exists {
                    match file_reference(t.as_str()) {
                        Some(path) => {
                            return Classification::ImageFileReference(path);
                        },
                        None => {},
                    }
                }
                if is_html_image_marker(t.as_str()) {
                    Classification::Ignore
                } else {
                    Classification::PlainText(t)
                }
            },
            None => Classification::Ignore,
        },
    }
}

} // verus!
