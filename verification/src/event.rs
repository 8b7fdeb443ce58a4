//! The change events that the watcher reports, and their JSON form.

use crate::text::{decimal, decimal_digits};
use vstd::prelude::*;
use vstd::string::*;

verus! {

/// The name under which change events are published.
pub const EVENT_NAME: &'static str = "clipboard-changed";

/// What is known of a stored image.
#[derive(Clone, Debug, PartialEq, Eq)]
pub struct ImageMetadata {
    pub width: usize,
    pub height: usize,
    /// The file format, always `png`.
    pub format: String,
    /// The image's fingerprint.
    pub hash: u64,
    /// The size of the file on disk, 0 where it could not be read.
    pub byte_size: u64,
}

/// The mathematical content of an [`ImageMetadata`].
pub struct ImageMetadataView {
    pub width: usize,
    pub height: usize,
    pub format: Seq<char>,
    pub hash: u64,
    pub byte_size: u64,
}

impl View for ImageMetadata {
    type V = ImageMetadataView;

    open spec fn view(&self) -> ImageMetadataView {
        ImageMetadataView {
            width: self.width,
            height: self.height,
            format: self.format@,
            hash: self.hash,
            byte_size: self.byte_size,
        }
    }
}

/// One detected change of the clipboard.
#[derive(Clone, Debug, PartialEq, Eq)]
pub enum ChangeEvent {
    /// New plain text.
    Text { content: String },
    /// A new image, stored under `filename` at `absolute_path`.
    Image { filename: String, absolute_path: String, metadata: ImageMetadata },
}

/// The mathematical content of a [`ChangeEvent`].
pub enum ChangeEventView {
    Text { content: Seq<char> },
    Image { filename: Seq<char>, absolute_path: Seq<char>, metadata: ImageMetadataView },
}

impl View for ChangeEvent {
    type V = ChangeEventView;

    open spec fn view(&self) -> ChangeEventView {
        match self {
            ChangeEvent::Text { content } => ChangeEventView::Text { content: content@ },
            ChangeEvent::Image { filename, absolute_path, metadata } => ChangeEventView::Image {
                filename: filename@,
                absolute_path: absolute_path@,
                metadata: metadata@,
            },
        }
    }
}

/// The JSON string literal for a text: quoted, with the escapes that the
/// JSON serializer applies.
pub uninterp spec fn json_quoted(s: Seq<char>) -> Seq<char>;

/// `serde_json::to_string` on a string slice: the text as a JSON string
/// literal. Serializing a string into memory does not fail; the result
/// depends on the characters alone.
#[verifier::external_body]
fn json_string(s: &str) -> (r: String)
    ensures
        r@ == json_quoted(s@),
{
    match serde_json::to_string(s) {
        Ok(quoted) => quoted,
        Err(_) => String::new(),
    }
}

/// A JSON object for image metadata, made of the JSON literals of its
/// two strings and of its three numbers, keys in alphabetical order.
pub open spec fn metadata_object(
    format_literal: Seq<char>,
    hash_literal: Seq<char>,
    height: u64,
    size: u64,
    width: u64,
) -> Seq<char> {
    "{\"format\":"@ + format_literal + ",\"hash\":"@ + hash_literal + ",\"height\":"@
        + decimal_digits(height as nat) + ",\"size\":"@ + decimal_digits(size as nat)
        + ",\"width\":"@ + decimal_digits(width as nat) + "}"@
}

/// The JSON object of a text event, made of the JSON literal of its content.
pub open spec fn text_object(content_literal: Seq<char>) -> Seq<char> {
    "{\"content\":"@ + content_literal + ",\"type\":\"text\"}"@
}

/// The JSON object of an image event, made of the JSON literals of its
/// three strings.
pub open spec fn image_object(
    filename_literal: Seq<char>,
    path_literal: Seq<char>,
    metadata_literal: Seq<char>,
) -> Seq<char> {
    "{\"content\":"@ + filename_literal + ",\"file_path\":"@ + path_literal
        + ",\"metadata\":"@ + metadata_literal + ",\"type\":\"image\"}"@
}

/// The metadata as a JSON object with its keys in alphabetical order; the
/// hash is given as a string, the other numbers as numbers.
pub open spec fn spec_metadata_json(m: ImageMetadataView) -> Seq<char> {
    metadata_object(
        json_quoted(m.format),
        json_quoted(decimal_digits(m.hash as nat)),
        m.height as u64,
        m.byte_size,
        m.width as u64,
    )
}

/// The event as the JSON object that subscribers receive, keys in
/// alphabetical order. An image event carries its metadata as a string that
/// holds JSON in turn.
pub open spec fn spec_payload_json(e: ChangeEventView) -> Seq<char> {
    match e {
        ChangeEventView::Text { content } => text_object(json_quoted(content)),
        ChangeEventView::Image { filename, absolute_path, metadata } => image_object(
            json_quoted(filename),
            json_quoted(absolute_path),
            json_quoted(spec_metadata_json(metadata)),
        ),
    }
}

/// Puts the metadata object together from the JSON literals of its parts.
pub fn frame_metadata(
    format_literal: &str,
    hash_literal: &str,
    height: u64,
    size: u64,
    width: u64,
) -> (r: String)
    ensures
        r@ == metadata_object(format_literal@, hash_literal@, height, size, width),
{
    let mut out = String::from_str("{\"format\":");
    out.append(format_literal);
    out.append(",\"hash\":");
    out.append(hash_literal);
    out.append(",\"height\":");
    out.append(decimal(height).as_str());
    out.append(",\"size\":");
    out.append(decimal(size).as_str());
    out.append(",\"width\":");
    out.append(decimal(width).as_str());
    out.append("}");
    assert(out@ =~= metadata_object(format_literal@, hash_literal@, height, size, width));
    out
}

/// Puts the object of a text event together from the JSON literal of its
/// content.
pub fn frame_text(content_literal: &str) -> (r: String)
    ensures
        r@ == text_object(content_literal@),
{
    let mut out = String::from_str("{\"content\":");
    out.append(content_literal);
    out.append(",\"type\":\"text\"}");
    assert(out@ =~= text_object(content_literal@));
    out
}

/// Puts the object of an image event together from the JSON literals of
/// its parts.
pub fn frame_image(filename_literal: &str, path_literal: &str, metadata_literal: &str) -> (r:
    String)
    ensures
        r@ == image_object(filename_literal@, path_literal@, metadata_literal@),
{
    let mut out = String::from_str("{\"content\":");
    out.append(filename_literal);
    out.append(",\"file_path\":");
    out.append(path_literal);
    out.append(",\"metadata\":");
    out.append(metadata_literal);
    out.append(",\"type\":\"image\"}");
    assert(out@ =~= image_object(filename_literal@, path_literal@, metadata_literal@));
    out
}

impl ImageMetadata {
    /// Renders the metadata as JSON.
    pub fn to_json(&self) -> (r: String)
        ensures
            r@ == spec_metadata_json(self@),
    {
        let format_literal = json_string(self.format.as_str());
        let hash_literal = json_string(decimal(self.hash).as_str());
        frame_metadata(
            format_literal.as_str(),
            hash_literal.as_str(),
            self.height as u64,
            self.byte_size,
            self.width as u64,
        )
    }
}

impl ChangeEvent {
    /// Renders the event as the JSON payload that subscribers receive.
    pub fn to_json(&self) -> (r: String)
        ensures
            r@ == spec_payload_json(self@),
    {
        match self {
            ChangeEvent::Text { content } => frame_text(json_string(content.as_str()).as_str()),
            ChangeEvent::Image { filename, absolute_path, metadata } => {
                let filename_literal = json_string(filename.as_str());
                let path_literal = json_string(absolute_path.as_str());
                let metadata_literal = json_string(metadata.to_json().as_str());
                frame_image(
                    filename_literal.as_str(),
                    path_literal.as_str(),
                    metadata_literal.as_str(),
                )
            },
        }
    }
}

} // verus!
