//! Change detection: remembers the last text and the last image fingerprint
//! that were seen, at most one of which is current at any time.

use vstd::prelude::*;

verus! {

/// The mathematical content of a [`DedupState`].
pub struct DedupView {
    /// The last plain text seen; empty when an image is current.
    pub last_text: Seq<char>,
    /// The fingerprint of the last image seen; `None` when text is current.
    pub last_image: Option<u64>,
}

impl DedupView {
    /// At most one kind of content is current: while an image is, no text
    /// is remembered.
    pub open spec fn one_kind_current(self) -> bool {
        self.last_image is Some ==> self.last_text.len() == 0
    }
}

/// The state after an image with fingerprint `fingerprint` was seen: a new
/// image becomes current and clears the text, a repeated one changes nothing.
pub open spec fn after_image(s: DedupView, fingerprint: u64) -> DedupView {
    if s.last_image == Some(fingerprint) {
        s
    } else {
        DedupView { last_text: Seq::empty(), last_image: Some(fingerprint) }
    }
}

/// The state after plain text was seen: new text becomes current and ends
/// the current image, repeated text changes nothing.
pub open spec fn after_text(s: DedupView, text: Seq<char>) -> DedupView {
    if s.last_text == text {
        s
    } else {
        DedupView { last_text: text, last_image: None }
    }
}

/// The last-seen clipboard content, kept across polls.
pub struct DedupState {
    last_text: String,
    last_image: Option<u64>,
}

impl View for DedupState {
    type V = DedupView;

    closed spec fn view(&self) -> DedupView {
        DedupView { last_text: self.last_text@, last_image: self.last_image }
    }
}

impl DedupState {
    /// A state that has seen nothing.
    pub fn new() -> (s: DedupState)
        ensures
            s@ == (DedupView { last_text: Seq::empty(), last_image: None }),
            s@.one_kind_current(),
    {
        DedupState { last_text: String::new(), last_image: None }
    }

    /// The last plain text seen.
    pub fn last_text(&self) -> (r: &String)
        ensures
            r@ == self@.last_text,
    {
        &self.last_text
    }

    /// The fingerprint of the last image seen, if an image is current.
    pub fn last_image(&self) -> (r: Option<u64>)
        ensures
            r == self@.last_image,
    {
        self.last_image
    }

    /// Whether `fingerprint` differs from the current image. If it does, it
    /// becomes the current image and the remembered text is cleared.
    pub fn is_new_image(&mut self, fingerprint: u64) -> (fresh: bool)
        ensures
            fresh == (old(self)@.last_image != Some(fingerprint)),
            final(self)@ == after_image(old(self)@, fingerprint),
            old(self)@.one_kind_current() ==> final(self)@.one_kind_current(),
    {
        let fresh = match self.last_image {
            Some(last) => last != fingerprint,
            None => true,
        };
        if fresh {
            self.last_image = Some(fingerprint);
            self.last_text = String::new();
        }
        fresh
    }

    /// Whether `text` differs from the remembered text. If it does, it is
    /// remembered and no image is current any more.
    pub fn is_new_text(&mut self, text: &str) -> (fresh: bool)
        ensures
            fresh == (old(self)@.last_text != text@),
            final(self)@ == after_text(old(self)@, text@),
            old(self)@.one_kind_current() ==> final(self)@.one_kind_current(),
    {
        let owned = text.to_owned();
        let fresh = self.last_text != owned;
        if fresh {
            self.last_image = None;
            self.last_text = owned;
        }
        fresh
    }
}

} // verus!
