//! What holds of the watcher across several polls.

use crate::classify::{spec_classify, spec_is_html_image_marker, ClassificationView};
use crate::dedup::DedupView;
use crate::event::ChangeEventView;
use crate::materialize::spec_well_formed;
use crate::snapshot::{RawImageView, SnapshotView};
use crate::watcher::{
    image_action, image_fingerprint, image_state, plan_for, seeded, step_action, step_state,
    ActionView,
};
use vstd::prelude::*;

verus! {

/// The remembered state after `n` polls that all found the image `img`.
pub open spec fn after_image_copies(s: DedupView, img: RawImageView, n: nat) -> DedupView
    decreases n,
{
    if n == 0 {
        s
    } else {
        image_state(after_image_copies(s, img, (n - 1) as nat), img)
    }
}

/// The first of a run of identical image copies is stored exactly if the
/// image is new and well formed. However long the run, every later copy
/// changes nothing and produces nothing.
pub proof fn lemma_repeated_image_is_silent(s: DedupView, img: RawImageView, n: nat)
    requires
        n >= 1,
    ensures
        image_action(s, img) == ActionView::StoreImage(plan_for(img), img) <==> s.last_image
            != Some(image_fingerprint(img)) && spec_well_formed(img),
        after_image_copies(s, img, n) == image_state(s, img),
        image_action(after_image_copies(s, img, n), img) == ActionView::Idle,
        image_state(after_image_copies(s, img, n), img) == after_image_copies(s, img, n),
    decreases n,
{
    if n > 1 {
        lemma_repeated_image_is_silent(s, img, (n - 1) as nat);
    } else {
        assert(after_image_copies(s, img, 0) == s);
    }
}

/// Plain text that is polled twice in a row is silent the second time;
/// different text after it is reported.
pub proof fn lemma_text_then_text(s: DedupView, t1: Seq<char>, t2: Seq<char>)
    ensures
        step_action(s, ClassificationView::PlainText(t1)) == ActionView::Emit(
            ChangeEventView::Text { content: t1 },
        ) <==> s.last_text != t1,
        step_action(
            step_state(s, ClassificationView::PlainText(t1)),
            ClassificationView::PlainText(t1),
        ) == ActionView::Idle,
        t2 != t1 ==> step_action(
            step_state(s, ClassificationView::PlainText(t1)),
            ClassificationView::PlainText(t2),
        ) == ActionView::Emit(ChangeEventView::Text { content: t2 }),
{
}

/// Image, then text, then the same image again: all three are reported,
/// because text ends the current image and an image clears the remembered
/// text. The image has to be new at the start and well formed, and the text
/// not empty, since empty text is what an image leaves behind.
pub proof fn lemma_image_text_image(s: DedupView, img: RawImageView, text: Seq<char>)
    requires
        s.last_image != Some(image_fingerprint(img)),
        spec_well_formed(img),
        text.len() > 0,
    ensures
        ({
            let image = ClassificationView::Image(img);
            let plain = ClassificationView::PlainText(text);
            let s1 = step_state(s, image);
            let s2 = step_state(s1, plain);
            &&& step_action(s, image) == ActionView::StoreImage(plan_for(img), img)
            &&& step_action(s1, plain) == ActionView::Emit(ChangeEventView::Text { content: text })
            &&& step_action(s2, image) == ActionView::StoreImage(plan_for(img), img)
        }),
{
    let s1 = step_state(s, ClassificationView::Image(img));
    assert(s1.last_text.len() == 0);
    assert(s1.last_text != text);
}

/// A poll that finds no image and only an HTML image marker changes nothing
/// and produces nothing, unless the marker names an image file on disk.
pub proof fn lemma_marker_is_ignored(s: DedupView, text: Seq<char>)
    requires
        spec_is_html_image_marker(text),
    ensures
        ({
            let c = spec_classify(SnapshotView { text: Some(text), image: None }, false);
            &&& c == ClassificationView::Ignore
            &&& step_action(s, c) == ActionView::Idle
            &&& step_state(s, c) == s
        }),
{
}

/// An image whose buffer does not match its dimensions is never stored,
/// whatever the state.
pub proof fn lemma_malformed_image_is_skipped(s: DedupView, img: RawImageView)
    requires
        !spec_well_formed(img),
    ensures
        step_action(s, ClassificationView::Image(img)) == ActionView::Idle,
{
}

/// An image on the clipboard decides the classification, whatever text
/// comes with it.
pub proof fn lemma_image_wins(img: RawImageView, text: Option<Seq<char>>, reference_exists: bool)
    ensures
        spec_classify(SnapshotView { text, image: Some(img) }, reference_exists)
            == ClassificationView::Image(img),
{
}

/// Only one kind of content is current at a time: this holds of the state
/// that startup remembers, and every poll keeps it.
pub proof fn lemma_one_kind_current(
    s: DedupView,
    c: ClassificationView,
    at_startup: SnapshotView,
)
    ensures
        seeded(at_startup).one_kind_current(),
        s.one_kind_current() ==> step_state(s, c).one_kind_current(),
{
}

} // verus!
