use vstd::prelude::*;
use crate::post::{PostView, State};

verus! {

/// Every transition is defined in every state, and always leaves the post in
/// one of the three workflow states.
pub proof fn lemma_transitions_total(p: PostView)
    ensures
        p.after_request_review().state == State::Draft
            || p.after_request_review().state == State::PendingReview
            || p.after_request_review().state == State::Published,
        p.after_approve().state == State::Draft
            || p.after_approve().state == State::PendingReview
            || p.after_approve().state == State::Published,
        p.after_reject().state == State::Draft
            || p.after_reject().state == State::PendingReview
            || p.after_reject().state == State::Published,
{
}

/// A post with some text shows a non-empty content exactly when it is
/// published, and then it shows all of its text. (A published post with no
/// text shows nothing, so the text must be non-empty.)
pub proof fn lemma_shown_iff_published(p: PostView)
    requires
        p.text.len() > 0,
    ensures
        p.shown().len() > 0 <==> p.state == State::Published,
        p.state == State::Published ==> p.shown() == p.text,
{
}

/// Rejecting a draft keeps it a draft and wipes its text; doing it again
/// changes nothing more.
pub proof fn lemma_reject_draft(p: PostView)
    requires
        p.state == State::Draft,
    ensures
        p.after_reject() == PostView::initial(),
        p.after_reject().after_reject() == p.after_reject(),
{
}

/// Rejecting a post under review sends it back to an empty draft, including
/// the text `more` that was added while it waited for review.
pub proof fn lemma_reject_pending_review(p: PostView, more: Seq<char>)
    requires
        p.state == State::PendingReview,
    ensures
        p.after_reject() == PostView::initial(),
        p.after_add_text(more).after_reject() == PostView::initial(),
{
}

/// Rejecting a published post changes neither its state nor its text.
pub proof fn lemma_reject_published(p: PostView)
    requires
        p.state == State::Published,
    ensures
        p.after_reject() == p,
        p.after_reject().shown() == p.shown(),
{
}

/// An approval moves a post under review to published, with its text kept,
/// and leaves a post in any other state as it was.
pub proof fn lemma_approve_only_advances_review(p: PostView)
    ensures
        p.state == State::PendingReview ==> p.after_approve() == (PostView {
            state: State::Published,
            text: p.text,
        }),
        p.state == State::Draft ==> p.after_approve() == p,
        p.state == State::Published ==> p.after_approve() == p,
        p.after_approve() != p <==> p.state == State::PendingReview,
{
}

} // verus!
