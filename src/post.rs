use vstd::prelude::*;

verus! {

/// Where a post stands in its workflow.
#[derive(PartialEq, Eq, Structural, Clone, Copy, Debug)]
pub enum State {
    Draft,
    PendingReview,
    Published,
}

impl State {
    /// The state reached by asking for a review.
    pub open spec fn after_request_review(self) -> State {
        match self {
            State::Draft => State::PendingReview,
            other => other,
        }
    }

    /// The state reached by an approval.
    pub open spec fn after_approve(self) -> State {
        match self {
            State::PendingReview => State::Published,
            other => other,
        }
    }

    /// The state reached by a rejection.
    pub open spec fn after_reject(self) -> State {
        match self {
            State::Published => State::Published,
            _ => State::Draft,
        }
    }

    /// Whether a rejection in this state wipes the post's text.
    pub open spec fn reject_clears(self) -> bool {
        self != State::Published
    }

    /// What a reader sees of the text `text` in this state.
    pub open spec fn visible(self, text: Seq<char>) -> Seq<char> {
        if self == State::Published {
            text
        } else {
            Seq::empty()
        }
    }

    pub fn request_review(self) -> (r: State)
        ensures
            r == self.after_request_review(),
    {
        match self {
            State::Draft => State::PendingReview,
            State::PendingReview => self,
            State::Published => self,
        }
    }

    pub fn approve(self) -> (r: State)
        ensures
            r == self.after_approve(),
    {
        match self {
            State::Draft => self,
            State::PendingReview => State::Published,
            State::Published => self,
        }
    }
}


/// The abstract value of a post: its state and the text it has gathered.
pub struct PostView {
    pub state: State,
    pub text: Seq<char>,
}

impl PostView {
    /// A fresh post: an empty draft.
    pub open spec fn initial() -> PostView {
        PostView { state: State::Draft, text: Seq::empty() }
    }

    /// The post after `more` was appended to its text.
    pub open spec fn after_add_text(self, more: Seq<char>) -> PostView {
        PostView { state: self.state, text: self.text + more }
    }

    /// The post after a request for review.
    pub open spec fn after_request_review(self) -> PostView {
        PostView { state: self.state.after_request_review(), text: self.text }
    }

    /// The post after an approval.
    pub open spec fn after_approve(self) -> PostView {
        PostView { state: self.state.after_approve(), text: self.text }
    }

    /// The post after a rejection: back to a draft with no text, unless it
    /// was already published, in which case nothing changes.
    pub open spec fn after_reject(self) -> PostView {
        PostView {
            state: self.state.after_reject(),
            text: if self.state.reject_clears() {
                Seq::empty()
            } else {
                self.text
            },
        }
    }

    /// What a reader sees of the post.
    pub open spec fn shown(self) -> Seq<char> {
        self.state.visible(self.text)
    }
}

/// A piece of text together with its place in the workflow.
pub struct Post {
    state: State,
    content: String,
}

impl View for Post {
    type V = PostView;

    closed spec fn view(&self) -> PostView {
        PostView { state: self.state, text: self.content@ }
    }
}

impl State {
    /// Rejects the post `post` that is in this state, and gives the state it
    /// moves to. Every state but `Published` wipes the post's text.
    pub fn reject(self, post: &mut Post) -> (r: State)
        ensures
            r == self.after_reject(),
            final(post)@.state == old(post)@.state,
            final(post)@.text == if self.reject_clears() {
                Seq::<char>::empty()
            } else {
                old(post)@.text
            },
    {
        match self {
            State::Published => self,
            _ => {
                post.content = String::new();
                State::Draft
            },
        }
    }

    /// The part of `post`'s text that a reader sees in this state.
    pub fn visible_content<'a>(&self, post: &'a Post) -> (r: &'a str)
        ensures
            r@ == self.visible(post@.text),
    {
        match self {
            State::Published => post.content.as_str(),
            _ => {
                proof {
                    reveal_strlit("");
                }
                ""
            },
        }
    }
}

impl Post {
    /// A new, empty draft.
    pub fn new() -> (r: Post)
        ensures
            r@ == PostView::initial(),
    {
        Post { state: State::Draft, content: String::new() }
    }

    /// The state the post is in.
    pub fn state(&self) -> (r: State)
        ensures
            r == self@.state,
    {
        self.state
    }

    /// What a reader sees: the whole text once published, nothing before.
    pub fn content(&self) -> (r: &str)
        ensures
            r@ == self@.shown(),
    {
        self.state.visible_content(self)
    }

    /// Appends `string` to the text, whatever the state.
    pub fn add_text(&mut self, string: &str)
        ensures
            final(self)@ == old(self)@.after_add_text(string@),
    {
        self.content.append(string);
    }

    /// Moves a post under review to published; otherwise does nothing.
    pub fn approve(&mut self)
        ensures
            final(self)@ == old(self)@.after_approve(),
    {
        self.state = self.state.approve();
    }

    /// Moves a draft to review; otherwise does nothing.
    pub fn request_review(&mut self)
        ensures
            final(self)@ == old(self)@.after_request_review(),
    {
        self.state = self.state.request_review();
    }

    /// Sends the post back to an empty draft, unless it is published.
    pub fn reject(&mut self)
        ensures
            final(self)@ == old(self)@.after_reject(),
    {
        let s = self.state;
        let next = s.reject(self);
        self.state = next;
    }
}

} // verus!
