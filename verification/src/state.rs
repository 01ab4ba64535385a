//! A workflow state machine for a blog post.
//!
//! A post starts as an empty draft, moves to pending review when a review is
//! requested, and is published when approved. Only a published post exposes
//! its text; in every other state the visible content is empty.

use vstd::prelude::*;
use vstd::string::StringExecFns;

verus! {

/// The closed set of workflow states. The only transitions are
/// `Draft -> PendingReview` (on a review request) and
/// `PendingReview -> Published` (on approval); every other trigger is an
/// identity transition, and `Published` is terminal.
#[derive(Clone, Copy, PartialEq, Eq, Structural, Debug)]
pub enum State {
    Draft,
    PendingReview,
    Published,
}

impl State {
    /// The state that a review request leads to.
    pub open spec fn spec_request_review(self) -> State {
        match self {
            State::Draft => State::PendingReview,
            _ => self,
        }
    }

    /// The state that an approval leads to.
    pub open spec fn spec_approve(self) -> State {
        match self {
            State::PendingReview => State::Published,
            _ => self,
        }
    }

    /// Consumes the current state and returns the state after a review
    /// request. Total: never fails, identity outside `Draft`.
    pub fn request_review(self) -> (next: State)
        ensures
            next == self.spec_request_review(),
    {
        match self {
            State::Draft => State::PendingReview,
            _ => self,
        }
    }

    /// Consumes the current state and returns the state after an approval.
    /// Total: never fails, identity outside `PendingReview`.
    pub fn approve(self) -> (next: State)
        ensures
            next == self.spec_approve(),
    {
        match self {
            State::PendingReview => State::Published,
            _ => self,
        }
    }
}

/// Law: the only advancing transitions are `Draft -> PendingReview` on a
/// review request and `PendingReview -> Published` on an approval. Every
/// other trigger is a no-op: approving a draft leaves it a draft, and
/// `Published` is terminal under both triggers.
pub proof fn lemma_non_advancing_triggers_are_noops()
    ensures
        State::Draft.spec_approve() == State::Draft,
        State::PendingReview.spec_request_review() == State::PendingReview,
        State::Published.spec_request_review() == State::Published,
        State::Published.spec_approve() == State::Published,
{
}

/// A post owns exactly one current [`State`] together with its text. The
/// text is only visible through [`Post::content`] once the post is
/// published.
pub struct Post {
    state: State,
    content: String,
}

impl Post {
    /// The current state of the workflow.
    pub closed spec fn spec_state(&self) -> State {
        self.state
    }

    /// The text stored in the post, whether or not it is visible yet.
    pub closed spec fn spec_text(&self) -> Seq<char> {
        self.content@
    }

    /// The externally visible payload: the stored text when published,
    /// empty in every other state.
    pub open spec fn spec_content(&self) -> Seq<char> {
        if self.spec_state() == State::Published {
            self.spec_text()
        } else {
            Seq::<char>::empty()
        }
    }

    /// A fresh post: an empty draft.
    pub fn new() -> (post: Post)
        ensures
            post.spec_state() == State::Draft,
            post.spec_text() == Seq::<char>::empty(),
    {
        Post { state: State::Draft, content: String::new() }
    }

    /// Appends `text` to the stored text; the state is unchanged.
    pub fn add_text(&mut self, text: &str)
        ensures
            final(self).spec_state() == old(self).spec_state(),
            final(self).spec_text() == old(self).spec_text() + text@,
    {
        self.content.append(text);
    }

    /// Returns the visible content: the stored text if and only if the post
    /// is published, and the empty string otherwise.
    pub fn content(&self) -> (c: &str)
        ensures
            c@ == self.spec_content(),
    {
        proof {
            reveal_strlit("");
        }
        match self.state {
            State::Published => self.content.as_str(),
            _ => "",
        }
    }

    /// Requests a review: the state advances by
    /// [`State::spec_request_review`] and the text is unchanged. The old
    /// state value is consumed and replaced in one step.
    pub fn request_review(&mut self)
        ensures
            final(self).spec_state() == old(self).spec_state().spec_request_review(),
            final(self).spec_text() == old(self).spec_text(),
    {
        self.state = self.state.request_review();
    }

    /// Approves the post: the state advances by [`State::spec_approve`] and
    /// the text is unchanged. The old state value is consumed and replaced
    /// in one step.
    pub fn approve(&mut self)
        ensures
            final(self).spec_state() == old(self).spec_state().spec_approve(),
            final(self).spec_text() == old(self).spec_text(),
    {
        self.state = self.state.approve();
    }
}

} // verus!
