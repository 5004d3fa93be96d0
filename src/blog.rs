//! A blog post that moves from draft through review to published, and shows
//! its text only once published.
use vstd::prelude::*;
use vstd::string::StringExecFns;

verus! {

/// Where a post is in its workflow.
#[derive(PartialEq, Eq, Structural, Clone, Copy, Debug)]
pub enum State {
    Draft,
    Review,
    Published,
}

/// A blog post: its text and its state.
pub struct Post {
    text: String,
    state: State,
}

impl Post {
    /// The text written so far.
    pub closed spec fn text(&self) -> Seq<char> {
        self.text@
    }

    pub closed spec fn state(&self) -> State {
        self.state
    }

    /// An empty draft.
    pub fn new() -> (r: Post)
        ensures
            r.text() == Seq::<char>::empty(),
            r.state() == State::Draft,
    {
        Post { text: String::new(), state: State::Draft }
    }

    /// Appends `text` to the post, whatever its state.
    pub fn add_text(&mut self, text: &str)
        ensures
            final(self).text() == old(self).text() + text@,
            final(self).state() == old(self).state(),
    {
        self.text.append(text);
    }

    /// The text of a published post; the empty string before that.
    pub fn content(&self) -> (r: &str)
        ensures
            r@ == if self.state() == State::Published {
                self.text()
            } else {
                Seq::<char>::empty()
            },
    {
        match self.state {
            State::Draft | State::Review => {
                proof {
                    reveal_strlit("");
                }
                ""
            },
            State::Published => self.text.as_str(),
        }
    }

    /// A draft goes to review; any other post stays as it is.
    pub fn request_review(&mut self)
        ensures
            final(self).text() == old(self).text(),
            final(self).state() == if old(self).state() == State::Draft {
                State::Review
            } else {
                old(self).state()
            },
    {
        match self.state {
            State::Draft => self.state = State::Review,
            _ => {},
        }
    }

    /// A post under review is published; any other post stays as it is.
    pub fn approve(&mut self)
        ensures
            final(self).text() == old(self).text(),
            final(self).state() == if old(self).state() == State::Review {
                State::Published
            } else {
                old(self).state()
            },
    {
        match self.state {
            State::Review => self.state = State::Published,
            _ => {},
        }
    }
}

} // verus!
