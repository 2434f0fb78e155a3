//! State of the modal error window that surfaces recoverable failures
//! (rule-parse and kernel-creation errors) to the user. The widget drawing
//! lives with the application; this is the window's lifecycle state.

use vstd::prelude::*;

verus! {

pub struct ErrorWindow {
    heading: String,
    error: String,
    should_close: bool,
}

impl ErrorWindow {
    pub closed spec fn spec_heading(self) -> Seq<char> {
        self.heading@
    }

    pub closed spec fn spec_error(self) -> Seq<char> {
        self.error@
    }

    pub closed spec fn spec_should_close(self) -> bool {
        self.should_close
    }

    /// A freshly opened window showing `heading` over the message `err`.
    pub fn new(heading: &str, err: &str) -> (w: ErrorWindow)
        ensures
            w.spec_heading() == heading@,
            w.spec_error() == err@,
            !w.spec_should_close(),
    {
        ErrorWindow { heading: heading.to_owned(), error: err.to_owned(), should_close: false }
    }

    /// Whether the user has dismissed the window.
    pub fn should_close(&self) -> (r: bool)
        ensures
            r == self.spec_should_close(),
    {
        self.should_close
    }

    /// Record that the user dismissed the window; the texts are kept.
    pub fn close(&mut self)
        ensures
            final(self).spec_should_close(),
            final(self).spec_heading() == old(self).spec_heading(),
            final(self).spec_error() == old(self).spec_error(),
    {
        self.should_close = true;
    }

    pub fn heading(&self) -> (s: &String)
        ensures
            s@ == self.spec_heading(),
    {
        &self.heading
    }

    pub fn error(&self) -> (s: &String)
        ensures
            s@ == self.spec_error(),
    {
        &self.error
    }
}

} // verus!
