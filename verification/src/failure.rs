//! Failures of the mail servers and of what is said to them.
use crate::text::joined;
use vstd::prelude::*;

verus! {

/// Why an operation failed.
///
/// Words that may repeat what was sent to a server are marked: secrets are taken out of them before
/// they are shown to anyone.
#[derive(Debug)]
pub struct Failure {
    pub message: String,
    pub redact: bool,
}

/// What a [`Failure`] says.
pub ghost struct FailureView {
    pub message: Seq<char>,
    pub redact: bool,
}

impl View for Failure {
    type V = FailureView;

    open spec fn view(&self) -> FailureView {
        FailureView { message: self.message@, redact: self.redact }
    }
}

impl Failure {
    /// A failure whose words are shown as they are: `what`, then `detail`.
    pub fn plain(what: &str, detail: &str) -> (failure: Failure)
        ensures
            failure@ == (FailureView { message: what@ + detail@, redact: false }),
    {
        Failure { message: joined(what, detail), redact: false }
    }

    /// A failure whose words are to be redacted: `what`, then `detail`.
    pub fn redacted(what: &str, detail: &str) -> (failure: Failure)
        ensures
            failure@ == (FailureView { message: what@ + detail@, redact: true }),
    {
        Failure { message: joined(what, detail), redact: true }
    }
}

} // verus!
