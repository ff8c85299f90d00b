use vstd::prelude::*;
use crate::store::Outcome;

verus! {

/// The phase of one creation attempt.
#[derive(Clone, Copy, Debug, PartialEq, Eq)]
pub enum Attempt {
    /// The request is built and not yet sent.
    Built,
    /// The request is sent and its answer awaited.
    Submitted,
    /// The store answered; nothing follows.
    Finished(Outcome),
}

/// Whether a failed attempt may be retried as a new attempt with a fresh
/// proof against the current root. Only a stale root is retryable.
pub open spec fn retryable(o: Outcome) -> bool {
    o == Outcome::RejectedStale
}

impl Outcome {
    /// Whether the caller may retry with a fresh proof and root.
    pub fn is_retryable(&self) -> (r: bool)
        ensures
            r == retryable(*self),
    {
        match self {
            Outcome::RejectedStale => true,
            _ => false,
        }
    }
}

impl Attempt {
    /// Whether the attempt has reached its end.
    pub open spec fn terminal(self) -> bool {
        self is Finished
    }

    /// Sends a built request; `None` from any other phase.
    pub fn submit(self) -> (r: Option<Attempt>)
        ensures
            r == (if self == Attempt::Built { Some(Attempt::Submitted) } else { None::<Attempt> }),
    {
        match self {
            Attempt::Built => Some(Attempt::Submitted),
            _ => None,
        }
    }

    /// Records the store's answer to a submitted request; `None` from any
    /// other phase, so a finished attempt never changes.
    pub fn answer(self, o: Outcome) -> (r: Option<Attempt>)
        ensures
            r == (if self == Attempt::Submitted { Some(Attempt::Finished(o)) } else { None::<Attempt> }),
            self.terminal() ==> r is None,
    {
        match self {
            Attempt::Submitted => Some(Attempt::Finished(o)),
            _ => None,
        }
    }
}

} // verus!
