//! What can go wrong around the committer, and what each failure means for
//! the service.

use vstd::prelude::*;

verus! {

/// The kinds of failure.
#[derive(Clone, Copy, Debug, PartialEq, Eq)]
pub enum ErrorKind {
    /// The durable store cannot be reached or is corrupt.
    StoreUnavailable,
    /// The chain rejected a call, or the network failed.
    SubmissionFailure,
    /// An operation has a kind that the dispatch table has no row for.
    UnsupportedVariant,
    /// A stored operation does not decode.
    CorruptRecord,
}

/// What the service does about a failure.
#[derive(Clone, Copy, Debug, PartialEq, Eq)]
pub enum Disposition {
    /// The service stops: to go on would break the order of nonces or
    /// lose an operation.
    Fatal,
    /// The sender notes the failure and takes the next entry of its queue.
    /// Nothing is queued again and no record changes.
    Contained,
}

/// A failed submission is contained in the sender; every other failure is
/// fatal.
pub open spec fn disposition_spec(kind: ErrorKind) -> Disposition {
    if kind == ErrorKind::SubmissionFailure {
        Disposition::Contained
    } else {
        Disposition::Fatal
    }
}

/// What the service does about a failure of this kind.
pub fn disposition(kind: ErrorKind) -> (d: Disposition)
    ensures
        d == disposition_spec(kind),
{
    match kind {
        ErrorKind::StoreUnavailable => Disposition::Fatal,
        ErrorKind::SubmissionFailure => Disposition::Contained,
        ErrorKind::UnsupportedVariant => Disposition::Fatal,
        ErrorKind::CorruptRecord => Disposition::Fatal,
    }
}

} // verus!
