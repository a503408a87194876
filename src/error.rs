//! The errors that the reader reports to its host.
use vstd::prelude::*;

verus! {

/// Why a request failed.
///
/// `NotFound` names the path that was looked for; the host takes it as a cue
/// to try another source. `Io` carries the underlying I/O error `E`.
pub enum AssetReaderError<E> {
    NotFound(String),
    Io(E),
}

/// What an I/O error says about the file it was about.
#[derive(Clone, Copy, PartialEq, Eq, Structural, Debug)]
pub enum FailureKind {
    /// The file was not there.
    NotFound,
    /// Any other failure: permissions, a device error, and so on.
    Other,
}

/// An I/O error from reading a file, with its kind.
pub struct ReadFailure<E> {
    pub kind: FailureKind,
    pub error: E,
}

} // verus!
