//! The error type of this crate and the kinds of errors it reports.

use vstd::prelude::*;

use crate::extract::puzzle::PuzzleError;
use crate::extract::text::AesError;
use crate::manifest::ManifestError;
use crate::net::NetworkError;

verus! {

/// An error of this crate.
#[derive(Debug)]
pub struct Error {
    repr: Box<Repr>,
}

/// The kind of an [`Error`].
#[derive(Debug, Clone, Copy, PartialEq, Eq, Hash, Structural)]
pub enum ErrorKind {
    Io,
    UnknownPlatform,
    Aes,
    AudioDecode,
    Puzzle,
    Manifest,
    Network,
    OutOfRange,
    Bug,
}

/// What went wrong.
#[derive(Debug)]
pub enum Repr {
    /// An I/O operation failed.
    Io { reason: String },
    /// The platform name is not known.
    UnknownPlatform(String),
    /// Decrypting a text asset failed.
    Aes(AesError),
    /// Decoding audio failed, for this reason.
    AudioDecode(String),
    /// Solving a sprite-sheet puzzle failed.
    Puzzle(PuzzleError),
    /// Reading or writing a manifest failed.
    Manifest(ManifestError),
    /// A network request failed.
    Network(NetworkError),
    /// An index was outside a sequence: the index and the length.
    OutOfRange(usize, usize),
    /// A condition that should always hold did not.
    Bug { msg: String },
}

/// The kind of each variant of [`Repr`].
pub open spec fn repr_kind(r: Repr) -> ErrorKind {
    match r {
        Repr::Io { .. } => ErrorKind::Io,
        Repr::UnknownPlatform(_) => ErrorKind::UnknownPlatform,
        Repr::Aes(_) => ErrorKind::Aes,
        Repr::AudioDecode(_) => ErrorKind::AudioDecode,
        Repr::Puzzle(_) => ErrorKind::Puzzle,
        Repr::Manifest(_) => ErrorKind::Manifest,
        Repr::Network(_) => ErrorKind::Network,
        Repr::OutOfRange(..) => ErrorKind::OutOfRange,
        Repr::Bug { .. } => ErrorKind::Bug,
    }
}

impl Repr {
    /// The kind of this error.
    pub fn kind(&self) -> (k: ErrorKind)
        ensures
            k == repr_kind(*self),
    {
        match self {
            Repr::Io { .. } => ErrorKind::Io,
            Repr::UnknownPlatform(_) => ErrorKind::UnknownPlatform,
            Repr::Aes(_) => ErrorKind::Aes,
            Repr::AudioDecode(_) => ErrorKind::AudioDecode,
            Repr::Puzzle(_) => ErrorKind::Puzzle,
            Repr::Manifest(_) => ErrorKind::Manifest,
            Repr::Network(_) => ErrorKind::Network,
            Repr::OutOfRange(..) => ErrorKind::OutOfRange,
            Repr::Bug { .. } => ErrorKind::Bug,
        }
    }

    /// An I/O error with the given reason.
    pub fn io(reason: &str) -> (r: Repr)
        ensures
            r matches Repr::Io { reason: s } && s@ == reason@,
    {
        Repr::Io { reason: reason.to_owned() }
    }

    /// An error for a condition that should always hold.
    pub fn bug(msg: &str) -> (r: Repr)
        ensures
            r matches Repr::Bug { msg: s } && s@ == msg@,
    {
        Repr::Bug { msg: msg.to_owned() }
    }
}

impl Error {
    /// The error that `repr` describes.
    pub fn new(repr: Repr) -> (e: Error)
        ensures
            e.spec_repr() == repr,
    {
        Error { repr: Box::new(repr) }
    }

    /// What went wrong.
    pub closed spec fn spec_repr(&self) -> Repr {
        *self.repr
    }

    /// What went wrong.
    pub fn repr(&self) -> (r: &Repr)
        ensures
            *r == self.spec_repr(),
    {
        &self.repr
    }

    /// The kind of this error.
    pub fn kind(&self) -> (k: ErrorKind)
        ensures
            k == repr_kind(self.spec_repr()),
    {
        self.repr.kind()
    }
}

} // verus!
