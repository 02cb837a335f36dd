//! The error taxonomy of the pool initializer.

use vstd::prelude::*;

verus! {

/// A ghost model of a setup error: the kind of failure and its message, as a
/// sequence of characters.
pub enum ErrorModel {
    /// The host could not supply a data directory, or the resolved path is not
    /// representable as a textual connection target.
    Configuration(Seq<char>),
    /// Creating the data directory failed for a reason other than its already
    /// existing.
    Io(Seq<char>),
    /// The driver could not open or create the database file.
    Connection(Seq<char>),
}

/// An error surfaced to the host's plugin-setup mechanism. Every failure of
/// the initializer is one of these; none is retried.
pub enum SetupError {
    /// The host could not supply a data directory, or the resolved path is not
    /// representable as a textual connection target.
    Configuration(String),
    /// Creating the data directory failed for a reason other than its already
    /// existing.
    Io(String),
    /// The driver could not open or create the database file.
    Connection(String),
}

impl View for SetupError {
    type V = ErrorModel;

    open spec fn view(&self) -> ErrorModel {
        match self {
            SetupError::Configuration(m) => ErrorModel::Configuration(m@),
            SetupError::Io(m) => ErrorModel::Io(m@),
            SetupError::Connection(m) => ErrorModel::Connection(m@),
        }
    }
}

impl SetupError {
    /// The message carried by the error, whatever its kind.
    pub open spec fn spec_message(&self) -> Seq<char> {
        match self@ {
            ErrorModel::Configuration(m) => m,
            ErrorModel::Io(m) => m,
            ErrorModel::Connection(m) => m,
        }
    }

    /// The message carried by the error, whatever its kind.
    pub fn message(&self) -> (r: &String)
        ensures
            r@ == self.spec_message(),
    {
        match self {
            SetupError::Configuration(m) => m,
            SetupError::Io(m) => m,
            SetupError::Connection(m) => m,
        }
    }
}

} // verus!
