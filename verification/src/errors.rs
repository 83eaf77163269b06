use vstd::prelude::*;

verus! {

/// The kinds of error that this library reports.
#[derive(Clone, Copy, Debug, PartialEq, Eq, Structural)]
pub enum ErrorKind {
    /// The caller handed over arguments that do not fit together.
    InvalidArgument,
}

/// An error with its kind and a message for the user.
#[derive(Debug)]
pub struct PcoError {
    pub kind: ErrorKind,
    pub message: String,
}

impl Clone for PcoError {
    fn clone(&self) -> (copy: Self)
        ensures
            copy == *self,
    {
        PcoError { kind: self.kind, message: self.message.clone() }
    }
}

pub type PcoResult<T> = Result<T, PcoError>;

impl PcoError {
    /// An `InvalidArgument` error that carries `message` unchanged.
    pub fn invalid_argument(message: String) -> (e: Self)
        ensures
            e.kind == ErrorKind::InvalidArgument,
            e.message == message,
    {
        PcoError { kind: ErrorKind::InvalidArgument, message }
    }
}

} // verus!
