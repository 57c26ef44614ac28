use vstd::prelude::*;

verus! {

/// The one error of this library: a static message saying which rule a value
/// broke.
#[derive(Clone, Copy, Debug, PartialEq, Eq)]
pub struct Error(ErrorKind);

#[derive(Clone, Copy, Debug, PartialEq, Eq)]
pub(crate) enum ErrorKind {
    Generic(&'static str),
}

impl Error {
    /// The message that the error carries.
    pub closed spec fn msg(self) -> &'static str {
        match self.0 {
            ErrorKind::Generic(m) => m,
        }
    }

    /// The message that the error carries.
    pub fn message(&self) -> (r: &'static str)
        ensures
            r == self.msg(),
    {
        match self.0 {
            ErrorKind::Generic(m) => m,
        }
    }
}

/// Fails with the message `msg`.
pub(crate) fn err<T>(msg: &'static str) -> (r: Result<T, Error>)
    ensures
        r is Err,
        r->Err_0.msg() == msg,
{
    Err(Error(ErrorKind::Generic(msg)))
}

} // verus!
