use vstd::prelude::*;

verus! {

/// The error taxonomy of the server core.
#[derive(Clone, Copy, Debug, PartialEq, Eq, Structural)]
pub enum Error {
    /// Reserved for paths that are not implemented yet; no function of
    /// this library constructs it.
    Todo,
    /// A required builder field was missing when the server was built.
    ServerBuilder,
    /// An underlying I/O failure (bind, accept, read or write),
    /// reported by the caller that performed the I/O.
    StdIo,
}

impl Error {
    /// A human-readable description of the error.
    pub fn message(&self) -> (r: &'static str)
        ensures
            *self == Error::Todo ==> r@ == "todo"@,
            *self == Error::ServerBuilder ==> r@ == "Failed to build server struct"@,
            *self == Error::StdIo ==> r@ == "I/O error"@,
    {
        match self {
            Error::Todo => "todo",
            Error::ServerBuilder => "Failed to build server struct",
            Error::StdIo => "I/O error",
        }
    }
}

} // verus!
