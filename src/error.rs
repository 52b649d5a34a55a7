use vstd::prelude::*;

verus! {

/// The ways in which a request to the Datatracker can fail.
#[derive(Debug)]
pub enum DatatrackerError {
    /// The request completed, but the server did not answer with a success
    /// status, or no matching resource exists.
    NotFound,
    /// The request could not be completed, or the body of the reply could
    /// not be decoded into the expected shape. The text describes the cause.
    Transport(String),
}

pub type DTResult<T> = Result<T, DatatrackerError>;

} // verus!
