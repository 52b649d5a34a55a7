use std::marker::PhantomData;
use vstd::prelude::*;

use crate::error::{DTResult, DatatrackerError};

verus! {

/// A status in the 2xx range.
pub open spec fn is_success(status: u16) -> bool {
    200 <= status <= 299
}

/// Whether `status` is a success, the only case in which the body of a
/// reply is decoded.
pub fn is_success_status(status: u16) -> (r: bool)
    ensures
        r == is_success(status),
{
    200 <= status && status <= 299
}

/// The outcome of one request whose transport completed: a status other
/// than success is `NotFound`, whatever the body; on success the decoded
/// body is the result, and a body that could not be decoded (or was not)
/// is a `Transport` error.
pub open spec fn reply_outcome<T>(status: u16, body: Option<Result<T, String>>) -> Option<DTResult<T>> {
    if !is_success(status) {
        Some(Err(DatatrackerError::NotFound))
    } else {
        match body {
            Some(Ok(x)) => Some(Ok(x)),
            Some(Err(m)) => Some(Err(DatatrackerError::Transport(m))),
            None => None,
        }
    }
}

/// Classifies the reply to one request. `body` holds the result of decoding
/// the body, which is done only for a success status (`None` otherwise).
pub fn retrieve<T>(status: u16, body: Option<Result<T, String>>) -> (r: DTResult<T>)
    ensures
        reply_outcome(status, body) is Some ==> r == reply_outcome(status, body)->0,
        reply_outcome(status, body) is None ==> (r is Err && r->Err_0 is Transport),
{
    if !is_success_status(status) {
        return Err(DatatrackerError::NotFound);
    }
    match body {
        Some(Ok(x)) => Ok(x),
        Some(Err(m)) => Err(DatatrackerError::Transport(m)),
        None => Err(DatatrackerError::Transport(String::from_str("the body of a successful reply was not decoded"))),
    }
}

/// A request for a single resource of type `T` at an absolute URL.
pub struct Lookup<T> {
    url: String,
    resource: PhantomData<T>,
}

impl<T> View for Lookup<T> {
    type V = Seq<char>;

    closed spec fn view(&self) -> Seq<char> {
        self.url@
    }
}

impl<T> Lookup<T> {
    pub fn new(url: String) -> (r: Self)
        ensures
            r@ == url@,
    {
        Lookup { url, resource: PhantomData }
    }

    /// The absolute URL to request.
    pub fn url(&self) -> (r: &str)
        ensures
            r@ == self@,
    {
        self.url.as_str()
    }
}

} // verus!
