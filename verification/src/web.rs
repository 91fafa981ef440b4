//! Structured payloads.

use vstd::prelude::*;
use crate::client::{ErrorKind, PhalanxClientError, is_error_status, json_decoded};

verus! {

/// A value that travels as JSON, in a request body or in a response.
#[derive(Debug, PartialEq, Eq)]
pub struct Json<T>(pub T);

/// The outcome of decoding as a structured value, with the kind of its
/// error.
pub open spec fn json_outcome<T>(r: Result<Json<T>, PhalanxClientError>) -> Result<T, ErrorKind> {
    match r {
        Ok(value) => Ok(value.0),
        Err(e) => Err(e.spec_kind()),
    }
}

impl<T> Json<T> {
    /// Deconstruct to an inner value
    pub fn into_inner(self) -> (inner: T)
        ensures
            inner == self.0,
    {
        self.0
    }

    /// Decodes a response as a structured value. `parsed` is what the JSON
    /// codec made of the body. The status decides first: where it reports an
    /// error, that error is the outcome whatever was parsed.
    pub fn from_parsed(status: u16, parsed: Result<T, serde_json::Error>) -> (r: Result<
        Json<T>,
        PhalanxClientError,
    >)
        ensures
            json_outcome(r) == json_decoded(status, parsed),
            is_error_status(status) ==> r == Err::<Json<T>, PhalanxClientError>(
                PhalanxClientError::Status(status),
            ),
            !is_error_status(status) ==> r == match parsed {
                Ok(value) => Ok(Json(value)),
                Err(cause) => Err(PhalanxClientError::SerdeJsonError(cause)),
            },
    {
        if 400 <= status && status < 600 {
            return Err(PhalanxClientError::Status(status));
        }
        match parsed {
            Ok(value) => Ok(Json(value)),
            Err(cause) => Err(PhalanxClientError::from(cause)),
        }
    }
}

impl<T> std::ops::Deref for Json<T> {
    type Target = T;

    fn deref(&self) -> (inner: &T)
        ensures
            *inner == self.0,
    {
        &self.0
    }
}

impl<T> std::ops::DerefMut for Json<T> {
    fn deref_mut(&mut self) -> (inner: &mut T)
        ensures
            *inner == old(self).0,
            final(self).0 == *final(inner),
    {
        &mut self.0
    }
}

} // verus!
