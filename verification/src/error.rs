//! The failures a client call can end in.
use vstd::prelude::*;

use crate::json::{Json, JsonVal};

verus! {

/// Why a call against the service failed.
#[derive(Debug, PartialEq, Eq)]
pub enum NFTStorageError {
    /// The request could not be carried out: the transport layer's own
    /// description of what went wrong.
    InvalidRequest(String),
    /// The response body was not well-formed JSON, or not of the shape the
    /// operation answers with.
    InvalidJson,
    /// The service answered outside the 2xx range; the response body is
    /// attached as sent.
    ApiError(Json),
}

/// The mathematical value of a [`NFTStorageError`].
pub ghost enum NFTStorageErrorV {
    InvalidRequest(Seq<char>),
    InvalidJson,
    ApiError(JsonVal),
}

impl View for NFTStorageError {
    type V = NFTStorageErrorV;

    open spec fn view(&self) -> NFTStorageErrorV {
        match self {
            NFTStorageError::InvalidRequest(m) => NFTStorageErrorV::InvalidRequest(m@),
            NFTStorageError::InvalidJson => NFTStorageErrorV::InvalidJson,
            NFTStorageError::ApiError(b) => NFTStorageErrorV::ApiError(b@),
        }
    }
}

impl NFTStorageError {
    /// A short account of the failure, for callers that print it.
    pub fn message(&self) -> (r: String)
        ensures
            (match self {
                NFTStorageError::InvalidRequest(m) => r@ == m@,
                NFTStorageError::InvalidJson => r@ == "Unable to parse json"@,
                NFTStorageError::ApiError(_) => r@
                    == "the service answered outside the 2xx range"@,
            }),
    {
        match self {
            NFTStorageError::InvalidRequest(m) => m.clone(),
            NFTStorageError::InvalidJson => "Unable to parse json".to_owned(),
            NFTStorageError::ApiError(_) => "the service answered outside the 2xx range".to_owned(),
        }
    }
}

} // verus!
