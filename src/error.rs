use vstd::prelude::*;

verus! {

/// Why a request could not give its records.
#[derive(Debug, Clone, PartialEq, Eq)]
pub enum Error {
    /// The endpoint is not a well-formed absolute URL that a path can follow, or
    /// an identifier cannot stand as one path segment.
    InvalidUrl,
    /// The server could not be reached; the text is the transport's diagnostic.
    Transport(String),
    /// The server answered with a status other than success.
    UnexpectedStatus(u16),
    /// The body did not have the expected shape; the text is the decoder's diagnostic.
    Decode(String),
    /// A single-record lookup found no record under the identifier.
    NotFound,
}

/// A success status: 2xx.
pub open spec fn is_success(status: u16) -> bool {
    200 <= status <= 299
}

/// The error for a status, if any: none for success; `NotFound` for 404 on a
/// single-record lookup; `UnexpectedStatus` with the code otherwise.
pub open spec fn status_error(status: u16, lookup: bool) -> Option<Error> {
    if is_success(status) {
        None
    } else if lookup && status == 404 {
        Some(Error::NotFound)
    } else {
        Some(Error::UnexpectedStatus(status))
    }
}

/// Classifies the status of a response. `lookup` tells whether the request was
/// for one record by its identifier. Only on `Ok` is the body to be decoded.
pub fn check_status(status: u16, lookup: bool) -> (r: Result<(), Error>)
    ensures
        r is Ok <==> is_success(status),
        r is Err ==> Some(r->Err_0) == status_error(status, lookup),
{
    if 200 <= status && status <= 299 {
        Ok(())
    } else if lookup && status == 404 {
        Err(Error::NotFound)
    } else {
        Err(Error::UnexpectedStatus(status))
    }
}

} // verus!
