use vstd::prelude::*;

verus! {

/// The error body that the remote API sends with a failing status.
#[derive(Debug)]
pub struct AkcError {
    pub code: u32,
    pub message: String,
}

/// The envelope `{ "error": { "code": .., "message": .. } }`.
#[derive(Debug)]
pub struct ErrorWrapper {
    pub error: AkcError,
}

/// Everything that can go wrong while talking to the remote API.
#[derive(Debug)]
pub enum AkcClientError {
    /// The remote could not be reached, or its answer could not be read or decoded.
    InternalError(String),
    /// The remote answered with a well-formed error envelope.
    AkcError(u32, String),
}

impl AkcClientError {
    /// Failure to reach the remote at all.
    pub fn connection_error(detail: &str) -> (r: AkcClientError)
        ensures
            r is InternalError,
            r->InternalError_0@ == "couldn't contact AKC: "@ + detail@,
    {
        let mut text = String::from_str("couldn't contact AKC: ");
        text.append(detail);
        AkcClientError::InternalError(text)
    }

    /// Failure to read the body of an answer.
    pub fn read_error(detail: &str) -> (r: AkcClientError)
        ensures
            r is InternalError,
            r->InternalError_0@ == "couldn't read response from AKC: "@ + detail@,
    {
        let mut text = String::from_str("couldn't read response from AKC: ");
        text.append(detail);
        AkcClientError::InternalError(text)
    }

    /// An answer that is not JSON, or not of the expected shape.
    pub fn decode_error(detail: &str) -> (r: AkcClientError)
        ensures
            r is InternalError,
            r->InternalError_0@ == "error parsing json: "@ + detail@,
    {
        let mut text = String::from_str("error parsing json: ");
        text.append(detail);
        AkcClientError::InternalError(text)
    }
}

impl From<ErrorWrapper> for AkcClientError {
    fn from(err: ErrorWrapper) -> (r: AkcClientError) {
        AkcClientError::AkcError(err.error.code, err.error.message)
    }
}

impl vstd::std_specs::convert::FromSpecImpl<ErrorWrapper> for AkcClientError {
    open spec fn obeys_from_spec() -> bool {
        true
    }

    open spec fn from_spec(err: ErrorWrapper) -> AkcClientError {
        AkcClientError::AkcError(err.error.code, err.error.message)
    }
}

} // verus!
