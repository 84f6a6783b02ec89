use vstd::prelude::*;

verus! {

/// An error reported to an HTTP client, with an id to find it in the logs.
#[derive(Debug)]
pub struct MyError {
    pub id: String,
    pub error: String,
}

/// Relies on `uuid::Uuid::new_v4` and its hyphenated form: a random id of 36
/// characters.
#[verifier::external_body]
fn new_request_id() -> (r: String)
    ensures
        r@.len() == 36,
{
    uuid::Uuid::new_v4().hyphenated().to_string()
}

impl MyError {
    /// An error with the given text and a fresh random id.
    pub fn new(error_message: &str) -> (r: MyError)
        ensures
            r.error@ == error_message@,
            r.id@.len() == 36,
    {
        MyError { error: error_message.to_owned(), id: new_request_id() }
    }
}

/// A line of structured log output.
#[derive(Debug)]
pub struct LogMessage {
    pub details: String,
    pub url: Option<String>,
}

impl LogMessage {
    /// A log line with the given details and no URL.
    pub fn new(details: &str) -> (r: LogMessage)
        ensures
            r.details@ == details@,
            r.url is None,
    {
        LogMessage { details: details.to_owned(), url: None }
    }
}

/// An answer status after which a response is passed on as it is, without
/// being logged as an error: no status, 200 or 201.
pub fn passes_unlogged(status: Option<u16>) -> (r: bool)
    ensures
        r == (status is None || status == Some(200u16) || status == Some(201u16)),
{
    match status {
        None => true,
        Some(s) => s == 200 || s == 201,
    }
}

} // verus!
