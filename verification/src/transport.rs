//! What is handed to the HTTP executor and what comes back from it.

use crate::canonical::{params_view, Param};
use crate::text::{decimal, decimal_text};
use vstd::prelude::*;
use vstd::string::*;

verus! {

/// Every request is given this long, in milliseconds.
pub const REQUEST_TIMEOUT_MS: u32 = 30000;

/// The two methods that the adapter uses.
#[derive(Clone, Copy, Debug, PartialEq, Eq, Structural)]
pub enum HttpMethod {
    Get,
    Post,
}

/// A request for the executor to carry out.
#[derive(Debug)]
pub struct HttpRequest {
    pub method: HttpMethod,
    pub url: String,
    pub headers: Vec<(String, String)>,
    pub body: Option<String>,
    pub timeout_ms: u32,
}

/// A request in contracts.
pub struct HttpRequestView {
    pub method: HttpMethod,
    pub url: Seq<char>,
    pub headers: Seq<Param>,
    pub body: Option<Seq<char>>,
    pub timeout_ms: u32,
}

impl View for HttpRequest {
    type V = HttpRequestView;

    open spec fn view(&self) -> HttpRequestView {
        HttpRequestView {
            method: self.method,
            url: self.url@,
            headers: params_view(self.headers@),
            body: match self.body {
                Some(text) => Some(text@),
                None => None,
            },
            timeout_ms: self.timeout_ms,
        }
    }
}

/// What the executor reports: the status, the body, and its own error
/// message where it has one.
#[derive(Debug)]
pub struct HttpResponse {
    pub status: u16,
    pub body: String,
    pub error: Option<String>,
}

/// A 2xx or 3xx status.
pub open spec fn is_success_status(status: u16) -> bool {
    200 <= status < 400
}

/// A text result in contracts.
pub open spec fn text_result_view(result: Result<String, String>) -> Result<Seq<char>, Seq<char>> {
    match result {
        Ok(text) => Ok(text@),
        Err(message) => Err(message@),
    }
}

/// The message for a response that is no success.
pub open spec fn api_error_text(status: u16, detail: Seq<char>) -> Seq<char> {
    "API error "@ + decimal_text(status as int) + ": "@ + detail
}

/// What a response amounts to: its body on success, else an error message
/// with the status and the executor's error, or the body where it gave none.
pub open spec fn api_outcome(response: HttpResponse) -> Result<Seq<char>, Seq<char>> {
    if is_success_status(response.status) {
        Ok(response.body@)
    } else {
        Err(
            api_error_text(
                response.status,
                match response.error {
                    Some(message) => message@,
                    None => response.body@,
                },
            ),
        )
    }
}

impl HttpResponse {
    /// Whether the status is a 2xx or 3xx one.
    pub fn is_success(&self) -> (success: bool)
        ensures
            success == is_success_status(self.status),
    {
        200 <= self.status && self.status < 400
    }
}

/// Tells a successful response, whose body is handed on for decoding, from a
/// failed one, which becomes an error message.
pub fn api_result(response: HttpResponse) -> (result: Result<String, String>)
    ensures
        text_result_view(result) == api_outcome(response),
{
    if response.is_success() {
        Ok(response.body)
    } else {
        let mut message = "API error ".to_owned();
        message.append(decimal(response.status as i128).as_str());
        message.append(": ");
        match response.error {
            Some(detail) => message.append(detail.as_str()),
            None => message.append(response.body.as_str()),
        }
        Err(message)
    }
}

} // verus!
