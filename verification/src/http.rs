//! The responses that the service gives.

use vstd::prelude::*;
use vstd::string::StringExecFns;

verus! {

/// The item or list was found and is in the body.
pub const OK: u16 = 200;

/// The item was stored and is in the body.
pub const CREATED: u16 = 201;

/// The table store failed, or what it holds is not a todo item.
pub const BAD_REQUEST: u16 = 400;

/// The body could not be written.
pub const INTERNAL_SERVER_ERROR: u16 = 500;

/// No item has the identifier asked for.
pub const NOT_IMPLEMENTED: u16 = 501;

/// The content type that every response with a body declares.
pub open spec fn content_type() -> Seq<char> {
    "application/x-www-form-urlencoded; charset=UTF-8"@
}

/// A response, mathematically.
pub struct ResponseView {
    pub status: u16,
    pub content_type: Option<Seq<char>>,
    pub body: Seq<char>,
}

/// A response of the service: status, declared content type, body.
#[derive(Debug, Clone, PartialEq, Eq)]
pub struct Response {
    pub status: u16,
    pub content_type: Option<String>,
    pub body: String,
}

impl View for Response {
    type V = ResponseView;

    open spec fn view(&self) -> ResponseView {
        ResponseView {
            status: self.status,
            content_type: match self.content_type {
                Some(t) => Some(t@),
                None => None,
            },
            body: self.body@,
        }
    }
}

/// The response that is a status and nothing else.
pub open spec fn bare(status: u16) -> ResponseView {
    ResponseView { status, content_type: None, body: Seq::empty() }
}

/// The response with a status and a body of the service's content type.
pub open spec fn with_body(status: u16, body: Seq<char>) -> ResponseView {
    ResponseView { status, content_type: Some(content_type()), body }
}

/// What is answered once a body was to be written: the status with the body
/// if there is one, else an internal error.
pub open spec fn rendered_view(status: u16, body: Option<Seq<char>>) -> ResponseView {
    match body {
        Some(b) => with_body(status, b),
        None => bare(INTERNAL_SERVER_ERROR),
    }
}

impl Response {
    /// A status and nothing else.
    pub fn bare(status: u16) -> (r: Response)
        ensures
            r@ == bare(status),
    {
        Response { status, content_type: None, body: String::new() }
    }

    /// A status and a body of the service's content type.
    pub fn with_body(status: u16, body: String) -> (r: Response)
        ensures
            r@ == with_body(status, body@),
    {
        Response {
            status,
            content_type: Some(String::from_str("application/x-www-form-urlencoded; charset=UTF-8")),
            body,
        }
    }

    /// The answer once a body was to be written: `status` with the body where
    /// there is one, an internal error where writing it failed.
    pub fn rendered(status: u16, body: Option<String>) -> (r: Response)
        ensures
            r@ == rendered_view(
                status,
                match body {
                    Some(b) => Some(b@),
                    None => None,
                },
            ),
    {
        match body {
            Some(b) => Response::with_body(status, b),
            None => Response::bare(INTERNAL_SERVER_ERROR),
        }
    }
}

} // verus!
