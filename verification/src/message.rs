//! The answer given to an HTTP caller: a message, a success flag and a status code.

use vstd::prelude::*;

verus! {

/// `200 OK`.
pub const OK: u16 = 200;

/// `400 Bad Request`.
pub const BAD_REQUEST: u16 = 400;

/// `403 Forbidden`.
pub const FORBIDDEN: u16 = 403;

/// `404 Not Found`.
pub const NOT_FOUND: u16 = 404;

/// `500 Internal Server Error`.
pub const INTERNAL_SERVER_ERROR: u16 = 500;

/// A status code of the success class, 2xx.
pub open spec fn is_success(code: u16) -> bool {
    200 <= code < 300
}

/// A status code of the server error class, 5xx.
pub open spec fn is_server_error(code: u16) -> bool {
    500 <= code < 600
}

/// What a reader sees of a [`MessageSchema`].
pub struct Message {
    /// The text shown to the caller.
    pub message: Seq<char>,
    /// Whether the request succeeded.
    pub status: bool,
    /// The HTTP status code of the response.
    pub status_code: u16,
}

/// The body of a response, with the status code it is sent under.
#[derive(Clone, Copy, Debug)]
pub struct MessageSchema<'a> {
    message: &'a str,
    status: bool,
    status_code: u16,
}

impl<'a> View for MessageSchema<'a> {
    type V = Message;

    closed spec fn view(&self) -> Message {
        Message { message: self.message@, status: self.status, status_code: self.status_code }
    }
}

impl<'a> MessageSchema<'a> {
    /// The success flag always agrees with the status code.
    #[verifier::type_invariant]
    spec fn flag_follows_code(self) -> bool {
        self.status == is_success(self.status_code)
    }

    /// A successful answer, `200 OK`, with the given text.
    pub fn new(message: &'a str) -> (msg: Self)
        ensures
            msg@ == (Message { message: message@, status: true, status_code: OK }),
    {
        MessageSchema { message, status: true, status_code: OK }
    }

    /// The same text under another status code; the success flag follows the
    /// code: it is set exactly for the codes 200 to 299.
    pub fn code(self, status_code: u16) -> (msg: Self)
        ensures
            msg@ == (Message {
                message: self@.message,
                status: is_success(status_code),
                status_code,
            }),
    {
        MessageSchema {
            message: self.message,
            status: 200 <= status_code && status_code < 300,
            status_code,
        }
    }

    /// The text shown to the caller.
    pub fn message(&self) -> (text: &'a str)
        ensures
            text@ == self@.message,
    {
        self.message
    }

    /// Whether the request succeeded: whether the status code is one of 200 to 299.
    pub fn status(&self) -> (ok: bool)
        ensures
            ok == self@.status,
            ok == is_success(self@.status_code),
    {
        proof {
            use_type_invariant(self);
        }
        self.status
    }

    /// The HTTP status code of the response.
    pub fn status_code(&self) -> (code: u16)
        ensures
            code == self@.status_code,
    {
        self.status_code
    }
}

/// The body that replaces an empty `404 Not Found` response, if `status` is one.
pub open spec fn not_found_body(status: Option<u16>) -> Option<Message> {
    if status == Some(NOT_FOUND) {
        Some(Message { message: "Not Found"@, status: false, status_code: NOT_FOUND })
    } else {
        None
    }
}

/// The body that replaces a response of the 5xx class, if `status` is one.
pub open spec fn server_error_body(status: Option<u16>) -> Option<Message> {
    match status {
        Some(code) if is_server_error(code) => Some(
            Message { message: "Server Error"@, status: false, status_code: INTERNAL_SERVER_ERROR },
        ),
        _ => None,
    }
}

/// Decides what to answer when a request ended with `status` and no body was
/// written for it: a `404` gets the body "Not Found"; any other status is left
/// to the next handler.
pub fn handle404(status: Option<u16>) -> (body: Option<MessageSchema<'static>>)
    ensures
        match body {
            Some(msg) => not_found_body(status) == Some(msg@),
            None => not_found_body(status).is_none(),
        },
{
    match status {
        Some(code) => {
            if code == NOT_FOUND {
                Some(MessageSchema::new("Not Found").code(NOT_FOUND))
            } else {
                None
            }
        },
        None => None,
    }
}

/// Decides what to answer when a request ended with `status` and no body was
/// written for it: every status from 500 to 599 gets the body "Server Error"
/// under `500`; any other status is left as it is.
pub fn handle_server_errors(status: Option<u16>) -> (body: Option<MessageSchema<'static>>)
    ensures
        match body {
            Some(msg) => server_error_body(status) == Some(msg@),
            None => server_error_body(status).is_none(),
        },
{
    match status {
        Some(code) => {
            if 500 <= code && code < 600 {
                Some(MessageSchema::new("Server Error").code(INTERNAL_SERVER_ERROR))
            } else {
                None
            }
        },
        None => None,
    }
}

} // verus!
