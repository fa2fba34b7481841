//! The three ways in which a charge can fail.

use vstd::prelude::*;
use vstd::std_specs::convert::FromSpecImpl;
use crate::json::parser_account;
use crate::response::{VenmoChargeCreateResponseError, VenmoChargeCreateResponseErrorView};

verus! {

/// `ureq::Error`, the HTTP client's account of a request that failed. It is
/// carried through, never looked into.
#[verifier::external_type_specification]
#[verifier::external_body]
pub struct ExTransportError(ureq::Error);

/// `std::io::Error`. It is carried through, never looked into.
#[verifier::external_type_specification]
#[verifier::external_body]
pub struct ExIoError(std::io::Error);

/// Why a charge was not created.
#[derive(Debug)]
pub enum VenmoChargeCreateError {
    /// The request did not get through, or the service answered with a
    /// status that the HTTP client takes for a failure.
    CallResponse(ureq::Error),
    /// An answer came, but its body could not be read as one.
    JsonParse(std::io::Error),
    /// The service understood the request and refused it.
    WithinResponse(VenmoChargeCreateResponseError),
}

/// Mathematical value of a [`VenmoChargeCreateError`]: the kind of failure
/// with its cause.
pub enum VenmoChargeCreateErrorView {
    CallResponse(ureq::Error),
    JsonParse(std::io::Error),
    WithinResponse(VenmoChargeCreateResponseErrorView),
}

impl View for VenmoChargeCreateError {
    type V = VenmoChargeCreateErrorView;

    open spec fn view(&self) -> VenmoChargeCreateErrorView {
        match *self {
            VenmoChargeCreateError::CallResponse(cause) => {
                VenmoChargeCreateErrorView::CallResponse(cause)
            },
            VenmoChargeCreateError::JsonParse(cause) => {
                VenmoChargeCreateErrorView::JsonParse(cause)
            },
            VenmoChargeCreateError::WithinResponse(error) => {
                VenmoChargeCreateErrorView::WithinResponse(error@)
            },
        }
    }
}

impl From<std::io::Error> for VenmoChargeCreateError {
    fn from(e: std::io::Error) -> (error: Self) {
        VenmoChargeCreateError::JsonParse(e)
    }
}

impl FromSpecImpl<std::io::Error> for VenmoChargeCreateError {
    open spec fn obeys_from_spec() -> bool {
        true
    }

    open spec fn from_spec(e: std::io::Error) -> Self {
        VenmoChargeCreateError::JsonParse(e)
    }
}

impl From<ureq::Error> for VenmoChargeCreateError {
    fn from(e: ureq::Error) -> (error: Self) {
        VenmoChargeCreateError::CallResponse(e)
    }
}

impl FromSpecImpl<ureq::Error> for VenmoChargeCreateError {
    open spec fn obeys_from_spec() -> bool {
        true
    }

    open spec fn from_spec(e: ureq::Error) -> Self {
        VenmoChargeCreateError::CallResponse(e)
    }
}

/// The text that `{:?}` writes for a string: the string in double quotes,
/// with the characters escaped that Rust escapes there.
pub uninterp spec fn debug_quoted(text: Seq<char>) -> Seq<char>;

/// Formats a string with `{:?}`, that is through `<str as Debug>::fmt`. The
/// contract claims only that the text depends on the string's characters
/// alone.
#[verifier::external_body]
fn quote(text: &str) -> (quoted: String)
    ensures
        quoted@ == debug_quoted(text@),
{
    format!("{:?}", text)
}

/// Formats a `ureq::Error` with `{:?}`. Nothing is claimed of the text.
#[verifier::external_body]
fn transport_details(cause: &ureq::Error) -> String {
    format!("{:?}", cause)
}

/// Formats a `std::io::Error` with `{:?}`. Nothing is claimed of the text.
#[verifier::external_body]
fn io_details(cause: &std::io::Error) -> String {
    format!("{:?}", cause)
}

/// Formats a `serde_json::Error` with `{}`, that is through its `Display`:
/// the parser's message and the place in the text. The contract claims only
/// that the text depends on the error alone.
#[verifier::external_body]
fn syntax_details(cause: &serde_json::Error) -> (details: String)
    ensures
        details@ == parser_account(*cause),
{
    format!("{}", cause)
}

/// The error that `std::io::Error::new` makes of the kind `InvalidData` and
/// of `message` as its payload: its `kind()` is `InvalidData`, and it
/// displays as `message`.
pub uninterp spec fn invalid_data_error(message: Seq<char>) -> std::io::Error;

/// Calls `std::io::Error::new` with the kind `InvalidData` and `message` as
/// the payload. The contract claims only that the error depends on the
/// message's characters alone.
#[verifier::external_body]
fn invalid_data(message: String) -> (error: std::io::Error)
    ensures
        error == invalid_data_error(message@),
{
    std::io::Error::new(std::io::ErrorKind::InvalidData, message)
}

/// The message of a parse failure, where `details` says what is wrong with
/// the body.
pub open spec fn unreadable_message(details: Seq<char>) -> Seq<char> {
    "Failed to read JSON: "@ + details
}

/// The parse failure for a body of which `details` says what is wrong.
pub open spec fn unreadable_body(details: Seq<char>) -> VenmoChargeCreateError {
    VenmoChargeCreateError::JsonParse(invalid_data_error(unreadable_message(details)))
}

/// What is wrong with a body that is JSON, but no answer.
pub open spec fn unknown_shape_details() -> Seq<char> {
    "the body has the shape of neither a success nor an error"@
}

/// The line that describes a parse failure whose cause describes itself as
/// `details`.
pub open spec fn json_parse_message(details: Seq<char>) -> Seq<char> {
    "Error parsing JSON: "@ + details
}

/// The line that describes a transport failure whose cause describes itself
/// as `details`.
pub open spec fn call_response_message(details: Seq<char>) -> Seq<char> {
    "Error from response: "@ + details
}

/// The message of a [`VenmoChargeCreateError::WithinResponse`].
pub open spec fn within_response_message(error: VenmoChargeCreateResponseErrorView) -> Seq<char> {
    "Error within response with code ["@ + debug_quoted(error.code) + "] and message: "@
        + debug_quoted(error.message)
}

impl VenmoChargeCreateError {
    /// The error for a body that is no JSON at all: invalid data, with a
    /// message that ends in the parser's own account of `cause`.
    pub fn malformed_body(cause: serde_json::Error) -> (error: VenmoChargeCreateError)
        ensures
            error == unreadable_body(parser_account(cause)),
    {
        let details = syntax_details(&cause);
        VenmoChargeCreateError::unreadable(details.as_str())
    }

    /// The error for a body that is JSON, but has neither the shape of a
    /// success nor that of a reported error.
    pub fn unknown_shape() -> (error: VenmoChargeCreateError)
        ensures
            error == unreadable_body(unknown_shape_details()),
    {
        VenmoChargeCreateError::unreadable(
            "the body has the shape of neither a success nor an error",
        )
    }

    /// The parse failure for a body of which `details` says what is wrong:
    /// invalid data, with `details` after the words that every such message
    /// begins with.
    pub fn unreadable(details: &str) -> (error: VenmoChargeCreateError)
        ensures
            error == unreadable_body(details@),
    {
        let message = "Failed to read JSON: ".to_owned().concat(details);
        VenmoChargeCreateError::JsonParse(invalid_data(message))
    }

    /// The line for a parse failure: the words that every such line begins
    /// with, then `details`, and nothing after them.
    pub fn json_parse_text(details: &str) -> (text: String)
        ensures
            text@ == json_parse_message(details@),
    {
        "Error parsing JSON: ".to_owned().concat(details)
    }

    /// The line for a transport failure: the words that every such line
    /// begins with, then `details`, and nothing after them.
    pub fn call_response_text(details: &str) -> (text: String)
        ensures
            text@ == call_response_message(details@),
    {
        "Error from response: ".to_owned().concat(details)
    }

    /// One line that says what went wrong. For a transport or a parse failure
    /// the details are the cause as it describes itself when formatted with
    /// `{:?}`; that text may come from the system, so it has no name here.
    pub fn to_string(&self) -> (text: String)
        ensures
            match *self {
                VenmoChargeCreateError::JsonParse(_) => exists|details: Seq<char>|
                    text@ == #[trigger] json_parse_message(details),
                VenmoChargeCreateError::CallResponse(_) => exists|details: Seq<char>|
                    text@ == #[trigger] call_response_message(details),
                VenmoChargeCreateError::WithinResponse(error) => text@ == within_response_message(
                    error@,
                ),
            },
    {
        match self {
            VenmoChargeCreateError::JsonParse(e) => {
                let details = io_details(e);
                VenmoChargeCreateError::json_parse_text(details.as_str())
            },
            VenmoChargeCreateError::CallResponse(e) => {
                let details = transport_details(e);
                VenmoChargeCreateError::call_response_text(details.as_str())
            },
            VenmoChargeCreateError::WithinResponse(e) => {
                let code = quote(e.code.as_str());
                let message = quote(e.message.as_str());
                "Error within response with code [".to_owned().concat(code.as_str()).concat(
                    "] and message: ",
                ).concat(message.as_str())
            },
        }
    }
}

} // verus!
