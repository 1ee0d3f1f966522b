//! The closed error taxonomy and its projections.
//!
//! Every failure that crosses the transport boundary is classified into one
//! of the [`ErrorStatus`] variants. [`WebDriverError`] pairs such a kind with
//! a free-text message and renders the protocol-mandated status string,
//! numeric transport status, and serialized wire body.

use crate::wire;
use vstd::prelude::*;

verus! {

/// Declares `rustc_serialize::json::ParserError`, the collaborator's error
/// type for a malformed structured request body, so that the conversion
/// below can take it. The library reads nothing inside it.
#[verifier::external_type_specification]
#[verifier::external_body]
pub struct ExParserError(rustc_serialize::json::ParserError);

/// The specification-defined reason an automation command failed.
///
/// The enumeration is closed: the two lookup projections
/// ([`status_code_spec`] and [`http_status_spec`]) are total over it by
/// exhaustive matching, so adding a variant without extending every table is
/// a compile-time error.
#[derive(PartialEq, Debug)]
pub enum ErrorStatus {
    ElementNotSelectable,
    ElementNotVisible,
    InvalidArgument,
    InvalidCookieDomain,
    InvalidElementCoordinates,
    InvalidElementState,
    InvalidSelector,
    InvalidSessionId,
    JavascriptError,
    MoveTargetOutOfBounds,
    NoSuchAlert,
    NoSuchElement,
    NoSuchFrame,
    NoSuchWindow,
    ScriptTimeout,
    SessionNotCreated,
    StaleElementReference,
    Timeout,
    UnableToSetCookie,
    UnexpectedAlertOpen,
    UnknownError,
    UnknownPath,
    UnknownMethod,
    UnsupportedOperation,
}

pub type WebDriverResult<T> = Result<T, WebDriverError>;

/// A classified failure: an [`ErrorStatus`] kind plus a free-text message.
///
/// Immutable after construction; consumed by the transport layer through
/// [`WebDriverError::http_status`] and [`WebDriverError::to_json_string`].
#[derive(Debug)]
pub struct WebDriverError {
    pub status: ErrorStatus,
    pub message: String,
}

/// The canonical lowercase status token for each error kind.
///
/// Total over the enumeration. `UnknownPath` and `UnknownMethod` both map to
/// `"unknown command"`: a deliberate protocol-specified collision.
pub open spec fn status_code_spec(status: ErrorStatus) -> Seq<char> {
    match status {
        ErrorStatus::ElementNotSelectable => "element not selectable"@,
        ErrorStatus::ElementNotVisible => "element not visible"@,
        ErrorStatus::InvalidArgument => "invalid argument"@,
        ErrorStatus::InvalidCookieDomain => "invalid cookie domain"@,
        ErrorStatus::InvalidElementCoordinates => "invalid element coordinates"@,
        ErrorStatus::InvalidElementState => "invalid element state"@,
        ErrorStatus::InvalidSelector => "invalid selector"@,
        ErrorStatus::InvalidSessionId => "invalid session id"@,
        ErrorStatus::JavascriptError => "javascript error"@,
        ErrorStatus::MoveTargetOutOfBounds => "move target out of bounds"@,
        ErrorStatus::NoSuchAlert => "no such alert"@,
        ErrorStatus::NoSuchElement => "no such element"@,
        ErrorStatus::NoSuchFrame => "no such frame"@,
        ErrorStatus::NoSuchWindow => "no such window"@,
        ErrorStatus::ScriptTimeout => "script timeout"@,
        ErrorStatus::SessionNotCreated => "session not created"@,
        ErrorStatus::StaleElementReference => "stale element reference"@,
        ErrorStatus::Timeout => "timeout"@,
        ErrorStatus::UnableToSetCookie => "unable to set cookie"@,
        ErrorStatus::UnexpectedAlertOpen => "unexpected alert open"@,
        ErrorStatus::UnknownError => "unknown error"@,
        ErrorStatus::UnknownPath => "unknown command"@,
        ErrorStatus::UnknownMethod => "unknown command"@,
        ErrorStatus::UnsupportedOperation => "unsupported operation"@,
    }
}

/// The numeric HTTP-style transport status for each error kind.
///
/// Total over the enumeration; values fixed by the protocol specification.
pub open spec fn http_status_spec(status: ErrorStatus) -> u16 {
    match status {
        ErrorStatus::ElementNotSelectable => 400,
        ErrorStatus::ElementNotVisible => 400,
        ErrorStatus::InvalidArgument => 400,
        ErrorStatus::InvalidCookieDomain => 400,
        ErrorStatus::InvalidElementCoordinates => 400,
        ErrorStatus::InvalidElementState => 400,
        ErrorStatus::InvalidSelector => 400,
        ErrorStatus::InvalidSessionId => 404,
        ErrorStatus::JavascriptError => 500,
        ErrorStatus::MoveTargetOutOfBounds => 500,
        ErrorStatus::NoSuchAlert => 400,
        ErrorStatus::NoSuchElement => 404,
        ErrorStatus::NoSuchFrame => 400,
        ErrorStatus::NoSuchWindow => 400,
        ErrorStatus::ScriptTimeout => 408,
        ErrorStatus::SessionNotCreated => 500,
        ErrorStatus::StaleElementReference => 400,
        ErrorStatus::Timeout => 408,
        ErrorStatus::UnableToSetCookie => 500,
        ErrorStatus::UnexpectedAlertOpen => 500,
        ErrorStatus::UnknownError => 500,
        ErrorStatus::UnknownPath => 404,
        ErrorStatus::UnknownMethod => 405,
        ErrorStatus::UnsupportedOperation => 500,
    }
}

impl WebDriverError {
    /// Builds an error from a known cause. Any message is accepted,
    /// including the empty string; it is stored verbatim.
    pub fn new(status: ErrorStatus, message: &str) -> (r: WebDriverError)
        ensures
            r.status == status,
            r.message@ == message@,
    {
        WebDriverError { status, message: message.to_owned() }
    }

    /// The protocol-specified status token for this error's kind.
    /// Pure and total: no kind is left unmapped.
    pub fn status_code(&self) -> (r: &'static str)
        ensures
            r@ == status_code_spec(self.status),
    {
        match self.status {
            ErrorStatus::ElementNotSelectable => "element not selectable",
            ErrorStatus::ElementNotVisible => "element not visible",
            ErrorStatus::InvalidArgument => "invalid argument",
            ErrorStatus::InvalidCookieDomain => "invalid cookie domain",
            ErrorStatus::InvalidElementCoordinates => "invalid element coordinates",
            ErrorStatus::InvalidElementState => "invalid element state",
            ErrorStatus::InvalidSelector => "invalid selector",
            ErrorStatus::InvalidSessionId => "invalid session id",
            ErrorStatus::JavascriptError => "javascript error",
            ErrorStatus::MoveTargetOutOfBounds => "move target out of bounds",
            ErrorStatus::NoSuchAlert => "no such alert",
            ErrorStatus::NoSuchElement => "no such element",
            ErrorStatus::NoSuchFrame => "no such frame",
            ErrorStatus::NoSuchWindow => "no such window",
            ErrorStatus::ScriptTimeout => "script timeout",
            ErrorStatus::SessionNotCreated => "session not created",
            ErrorStatus::StaleElementReference => "stale element reference",
            ErrorStatus::Timeout => "timeout",
            ErrorStatus::UnableToSetCookie => "unable to set cookie",
            ErrorStatus::UnexpectedAlertOpen => "unexpected alert open",
            ErrorStatus::UnknownError => "unknown error",
            ErrorStatus::UnknownPath => "unknown command",
            ErrorStatus::UnknownMethod => "unknown command",
            ErrorStatus::UnsupportedOperation => "unsupported operation",
        }
    }

    /// The numeric transport status to send with this error's response.
    /// Pure and total: no kind is left unmapped.
    pub fn http_status(&self) -> (r: u16)
        ensures
            r == http_status_spec(self.status),
    {
        match self.status {
            ErrorStatus::ElementNotSelectable => 400,
            ErrorStatus::ElementNotVisible => 400,
            ErrorStatus::InvalidArgument => 400,
            ErrorStatus::InvalidCookieDomain => 400,
            ErrorStatus::InvalidElementCoordinates => 400,
            ErrorStatus::InvalidElementState => 400,
            ErrorStatus::InvalidSelector => 400,
            ErrorStatus::InvalidSessionId => 404,
            ErrorStatus::JavascriptError => 500,
            ErrorStatus::MoveTargetOutOfBounds => 500,
            ErrorStatus::NoSuchAlert => 400,
            ErrorStatus::NoSuchElement => 404,
            ErrorStatus::NoSuchFrame => 400,
            ErrorStatus::NoSuchWindow => 400,
            ErrorStatus::ScriptTimeout => 408,
            ErrorStatus::SessionNotCreated => 500,
            ErrorStatus::StaleElementReference => 400,
            ErrorStatus::Timeout => 408,
            ErrorStatus::UnableToSetCookie => 500,
            ErrorStatus::UnexpectedAlertOpen => 500,
            ErrorStatus::UnknownError => 500,
            ErrorStatus::UnknownPath => 404,
            ErrorStatus::UnknownMethod => 405,
            ErrorStatus::UnsupportedOperation => 500,
        }
    }

    /// The short diagnostic description of this error: the status token,
    /// not the free-text message.
    pub fn description(&self) -> (r: &'static str)
        ensures
            r@ == status_code_spec(self.status),
    {
        self.status_code()
    }

    /// Renders the serialized wire body: a structured text object holding
    /// exactly the `message` field (this error's message, verbatim) and the
    /// `status` field (the status token of this error's kind).
    pub fn to_json_string(&self) -> (r: String)
        ensures
            r@ == wire::wire_body(status_code_spec(self.status), self.message@),
    {
        let mut out = String::new();
        out.append("{\"message\":\"");
        wire::push_escaped(&mut out, self.message.as_str());
        out.append("\",\"status\":\"");
        wire::push_escaped(&mut out, self.status_code());
        out.append("\"}");
        proof {
            assert(out@ =~= wire::wire_body(status_code_spec(self.status), self.message@));
        }
        out
    }

    /// Collapses a malformed-body parse failure into the taxonomy: the kind
    /// is always `UnknownError`, and the message is the failure's diagnostic
    /// rendering, which is never empty.
    pub fn from_parse_error(err: rustc_serialize::json::ParserError) -> (r: WebDriverError)
        ensures
            r.status == ErrorStatus::UnknownError,
            r.message@.len() > 0,
    {
        let message = parser_error_description(&err);
        WebDriverError { status: ErrorStatus::UnknownError, message }
    }
}

/// Relies on the derived `Debug` rendering of
/// `rustc_serialize::json::ParserError`: it always prints at least the
/// failing variant's name, so the text is never empty.
#[verifier::external_body]
fn parser_error_description(err: &rustc_serialize::json::ParserError) -> (r: String)
    ensures
        r@.len() > 0,
{
    format!("{:?}", err)
}

/// The wire body round-trips: for any error, decoding the text that
/// `to_json_string` renders yields exactly the error's status token as the
/// `status` field and the error's message, verbatim, as the `message`
/// field, whatever characters the message holds.
pub proof fn lemma_to_json_string_round_trip(e: &WebDriverError)
    ensures
        wire::decode_wire_body(wire::wire_body(status_code_spec(e.status), e.message@)) == Some(
            (status_code_spec(e.status), e.message@),
        ),
{
    wire::lemma_wire_body_round_trip(status_code_spec(e.status), e.message@);
}

/// `status_code` is deterministic: two errors of equal kind render the same
/// status token.
pub proof fn lemma_status_code_deterministic(a: &WebDriverError, b: &WebDriverError)
    requires
        a.status == b.status,
    ensures
        status_code_spec(a.status) == status_code_spec(b.status),
{
}

/// The specified collision: `UnknownPath` and `UnknownMethod` share the
/// status token `"unknown command"` while their transport statuses differ.
pub proof fn lemma_unknown_command_collision()
    ensures
        status_code_spec(ErrorStatus::UnknownPath) == status_code_spec(ErrorStatus::UnknownMethod),
        http_status_spec(ErrorStatus::UnknownPath) == 404,
        http_status_spec(ErrorStatus::UnknownMethod) == 405,
        http_status_spec(ErrorStatus::UnknownPath) != http_status_spec(ErrorStatus::UnknownMethod),
{
}

} // verus!
