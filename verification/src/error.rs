//! The errors that the library reports.

use vstd::prelude::*;
use vstd::string::*;
use crate::text::{debug_quoted, str_debug};

verus! {

/// What went wrong, in broad terms.
#[derive(Clone, Copy, Debug, PartialEq, Eq, Structural)]
pub enum ErrorKind {
    InvalidURL,
    InvalidURLType,
    InvalidJSON,
    CNVResponseError,
    ReqwestError,
    SerdeError,
    BoxError,
    Error,
}

impl ErrorKind {
    /// The line that stands for the kind in a message shown to the user.
    pub open spec fn display_text(self) -> Seq<char> {
        match self {
            ErrorKind::InvalidURL => "InvalidURL\n"@,
            ErrorKind::InvalidURLType => "InvalidURLType\n"@,
            ErrorKind::InvalidJSON => "InvalidJSON\n"@,
            ErrorKind::CNVResponseError => "JSONParseError\n"@,
            ErrorKind::ReqwestError => "ReqwestError\n"@,
            ErrorKind::SerdeError => "SerdeError\n"@,
            ErrorKind::BoxError => "BoxError\n"@,
            ErrorKind::Error => "Error\n"@,
        }
    }

    /// The name of the variant, as a debugging format shows it.
    pub open spec fn debug_text(self) -> Seq<char> {
        match self {
            ErrorKind::InvalidURL => "InvalidURL"@,
            ErrorKind::InvalidURLType => "InvalidURLType"@,
            ErrorKind::InvalidJSON => "InvalidJSON"@,
            ErrorKind::CNVResponseError => "CNVResponseError"@,
            ErrorKind::ReqwestError => "ReqwestError"@,
            ErrorKind::SerdeError => "SerdeError"@,
            ErrorKind::BoxError => "BoxError"@,
            ErrorKind::Error => "Error"@,
        }
    }

    /// The kind as a line of text.
    pub fn to_string(&self) -> (r: String)
        ensures
            r@ == self.display_text(),
    {
        match self {
            ErrorKind::InvalidURL => String::from_str("InvalidURL\n"),
            ErrorKind::InvalidURLType => String::from_str("InvalidURLType\n"),
            ErrorKind::InvalidJSON => String::from_str("InvalidJSON\n"),
            ErrorKind::CNVResponseError => String::from_str("JSONParseError\n"),
            ErrorKind::ReqwestError => String::from_str("ReqwestError\n"),
            ErrorKind::SerdeError => String::from_str("SerdeError\n"),
            ErrorKind::BoxError => String::from_str("BoxError\n"),
            ErrorKind::Error => String::from_str("Error\n"),
        }
    }

    /// The name of the variant.
    pub fn to_debug_string(&self) -> (r: String)
        ensures
            r@ == self.debug_text(),
    {
        match self {
            ErrorKind::InvalidURL => String::from_str("InvalidURL"),
            ErrorKind::InvalidURLType => String::from_str("InvalidURLType"),
            ErrorKind::InvalidJSON => String::from_str("InvalidJSON"),
            ErrorKind::CNVResponseError => String::from_str("CNVResponseError"),
            ErrorKind::ReqwestError => String::from_str("ReqwestError"),
            ErrorKind::SerdeError => String::from_str("SerdeError"),
            ErrorKind::BoxError => String::from_str("BoxError"),
            ErrorKind::Error => String::from_str("Error"),
        }
    }
}

/// An error: its kind and a message.
#[derive(Debug, PartialEq)]
pub struct Error {
    pub kind: ErrorKind,
    pub value: String,
}

/// An error as the contracts see it: the message is a sequence of characters.
pub struct ErrorView {
    pub kind: ErrorKind,
    pub value: Seq<char>,
}

impl ErrorView {
    /// The error as a message shown to the user.
    pub open spec fn display_text(self) -> Seq<char> {
        "Kind: "@ + self.kind.display_text() + ", Message: "@ + self.value + "\n"@
    }

    /// The error as a debugging format shows it.
    pub open spec fn debug_text(self) -> Seq<char> {
        debug_layout_spec(self.kind, str_debug(self.value))
    }
}

/// What a debugging format shows of an error of the kind `kind`, where
/// `quoted` is what it shows of the message.
pub open spec fn debug_layout_spec(kind: ErrorKind, quoted: Seq<char>) -> Seq<char> {
    "Error { kind: "@ + kind.debug_text() + ", value: "@ + quoted + " }"@
}

/// What a debugging format shows of an error of the kind `kind`, where
/// `quoted` is what it shows of the message.
pub fn debug_layout(kind: ErrorKind, quoted: &str) -> (r: String)
    ensures
        r@ == debug_layout_spec(kind, quoted@),
{
    let mut r = String::from_str("Error { kind: ");
    let name = kind.to_debug_string();
    r.append(name.as_str());
    r.append(", value: ");
    r.append(quoted);
    r.append(" }");
    r
}

impl View for Error {
    type V = ErrorView;

    open spec fn view(&self) -> ErrorView {
        ErrorView { kind: self.kind, value: self.value@ }
    }
}

/// A result as the contracts see it: what it holds, success or failure, by
/// its view.
pub open spec fn result_view<T: View, E: View>(r: Result<T, E>) -> Result<T::V, E::V> {
    match r {
        Ok(t) => Ok(t@),
        Err(e) => Err(e@),
    }
}

/// `text` between `before` and a closing bracket.
pub open spec fn bracketed(before: Seq<char>, text: Seq<char>) -> Seq<char> {
    before + text + ")"@
}

impl ErrorView {
    /// The error that stands for one of the HTTP client, whose own message is
    /// `text`.
    pub open spec fn reqwest(text: Seq<char>) -> ErrorView {
        ErrorView { kind: ErrorKind::ReqwestError, value: bracketed("error: reqwest ("@, text) }
    }

    /// The error that stands for one of the JSON reader, whose own message is
    /// `text`.
    pub open spec fn serde(text: Seq<char>) -> ErrorView {
        ErrorView { kind: ErrorKind::SerdeError, value: bracketed("error: serde ("@, text) }
    }

    /// The error that stands for any other error, whose own message is
    /// `text`.
    pub open spec fn boxed(text: Seq<char>) -> ErrorView {
        ErrorView { kind: ErrorKind::BoxError, value: bracketed("error: box ("@, text) }
    }
}

fn in_brackets(before: &str, text: &str) -> (r: String)
    ensures
        r@ == bracketed(before@, text@),
{
    let mut r = String::from_str(before);
    r.append(text);
    r.append(")");
    r
}

impl Error {
    /// The error that stands for one of the HTTP client, whose own message is
    /// `text`.
    pub fn reqwest(text: &str) -> (r: Error)
        ensures
            r@ == ErrorView::reqwest(text@),
    {
        Error { kind: ErrorKind::ReqwestError, value: in_brackets("error: reqwest (", text) }
    }

    /// The error that stands for one of the JSON reader, whose own message is
    /// `text`.
    pub fn serde(text: &str) -> (r: Error)
        ensures
            r@ == ErrorView::serde(text@),
    {
        Error { kind: ErrorKind::SerdeError, value: in_brackets("error: serde (", text) }
    }

    /// The error that stands for any other error, whose own message is
    /// `text`.
    pub fn boxed(text: &str) -> (r: Error)
        ensures
            r@ == ErrorView::boxed(text@),
    {
        Error { kind: ErrorKind::BoxError, value: in_brackets("error: box (", text) }
    }

    /// The error as a message shown to the user.
    pub fn to_string(&self) -> (r: String)
        ensures
            r@ == self@.display_text(),
    {
        let mut r = String::from_str("Kind: ");
        let kind = self.kind.to_string();
        r.append(kind.as_str());
        r.append(", Message: ");
        r.append(self.value.as_str());
        r.append("\n");
        r
    }

    /// The error as a debugging format shows it.
    pub fn to_debug_string(&self) -> (r: String)
        ensures
            r@ == self@.debug_text(),
    {
        let quoted = debug_quoted(self.value.as_str());
        debug_layout(self.kind, quoted.as_str())
    }
}

impl From<String> for Error {
    fn from(value: String) -> (r: Error) {
        Error { kind: ErrorKind::Error, value }
    }
}

impl vstd::std_specs::convert::FromSpecImpl<String> for Error {
    open spec fn obeys_from_spec() -> bool {
        true
    }

    open spec fn from_spec(v: String) -> Error {
        Error { kind: ErrorKind::Error, value: v }
    }
}

impl From<&str> for Error {
    fn from(value: &str) -> (r: Error)
        ensures
            r@ == (ErrorView { kind: ErrorKind::Error, value: value@ }),
    {
        Error { kind: ErrorKind::Error, value: String::from_str(value) }
    }
}

impl vstd::std_specs::convert::FromSpecImpl<&str> for Error {
    open spec fn obeys_from_spec() -> bool {
        false
    }

    open spec fn from_spec(v: &str) -> Error {
        arbitrary()
    }
}

} // verus!
