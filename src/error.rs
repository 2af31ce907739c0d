use vstd::prelude::*;
use vstd::string::*;
use crate::value::{KindMismatch, ValueKind};

verus! {

/// A failure while running an expression.
#[derive(Debug)]
pub enum Error {
    /// A value had another variant than the operation needs.
    TypeMismatch(KindMismatch),
    /// An array handed to `join` held an item that is not text.
    NonStringItem,
    /// A line did not have the shape of a common log line.
    GrammarMismatch,
    /// The bracketed timestamp did not parse with the format.
    Timestamp { raw: String, format: String, cause: String },
    /// The status field is not a number that fits.
    StatusCode,
    /// The size field is not a number that fits.
    ContentLength,
}

/// A failure while compiling a call of a function.
#[derive(Debug)]
pub enum CompileError {
    /// A required argument was not supplied.
    MissingArgument(String),
    /// An argument that must be known at compile time was not a literal.
    NotLiteral(String),
    /// An argument's value has a variant the parameter does not accept.
    NotAccepted(String),
}

pub open spec fn kind_name(k: ValueKind) -> Seq<char> {
    match k {
        ValueKind::Bytes => "string"@,
        ValueKind::Integer => "integer"@,
        ValueKind::Boolean => "boolean"@,
        ValueKind::Timestamp => "timestamp"@,
        ValueKind::Array => "array"@,
        ValueKind::Record => "map"@,
        ValueKind::Null => "null"@,
    }
}

pub open spec fn error_text(e: Error) -> Seq<char> {
    match e {
        Error::TypeMismatch(m) => "expected "@ + kind_name(m.expected) + ", got "@ + kind_name(m.got),
        Error::NonStringItem => "all array items must be strings"@,
        Error::GrammarMismatch => "failed parsing common log line"@,
        Error::Timestamp { raw, format, cause } => "failed parsing timestamp "@ + raw@
            + " using format "@ + format@ + ": "@ + cause@,
        Error::StatusCode => "failed parsing status code"@,
        Error::ContentLength => "failed parsing content length"@,
    }
}

pub open spec fn error_message(e: Error) -> Seq<char> {
    "function call error: "@ + error_text(e)
}

pub fn kind_name_of(k: ValueKind) -> (r: &'static str)
    ensures
        r@ == kind_name(k),
{
    match k {
        ValueKind::Bytes => "string",
        ValueKind::Integer => "integer",
        ValueKind::Boolean => "boolean",
        ValueKind::Timestamp => "timestamp",
        ValueKind::Array => "array",
        ValueKind::Record => "map",
        ValueKind::Null => "null",
    }
}

impl Error {
    /// The human-readable message, as surfaced to the caller.
    pub fn message(&self) -> (r: String)
        ensures
            r@ == error_message(*self),
    {
        let mut m = "function call error: ".to_owned();
        match self {
            Error::TypeMismatch(k) => {
                m.append("expected ");
                m.append(kind_name_of(k.expected));
                m.append(", got ");
                m.append(kind_name_of(k.got));
            },
            Error::NonStringItem => m.append("all array items must be strings"),
            Error::GrammarMismatch => m.append("failed parsing common log line"),
            Error::Timestamp { raw, format, cause } => {
                m.append("failed parsing timestamp ");
                m.append(raw.as_str());
                m.append(" using format ");
                m.append(format.as_str());
                m.append(": ");
                m.append(cause.as_str());
            },
            Error::StatusCode => m.append("failed parsing status code"),
            Error::ContentLength => m.append("failed parsing content length"),
        }
        m
    }
}

} // verus!
