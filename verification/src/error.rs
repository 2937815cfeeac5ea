//! The errors that end a turn.

use vstd::prelude::*;
use crate::text::{from_chars, push_decimal, push_str, decimal_nat};

verus! {

/// What can end a turn. The variants that stand for a failure of a
/// collaborator carry that failure's description.
#[derive(Debug, Clone, PartialEq, Eq)]
pub enum Error {
    Database(String),
    Http(String),
    Io(String),
    MissingApiKey(String),
    MissingEnvVar(String),
    Provider(String),
    Telegram(String),
    ExecTimeout(u64),
    ExecDenied,
    ApprovalTimeout,
}

impl Error {
    /// The text that describes the error `e`.
    pub open spec fn message_of(e: Error) -> Seq<char> {
        match e {
            Error::Database(m) => "database error: "@ + m@,
            Error::Http(m) => "http error: "@ + m@,
            Error::Io(m) => "io error: "@ + m@,
            Error::MissingApiKey(m) => "missing api key: "@ + m@,
            Error::MissingEnvVar(m) => "missing env var: "@ + m@,
            Error::Provider(m) => "provider error: "@ + m@,
            Error::Telegram(m) => "telegram error: "@ + m@,
            Error::ExecTimeout(secs) => "command timed out after "@ + decimal_nat(secs as nat)
                + "s"@,
            Error::ExecDenied => "command denied by user"@,
            Error::ApprovalTimeout => "approval timed out"@,
        }
    }

    /// The text that describes this error.
    pub fn message(&self) -> (out: String)
        ensures
            out@ == Error::message_of(*self),
    {
        let mut buf: Vec<char> = Vec::new();
        match self {
            Error::Database(m) => {
                push_str(&mut buf, "database error: ");
                push_str(&mut buf, m.as_str());
            },
            Error::Http(m) => {
                push_str(&mut buf, "http error: ");
                push_str(&mut buf, m.as_str());
            },
            Error::Io(m) => {
                push_str(&mut buf, "io error: ");
                push_str(&mut buf, m.as_str());
            },
            Error::MissingApiKey(m) => {
                push_str(&mut buf, "missing api key: ");
                push_str(&mut buf, m.as_str());
            },
            Error::MissingEnvVar(m) => {
                push_str(&mut buf, "missing env var: ");
                push_str(&mut buf, m.as_str());
            },
            Error::Provider(m) => {
                push_str(&mut buf, "provider error: ");
                push_str(&mut buf, m.as_str());
            },
            Error::Telegram(m) => {
                push_str(&mut buf, "telegram error: ");
                push_str(&mut buf, m.as_str());
            },
            Error::ExecTimeout(secs) => {
                push_str(&mut buf, "command timed out after ");
                push_decimal(&mut buf, *secs);
                push_str(&mut buf, "s");
            },
            Error::ExecDenied => {
                push_str(&mut buf, "command denied by user");
            },
            Error::ApprovalTimeout => {
                push_str(&mut buf, "approval timed out");
            },
        }
        from_chars(&buf)
    }
}

} // verus!
