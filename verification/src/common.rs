//! The error that every operation of the bot reports.

use crate::db::txn::TxnError;
use crate::utils::text::{debug_str, debug_text, quoted};
use std::fmt::{Debug, Display};
use vstd::prelude::*;
use vstd::std_specs::convert::FromSpecImpl;
use vstd::string::to_string_from_display_ensures;

verus! {

/// How a failure presents itself.
#[derive(Debug)]
pub struct Cause {
    /// The message for people.
    pub text: String,
    /// The detailed form for diagnostics.
    pub detail: String,
}

impl Clone for Cause {
    fn clone(&self) -> (copy: Cause)
        ensures
            copy == *self,
    {
        Cause { text: self.text.clone(), detail: self.detail.clone() }
    }
}

/// What went wrong with a request to the messaging platform.
#[derive(Clone, Copy, Debug, PartialEq, Eq, Structural)]
pub enum RequestErrorKind {
    /// The platform answered with an error.
    Api,
    /// The group chat has moved to another chat id.
    MigrateToChatId,
    /// The platform asks to send the request again later.
    RetryAfter,
    /// The platform could not be reached.
    Network,
    /// The answer could not be read.
    InvalidJson,
    /// A file could not be read or written.
    Io,
}

/// A failure of the database, of the messaging platform, or of anything
/// else.
#[derive(Debug)]
pub enum Error {
    Sqlx(Cause),
    Teloxide(RequestErrorKind, Cause),
    Other(Cause),
}

impl Clone for Error {
    fn clone(&self) -> (copy: Error)
        ensures
            copy == *self,
    {
        match self {
            Error::Sqlx(cause) => Error::Sqlx(cause.clone()),
            Error::Teloxide(kind, cause) => Error::Teloxide(*kind, cause.clone()),
            Error::Other(cause) => Error::Other(cause.clone()),
        }
    }
}

/// The message of a failure to get at the ambient transaction.
pub open spec fn txn_error_text(error: TxnError) -> Seq<char> {
    match error {
        TxnError::NoActiveScope => "No shared txn"@,
        TxnError::AlreadyBorrowed => "Shared txn borrowed"@,
    }
}

impl Error {
    /// What this failure presents itself with.
    pub open spec fn spec_cause(self) -> Cause {
        match self {
            Error::Sqlx(cause) => cause,
            Error::Teloxide(_, cause) => cause,
            Error::Other(cause) => cause,
        }
    }

    /// Whether the failure is transient: a trouble of the network, which
    /// may well be gone at the next attempt. Every other failure is final.
    pub open spec fn transient(self) -> bool {
        self matches Error::Teloxide(RequestErrorKind::Network, _)
    }

    /// Whether the messaging platform could not be reached.
    pub fn is_network_problem(&self) -> (network: bool)
        ensures
            network == self.transient(),
    {
        matches!(self, Error::Teloxide(RequestErrorKind::Network, _))
    }

    /// What this failure presents itself with.
    pub fn cause(&self) -> (cause: &Cause)
        ensures
            *cause == self.spec_cause(),
    {
        match self {
            Error::Sqlx(cause) => cause,
            Error::Teloxide(_, cause) => cause,
            Error::Other(cause) => cause,
        }
    }

    /// Gives up the failure for what it presents itself with.
    pub fn into_cause(self) -> (cause: Cause)
        ensures
            cause == self.spec_cause(),
    {
        match self {
            Error::Sqlx(cause) => cause,
            Error::Teloxide(_, cause) => cause,
            Error::Other(cause) => cause,
        }
    }

    /// The message for people.
    pub fn to_string(&self) -> (text: String)
        ensures
            text == self.spec_cause().text,
    {
        self.cause().text.clone()
    }

    /// A failure of no special kind with the message `text`. Its detailed
    /// form is the message in quotes.
    pub fn other(text: &str) -> (error: Error)
        ensures
            error matches Error::Other(cause) && cause.text@ == text@ && cause.detail@ == quoted(
                text@,
            ),
    {
        Error::Other(Cause { text: text.to_owned(), detail: debug_str(text) })
    }
}

/// Maps any failure to [`Error::Other`], keeping what it prints.
pub fn any<E: Display + Debug>(error: E) -> (mapped: Error)
    ensures
        mapped matches Error::Other(cause) && to_string_from_display_ensures::<E>(
            &error,
            cause.text,
        ),
{
    let text = error.to_string();
    let detail = debug_text(&error);
    Error::Other(Cause { text, detail })
}

impl From<&str> for Error {
    fn from(v: &str) -> (error: Error)
        ensures
            error matches Error::Other(cause) && cause.text@ == v@ && cause.detail@ == quoted(v@),
    {
        Error::other(v)
    }
}

impl FromSpecImpl<&str> for Error {
    open spec fn obeys_from_spec() -> bool {
        false
    }

    open spec fn from_spec(v: &str) -> Error {
        arbitrary()
    }
}

impl From<String> for Error {
    fn from(v: String) -> (error: Error)
        ensures
            error matches Error::Other(cause) && cause.text@ == v@ && cause.detail@ == quoted(v@),
    {
        Error::other(v.as_str())
    }
}

impl FromSpecImpl<String> for Error {
    open spec fn obeys_from_spec() -> bool {
        false
    }

    open spec fn from_spec(v: String) -> Error {
        arbitrary()
    }
}

impl From<TxnError> for Error {
    /// A failure to get at the ambient transaction is a failure of no
    /// special kind, and so never transient.
    fn from(v: TxnError) -> (error: Error)
        ensures
            error matches Error::Other(cause) && cause.text@ == txn_error_text(v) && cause.detail@
                == quoted(txn_error_text(v)),
            !error.transient(),
    {
        match v {
            TxnError::NoActiveScope => Error::other("No shared txn"),
            TxnError::AlreadyBorrowed => Error::other("Shared txn borrowed"),
        }
    }
}

impl FromSpecImpl<TxnError> for Error {
    open spec fn obeys_from_spec() -> bool {
        false
    }

    open spec fn from_spec(v: TxnError) -> Error {
        arbitrary()
    }
}

} // verus!
