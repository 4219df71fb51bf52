//! The layered error taxonomy: transport, decode and daemon-reported
//! failures, each carrying enough context to format a diagnostic.

use vstd::prelude::*;
use crate::ser::{dec_digits, u64_to_string};

verus! {

/// A failure to rebuild typed values from the daemon's reply.
#[derive(Clone, Debug, PartialEq, Eq)]
pub enum DeserializeError {
    /// The body was not well-formed JSON; the payload describes the failure.
    Json(String),
    /// The reply lacks a field the decoder required; the payload names it.
    MissingField(String),
    /// A field holds the wrong JSON kind: the expected kind's name, then the
    /// field's name.
    InvalidType(String, String),
}

/// A failure the daemon itself reported.
#[derive(Clone, Debug, PartialEq, Eq)]
pub enum DaemonError {
    /// The HTTP reply had a status other than 200.
    StatusCode(u16),
    /// A well-formed envelope whose result was not the success literal; the
    /// payload is the result text, kept verbatim.
    Message(String),
}

/// Any failure of one exchange with the daemon.
#[derive(Clone, Debug, PartialEq, Eq)]
pub enum Error {
    /// The HTTP exchange itself could not complete, or the renegotiation
    /// reply lacked its session header; the payload describes the cause.
    Http(String),
    /// The reply could not be decoded.
    Deserialize(DeserializeError),
    /// The daemon reported a failure.
    Daemon(DaemonError),
    /// Reading a local source failed; the payload describes the cause.
    Io(String),
}

/// Mathematical model of a decode failure.
pub enum DeserializeErrorV {
    Json(Seq<char>),
    MissingField(Seq<char>),
    InvalidType(Seq<char>, Seq<char>),
}

/// Mathematical model of a daemon-reported failure.
pub enum DaemonErrorV {
    StatusCode(u16),
    Message(Seq<char>),
}

/// Mathematical model of any failure of one exchange.
pub enum ErrorV {
    Http(Seq<char>),
    Deserialize(DeserializeErrorV),
    Daemon(DaemonErrorV),
    Io(Seq<char>),
}

impl View for DeserializeError {
    type V = DeserializeErrorV;

    open spec fn view(&self) -> DeserializeErrorV {
        match self {
            DeserializeError::Json(d) => DeserializeErrorV::Json(d@),
            DeserializeError::MissingField(n) => DeserializeErrorV::MissingField(n@),
            DeserializeError::InvalidType(t, n) => DeserializeErrorV::InvalidType(t@, n@),
        }
    }
}

impl View for DaemonError {
    type V = DaemonErrorV;

    open spec fn view(&self) -> DaemonErrorV {
        match self {
            DaemonError::StatusCode(c) => DaemonErrorV::StatusCode(*c),
            DaemonError::Message(m) => DaemonErrorV::Message(m@),
        }
    }
}

impl View for Error {
    type V = ErrorV;

    open spec fn view(&self) -> ErrorV {
        match self {
            Error::Http(d) => ErrorV::Http(d@),
            Error::Deserialize(inner) => ErrorV::Deserialize(inner@),
            Error::Daemon(inner) => ErrorV::Daemon(inner@),
            Error::Io(d) => ErrorV::Io(d@),
        }
    }
}

/// The diagnostic text of a decode failure.
pub open spec fn deserialize_message(e: DeserializeError) -> Seq<char> {
    match e {
        DeserializeError::Json(d) => "JSON error: "@ + d@,
        DeserializeError::MissingField(n) => "missing field '"@ + n@ + "'"@,
        DeserializeError::InvalidType(t, n) => "invalid field type '"@ + t@ + "' for field '"@
            + n@ + "'"@,
    }
}

/// The diagnostic text of a daemon-reported failure.
pub open spec fn daemon_message(e: DaemonError) -> Seq<char> {
    match e {
        DaemonError::StatusCode(c) => "non-success HTTP status code: "@ + dec_digits(c as int),
        DaemonError::Message(m) => "daemon returned an error: "@ + m@,
    }
}

/// The diagnostic text of any failure.
pub open spec fn error_message(e: Error) -> Seq<char> {
    match e {
        Error::Http(d) => "HTTP error: "@ + d@,
        Error::Deserialize(inner) => "deserializing error: "@ + deserialize_message(inner),
        Error::Daemon(inner) => "daemon returned an error: "@ + daemon_message(inner),
        Error::Io(d) => "IO error: "@ + d@,
    }
}

impl DeserializeError {
    /// A human-readable description of the failure.
    pub fn message(&self) -> (r: String)
        ensures
            r@ == deserialize_message(*self),
    {
        match self {
            DeserializeError::Json(d) => {
                let mut out = String::from_str("JSON error: ");
                out.append(d.as_str());
                out
            },
            DeserializeError::MissingField(n) => {
                let mut out = String::from_str("missing field '");
                out.append(n.as_str());
                out.append("'");
                out
            },
            DeserializeError::InvalidType(t, n) => {
                let mut out = String::from_str("invalid field type '");
                out.append(t.as_str());
                out.append("' for field '");
                out.append(n.as_str());
                out.append("'");
                out
            },
        }
    }
}

impl DaemonError {
    /// A human-readable description of the failure.
    pub fn message(&self) -> (r: String)
        ensures
            r@ == daemon_message(*self),
    {
        match self {
            DaemonError::StatusCode(c) => {
                let mut out = String::from_str("non-success HTTP status code: ");
                let digits = u64_to_string(*c as u64);
                out.append(digits.as_str());
                out
            },
            DaemonError::Message(m) => {
                let mut out = String::from_str("daemon returned an error: ");
                out.append(m.as_str());
                out
            },
        }
    }
}

impl Error {
    /// A human-readable description of the failure, including its cause.
    pub fn message(&self) -> (r: String)
        ensures
            r@ == error_message(*self),
    {
        match self {
            Error::Http(d) => {
                let mut out = String::from_str("HTTP error: ");
                out.append(d.as_str());
                out
            },
            Error::Deserialize(inner) => {
                let mut out = String::from_str("deserializing error: ");
                let cause = inner.message();
                out.append(cause.as_str());
                out
            },
            Error::Daemon(inner) => {
                let mut out = String::from_str("daemon returned an error: ");
                let cause = inner.message();
                out.append(cause.as_str());
                out
            },
            Error::Io(d) => {
                let mut out = String::from_str("IO error: ");
                out.append(d.as_str());
                out
            },
        }
    }
}

impl From<DeserializeError> for Error {
    /// Wraps a decode failure as a general failure.
    fn from(e: DeserializeError) -> (r: Error) {
        Error::Deserialize(e)
    }
}

impl vstd::std_specs::convert::FromSpecImpl<DeserializeError> for Error {
    open spec fn obeys_from_spec() -> bool {
        true
    }

    open spec fn from_spec(e: DeserializeError) -> Error {
        Error::Deserialize(e)
    }
}

} // verus!
