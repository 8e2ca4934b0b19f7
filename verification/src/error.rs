//! Error taxonomy of the dispatch layer.
//!
//! Every failure this layer can produce is one of these variants. Validation
//! errors never execute partial work; handler errors travel back to the
//! caller unaltered; faults of the isolated execution context itself are
//! reported distinctly from handler-reported errors.

use vstd::prelude::*;

use vstd::string::StringExecFns;

verus! {

/// One failure of the dispatch layer.
#[derive(Clone, Debug, PartialEq, Eq)]
pub enum Error {
    /// A result envelope arrived without its header.
    MissingHeader,
    /// A batched reply held a different number of results than the request
    /// held operations, or a single result was owed and absent.
    MissingResult { name: String, expected: usize, actual: usize },
    /// A request envelope was malformed or empty; it never reached execution.
    InvalidQuery { reason: String },
    /// The isolated execution context itself faulted; this is not a
    /// handler-reported error and is fatal to that one request only.
    JoinFailure,
    /// A remote peer answered with a non-success status code; the code and
    /// message are preserved verbatim.
    RemoteFailure { code: u32, msg: String },
    /// A payload's raw bytes failed to parse into a typed result.
    DecodeFailure,
    /// A single-result entry point was given multi-statement input.
    NotSupported { feature: String },
    /// A configuration value was rejected before anything was started.
    IllegalConfig { msg: String },
}

impl Error {
    /// The wording that names each kind of failure on the wire or in a log.
    pub open spec fn spec_kind_message(&self) -> Seq<char> {
        match self {
            Error::MissingHeader => "missing header"@,
            Error::MissingResult { .. } => "missing result"@,
            Error::InvalidQuery { .. } => "invalid query"@,
            Error::JoinFailure => "failed to join the isolated execution"@,
            Error::RemoteFailure { .. } => "remote failure"@,
            Error::DecodeFailure => "failed to decode the result payload"@,
            Error::NotSupported { .. } => "not supported"@,
            Error::IllegalConfig { .. } => "illegal configuration"@,
        }
    }

    /// Names this kind of failure.
    pub fn kind_message(&self) -> (r: String)
        ensures
            r@ == self.spec_kind_message(),
    {
        match self {
            Error::MissingHeader => String::from_str("missing header"),
            Error::MissingResult { .. } => String::from_str("missing result"),
            Error::InvalidQuery { .. } => String::from_str("invalid query"),
            Error::JoinFailure => String::from_str("failed to join the isolated execution"),
            Error::RemoteFailure { .. } => String::from_str("remote failure"),
            Error::DecodeFailure => String::from_str("failed to decode the result payload"),
            Error::NotSupported { .. } => String::from_str("not supported"),
            Error::IllegalConfig { .. } => String::from_str("illegal configuration"),
        }
    }

    /// Declared severity of the error: whether a failure of this kind is
    /// logged at error level rather than debug level. Classification never
    /// changes the error value that a caller receives.
    pub open spec fn spec_should_log_error(&self) -> bool {
        match self {
            Error::JoinFailure => true,
            Error::RemoteFailure { .. } => true,
            _ => false,
        }
    }

    /// Whether this error is severe enough for an error-level log entry.
    pub fn should_log_error(&self) -> (r: bool)
        ensures
            r == self.spec_should_log_error(),
    {
        match self {
            Error::JoinFailure => true,
            Error::RemoteFailure { .. } => true,
            _ => false,
        }
    }
}

} // verus!
