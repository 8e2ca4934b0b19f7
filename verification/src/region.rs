//! Server-side region RPC entry.
//!
//! The single point where an inbound request becomes an isolated unit of
//! execution: the envelope is validated (trace identity and body must both
//! be present), the body is handed to the resolved handler capability, and
//! the outcome is settled — a fault of the isolated context itself is
//! reported distinctly from a handler-reported error, and a handler error is
//! returned to the caller unaltered, its severity deciding only the log
//! level.

use vstd::prelude::*;

use crate::error::Error;
use crate::proto::Expr;
use crate::proto::ExprHeader;
use crate::proto::ObjectExpr;
use crate::proto::RegionBody;
use crate::proto::RegionRequest;
use crate::proto::RegionResponse;
use vstd::string::StringExecFns;

verus! {

/// Capability of executing one region-level request body. A concrete server
/// type implements this; its errors travel back to the caller unaltered.
pub trait RegionServerHandler {
    fn handle(&self, request: RegionBody) -> Result<RegionResponse, Error>;
}

/// Level at which one failure is logged. Classification affects only this,
/// never the value returned.
#[derive(Clone, Copy, Debug, PartialEq, Eq, Structural)]
pub enum LogLevel {
    Error,
    Debug,
}

/// What became of one isolated execution: the isolated context either ran
/// the handler to completion, carrying the handler's own verdict, or itself
/// faulted before it could.
#[derive(Debug, PartialEq, Eq)]
pub enum JoinOutcome {
    Finished(Result<RegionResponse, Error>),
    Faulted,
}

/// Exactly what validating one region envelope yields: the trace identity
/// and body where both are present, and which invalid-query failure where
/// not. The header is demanded first.
pub open spec fn region_validation(request: RegionRequest, r: Result<
    (u64, RegionBody),
    Error,
>) -> bool {
    match request.header {
        None => r matches Err(Error::InvalidQuery { reason }) && reason@
            == "Expecting non-empty region request header."@,
        Some(h) => match request.body {
            None => r matches Err(Error::InvalidQuery { reason }) && reason@
                == "Expecting non-empty region request body."@,
            Some(b) => r == Ok::<(u64, RegionBody), Error>((h.trace_id, b)),
        },
    }
}

/// Validates a region envelope, yielding the trace identity to propagate
/// into the isolated execution context and the body to execute. A request
/// missing either never reaches execution.
pub fn validate_region_request(request: RegionRequest) -> (r: Result<(u64, RegionBody), Error>)
    ensures
        region_validation(request, r),
{
    let header = match request.header {
        Some(h) => h,
        None => {
            return Err(
                Error::InvalidQuery {
                    reason: String::from_str("Expecting non-empty region request header."),
                },
            );
        },
    };
    let body = match request.body {
        Some(b) => b,
        None => {
            return Err(
                Error::InvalidQuery {
                    reason: String::from_str("Expecting non-empty region request body."),
                },
            );
        },
    };
    Ok((header.trace_id, body))
}

/// Exactly what validating one wire expression yields: its header and
/// operation where both are present; a missing header is a validation
/// failure, never a silent default, and a missing operation likewise.
pub open spec fn expr_validation(expr: ObjectExpr, r: Result<(ExprHeader, Expr), Error>) -> bool {
    match expr.header {
        None => r == Err::<(ExprHeader, Expr), Error>(Error::MissingHeader),
        Some(h) => match expr.expr {
            None => r matches Err(Error::InvalidQuery { reason }) && reason@
                == "Expecting non-empty object expression."@,
            Some(e) => r == Ok::<(ExprHeader, Expr), Error>((h, e)),
        },
    }
}

/// Validates one wire expression of a batch envelope before it is executed:
/// every expression must carry its header and an operation.
pub fn validate_object_expr(expr: ObjectExpr) -> (r: Result<(ExprHeader, Expr), Error>)
    ensures
        expr_validation(expr, r),
{
    let header = match expr.header {
        Some(h) => h,
        None => {
            return Err(Error::MissingHeader);
        },
    };
    let body = match expr.expr {
        Some(e) => e,
        None => {
            return Err(
                Error::InvalidQuery {
                    reason: String::from_str("Expecting non-empty object expression."),
                },
            );
        },
    };
    Ok((header, body))
}

/// Exactly what settling one join outcome yields: the value the caller
/// receives and the level, if any, at which the failure is logged.
pub open spec fn settlement(outcome: JoinOutcome, r: (Result<RegionResponse, Error>, Option<
    LogLevel,
>)) -> bool {
    match outcome {
        JoinOutcome::Finished(Ok(resp)) => r == (
            Ok::<RegionResponse, Error>(resp),
            None::<LogLevel>,
        ),
        JoinOutcome::Finished(Err(e)) => r.0 == Err::<RegionResponse, Error>(e) && r.1 == Some(
            if e.spec_should_log_error() {
                LogLevel::Error
            } else {
                LogLevel::Debug
            },
        ),
        JoinOutcome::Faulted => r == (
            Err::<RegionResponse, Error>(Error::JoinFailure),
            None::<LogLevel>,
        ),
    }
}

/// Settles one isolated execution. A fault of the isolated context itself
/// becomes a join failure, distinct from any handler error. A handler error
/// of loggable severity is logged at error level and any other at debug
/// level, and in both cases the identical error value is handed back: the
/// caller receives what the handler reported, unaltered.
pub fn settle(outcome: JoinOutcome) -> (r: (Result<RegionResponse, Error>, Option<LogLevel>))
    ensures
        settlement(outcome, r),
{
    match outcome {
        JoinOutcome::Finished(verdict) => match verdict {
            Ok(resp) => (Ok(resp), None),
            Err(e) => {
                let level = if e.should_log_error() {
                    LogLevel::Error
                } else {
                    LogLevel::Debug
                };
                (Err(e), Some(level))
            },
        },
        JoinOutcome::Faulted => (Err(Error::JoinFailure), None),
    }
}

/// Region server boundary bound to one handler capability.
pub struct RegionServerRequestHandler<H: RegionServerHandler> {
    handler: H,
}

impl<H: RegionServerHandler> RegionServerRequestHandler<H> {
    /// A boundary that hands every validated body to the given handler.
    pub fn new(handler: H) -> RegionServerRequestHandler<H> {
        RegionServerRequestHandler { handler }
    }

    /// Serves one region request: validates the envelope, executes the body
    /// through the handler, and settles the outcome. The log level that the
    /// settlement decides is where the deployed system emits its log entry;
    /// the returned value is the handler's verdict unaltered.
    pub fn handle(&self, request: RegionRequest) -> (r: Result<RegionResponse, Error>)
        ensures
            request.header is None ==> (r matches Err(Error::InvalidQuery { reason }) && reason@
                == "Expecting non-empty region request header."@),
            request.header is Some && request.body is None ==> (r matches Err(
                Error::InvalidQuery { reason },
            ) && reason@ == "Expecting non-empty region request body."@),
    {
        let body = match validate_region_request(request) {
            Ok((_trace_id, body)) => body,
            Err(e) => {
                return Err(e);
            },
        };
        let verdict = self.handler.handle(body);
        let (result, _level) = settle(JoinOutcome::Finished(verdict));
        result
    }
}

} // verus!
