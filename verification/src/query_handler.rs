//! Capability-based protocol handler registry.
//!
//! One instance may implement any subset of these narrow protocol
//! capabilities over one shared query engine. Every capability funnels
//! through the same two-phase contract — plan, then execute — so that
//! validation, catalog checks and optimization are uniform whatever the
//! entry protocol. The generic entry point enforces exactly one result per
//! logical query even where the underlying text could hold several
//! statements.

use vstd::prelude::*;

use crate::codec;
use crate::codec::SelectResult;
use crate::database::Bytes;
use crate::error::Error;
use crate::proto::DatabaseRequest;
use crate::proto::Expr;
use crate::proto::MutateResult;
use crate::proto::ObjectResult as GrpcObjectResult;
use crate::proto::RegionBody;
use crate::proto::ResultHeader;
use crate::proto::ResultPayload;
use crate::proto::SelectExpr;
use crate::proto::SelectPayload;
use crate::region::validate_object_expr;
use vstd::string::StringExecFns;

verus! {

/// Catalog, schema and caller identity of one request; created once at the
/// boundary and never mutated while the request is planned and executed.
#[derive(Clone, Debug, PartialEq, Eq)]
pub struct QueryContext {
    pub catalog: String,
    pub schema: String,
    pub trace_id: u64,
}

/// Result of one logical operation: a mutation summary or a tabular result.
/// Exactly one of these, or one error, answers each protocol request.
#[derive(Debug, PartialEq, Eq)]
pub enum Output {
    AffectedRows(u64),
    Records(SelectResult),
}

/// A time-series range query: query text evaluated over a time span.
#[derive(Clone, Debug, PartialEq, Eq)]
pub struct RangeQuery {
    pub query: String,
    pub start_millis: i64,
    pub end_millis: i64,
    pub step_millis: i64,
}

/// One point of a line-oriented metric ingestion protocol; the sample value
/// travels as its raw bit pattern.
#[derive(Clone, Debug, PartialEq, Eq)]
pub struct DataPoint {
    pub metric: String,
    pub ts_millis: i64,
    pub value_bits: u64,
}

/// A batch of lines of the line-oriented ingestion dialect.
#[derive(Clone, Debug, PartialEq, Eq)]
pub struct InfluxdbRequest {
    pub lines: String,
}

/// Remote-write request of the metric store protocol, as encoded bytes.
#[derive(Clone, Debug, PartialEq, Eq)]
pub struct WriteRequest {
    pub payload: Bytes,
}

/// Remote-read request of the metric store protocol, as encoded bytes.
#[derive(Clone, Debug, PartialEq, Eq)]
pub struct ReadRequest {
    pub payload: Bytes,
}

/// Push-gateway metrics, as encoded bytes.
#[derive(Clone, Debug, PartialEq, Eq)]
pub struct Metrics {
    pub payload: Bytes,
}

/// Reply of a remote-read: a typed body with its content headers.
#[derive(Clone, Debug, PartialEq, Eq)]
pub struct PromStoreResponse {
    pub content_type: String,
    pub content_encoding: String,
    pub body: Vec<u8>,
}

/// Metrics export request, as encoded bytes.
#[derive(Clone, Debug, PartialEq, Eq)]
pub struct ExportMetricsRequest {
    pub payload: Bytes,
}

/// Metrics export reply: how many data points the receiver rejected.
#[derive(Clone, Copy, Debug, PartialEq, Eq, Structural)]
pub struct ExportMetricsResponse {
    pub rejected_data_points: u64,
}

/// One parsed statement bound for the engine's planner.
#[derive(Clone, Debug, PartialEq, Eq)]
pub enum Statement {
    Query(String),
    Range(RangeQuery),
    Insert { table: String, values: Vec<Bytes> },
    Delete { table: String, keys: Vec<Bytes> },
    Ddl(String),
}

/// An engine-made logical plan, opaque to this layer.
#[derive(Clone, Debug, PartialEq, Eq)]
pub struct LogicalPlan {
    pub bytes: Vec<u8>,
}

/// Result schema of a plan.
#[derive(Clone, Debug, PartialEq, Eq)]
pub struct Schema {
    pub column_names: Vec<String>,
}

/// Every inbound operation, as decoded from any of the wire protocols.
/// Immutable once constructed and consumed exactly once by dispatch.
#[derive(Debug, PartialEq, Eq)]
pub enum ProtocolRequest {
    Sql(String),
    LogicalPlan(Bytes),
    Range(RangeQuery),
    Insert { table: String, values: Vec<Bytes> },
    Delete { table: String, keys: Vec<Bytes> },
    Ddl(String),
    Select(SelectExpr),
    LinePoint(DataPoint),
    RegionMutation(RegionBody),
}

/// The shared query engine, consumed through its narrow contract: plan a
/// statement, execute a plan, describe a plan's result schema.
pub trait QueryEngine {
    fn plan(&self, stmt: &Statement, ctx: &QueryContext) -> Result<LogicalPlan, Error>;

    fn execute(&self, plan: LogicalPlan, ctx: &QueryContext) -> Result<Output, Error>;

    fn describe(&self, plan: &LogicalPlan) -> Result<Schema, Error>;
}

/// Raw SQL text execution: one result per statement found in the text, so
/// the sequence may have any length.
pub trait SqlTextHandler {
    fn exec(&self, sql: &String, ctx: &QueryContext) -> Vec<Result<Output, Error>>;
}

/// Range query execution where several results are acceptable.
pub trait RangeQueryHandler {
    fn exec(&self, query: &RangeQuery, ctx: &QueryContext) -> Vec<Result<Output, Error>>;
}

/// Line-protocol ingestion. A successful call returns no payload: the
/// wire-level acknowledgement of success is the absence of an error frame.
pub trait InfluxdbLineProtocolHandler {
    fn exec(&self, request: &InfluxdbRequest, ctx: &QueryContext) -> Result<(), Error>;
}

/// Point-at-a-time ingestion of the other line dialect; success likewise
/// returns no payload.
pub trait OpentsdbProtocolHandler {
    fn exec(&self, data_point: &DataPoint, ctx: &QueryContext) -> Result<(), Error>;
}

/// Metric store protocol: remote write, remote read, and push-gateway
/// ingestion.
pub trait PromStoreProtocolHandler {
    fn write(&self, request: WriteRequest, ctx: &QueryContext) -> Result<(), Error>;

    fn read(&self, request: ReadRequest, ctx: &QueryContext) -> Result<PromStoreResponse, Error>;

    fn ingest_metrics(&self, metrics: Metrics) -> Result<(), Error>;
}

/// Metrics export: bidirectional, unlike the line-protocol handlers.
pub trait OpenTelemetryProtocolHandler {
    fn metrics(&self, request: ExportMetricsRequest, ctx: &QueryContext) -> Result<
        ExportMetricsResponse,
        Error,
    >;
}

/// Enforces exactly one result per logical query: the sole element of a
/// one-element sequence is handed back as-is, and any other length — text
/// that held several statements, or none — fails with the named unsupported
/// feature, nothing partially returned.
pub fn expect_single(results: Vec<Result<Output, Error>>, feature: &str) -> (r: Result<
    Output,
    Error,
>)
    ensures
        results@.len() == 1 ==> r == results@[0],
        results@.len() != 1 ==> (r matches Err(e) && (e matches Error::NotSupported {
            feature: f,
        } && f@ == feature@)),
{
    if results.len() == 1 {
        let mut v = results;
        v.remove(0)
    } else {
        Err(Error::NotSupported { feature: String::from_str(feature) })
    }
}

/// The uniform two-phase contract: plan the statement, then execute the
/// plan. No capability skips planning, however simple the request, so
/// validation, privilege and catalog checks, and optimization are uniform.
pub fn plan_and_execute<E: QueryEngine>(engine: &E, stmt: Statement, ctx: &QueryContext) -> Result<
    Output,
    Error,
> {
    match engine.plan(&stmt, ctx) {
        Ok(plan) => engine.execute(plan, ctx),
        Err(e) => Err(e),
    }
}

/// A statement with a describable result schema: a pure read query.
pub open spec fn is_pure_read(stmt: Statement) -> bool {
    stmt is Query
}

/// Returns the result schema of a pure read query without executing it. Any
/// other statement kind is "not applicable" — no describable schema — which
/// is not a failure; a pure read, conversely, is never answered "not
/// applicable": it yields a schema or the engine's own error.
pub fn describe_statement<E: QueryEngine>(engine: &E, stmt: &Statement, ctx: &QueryContext) -> (r:
    Result<Option<Schema>, Error>)
    ensures
        !is_pure_read(*stmt) ==> r == Ok::<Option<Schema>, Error>(None::<Schema>),
        is_pure_read(*stmt) ==> (r matches Ok(o) ==> o is Some),
{
    match stmt {
        Statement::Query(_) => {
            match engine.plan(stmt, ctx) {
                Ok(plan) => match engine.describe(&plan) {
                    Ok(schema) => Ok(Some(schema)),
                    Err(e) => Err(e),
                },
                Err(e) => Err(e),
            }
        },
        _ => Ok(None),
    }
}

/// The generic entry point answering every protocol with exactly one output
/// per call. SQL text goes through the text capability and must yield
/// exactly one result; a pre-built logical plan is executed directly; a
/// range query goes through the range capability under the same
/// single-result requirement; mutations plan and execute, inherently
/// yielding one output; and a variant without a handler path here fails
/// with an explicit unsupported feature, no partial execution performed.
pub fn execute_request<H: QueryEngine + SqlTextHandler + RangeQueryHandler>(
    handler: &H,
    request: ProtocolRequest,
    ctx: &QueryContext,
) -> (r: Result<Output, Error>)
    ensures
        request is LinePoint ==> (r matches Err(e) && (e matches Error::NotSupported { feature }
            && feature@ == "line protocol through this entry point"@)),
        request is RegionMutation ==> (r matches Err(e) && (e matches Error::NotSupported {
            feature,
        } && feature@ == "region mutation through this entry point"@)),
{
    match request {
        ProtocolRequest::Sql(text) => {
            let results = SqlTextHandler::exec(handler, &text, ctx);
            expect_single(results, "multi-statement SQL through this entry point")
        },
        ProtocolRequest::LogicalPlan(bytes) => {
            QueryEngine::execute(handler, LogicalPlan { bytes }, ctx)
        },
        ProtocolRequest::Range(query) => {
            let results = RangeQueryHandler::exec(handler, &query, ctx);
            expect_single(results, "multi-statement PromQL through this entry point")
        },
        ProtocolRequest::Insert { table, values } => {
            plan_and_execute(handler, Statement::Insert { table, values }, ctx)
        },
        ProtocolRequest::Delete { table, keys } => {
            plan_and_execute(handler, Statement::Delete { table, keys }, ctx)
        },
        ProtocolRequest::Ddl(text) => plan_and_execute(handler, Statement::Ddl(text), ctx),
        ProtocolRequest::Select(expr) => plan_and_execute(handler, Statement::Query(expr.sql), ctx),
        ProtocolRequest::LinePoint(_) => {
            Err(
                Error::NotSupported {
                    feature: String::from_str("line protocol through this entry point"),
                },
            )
        },
        ProtocolRequest::RegionMutation(_) => {
            Err(
                Error::NotSupported {
                    feature: String::from_str("region mutation through this entry point"),
                },
            )
        },
    }
}

/// The generic capability: answers every protocol request with exactly one
/// output or one error.
pub trait GenericQueryHandler {
    fn exec(&self, request: ProtocolRequest, ctx: &QueryContext) -> (r: Result<Output, Error>)
        ensures
            request is LinePoint ==> (r matches Err(e) && (e matches Error::NotSupported {
                feature,
            } && feature@ == "line protocol through this entry point"@)),
            request is RegionMutation ==> (r matches Err(e) && (e matches Error::NotSupported {
                feature,
            } && feature@ == "region mutation through this entry point"@)),
    ;
}

/// Any instance with the text, range and engine capabilities answers the
/// generic capability through the canonical single-result funnel.
impl<H: QueryEngine + SqlTextHandler + RangeQueryHandler> GenericQueryHandler for H {
    fn exec(&self, request: ProtocolRequest, ctx: &QueryContext) -> (r: Result<Output, Error>) {
        execute_request(self, request, ctx)
    }
}

/// The describe capability: the result schema of a pure read query, without
/// executing it; "not applicable" — not a failure — for anything else, and
/// never for a pure read.
pub trait DescribeHandler {
    fn do_describe(&self, stmt: &Statement, ctx: &QueryContext) -> (r: Result<
        Option<Schema>,
        Error,
    >)
        ensures
            !is_pure_read(*stmt) ==> r == Ok::<Option<Schema>, Error>(None::<Schema>),
            is_pure_read(*stmt) ==> (r matches Ok(o) ==> o is Some),
    ;
}

/// Any instance with the engine capability can describe statements.
impl<H: QueryEngine> DescribeHandler for H {
    fn do_describe(&self, stmt: &Statement, ctx: &QueryContext) -> (r: Result<
        Option<Schema>,
        Error,
    >) {
        describe_statement(self, stmt, ctx)
    }
}

/// Chooses and encodes the wire payload that one output travels as: a
/// mutation summary as a mutate payload, a tabular result as its canonical
/// select bytes. The payload variant is the producer's choice; consumers
/// branch on the tag.
pub fn output_payload(output: Output) -> (r: ResultPayload)
    requires
        output matches Output::Records(s) ==> s@.wf(),
        output matches Output::AffectedRows(n) ==> n <= u32::MAX,
    ensures
        output matches Output::AffectedRows(n) ==> r == ResultPayload::Mutate(
            MutateResult { success: n as u32, failure: 0 },
        ),
        output matches Output::Records(s) ==> (r matches ResultPayload::Select(sp)
            && sp.raw_data@ == codec::encode_bytes(s@)),
{
    match output {
        Output::AffectedRows(n) => {
            ResultPayload::Mutate(MutateResult { success: n as u32, failure: 0 })
        },
        Output::Records(s) => {
            let raw = codec::encode(&s);
            ResultPayload::Select(SelectPayload { raw_data: raw })
        },
    }
}

/// A success wire result carrying the given payload: status code zero and
/// no error message.
pub fn success_result(payload: ResultPayload) -> (r: GrpcObjectResult)
    ensures
        r.header matches Some(h) && h.code == 0 && h.err_msg@ == Seq::<char>::empty(),
        r.result == Some(payload),
{
    GrpcObjectResult {
        header: Some(ResultHeader { code: 0, err_msg: String::new() }),
        result: Some(payload),
    }
}

/// A failure wire result: the non-zero status code and message travel in
/// the header, and no payload accompanies them.
pub fn failure_result(code: u32, msg: String) -> (r: GrpcObjectResult)
    requires
        code != 0,
    ensures
        r.header == Some(ResultHeader { code, err_msg: msg }),
        r.result is None,
{
    GrpcObjectResult { header: Some(ResultHeader { code, err_msg: msg }), result: None }
}

/// An output whose every length fits the wire encoding's 4-byte prefixes.
pub open spec fn output_encodable(output: Output) -> bool {
    match output {
        Output::AffectedRows(n) => n <= u32::MAX,
        Output::Records(s) => s@.wf(),
    }
}

/// Decides whether an output fits the wire encoding.
pub fn check_output_encodable(output: &Output) -> (r: bool)
    ensures
        r == output_encodable(*output),
{
    match output {
        Output::AffectedRows(n) => *n <= u32::MAX as u64,
        Output::Records(s) => codec::check_wf(s),
    }
}

/// The wire payload that carries a given output: an affected-row count as a
/// mutate summary, a tabular result as its canonical select bytes.
pub open spec fn payload_of_output(output: Output, p: ResultPayload) -> bool {
    match output {
        Output::AffectedRows(n) => p == ResultPayload::Mutate(
            MutateResult { success: n as u32, failure: 0 },
        ),
        Output::Records(s) => p matches ResultPayload::Select(sp) && sp.raw_data@
            == codec::encode_bytes(s@),
    }
}

/// Exactly what answering one executed operation yields: a success result
/// whose payload carries the output, or a failure result whose header names
/// what went wrong.
pub open spec fn outcome_answer(outcome: Result<Output, Error>, r: GrpcObjectResult) -> bool {
    match outcome {
        Ok(output) => if output_encodable(output) {
            &&& r.header matches Some(h) && h.code == 0
            &&& r.result matches Some(p) && payload_of_output(output, p)
        } else {
            r.header matches Some(h) && h.code != 0 && h.err_msg@
                == "result too large to encode"@
        },
        Err(e) => r.header matches Some(h) && h.code != 0 && h.err_msg@ == e.spec_kind_message(),
    }
}

/// Answers one executed operation with its wire result: a success result
/// carrying the encoded output, or a failure result naming what went wrong —
/// also where the output itself cannot travel the wire.
pub fn answer_outcome(outcome: Result<Output, Error>) -> (r: GrpcObjectResult)
    ensures
        r.header is Some,
        outcome_answer(outcome, r),
{
    match outcome {
        Ok(output) => {
            if check_output_encodable(&output) {
                success_result(output_payload(output))
            } else {
                failure_result(1, String::from_str("result too large to encode"))
            }
        },
        Err(e) => {
            let msg = e.kind_message();
            failure_result(1, msg)
        },
    }
}

/// Serves one batch envelope: every expression is validated, executed
/// through the one single-result entry point, and answered at its own
/// position — the reply holds exactly one result per expression, in request
/// order, whatever order execution completed in, and an expression that
/// fails validation is answered by a failure result at its position with
/// the rest unaffected.
pub fn serve_batch<H: QueryEngine + SqlTextHandler + RangeQueryHandler>(
    handler: &H,
    request: DatabaseRequest,
    ctx: &QueryContext,
) -> (r: Vec<GrpcObjectResult>)
    ensures
        r@.len() == request.exprs@.len(),
        forall|i: int| 0 <= i < r@.len() ==> (#[trigger] r@[i]).header is Some,
        forall|i: int|
            0 <= i < r@.len() && ((#[trigger] request.exprs@[i]).header is None
                || request.exprs@[i].expr is None) ==> (r@[i].header matches Some(h) && h.code
                != 0),
{
    let ghost exprs = request.exprs@;
    let mut out: Vec<GrpcObjectResult> = Vec::new();
    let mut rest = request.exprs;
    while rest.len() > 0
        invariant
            out@.len() + rest@.len() == exprs.len(),
            rest@ == exprs.skip(out@.len() as int),
            forall|j: int| 0 <= j < out@.len() ==> (#[trigger] out@[j]).header is Some,
            forall|j: int|
                0 <= j < out@.len() && ((#[trigger] exprs[j]).header is None || exprs[j].expr
                    is None) ==> (out@[j].header matches Some(h) && h.code != 0),
        decreases rest@.len(),
    {
        let ghost done = out@.len() as int;
        let expr = rest.remove(0);
        proof {
            assert(expr == exprs.skip(done)[0]);
            assert(expr == exprs[done]);
            assert(rest@ =~= exprs.skip(done + 1));
        }
        let answer = match validate_object_expr(expr) {
            Ok((_header, operation)) => {
                let outcome = match operation {
                    Expr::Insert(ie) => execute_request(
                        handler,
                        ProtocolRequest::Insert { table: ie.table_name, values: ie.values },
                        ctx,
                    ),
                    Expr::Select(se) => execute_request(handler, ProtocolRequest::Select(se), ctx),
                };
                answer_outcome(outcome)
            },
            Err(e) => {
                let msg = e.kind_message();
                failure_result(2, msg)
            },
        };
        out.push(answer);
    }
    assert(out@.len() == exprs.len());
    out
}

} // verus!
