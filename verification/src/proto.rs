//! Wire shapes of the batched database protocol and of the region RPC.
//!
//! A request envelope carries a target name and an ordered sequence of
//! expressions; each expression carries a header with the protocol version.
//! A reply carries one result per expression, in the same order. The payload
//! variant of a result is chosen by the producer; a consumer must branch on
//! the variant tag and never infer it from the shape of its own request.

use vstd::prelude::*;

verus! {

/// Header that must accompany every wire expression.
#[derive(Clone, Copy, Debug, PartialEq, Eq, Structural)]
pub struct ExprHeader {
    pub version: u32,
}

/// Insert operation: opaque byte blobs destined for one table.
#[derive(Clone, Debug, PartialEq, Eq)]
pub struct InsertExpr {
    pub table_name: String,
    pub values: Vec<Vec<u8>>,
}

/// Select operation, carried as protocol-specific query text.
#[derive(Clone, Debug, PartialEq, Eq)]
pub struct SelectExpr {
    pub sql: String,
}

/// The operation payload of one wire expression.
#[derive(Clone, Debug, PartialEq, Eq)]
pub enum Expr {
    Insert(InsertExpr),
    Select(SelectExpr),
}

/// One logical operation on the wire: a header plus an operation payload.
#[derive(Clone, Debug, PartialEq, Eq)]
pub struct ObjectExpr {
    pub header: Option<ExprHeader>,
    pub expr: Option<Expr>,
}

/// Batch envelope: all operations of one round trip, bound for one target.
#[derive(Clone, Debug, PartialEq, Eq)]
pub struct DatabaseRequest {
    pub name: String,
    pub exprs: Vec<ObjectExpr>,
}

/// Batch reply: one result per request expression, positionally.
#[derive(Clone, Debug, PartialEq, Eq)]
pub struct DatabaseResponse {
    pub results: Vec<ObjectResult>,
}

/// Status header of one wire result. Code zero means success; any other
/// value is a remote failure carrying this code and message.
#[derive(Clone, Debug, PartialEq, Eq)]
pub struct ResultHeader {
    pub code: u32,
    pub err_msg: String,
}

/// Select payload of a wire result: an encoded tabular result.
#[derive(Clone, Debug, PartialEq, Eq)]
pub struct SelectPayload {
    pub raw_data: Vec<u8>,
}

/// Mutate payload of a wire result: a mutation summary.
#[derive(Clone, Copy, Debug, PartialEq, Eq, Structural)]
pub struct MutateResult {
    pub success: u32,
    pub failure: u32,
}

/// Payload of one wire result, chosen by the producer.
#[derive(Clone, Debug, PartialEq, Eq)]
pub enum ResultPayload {
    Select(SelectPayload),
    Mutate(MutateResult),
}

/// One wire result: a status header plus a payload variant.
#[derive(Clone, Debug, PartialEq, Eq)]
pub struct ObjectResult {
    pub header: Option<ResultHeader>,
    pub result: Option<ResultPayload>,
}

/// Header of a region RPC envelope: the trace identity that every log or
/// metric emitted during execution is attributed to.
#[derive(Clone, Copy, Debug, PartialEq, Eq, Structural)]
pub struct RegionHeader {
    pub trace_id: u64,
}

/// Body of a region RPC: one region-level mutation or query.
#[derive(Clone, Debug, PartialEq, Eq)]
pub enum RegionBody {
    Inserts { table: String, rows: Vec<Vec<u8>> },
    Deletes { table: String, keys: Vec<Vec<u8>> },
    Query { plan: Vec<u8> },
}

/// Region RPC envelope: a header with trace identity plus a body.
#[derive(Clone, Debug, PartialEq, Eq)]
pub struct RegionRequest {
    pub header: Option<RegionHeader>,
    pub body: Option<RegionBody>,
}

/// Reply of a region RPC: the mutation summary.
#[derive(Clone, Copy, Debug, PartialEq, Eq, Structural)]
pub struct RegionResponse {
    pub affected_rows: u64,
}

} // verus!
