//! Client-side batched request correlator.
//!
//! Packs logical operations into one envelope, and demultiplexes the reply
//! positionally: result `i` answers operation `i`, whatever order the server
//! completed them in. The count invariant is hard: a reply whose length
//! differs from the request's is an integrity failure, never truncated or
//! padded over.

use vstd::prelude::*;

use crate::PROTOCOL_VERSION;
use crate::codec;
use crate::codec::SelectResult;
use crate::error::Error;
use crate::proto::DatabaseRequest;
use crate::proto::Expr;
use crate::proto::ExprHeader;
use crate::proto::InsertExpr;
use crate::proto::MutateResult;
use crate::proto::ObjectExpr;
use crate::proto::ObjectResult as GrpcObjectResult;
use crate::proto::ResultPayload;
use crate::proto::SelectExpr;
use vstd::string::StringExecFns;

verus! {

/// Opaque value blob carried by an insert operation.
pub type Bytes = Vec<u8>;

/// Handle on one target database: every envelope built through it names
/// this target.
#[derive(Clone, Debug)]
pub struct Database {
    name: String,
}

impl View for Database {
    type V = Seq<char>;

    closed spec fn view(&self) -> Seq<char> {
        self.name@
    }
}

/// Typed result of one logical operation, as the correlator hands it back.
/// The variant was chosen by the producer; a server may legitimately answer
/// a read-shaped request with a mutate-shaped summary.
#[derive(Debug, PartialEq, Eq)]
pub enum ObjectResult {
    Select(SelectResult),
    Mutate(MutateResult),
}

impl Database {
    /// A handle on the target of the given name.
    pub fn new(name: String) -> (r: Database)
        ensures
            r@ == name@,
    {
        Database { name }
    }

    /// The target's name.
    pub fn name(&self) -> (r: &str)
        ensures
            r@ == self@,
    {
        self.name.as_str()
    }

    /// Wraps an insert operation with a header carrying the protocol version.
    pub fn insert_expr(table: String, values: Vec<Bytes>) -> (r: ObjectExpr)
        ensures
            r.header == Some(ExprHeader { version: PROTOCOL_VERSION }),
            r.expr matches Some(Expr::Insert(ie)) && ie.table_name == table && ie.values
                == values,
    {
        ObjectExpr {
            header: Some(ExprHeader { version: PROTOCOL_VERSION }),
            expr: Some(Expr::Insert(InsertExpr { table_name: table, values })),
        }
    }

    /// Wraps a select operation with a header carrying the protocol version.
    pub fn select_expr(expr: SelectExpr) -> (r: ObjectExpr)
        ensures
            r.header == Some(ExprHeader { version: PROTOCOL_VERSION }),
            r.expr == Some(Expr::Select(expr)),
    {
        ObjectExpr {
            header: Some(ExprHeader { version: PROTOCOL_VERSION }),
            expr: Some(Expr::Select(expr)),
        }
    }

    /// One envelope holding the given operations, bound for this target.
    pub fn build_request(&self, exprs: Vec<ObjectExpr>) -> (r: DatabaseRequest)
        ensures
            r.name@ == self@,
            r.exprs == exprs,
    {
        DatabaseRequest { name: self.name.clone(), exprs }
    }
}

/// Enforces the count invariant of one round trip: the reply is handed back
/// unchanged exactly when it holds one result per submitted operation, and
/// a mismatch fails with the expected and actual counts.
pub fn check_results(expected: usize, results: Vec<GrpcObjectResult>) -> (r: Result<
    Vec<GrpcObjectResult>,
    Error,
>)
    ensures
        results@.len() == expected ==> r == Ok::<_, Error>(results),
        results@.len() != expected ==> (r matches Err(e) && (e matches Error::MissingResult {
            name,
            expected: exp,
            actual,
        } && name@ == "object_results"@ && exp == expected && actual == results@.len())),
{
    let actual = results.len();
    if actual == expected {
        Ok(results)
    } else {
        Err(Error::MissingResult { name: String::from_str("object_results"), expected, actual })
    }
}

/// Takes the sole result of a single-operation round trip; any other reply
/// length is the same integrity failure that `check_results` reports.
pub fn single_result(results: Vec<GrpcObjectResult>) -> (r: Result<GrpcObjectResult, Error>)
    ensures
        results@.len() == 1 ==> r == Ok::<_, Error>(results@[0]),
        results@.len() != 1 ==> (r matches Err(e) && (e matches Error::MissingResult {
            name,
            expected,
            actual,
        } && name@ == "object_results"@ && expected == 1 && actual == results@.len())),
{
    match check_results(1, results) {
        Ok(mut v) => {
            let sole = v.remove(0);
            Ok(sole)
        },
        Err(e) => Err(e),
    }
}

/// Outcome of a single-operation insert round trip: success is exactly one
/// result of any payload shape; the count invariant surfaces unchanged.
pub fn insert_reply(results: Vec<GrpcObjectResult>) -> (r: Result<(), Error>)
    ensures
        results@.len() == 1 ==> r == Ok::<(), Error>(()),
        results@.len() != 1 ==> (r matches Err(e) && (e matches Error::MissingResult {
            name,
            expected,
            actual,
        } && name@ == "object_results"@ && expected == 1 && actual == results@.len())),
{
    match single_result(results) {
        Ok(_) => Ok(()),
        Err(e) => Err(e),
    }
}

/// Exactly how one select-shaped wire result is interpreted: what
/// `interpret_select` returns for every shape of `result`.
pub open spec fn select_interpretation(result: GrpcObjectResult, r: Result<
    ObjectResult,
    Error,
>) -> bool {
    match result.header {
        None => r == Err::<ObjectResult, Error>(Error::MissingHeader),
        Some(h) => if h.code != 0 {
            r == Err::<ObjectResult, Error>(
                Error::RemoteFailure { code: h.code, msg: h.err_msg },
            )
        } else {
            match result.result {
                None => r matches Err(Error::MissingResult { name, expected, actual }) && name@
                    == "select_result"@ && expected == 1 && actual == 0,
                Some(ResultPayload::Select(sp)) => match codec::decode_bytes(sp.raw_data@) {
                    Some(v) => r matches Ok(ObjectResult::Select(s)) && s@ == v,
                    None => r == Err::<ObjectResult, Error>(Error::DecodeFailure),
                },
                Some(ResultPayload::Mutate(m)) => r == Ok::<ObjectResult, Error>(
                    ObjectResult::Mutate(m),
                ),
            }
        },
    }
}

/// Interprets one select-shaped wire result. The status header is inspected
/// first: a non-success code becomes a remote failure with that exact code
/// and message, before any attempt to read the payload. Only on success is
/// the payload variant branched on: a select payload is decoded from its raw
/// bytes, a mutate payload is handed back as-is.
pub fn interpret_select(result: GrpcObjectResult) -> (r: Result<ObjectResult, Error>)
    ensures
        select_interpretation(result, r),
{
    let header = match result.header {
        Some(h) => h,
        None => {
            return Err(Error::MissingHeader);
        },
    };
    if header.code != 0 {
        return Err(Error::RemoteFailure { code: header.code, msg: header.err_msg });
    }
    let payload = match result.result {
        Some(p) => p,
        None => {
            return Err(
                Error::MissingResult {
                    name: String::from_str("select_result"),
                    expected: 1,
                    actual: 0,
                },
            );
        },
    };
    match payload {
        ResultPayload::Select(sp) => {
            match codec::decode(&sp.raw_data) {
                Some(s) => Ok(ObjectResult::Select(s)),
                None => Err(Error::DecodeFailure),
            }
        },
        ResultPayload::Mutate(m) => Ok(ObjectResult::Mutate(m)),
    }
}

/// A success-headed wire result whose payload is a select carrying exactly
/// the given raw bytes.
pub open spec fn is_success_select(result: GrpcObjectResult, bytes: Seq<u8>) -> bool {
    &&& result.header matches Some(h) && h.code == 0
    &&& result.result matches Some(ResultPayload::Select(sp)) && sp.raw_data@ == bytes
}

/// Round trip across the wire: a well-formed tabular result that a producer
/// encoded into a success select payload is received intact — interpreting
/// that wire result yields the very value the producer encoded.
pub proof fn lemma_select_round_trip(
    v: codec::SelectResultView,
    result: GrpcObjectResult,
    r: Result<ObjectResult, Error>,
)
    requires
        v.wf(),
        is_success_select(result, codec::encode_bytes(v)),
        select_interpretation(result, r),
    ensures
        r matches Ok(ObjectResult::Select(s)) && s@ == v,
{
    codec::lemma_decode_of_encode(v);
}

/// Some completion carries `v` as the answer for position `p`.
pub open spec fn answers(completions: Seq<(usize, GrpcObjectResult)>, p: int, v: GrpcObjectResult) -> bool {
    exists|j: int| 0 <= j < completions.len() && (#[trigger] completions[j]).0 == p
        && completions[j].1 == v
}

/// Some completion answers position `p`.
pub open spec fn covers(completions: Seq<(usize, GrpcObjectResult)>, p: int) -> bool {
    exists|j: int| 0 <= j < completions.len() && (#[trigger] completions[j]).0 == p
}

/// Places each completed result at the position of the request it answers,
/// whatever order the completions arrived in: position `i` of the returned
/// sequence answers request `i`, independent of completion order.
pub fn assemble_positional(n: usize, completions: Vec<(usize, GrpcObjectResult)>) -> (r: Vec<
    GrpcObjectResult,
>)
    requires
        completions@.len() == n,
        forall|j: int| 0 <= j < completions@.len() ==> (#[trigger] completions@[j]).0 < n,
        forall|p: int| 0 <= p < n ==> covers(completions@, p),
    ensures
        r@.len() == n,
        forall|p: int| 0 <= p < n ==> answers(completions@, p, #[trigger] r@[p]),
{
    let ghost all = completions@;
    let mut slots: Vec<Option<GrpcObjectResult>> = Vec::new();
    let mut i: usize = 0;
    while i < n
        invariant
            i <= n,
            slots@.len() == i,
            forall|p: int| 0 <= p < i ==> (#[trigger] slots@[p]) is None,
        decreases n - i,
    {
        slots.push(None);
        i = i + 1;
    }
    let mut rem = completions;
    while rem.len() > 0
        invariant
            slots@.len() == n,
            rem@.len() <= all.len(),
            rem@ == all.take(rem@.len() as int),
            forall|j: int| 0 <= j < all.len() ==> (#[trigger] all[j]).0 < n,
            forall|p: int| 0 <= p < n ==> ((#[trigger] slots@[p]) matches Some(v) ==> answers(
                all,
                p,
                v,
            )),
            forall|j: int| rem@.len() <= j < all.len() ==> slots@[((#[trigger] all[j]).0) as int]
                is Some,
        decreases rem@.len(),
    {
        let ghost before = rem@;
        match rem.pop() {
            Some((p, v)) => {
                proof {
                    assert(before == all.take(before.len() as int));
                    assert(before[before.len() - 1] == all[before.len() - 1]);
                    assert(rem@ == before.subrange(0, before.len() - 1));
                    assert(rem@ =~= all.take(rem@.len() as int));
                    assert((all[before.len() - 1]).0 == p && (all[before.len() - 1]).1 == v);
                    assert(p < n);
                }
                slots.set(p, Some(v));
                proof {
                    assert(answers(all, p as int, v)) by {
                        assert(0 <= before.len() - 1 < all.len() && (all[before.len() - 1]).0
                            == p && (all[before.len() - 1]).1 == v);
                    }
                }
            },
            None => {
                proof {
                    assert(false);
                }
            },
        }
    }
    assert forall|p: int| 0 <= p < n implies (#[trigger] slots@[p]) is Some by {
        assert(covers(all, p));
        let j = choose|j: int| 0 <= j < all.len() && (#[trigger] all[j]).0 == p;
        assert(slots@[(all[j].0) as int] is Some);
    }
    let mut rev: Vec<GrpcObjectResult> = Vec::new();
    while slots.len() > 0
        invariant
            slots@.len() + rev@.len() == n,
            forall|p: int| 0 <= p < slots@.len() ==> (#[trigger] slots@[p]) is Some,
            forall|q: int| 0 <= q < rev@.len() ==> answers(all, n - 1 - q, #[trigger] rev@[q]),
            forall|p: int| 0 <= p < slots@.len() ==> ((#[trigger] slots@[p]) matches Some(v)
                ==> answers(all, p, v)),
        decreases slots@.len(),
    {
        let ghost pos = slots@.len() - 1;
        match slots.pop() {
            Some(opt) => {
                match opt {
                    Some(v) => {
                        proof {
                            assert(answers(all, pos, v));
                        }
                        rev.push(v);
                    },
                    None => {
                        proof {
                            assert(false);
                        }
                    },
                }
            },
            None => {
                proof {
                    assert(false);
                }
            },
        }
    }
    let mut out: Vec<GrpcObjectResult> = Vec::new();
    while rev.len() > 0
        invariant
            rev@.len() + out@.len() == n,
            forall|q: int| 0 <= q < rev@.len() ==> answers(all, n - 1 - q, #[trigger] rev@[q]),
            forall|p: int| 0 <= p < out@.len() ==> answers(all, p, #[trigger] out@[p]),
        decreases rev@.len(),
    {
        match rev.pop() {
            Some(v) => {
                proof {
                    assert(answers(all, out@.len() as int, v));
                }
                out.push(v);
            },
            None => {
                proof {
                    assert(false);
                }
            },
        }
    }
    out
}

} // verus!
