use engram::codec::SelectResult;
use engram::database::interpret_select;
use engram::database::{Database, ObjectResult};
use engram::error::Error;
use engram::proto::{MutateResult, ObjectExpr, ResultPayload, SelectExpr};
use engram::query_handler::{
    answer_outcome, describe_statement, execute_request, expect_single, failure_result,
    output_payload, serve_batch, success_result, DataPoint, DescribeHandler, GenericQueryHandler,
    LogicalPlan, Output, ProtocolRequest, QueryContext, QueryEngine, RangeQuery,
    RangeQueryHandler, Schema, SqlTextHandler, Statement,
};

fn ctx() -> QueryContext {
    QueryContext { catalog: "main".to_string(), schema: "public".to_string(), trace_id: 42 }
}

/// A toy instance: its text capability answers one output per `;`-separated
/// statement, its engine plans everything into an opaque plan and executes
/// any plan as one affected row.
struct TestInstance;

impl SqlTextHandler for TestInstance {
    fn exec(&self, sql: &String, _ctx: &QueryContext) -> Vec<Result<Output, Error>> {
        sql.split(';')
            .map(|s| s.trim())
            .filter(|s| !s.is_empty())
            .map(|_| Ok(Output::AffectedRows(1)))
            .collect()
    }
}

impl RangeQueryHandler for TestInstance {
    fn exec(&self, query: &RangeQuery, _ctx: &QueryContext) -> Vec<Result<Output, Error>> {
        let steps = if query.step_millis > 0 {
            (query.end_millis - query.start_millis) / query.step_millis
        } else {
            0
        };
        (0..steps.max(1)).map(|_| Ok(Output::AffectedRows(0))).collect()
    }
}

impl QueryEngine for TestInstance {
    fn plan(&self, stmt: &Statement, _ctx: &QueryContext) -> Result<LogicalPlan, Error> {
        match stmt {
            Statement::Ddl(text) if text.is_empty() => {
                Err(Error::InvalidQuery { reason: "empty statement".to_string() })
            }
            _ => Ok(LogicalPlan { bytes: vec![1] }),
        }
    }

    fn execute(&self, _plan: LogicalPlan, _ctx: &QueryContext) -> Result<Output, Error> {
        Ok(Output::AffectedRows(1))
    }

    fn describe(&self, _plan: &LogicalPlan) -> Result<Schema, Error> {
        Ok(Schema { column_names: vec!["number".to_string()] })
    }
}

#[test]
fn two_statements_through_the_single_result_entry_point_fail() {
    let r = execute_request(&TestInstance, ProtocolRequest::Sql("select 1; select 2".to_string()), &ctx());
    assert_eq!(
        r.unwrap_err(),
        Error::NotSupported {
            feature: "multi-statement SQL through this entry point".to_string()
        }
    );
}

#[test]
fn one_statement_yields_exactly_one_output() {
    let r = execute_request(&TestInstance, ProtocolRequest::Sql("select 1".to_string()), &ctx());
    assert_eq!(r.unwrap(), Output::AffectedRows(1));
}

#[test]
fn expect_single_hands_back_the_sole_result_untouched() {
    let sole = expect_single(vec![Ok(Output::AffectedRows(5))], "anything").unwrap();
    assert_eq!(sole, Output::AffectedRows(5));
    let err = expect_single(Vec::new(), "multi-statement PromQL through this entry point")
        .unwrap_err();
    assert_eq!(
        err,
        Error::NotSupported {
            feature: "multi-statement PromQL through this entry point".to_string()
        }
    );
}

#[test]
fn a_sole_handler_error_is_handed_back_verbatim() {
    let boom = Error::RemoteFailure { code: 3, msg: "boom".to_string() };
    let r = expect_single(vec![Err(boom.clone())], "anything");
    assert_eq!(r.unwrap_err(), boom);
}

#[test]
fn mutations_bypass_the_demultiplexing() {
    let r = execute_request(
        &TestInstance,
        ProtocolRequest::Insert { table: "t".to_string(), values: vec![vec![1u8]] },
        &ctx(),
    );
    assert_eq!(r.unwrap(), Output::AffectedRows(1));
}

#[test]
fn variants_without_a_handler_path_are_explicitly_not_supported() {
    let point = DataPoint { metric: "cpu".to_string(), ts_millis: 0, value_bits: 0 };
    let r = execute_request(&TestInstance, ProtocolRequest::LinePoint(point), &ctx());
    assert_eq!(
        r.unwrap_err(),
        Error::NotSupported { feature: "line protocol through this entry point".to_string() }
    );
}

#[test]
fn describing_a_pure_read_yields_its_schema() {
    let stmt = Statement::Query("select number from numbers".to_string());
    let schema = describe_statement(&TestInstance, &stmt, &ctx()).unwrap();
    assert_eq!(schema, Some(Schema { column_names: vec!["number".to_string()] }));
}

#[test]
fn describing_anything_else_is_not_applicable_not_an_error() {
    let stmt = Statement::Ddl("create table t".to_string());
    assert_eq!(describe_statement(&TestInstance, &stmt, &ctx()).unwrap(), None);
}

#[test]
fn an_encoded_output_travels_the_wire_intact() {
    // Producer side: a tabular result becomes a success select payload.
    let records = SelectResult { row_count: 1, columns: vec![vec![7u8, 8u8]] };
    let payload = output_payload(Output::Records(records.clone()));
    let wire = success_result(payload);
    // Consumer side: the correlator receives the very value encoded.
    match interpret_select(wire).unwrap() {
        ObjectResult::Select(s) => assert_eq!(s, records),
        other => panic!("expected a select payload, got {:?}", other),
    }
}

#[test]
fn a_failure_result_carries_its_code_and_message_verbatim() {
    let wire = failure_result(13, "unlucky".to_string());
    let err = interpret_select(wire).unwrap_err();
    assert_eq!(err, Error::RemoteFailure { code: 13, msg: "unlucky".to_string() });
}

#[test]
fn an_instance_with_the_underlying_capabilities_answers_the_generic_one() {
    let r = GenericQueryHandler::exec(
        &TestInstance,
        ProtocolRequest::Sql("select 1".to_string()),
        &ctx(),
    );
    assert_eq!(r.unwrap(), Output::AffectedRows(1));
    let schema = TestInstance.do_describe(&Statement::Ddl("create".to_string()), &ctx());
    assert_eq!(schema.unwrap(), None);
}

#[test]
fn a_served_batch_answers_every_expression_at_its_own_position() {
    let db = Database::new("demo".to_string());
    let headerless = ObjectExpr { header: None, expr: None };
    let insert = Database::insert_expr("t".to_string(), vec![vec![1u8]]);
    let select = Database::select_expr(SelectExpr { sql: "select 1".to_string() });
    let request = db.build_request(vec![insert, headerless, select]);

    let reply = serve_batch(&TestInstance, request, &ctx());
    assert_eq!(reply.len(), 3);
    // Position 0 answers the insert, successfully.
    assert_eq!(reply[0].header.as_ref().unwrap().code, 0);
    // Position 1 answers the invalid expression with a failure, in place.
    assert_ne!(reply[1].header.as_ref().unwrap().code, 0);
    assert_eq!(reply[1].header.as_ref().unwrap().err_msg, "missing header");
    // Position 2 answers the select, successfully.
    assert_eq!(reply[2].header.as_ref().unwrap().code, 0);
}

#[test]
fn a_failed_outcome_is_answered_with_its_kind() {
    let wire = answer_outcome(Err(Error::DecodeFailure));
    let header = wire.header.unwrap();
    assert_ne!(header.code, 0);
    assert_eq!(header.err_msg, "failed to decode the result payload");
}

#[test]
fn a_successful_outcome_is_answered_with_a_success_result() {
    let wire = answer_outcome(Ok(Output::AffectedRows(3)));
    assert_eq!(wire.header.unwrap().code, 0);
    assert_eq!(
        wire.result,
        Some(ResultPayload::Mutate(MutateResult { success: 3, failure: 0 }))
    );
}

#[test]
fn a_tabular_outcome_is_answered_with_its_encoded_bytes() {
    let records = SelectResult { row_count: 1, columns: vec![vec![9u8]] };
    let expected_bytes = engram::codec::encode(&records);
    let wire = answer_outcome(Ok(Output::Records(records)));
    assert_eq!(wire.header.unwrap().code, 0);
    match wire.result.unwrap() {
        ResultPayload::Select(sp) => assert_eq!(sp.raw_data, expected_bytes),
        other => panic!("expected a select payload, got {:?}", other),
    }
}
