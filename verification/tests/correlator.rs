use engram::database::{
    assemble_positional, check_results, insert_reply, interpret_select, single_result, Database,
    ObjectResult,
};
use engram::error::Error;
use engram::proto::{
    Expr, ExprHeader, MutateResult, ObjectExpr, ObjectResult as GrpcObjectResult, ResultHeader,
    ResultPayload, SelectPayload,
};
use engram::PROTOCOL_VERSION;

fn mutate_result(tag: u32) -> GrpcObjectResult {
    GrpcObjectResult {
        header: Some(ResultHeader { code: 0, err_msg: String::new() }),
        result: Some(ResultPayload::Mutate(MutateResult { success: tag, failure: 0 })),
    }
}

#[test]
fn database_handle_keeps_its_name() {
    let db = Database::new("db".to_string());
    assert_eq!(db.name(), "db");
}

#[test]
fn insert_expr_carries_protocol_version() {
    let expr = Database::insert_expr("t".to_string(), vec![vec![1u8], vec![2u8]]);
    assert_eq!(expr.header, Some(ExprHeader { version: PROTOCOL_VERSION }));
    assert_eq!(expr.header.unwrap().version, 1);
    match expr.expr {
        Some(Expr::Insert(ie)) => {
            assert_eq!(ie.table_name, "t");
            assert_eq!(ie.values, vec![vec![1u8], vec![2u8]]);
        }
        other => panic!("expected an insert expression, got {:?}", other),
    }
}

#[test]
fn select_expr_carries_protocol_version() {
    let sel = engram::proto::SelectExpr { sql: "select 1".to_string() };
    let expr = Database::select_expr(sel.clone());
    assert_eq!(expr.header, Some(ExprHeader { version: 1 }));
    assert_eq!(expr.expr, Some(Expr::Select(sel)));
}

#[test]
fn batch_of_zero_checks_out() {
    let out = check_results(0, Vec::new()).unwrap();
    assert_eq!(out.len(), 0);
}

#[test]
fn count_mismatch_is_a_hard_failure() {
    let results = vec![mutate_result(1), mutate_result(2)];
    let err = check_results(3, results).unwrap_err();
    assert_eq!(
        err,
        Error::MissingResult { name: "object_results".to_string(), expected: 3, actual: 2 }
    );
}

#[test]
fn matching_count_hands_results_back_unchanged() {
    let results = vec![mutate_result(1), mutate_result(2), mutate_result(3)];
    let out = check_results(3, results.clone()).unwrap();
    assert_eq!(out, results);
}

#[test]
fn single_result_takes_the_sole_entry() {
    let sole = single_result(vec![mutate_result(9)]).unwrap();
    assert_eq!(sole, mutate_result(9));
    let err = single_result(Vec::new()).unwrap_err();
    assert_eq!(
        err,
        Error::MissingResult { name: "object_results".to_string(), expected: 1, actual: 0 }
    );
}

#[test]
fn positional_correspondence_survives_completion_order() {
    // Five requests; request 3 completes first and request 1 completes last.
    let completions = vec![
        (3usize, mutate_result(13)),
        (4usize, mutate_result(14)),
        (2usize, mutate_result(12)),
        (0usize, mutate_result(10)),
        (1usize, mutate_result(11)),
    ];
    let out = assemble_positional(5, completions);
    assert_eq!(out.len(), 5);
    assert_eq!(out[0], mutate_result(10));
    assert_eq!(out[1], mutate_result(11));
    assert_eq!(out[2], mutate_result(12));
    assert_eq!(out[3], mutate_result(13));
    assert_eq!(out[4], mutate_result(14));
}

#[test]
fn non_zero_status_is_a_remote_failure_and_never_decodes() {
    // The payload bytes are malformed on purpose: a non-success header must
    // win before any decode is attempted.
    let result = GrpcObjectResult {
        header: Some(ResultHeader { code: 7, err_msg: "remote exploded".to_string() }),
        result: Some(ResultPayload::Select(SelectPayload { raw_data: vec![0xff, 0xee] })),
    };
    let err = interpret_select(result).unwrap_err();
    assert_eq!(err, Error::RemoteFailure { code: 7, msg: "remote exploded".to_string() });
    assert_ne!(err, Error::DecodeFailure);
}

#[test]
fn malformed_payload_on_success_is_a_decode_failure() {
    let result = GrpcObjectResult {
        header: Some(ResultHeader { code: 0, err_msg: String::new() }),
        result: Some(ResultPayload::Select(SelectPayload { raw_data: vec![0xff, 0xee] })),
    };
    assert_eq!(interpret_select(result).unwrap_err(), Error::DecodeFailure);
}

#[test]
fn missing_header_and_missing_payload_fail_distinctly() {
    let no_header = GrpcObjectResult { header: None, result: None };
    assert_eq!(interpret_select(no_header).unwrap_err(), Error::MissingHeader);

    let no_payload = GrpcObjectResult {
        header: Some(ResultHeader { code: 0, err_msg: String::new() }),
        result: None,
    };
    assert_eq!(
        interpret_select(no_payload).unwrap_err(),
        Error::MissingResult { name: "select_result".to_string(), expected: 1, actual: 0 }
    );
}

#[test]
fn mutate_payload_answers_a_select_shaped_request() {
    // A producer may answer a read-shaped request with a mutate summary; the
    // consumer branches on the payload tag, never on its own request shape.
    let result = GrpcObjectResult {
        header: Some(ResultHeader { code: 0, err_msg: String::new() }),
        result: Some(ResultPayload::Mutate(MutateResult { success: 2, failure: 0 })),
    };
    match interpret_select(result).unwrap() {
        ObjectResult::Mutate(m) => assert_eq!(m, MutateResult { success: 2, failure: 0 }),
        other => panic!("expected a mutate payload, got {:?}", other),
    }
}

#[test]
fn insert_round_trip_as_single_operation_batch() {
    // submit("db", [Insert{table:"t", values:[b1, b2]}]) answered by one
    // mutate-shaped result.
    let db = Database::new("db".to_string());
    let expr = Database::insert_expr("t".to_string(), vec![vec![1u8, 2u8], vec![3u8]]);
    let request = db.build_request(vec![expr]);
    assert_eq!(request.name, "db");
    assert_eq!(request.exprs.len(), 1);

    // The server legitimately answers with a mutate payload.
    let reply = vec![mutate_result(2)];
    let checked = check_results(request.exprs.len(), reply).unwrap();
    assert_eq!(checked.len(), 1);
    match interpret_select(checked.into_iter().next().unwrap()).unwrap() {
        ObjectResult::Mutate(m) => assert_eq!(m.success, 2),
        other => panic!("expected a mutate payload, got {:?}", other),
    }
}

#[test]
fn short_reply_to_a_two_operation_batch_fails_the_count_invariant() {
    let db = Database::new("db".to_string());
    let e1 = Database::insert_expr("t".to_string(), vec![vec![1u8]]);
    let e2 = Database::insert_expr("t".to_string(), vec![vec![2u8]]);
    let request = db.build_request(vec![e1, e2]);
    let reply = vec![mutate_result(1)];
    let err = check_results(request.exprs.len(), reply).unwrap_err();
    assert_eq!(
        err,
        Error::MissingResult { name: "object_results".to_string(), expected: 2, actual: 1 }
    );
}

#[test]
fn insert_reply_wants_exactly_one_result() {
    assert_eq!(insert_reply(vec![mutate_result(1)]), Ok(()));
    assert!(insert_reply(vec![mutate_result(1), mutate_result(2)]).is_err());
}
