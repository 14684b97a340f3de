//! Merge parameters and the course of a merge.

use std::sync::Arc;

use arrow::ffi_stream::FFI_ArrowArrayStream;
use arrow::record_batch::RecordBatchIterator;
use arrow_schema::Schema;

use lance_c::arrow_import::{is_importable, stream_slots};
use lance_c::error::{ffi_status, Error, LanceErrorCode};
use lance_c::helpers::parse_c_string;
use lance_c::merge_insert::{
    plan_merge_insert, LanceMergeInsertResult, MergeInsertAction, MergeInsertArgs,
    MergeInsertCall, MergeInsertEvent, MergeStats,
};
use lance_c::merge_params::{
    read_optional_expr, reject_unused_expr, resolve_params, LanceMergeInsertParams,
    LanceMergeWhenMatched, LanceMergeWhenNotMatched, LanceMergeWhenNotMatchedBySource,
    ResolvedParams, ResolvedWhenNotMatchedBySource, WhenMatched,
};
use lance_c::text::{decimal_text, signed_decimal_text};

fn c_str(s: &str) -> Option<Vec<u8>> {
    Some(s.as_bytes().to_vec())
}

fn params(
    when_matched: i32,
    when_matched_expr: Option<Vec<u8>>,
    when_not_matched: i32,
    when_not_matched_by_source: i32,
    when_not_matched_by_source_expr: Option<Vec<u8>>,
) -> LanceMergeInsertParams {
    LanceMergeInsertParams {
        when_matched,
        when_matched_expr,
        when_not_matched,
        when_not_matched_by_source,
        when_not_matched_by_source_expr,
    }
}

fn args(params: Option<LanceMergeInsertParams>, out_result: bool) -> MergeInsertArgs {
    MergeInsertArgs {
        dataset: true,
        on_columns: Some(vec![c_str("id"), c_str("label"), None]),
        num_on_columns: 2,
        params,
        out_result,
    }
}

fn message(result: Result<ResolvedParams, Error>) -> String {
    let error = result.unwrap_err();
    assert_eq!(error.code, LanceErrorCode::InvalidArgument);
    error.message
}

#[test]
fn discriminants_are_pinned() {
    assert_eq!(LanceMergeWhenMatched::DoNothing as i32, 0);
    assert_eq!(LanceMergeWhenMatched::UpdateAll as i32, 1);
    assert_eq!(LanceMergeWhenMatched::UpdateIf as i32, 2);
    assert_eq!(LanceMergeWhenMatched::Fail as i32, 3);
    assert_eq!(LanceMergeWhenMatched::Delete as i32, 4);
    assert_eq!(LanceMergeWhenNotMatched::InsertAll as i32, 0);
    assert_eq!(LanceMergeWhenNotMatched::DoNothing as i32, 1);
    assert_eq!(LanceMergeWhenNotMatchedBySource::Keep as i32, 0);
    assert_eq!(LanceMergeWhenNotMatchedBySource::Delete as i32, 1);
    assert_eq!(LanceMergeWhenNotMatchedBySource::DeleteIf as i32, 2);
    for raw in 0..5 {
        assert_eq!(LanceMergeWhenMatched::from_raw(raw).unwrap() as i32, raw);
    }
    for raw in 0..2 {
        assert_eq!(LanceMergeWhenNotMatched::from_raw(raw).unwrap() as i32, raw);
    }
    for raw in 0..3 {
        assert_eq!(
            LanceMergeWhenNotMatchedBySource::from_raw(raw).unwrap() as i32,
            raw
        );
    }
}

#[test]
fn negative_discriminants_are_spelled_out() {
    assert_eq!(
        LanceMergeWhenMatched::from_raw(-1).unwrap_err().message,
        "invalid when_matched -1; expected 0..=4 (see LanceMergeWhenMatched)"
    );
    assert_eq!(
        LanceMergeWhenNotMatched::from_raw(i32::MIN)
            .unwrap_err()
            .message,
        "invalid when_not_matched -2147483648; expected 0 or 1 (see LanceMergeWhenNotMatched)"
    );
    assert_eq!(
        LanceMergeWhenNotMatchedBySource::from_raw(3)
            .unwrap_err()
            .message,
        "invalid when_not_matched_by_source 3; expected 0..=2 (see LanceMergeWhenNotMatchedBySource)"
    );
}

#[test]
fn decimal_texts() {
    assert_eq!(decimal_text(0), "0");
    assert_eq!(decimal_text(1234567890), "1234567890");
    assert_eq!(decimal_text(u64::MAX), "18446744073709551615");
    assert_eq!(signed_decimal_text(42), "42");
    assert_eq!(signed_decimal_text(-7), "-7");
    assert_eq!(signed_decimal_text(i32::MIN), "-2147483648");
}

#[test]
fn no_params_mean_find_or_create() {
    for resolved in [
        resolve_params(&None).unwrap(),
        resolve_params(&Some(params(0, None, 0, 0, None))).unwrap(),
        ResolvedParams::defaults(),
    ] {
        assert!(matches!(resolved.when_matched, WhenMatched::DoNothing));
        assert_eq!(resolved.when_not_matched, LanceMergeWhenNotMatched::InsertAll);
        assert!(matches!(
            resolved.when_not_matched_by_source,
            ResolvedWhenNotMatchedBySource::Keep
        ));
    }
}

#[test]
fn each_mode_resolves_to_its_behavior() {
    let resolved = resolve_params(&Some(params(1, None, 1, 1, None))).unwrap();
    assert!(matches!(resolved.when_matched, WhenMatched::UpdateAll));
    assert_eq!(resolved.when_not_matched, LanceMergeWhenNotMatched::DoNothing);
    assert!(matches!(
        resolved.when_not_matched_by_source,
        ResolvedWhenNotMatchedBySource::Delete
    ));
    assert!(matches!(
        resolve_params(&Some(params(3, None, 0, 0, None)))
            .unwrap()
            .when_matched,
        WhenMatched::Fail
    ));
    assert!(matches!(
        resolve_params(&Some(params(4, None, 0, 0, None)))
            .unwrap()
            .when_matched,
        WhenMatched::Delete
    ));
}

#[test]
fn filters_carry_over_byte_for_byte() {
    let resolved = resolve_params(&Some(params(
        2,
        c_str("target.value > 3 AND name = 'zoë'"),
        0,
        2,
        c_str("id < 3"),
    )))
    .unwrap();
    match resolved.when_matched {
        WhenMatched::UpdateIf(filter) => {
            assert_eq!(filter, "target.value > 3 AND name = 'zoë'")
        }
        other => panic!("{other:?}"),
    }
    match resolved.when_not_matched_by_source {
        ResolvedWhenNotMatchedBySource::DeleteIf(filter) => assert_eq!(filter, "id < 3"),
        other => panic!("{other:?}"),
    }
}

#[test]
fn every_mode_without_a_filter_refuses_one_unread() {
    for expr in [c_str("x"), c_str(""), Some(vec![0xff])] {
        for (mode, name) in [(0, "DoNothing"), (1, "UpdateAll"), (3, "Fail"), (4, "Delete")] {
            assert_eq!(
                message(resolve_params(&Some(params(mode, expr.clone(), 0, 0, None)))),
                format!("when_matched_expr must be NULL when when_matched={name}")
            );
        }
        for (mode, name) in [(0, "Keep"), (1, "Delete")] {
            assert_eq!(
                message(resolve_params(&Some(params(0, None, 0, mode, expr.clone())))),
                format!(
                    "when_not_matched_by_source_expr must be NULL when when_not_matched_by_source={name}"
                )
            );
        }
    }
}

#[test]
fn only_the_filter_modes_take_an_expression() {
    for raw in -1..6 {
        assert_eq!(LanceMergeWhenMatched::takes_expr(raw), raw == 2);
        assert_eq!(LanceMergeWhenNotMatchedBySource::takes_expr(raw), raw == 2);
    }
}

#[test]
fn the_first_fault_of_the_params_is_reported() {
    // Mode numbers first, then the filters that the modes take, then each mode against
    // the expression beside it.
    assert_eq!(
        message(resolve_params(&Some(params(9, c_str(""), 9, 9, c_str(""))))),
        "invalid when_matched 9; expected 0..=4 (see LanceMergeWhenMatched)"
    );
    assert_eq!(
        message(resolve_params(&Some(params(2, None, 0, 2, c_str(""))))),
        "when_not_matched_by_source_expr must not be empty"
    );
    assert_eq!(
        message(resolve_params(&Some(params(1, c_str("x"), 0, 2, c_str(""))))),
        "when_not_matched_by_source_expr must not be empty"
    );
    assert_eq!(
        message(resolve_params(&Some(params(2, None, 0, 0, c_str("x"))))),
        "when_matched=UpdateIf requires when_matched_expr"
    );
    assert_eq!(
        message(resolve_params(&Some(params(2, None, 0, 2, None)))),
        "when_matched=UpdateIf requires when_matched_expr"
    );
    assert_eq!(
        message(resolve_params(&Some(params(1, c_str("x"), 0, 2, None)))),
        "when_matched_expr must be NULL when when_matched=UpdateAll"
    );
    let not_utf8 = message(resolve_params(&Some(params(2, Some(vec![0xff]), 0, 0, None))));
    assert_eq!(not_utf8, "string is not valid UTF-8");
}

#[test]
fn c_strings_are_read_as_utf8() {
    assert_eq!(parse_c_string(&None).unwrap(), None);
    assert_eq!(parse_c_string(&c_str("")).unwrap(), Some(String::new()));
    assert_eq!(
        parse_c_string(&c_str("größe €")).unwrap(),
        Some("größe €".to_string())
    );
    for bytes in [vec![0xc0, 0x80], vec![b'a', 0x80], vec![0xed, 0xa0, 0x80]] {
        let error = parse_c_string(&Some(bytes)).unwrap_err();
        assert_eq!(error.code, LanceErrorCode::InvalidArgument);
    }
}

#[test]
fn optional_expressions() {
    assert_eq!(read_optional_expr(&None, "f").unwrap(), None);
    assert_eq!(
        read_optional_expr(&c_str("id > 0"), "f").unwrap(),
        Some("id > 0".to_string())
    );
    assert_eq!(
        read_optional_expr(&c_str(""), "f").unwrap_err().message,
        "f must not be empty"
    );
    assert!(reject_unused_expr::<String>("f", "Keep", &None).is_ok());
    assert_eq!(
        reject_unused_expr("f", "Keep", &Some("x".to_string()))
            .unwrap_err()
            .message,
        "f_expr must be NULL when f=Keep"
    );
}

#[test]
fn keys_carry_over_in_order() {
    let plan = plan_merge_insert(&args(None, false)).unwrap();
    assert_eq!(plan.keys, vec!["id".to_string(), "label".to_string()]);
}

#[test]
fn the_first_bad_key_is_reported() {
    let mut bad = args(None, false);
    bad.on_columns = Some(vec![c_str("id"), None, c_str("")]);
    bad.num_on_columns = 3;
    assert_eq!(
        plan_merge_insert(&bad).unwrap_err().message,
        "on_columns[1] must not be NULL or empty"
    );
    bad.on_columns = Some(vec![c_str("id"), Some(vec![0xff]), None]);
    assert_eq!(
        plan_merge_insert(&bad).unwrap_err().message,
        "string is not valid UTF-8"
    );
}

#[test]
fn keys_are_checked_in_front_of_params() {
    let mut bad = args(Some(params(9, None, 9, 9, None)), false);
    bad.on_columns = Some(vec![None]);
    bad.num_on_columns = 1;
    assert_eq!(
        plan_merge_insert(&bad).unwrap_err().message,
        "on_columns[0] must not be NULL or empty"
    );
}

#[test]
fn a_merge_without_a_filter_builds_executes_and_publishes() {
    let (call, action) = MergeInsertCall::begin(true);
    assert!(matches!(action, MergeInsertAction::ImportSource));
    let (call, action) = call.step(MergeInsertEvent::SourceImported(args(None, true)));
    match action {
        MergeInsertAction::BuildJob(plan) => {
            assert_eq!(plan.keys.len(), 2);
            assert!(matches!(plan.behavior.when_matched, WhenMatched::DoNothing));
        }
        other => panic!("{other:?}"),
    }
    let (call, action) = call.step(MergeInsertEvent::JobBuilt);
    assert!(matches!(action, MergeInsertAction::Execute));
    let (call, action) = call.step(MergeInsertEvent::Executed(MergeStats {
        num_inserted_rows: 1,
        num_updated_rows: 2,
        num_deleted_rows: 3,
    }));
    assert!(matches!(call, MergeInsertCall::Ended));
    match &action {
        MergeInsertAction::Publish { out } => assert_eq!(
            *out,
            Some(LanceMergeInsertResult {
                num_inserted_rows: 1,
                num_updated_rows: 2,
                num_deleted_rows: 3,
            })
        ),
        other => panic!("{other:?}"),
    }
    assert_eq!(ffi_status(&action.into_result().unwrap()), 0);
}

#[test]
fn a_delete_filter_is_parsed_first() {
    let (call, _) = MergeInsertCall::begin(true);
    let (call, action) = call.step(MergeInsertEvent::SourceImported(args(
        Some(params(0, None, 1, 2, c_str("id < 3"))),
        false,
    )));
    match action {
        MergeInsertAction::ParseFilter(filter) => assert_eq!(filter, "id < 3"),
        other => panic!("{other:?}"),
    }
    let (call, action) = call.step(MergeInsertEvent::FilterParsed);
    match action {
        MergeInsertAction::BuildJob(plan) => assert!(matches!(
            plan.behavior.when_not_matched_by_source,
            ResolvedWhenNotMatchedBySource::DeleteIf(_)
        )),
        other => panic!("{other:?}"),
    }
    let (call, _) = call.step(MergeInsertEvent::JobBuilt);
    let (_, action) = call.step(MergeInsertEvent::Executed(MergeStats {
        num_inserted_rows: 0,
        num_updated_rows: 0,
        num_deleted_rows: 2,
    }));
    // The caller asked for no statistics.
    assert!(matches!(action, MergeInsertAction::Publish { out: None }));
    assert_eq!(ffi_status(&action.into_result().unwrap()), 0);
}

#[test]
fn an_engine_failure_is_passed_on() {
    let conflict = || Error {
        code: LanceErrorCode::CommitConflict,
        message: "another writer was first".to_string(),
    };
    let (call, _) = MergeInsertCall::begin(true);
    let (call, _) = call.step(MergeInsertEvent::SourceImported(args(None, true)));
    let (call, _) = call.step(MergeInsertEvent::JobBuilt);
    let (call, action) = call.step(MergeInsertEvent::EngineFailed(conflict()));
    assert!(matches!(call, MergeInsertCall::Ended));
    let result = action.into_result().unwrap();
    assert_eq!(ffi_status(&result), -1);
    let error = result.unwrap_err();
    assert_eq!(error.code, LanceErrorCode::CommitConflict);
    assert_eq!(error.message, "another writer was first");
}

#[test]
fn a_released_source_is_refused() {
    let stream = FFI_ArrowArrayStream::empty();
    let slots = stream_slots(&stream);
    assert!(!slots.release && !slots.get_schema && !slots.get_next);
    let (call, _) = MergeInsertCall::begin(true);
    let (reader, (call, action)) = call.import_source(stream, args(None, true));
    assert!(reader.is_none());
    assert!(matches!(call, MergeInsertCall::Ended));
    let error = action.into_result().unwrap().unwrap_err();
    assert_eq!(error.code, LanceErrorCode::InvalidArgument);
    assert_eq!(
        error.message,
        "C Data interface error: input stream is already released"
    );
}

#[test]
fn a_source_without_its_schema_callback_is_not_imported() {
    let mut raw = FFI_ArrowArrayStream::new(Box::new(RecordBatchIterator::new(
        Vec::new(),
        Arc::new(Schema::empty()),
    )));
    raw.get_schema = None;
    assert!(!is_importable(&raw));
    let (call, _) = MergeInsertCall::begin(true);
    assert!(call.try_import_source(raw, args(None, true)).is_none());
}

#[test]
fn a_source_that_can_be_imported_is() {
    let raw = FFI_ArrowArrayStream::new(Box::new(RecordBatchIterator::new(
        Vec::new(),
        Arc::new(Schema::empty()),
    )));
    let (call, _) = MergeInsertCall::begin(true);
    let (reader, (_, action)) = call.try_import_source(raw, args(None, true)).unwrap();
    assert_eq!(reader.unwrap().reader.count(), 0);
    assert!(matches!(action, MergeInsertAction::BuildJob(_)));
}
