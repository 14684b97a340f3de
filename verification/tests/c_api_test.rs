//! Rejected merges: what the C caller reads, and that the engine is not asked.

use std::sync::Arc;

use arrow::array::{Float32Array, Int32Array, StringArray};
use arrow::ffi_stream::FFI_ArrowArrayStream;
use arrow::record_batch::{RecordBatch, RecordBatchIterator};
use arrow_schema::{DataType, Field, Schema};

use lance_c::error::{ffi_status, LanceErrorCode};
use lance_c::merge_insert::{
    LanceMergeInsertResult, MergeInsertAction, MergeInsertArgs, MergeInsertCall,
};
use lance_c::merge_params::{
    LanceMergeInsertParams, LanceMergeWhenMatched, LanceMergeWhenNotMatchedBySource,
};

/// A C string argument.
fn c_str(s: &str) -> Option<Vec<u8>> {
    Some(s.as_bytes().to_vec())
}

/// Build a {id, value, label} batch.
fn make_merge_source(rows: &[(i32, f32, &str)]) -> RecordBatch {
    let schema = Arc::new(Schema::new(vec![
        Field::new("id", DataType::Int32, false),
        Field::new("value", DataType::Float32, true),
        Field::new("label", DataType::Utf8, true),
    ]));
    let ids: Vec<i32> = rows.iter().map(|r| r.0).collect();
    let values: Vec<f32> = rows.iter().map(|r| r.1).collect();
    let labels: Vec<&str> = rows.iter().map(|r| r.2).collect();
    RecordBatch::try_new(
        schema,
        vec![
            Arc::new(Int32Array::from(ids)),
            Arc::new(Float32Array::from(values)),
            Arc::new(StringArray::from(labels)),
        ],
    )
    .unwrap()
}

fn batch_to_ffi_stream(batch: RecordBatch) -> FFI_ArrowArrayStream {
    let schema = batch.schema();
    FFI_ArrowArrayStream::new(Box::new(RecordBatchIterator::new(vec![Ok(batch)], schema)))
}

/// What a call that fails before the engine is asked leaves behind.
struct Rejected {
    status: i32,
    code: LanceErrorCode,
    message: String,
}

/// Runs a call up to the engine; the call has to fail before it.
fn rejected(args: MergeInsertArgs) -> Rejected {
    let source = make_merge_source(&[(100, 0.0, "x")]);
    let stream = batch_to_ffi_stream(source);
    let (call, action) = MergeInsertCall::begin(true);
    assert!(matches!(action, MergeInsertAction::ImportSource));
    let (reader, (call, action)) = call.import_source(stream, args);
    assert!(reader.is_some(), "the stream is sound");
    assert!(matches!(call, MergeInsertCall::Ended));
    finished(action)
}

fn finished(
    action: MergeInsertAction<
        String,
        lance_c::merge_insert::MergeInsertPlan,
        lance_c::error::Error,
    >,
) -> Rejected {
    assert!(matches!(action, MergeInsertAction::Fail(_)));
    let result = action.into_result().unwrap();
    let status = ffi_status(&result);
    let error = result.unwrap_err();
    Rejected {
        status,
        code: error.code,
        message: error.message,
    }
}

/// Sound arguments: keyed on `id`, no parameters.
fn on_id() -> MergeInsertArgs {
    MergeInsertArgs {
        dataset: true,
        on_columns: Some(vec![c_str("id")]),
        num_on_columns: 1,
        params: None,
        out_result: false,
    }
}

fn on_id_with(params: LanceMergeInsertParams) -> MergeInsertArgs {
    MergeInsertArgs {
        params: Some(params),
        ..on_id()
    }
}

#[test]
fn test_merge_insert_out_result_untouched_on_error() {
    let sentinel = LanceMergeInsertResult {
        num_inserted_rows: 0xDEAD,
        num_updated_rows: 0xBEEF,
        num_deleted_rows: 0xCAFE,
    };
    let mut out = sentinel;

    let source = make_merge_source(&[(100, 0.0, "x")]);
    let stream = batch_to_ffi_stream(source);
    let (call, _) = MergeInsertCall::begin(true);
    let (_reader, (_, action)) = call.import_source(
        stream,
        MergeInsertArgs {
            dataset: true,
            on_columns: None,
            num_on_columns: 0,
            params: None,
            out_result: true,
        },
    );
    if let MergeInsertAction::Publish {
        out: Some(statistics),
    } = &action
    {
        out = *statistics;
    }
    assert_eq!(finished(action).status, -1);
    assert_eq!(out, sentinel, "out slot must be untouched on error");
}

#[test]
fn test_merge_insert_null_dataset_rejected() {
    let call = rejected(MergeInsertArgs {
        dataset: false,
        ..on_id()
    });
    assert_eq!(call.status, -1);
    assert_eq!(call.code, LanceErrorCode::InvalidArgument);
    assert_eq!(call.message, "dataset must not be NULL");
}

#[test]
fn test_merge_insert_null_source_rejected() {
    let (call, action) = MergeInsertCall::begin(false);
    assert!(matches!(call, MergeInsertCall::Ended));
    let call = finished(action);
    assert_eq!(call.status, -1);
    assert_eq!(call.code, LanceErrorCode::InvalidArgument);
    assert_eq!(call.message, "source stream must not be NULL");
}

#[test]
fn test_merge_insert_zero_num_on_columns_rejected() {
    let call = rejected(MergeInsertArgs {
        on_columns: None,
        num_on_columns: 0,
        ..on_id()
    });
    assert_eq!(call.status, -1);
    assert_eq!(call.code, LanceErrorCode::InvalidArgument);
    assert_eq!(call.message, "num_on_columns must be >= 1");
}

#[test]
fn test_merge_insert_null_on_columns_rejected() {
    let call = rejected(MergeInsertArgs {
        on_columns: None,
        num_on_columns: 1,
        ..on_id()
    });
    assert_eq!(call.status, -1);
    assert_eq!(call.code, LanceErrorCode::InvalidArgument);
    assert_eq!(
        call.message,
        "on_columns must not be NULL when num_on_columns > 0"
    );
}

#[test]
fn test_merge_insert_empty_key_entry_rejected() {
    let call = rejected(MergeInsertArgs {
        on_columns: Some(vec![c_str("")]),
        ..on_id()
    });
    assert_eq!(call.status, -1);
    assert_eq!(call.code, LanceErrorCode::InvalidArgument);
    assert_eq!(call.message, "on_columns[0] must not be NULL or empty");
}

#[test]
fn test_merge_insert_null_entry_in_on_columns_rejected() {
    let call = rejected(MergeInsertArgs {
        on_columns: Some(vec![None]),
        ..on_id()
    });
    assert_eq!(call.status, -1);
    assert_eq!(call.code, LanceErrorCode::InvalidArgument);
    assert_eq!(call.message, "on_columns[0] must not be NULL or empty");
}

#[test]
fn test_merge_insert_invalid_when_matched_discriminant_rejected() {
    let call = rejected(on_id_with(LanceMergeInsertParams {
        when_matched: 99,
        when_matched_expr: None,
        when_not_matched: 0,
        when_not_matched_by_source: 0,
        when_not_matched_by_source_expr: None,
    }));
    assert_eq!(call.status, -1);
    assert_eq!(call.code, LanceErrorCode::InvalidArgument);
    assert_eq!(
        call.message,
        "invalid when_matched 99; expected 0..=4 (see LanceMergeWhenMatched)"
    );
}

#[test]
fn test_merge_insert_invalid_when_not_matched_discriminant_rejected() {
    let call = rejected(on_id_with(LanceMergeInsertParams {
        when_matched: 0,
        when_matched_expr: None,
        when_not_matched: 99,
        when_not_matched_by_source: 0,
        when_not_matched_by_source_expr: None,
    }));
    assert_eq!(call.status, -1);
    assert_eq!(call.code, LanceErrorCode::InvalidArgument);
    assert_eq!(
        call.message,
        "invalid when_not_matched 99; expected 0 or 1 (see LanceMergeWhenNotMatched)"
    );
}

#[test]
fn test_merge_insert_invalid_when_not_matched_by_source_discriminant_rejected() {
    let call = rejected(on_id_with(LanceMergeInsertParams {
        when_matched: 0,
        when_matched_expr: None,
        when_not_matched: 0,
        when_not_matched_by_source: 99,
        when_not_matched_by_source_expr: None,
    }));
    assert_eq!(call.status, -1);
    assert_eq!(call.code, LanceErrorCode::InvalidArgument);
    assert_eq!(
        call.message,
        "invalid when_not_matched_by_source 99; expected 0..=2 (see LanceMergeWhenNotMatchedBySource)"
    );
}

#[test]
fn test_merge_insert_empty_expr_rejected() {
    let call = rejected(on_id_with(LanceMergeInsertParams {
        when_matched: LanceMergeWhenMatched::UpdateIf as i32,
        when_matched_expr: c_str(""),
        when_not_matched: 0,
        when_not_matched_by_source: 0,
        when_not_matched_by_source_expr: None,
    }));
    assert_eq!(call.status, -1);
    assert_eq!(call.code, LanceErrorCode::InvalidArgument);
    assert_eq!(call.message, "when_matched_expr must not be empty");
}

#[test]
fn test_merge_insert_update_if_missing_expr_rejected() {
    let call = rejected(on_id_with(LanceMergeInsertParams {
        when_matched: LanceMergeWhenMatched::UpdateIf as i32,
        when_matched_expr: None,
        when_not_matched: 0,
        when_not_matched_by_source: 0,
        when_not_matched_by_source_expr: None,
    }));
    assert_eq!(call.status, -1);
    assert_eq!(call.code, LanceErrorCode::InvalidArgument);
    assert_eq!(
        call.message,
        "when_matched=UpdateIf requires when_matched_expr"
    );
}

#[test]
fn test_merge_insert_unused_expr_for_update_all_rejected() {
    let call = rejected(on_id_with(LanceMergeInsertParams {
        when_matched: LanceMergeWhenMatched::UpdateAll as i32,
        when_matched_expr: c_str("id > 0"),
        when_not_matched: 0,
        when_not_matched_by_source: 0,
        when_not_matched_by_source_expr: None,
    }));
    assert_eq!(call.status, -1);
    assert_eq!(call.code, LanceErrorCode::InvalidArgument);
    assert_eq!(
        call.message,
        "when_matched_expr must be NULL when when_matched=UpdateAll"
    );
}

#[test]
fn test_merge_insert_unused_expr_for_keep_rejected() {
    let call = rejected(on_id_with(LanceMergeInsertParams {
        when_matched: 0,
        when_matched_expr: None,
        when_not_matched: 0,
        when_not_matched_by_source: LanceMergeWhenNotMatchedBySource::Keep as i32,
        when_not_matched_by_source_expr: c_str("id > 0"),
    }));
    assert_eq!(call.status, -1);
    assert_eq!(call.code, LanceErrorCode::InvalidArgument);
    assert_eq!(
        call.message,
        "when_not_matched_by_source_expr must be NULL when when_not_matched_by_source=Keep"
    );
}

#[test]
fn test_merge_insert_delete_if_missing_expr_rejected() {
    let call = rejected(on_id_with(LanceMergeInsertParams {
        when_matched: 0,
        when_matched_expr: None,
        when_not_matched: 0,
        when_not_matched_by_source: LanceMergeWhenNotMatchedBySource::DeleteIf as i32,
        when_not_matched_by_source_expr: None,
    }));
    assert_eq!(call.status, -1);
    assert_eq!(call.code, LanceErrorCode::InvalidArgument);
    assert_eq!(
        call.message,
        "when_not_matched_by_source=DeleteIf requires when_not_matched_by_source_expr"
    );
}
