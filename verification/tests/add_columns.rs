//! Adding columns: SQL, all-null and streamed.

use std::sync::atomic::{AtomicUsize, Ordering};
use std::sync::Arc;

use arrow::array::Int32Array;
use arrow::ffi_stream::FFI_ArrowArrayStream;
use arrow::record_batch::{RecordBatch, RecordBatchReader};
use arrow_schema::ffi::FFI_ArrowSchema;
use arrow_schema::{ArrowError, DataType, Field, Schema, SchemaRef};

use lance_c::add_columns::{
    add_columns_nulls_inner, add_columns_sql_inner, check_nulls_arguments, finish_add_columns,
    nulls_columns, parse_required_field, resolve_batch_size, LanceSqlColumn,
};
use lance_c::add_stream::{AddStreamAction, AddStreamCall, AddStreamEvent};
use lance_c::arrow_import::{is_importable, stream_slots, SchemaArg, SchemaHeader, StreamSlots};
use lance_c::error::{ffi_status, Error, LanceErrorCode};

fn c_str(s: &str) -> Option<Vec<u8>> {
    Some(s.as_bytes().to_vec())
}

fn column(name: &str, expression: &str) -> LanceSqlColumn {
    LanceSqlColumn {
        name: c_str(name),
        expression: c_str(expression),
    }
}

fn message(error: Error) -> String {
    assert_eq!(error.code, LanceErrorCode::InvalidArgument);
    error.message
}

#[test]
fn sql_columns_carry_over() {
    let columns = Some(vec![
        column("doubled", "x * 2"),
        column("größe", "x + 1"),
        LanceSqlColumn {
            name: None,
            expression: None,
        },
    ]);
    let request = add_columns_sql_inner(true, &columns, 2, 1024).unwrap();
    assert_eq!(
        request.pairs,
        vec![
            ("doubled".to_string(), "x * 2".to_string()),
            ("größe".to_string(), "x + 1".to_string()),
        ]
    );
    assert_eq!(request.batch_size, Some(1024));
    let request = add_columns_sql_inner(true, &columns, 1, 0).unwrap();
    assert_eq!(request.pairs.len(), 1);
    assert_eq!(request.batch_size, None);
}

#[test]
fn the_first_fault_of_an_sql_request_is_reported() {
    let sound = Some(vec![column("a", "b")]);
    let refused = |dataset: bool, columns: &Option<Vec<LanceSqlColumn>>, n: usize, rows: u64| {
        message(add_columns_sql_inner(dataset, columns, n, rows).unwrap_err())
    };
    assert_eq!(refused(false, &None, 0, u64::MAX), "dataset must not be NULL");
    assert_eq!(refused(true, &None, 0, u64::MAX), "columns must not be NULL");
    assert_eq!(refused(true, &sound, 0, u64::MAX), "num_columns must be > 0");
    let bad = Some(vec![LanceSqlColumn {
        name: None,
        expression: c_str("b"),
    }]);
    assert_eq!(
        refused(true, &bad, 1, 4294967296),
        "batch_size=4294967296 exceeds u32::MAX"
    );
    assert_eq!(
        refused(true, &bad, 1, 1),
        "columns[0].name must not be NULL or empty"
    );
}

#[test]
fn the_first_bad_column_is_reported() {
    let bad = Some(vec![
        column("a", "b"),
        column("c", ""),
        column("", "d"),
    ]);
    assert_eq!(
        message(add_columns_sql_inner(true, &bad, 3, 0).unwrap_err()),
        "columns[1].expression must not be NULL or empty"
    );
    let not_utf8 = Some(vec![LanceSqlColumn {
        name: Some(vec![0xff]),
        expression: None,
    }]);
    assert_eq!(
        message(add_columns_sql_inner(true, &not_utf8, 1, 0).unwrap_err()),
        "columns[0].name: string is not valid UTF-8"
    );
}

#[test]
fn required_fields() {
    assert_eq!(parse_required_field(&c_str("x"), 12, "name").unwrap(), "x");
    assert_eq!(
        message(parse_required_field(&None, 12, "name").unwrap_err()),
        "columns[12].name must not be NULL or empty"
    );
    assert_eq!(
        message(parse_required_field(&c_str(""), 0, "expression").unwrap_err()),
        "columns[0].expression must not be NULL or empty"
    );
    assert_eq!(
        message(parse_required_field(&Some(vec![0xff]), 3, "expression").unwrap_err()),
        "columns[3].expression: string is not valid UTF-8"
    );
}

#[test]
fn batch_sizes_never_wrap() {
    assert_eq!(resolve_batch_size(0).unwrap(), None);
    assert_eq!(resolve_batch_size(1).unwrap(), Some(1));
    assert_eq!(resolve_batch_size(4294967295).unwrap(), Some(u32::MAX));
    assert_eq!(
        message(resolve_batch_size(4294967296).unwrap_err()),
        "batch_size=4294967296 exceeds u32::MAX"
    );
    assert_eq!(
        message(resolve_batch_size(u64::MAX).unwrap_err()),
        "batch_size=18446744073709551615 exceeds u32::MAX"
    );
}

#[test]
fn an_engine_result_is_passed_on() {
    assert_eq!(ffi_status(&finish_add_columns(Ok(()))), 0);
    let result = finish_add_columns(Err(Error {
        code: LanceErrorCode::Internal,
        message: "no such column".to_string(),
    }));
    assert_eq!(ffi_status(&result), -1);
    let error = result.unwrap_err();
    assert_eq!(error.code, LanceErrorCode::Internal);
    assert_eq!(error.message, "no such column");
}

fn header(release: bool, format: Option<&[u8]>) -> SchemaHeader {
    SchemaHeader {
        release,
        format: format.map(|bytes| bytes.to_vec()),
    }
}

fn schema_arg<'a>(raw: &'a FFI_ArrowSchema, format: &[u8]) -> Option<SchemaArg<'a>> {
    Some(SchemaArg {
        raw,
        format: format.to_vec(),
    })
}

#[test]
fn schema_headers() {
    let refused = |dataset: bool, schema: Option<&SchemaHeader>| {
        message(check_nulls_arguments(dataset, schema).unwrap_err())
    };
    assert_eq!(refused(false, None), "dataset must not be NULL");
    assert_eq!(refused(true, None), "schema must not be NULL");
    let released = "schema is uninitialised or already released";
    assert_eq!(refused(true, Some(&header(false, Some(b"+s")))), released);
    assert_eq!(refused(true, Some(&header(true, None))), released);
    assert_eq!(refused(true, Some(&header(false, None))), released);
    assert_eq!(
        refused(true, Some(&header(true, Some(&[0xfe])))),
        "schema format string is not valid UTF-8"
    );
    assert!(check_nulls_arguments(true, Some(&header(true, Some(b"+s")))).is_ok());
}

#[test]
fn null_columns_are_those_of_the_schema() {
    let schema = Schema::new(vec![
        Field::new("a", DataType::Int32, true),
        Field::new("b", DataType::Utf8, true),
    ]);
    let raw = FFI_ArrowSchema::try_from(&schema).unwrap();
    let arg = schema_arg(&raw, raw.format().as_bytes());
    assert_eq!(add_columns_nulls_inner(true, &arg).unwrap(), schema);
    assert_eq!(
        message(add_columns_nulls_inner(false, &arg).unwrap_err()),
        "dataset must not be NULL"
    );
    assert_eq!(
        message(add_columns_nulls_inner(true, &None).unwrap_err()),
        "schema must not be NULL"
    );
}

#[test]
fn a_schema_that_is_no_struct_is_refused() {
    let raw = FFI_ArrowSchema::try_from(&DataType::Int32).unwrap();
    let arg = schema_arg(&raw, raw.format().as_bytes());
    assert_eq!(
        message(add_columns_nulls_inner(true, &arg).unwrap_err()),
        "schema is not a valid Arrow schema: C Data interface error: Unable to interpret C data struct as a Schema"
    );
}

#[test]
fn a_schema_with_an_unknown_format_is_refused() {
    let raw = FFI_ArrowSchema::try_new("x:y", vec![], None).unwrap();
    let arg = schema_arg(&raw, b"x:y");
    assert_eq!(
        message(add_columns_nulls_inner(true, &arg).unwrap_err()),
        "schema is not a valid Arrow schema: C Data interface error: The datatype \"\"x:y\"\" is still not supported in Rust implementation"
    );
}

#[test]
fn a_released_schema_is_not_imported() {
    let released = "schema is uninitialised or already released";
    let raw = FFI_ArrowSchema::empty();
    assert_eq!(
        message(add_columns_nulls_inner(true, &schema_arg(&raw, b"")).unwrap_err()),
        released
    );
    // The format string alone does not make a schema.
    let mut raw = FFI_ArrowSchema::try_new("+s", vec![], None).unwrap();
    let release = raw.release.take();
    assert_eq!(
        message(add_columns_nulls_inner(true, &schema_arg(&raw, b"+s")).unwrap_err()),
        released
    );
    // Nor does the callback.
    raw.release = release;
    let format = raw.format;
    raw.format = FFI_ArrowSchema::empty().format;
    assert_eq!(
        message(add_columns_nulls_inner(true, &schema_arg(&raw, b"")).unwrap_err()),
        released
    );
    raw.format = format;
    assert!(add_columns_nulls_inner(true, &schema_arg(&raw, b"+s")).is_ok());
}

#[test]
fn a_schema_header_is_that_of_the_schema() {
    let raw = FFI_ArrowSchema::try_new("+s", vec![], None).unwrap();
    let header = schema_arg(&raw, b"+s").unwrap().read_header();
    assert!(header.release);
    assert_eq!(header.format, Some(b"+s".to_vec()));
    let raw = FFI_ArrowSchema::empty();
    let header = schema_arg(&raw, b"").unwrap().read_header();
    assert!(!header.release);
    assert_eq!(header.format, None);
    // The format string of a released schema is not followed.
    let mut raw = FFI_ArrowSchema::try_new("+s", vec![], None).unwrap();
    let release = raw.release.take();
    let header = schema_arg(&raw, b"").unwrap().read_header();
    assert!(!header.release);
    assert_eq!(header.format, None);
    raw.release = release;
}

#[test]
fn a_schema_with_a_malformed_format_is_not_imported() {
    let malformed: [u8; 2] = [0xc3, 0];
    let mut raw = FFI_ArrowSchema::try_new("+s", vec![], None).unwrap();
    let format = raw.format;
    raw.format = malformed.as_ptr().cast();
    assert_eq!(
        message(add_columns_nulls_inner(true, &schema_arg(&raw, &malformed[..1])).unwrap_err()),
        "schema format string is not valid UTF-8"
    );
    raw.format = format;
}

#[test]
fn an_import_error_keeps_its_text() {
    assert_eq!(
        message(nulls_columns(Err("too deep".to_string())).unwrap_err()),
        "schema is not a valid Arrow schema: too deep"
    );
    assert!(nulls_columns(Ok(Schema::empty())).is_ok());
}

/// A source of one batch that counts how often it is dropped.
struct CountedReader {
    schema: SchemaRef,
    batch: Option<RecordBatch>,
    drops: Arc<AtomicUsize>,
}

impl Iterator for CountedReader {
    type Item = Result<RecordBatch, ArrowError>;

    fn next(&mut self) -> Option<Self::Item> {
        self.batch.take().map(Ok)
    }
}

impl RecordBatchReader for CountedReader {
    fn schema(&self) -> SchemaRef {
        self.schema.clone()
    }
}

impl Drop for CountedReader {
    fn drop(&mut self) {
        self.drops.fetch_add(1, Ordering::SeqCst);
    }
}

fn counted_stream() -> (FFI_ArrowArrayStream, Arc<AtomicUsize>) {
    let schema = Arc::new(Schema::new(vec![Field::new("n", DataType::Int32, true)]));
    let batch = RecordBatch::try_new(
        schema.clone(),
        vec![Arc::new(Int32Array::from(vec![1, 2, 3]))],
    )
    .unwrap();
    let drops = Arc::new(AtomicUsize::new(0));
    let reader = CountedReader {
        schema,
        batch: Some(batch),
        drops: drops.clone(),
    };
    (FFI_ArrowArrayStream::new(Box::new(reader)), drops)
}

fn complete() -> StreamSlots {
    StreamSlots {
        release: true,
        get_schema: true,
        get_next: true,
    }
}

fn returned(action: AddStreamAction<Error>) -> Result<i32, Error> {
    match action {
        AddStreamAction::Return(result) => result,
        other => panic!("{other:?}"),
    }
}

#[test]
fn a_null_stream_is_refused_untouched() {
    let (call, action) = AddStreamCall::begin(None);
    assert_eq!(call, AddStreamCall::Returned);
    let result = returned(action);
    assert_eq!(ffi_status(&result), -1);
    assert_eq!(message(result.unwrap_err()), "stream must not be NULL");
}

#[test]
fn an_incomplete_stream_is_released_and_refused() {
    let text = "stream is uninitialised, already released, or missing a required get_schema/get_next/release callback";
    for slots in [
        StreamSlots {
            get_schema: false,
            ..complete()
        },
        StreamSlots {
            get_next: false,
            ..complete()
        },
    ] {
        let (call, action) = AddStreamCall::begin(Some(slots));
        assert!(matches!(action, AddStreamAction::ReleaseStream));
        let (call, action) = call.step(AddStreamEvent::StreamReleased);
        assert_eq!(call, AddStreamCall::Returned);
        assert_eq!(message(returned(action).unwrap_err()), text);
    }
    // Without the callback there is nothing to release.
    let (call, action) = AddStreamCall::begin(Some(StreamSlots {
        release: false,
        ..complete()
    }));
    assert_eq!(call, AddStreamCall::Returned);
    assert_eq!(message(returned(action).unwrap_err()), text);
}

#[test]
fn a_stream_is_imported_and_committed() {
    let (raw, drops) = counted_stream();
    assert_eq!(stream_slots(&raw), complete());
    let (call, action) = AddStreamCall::begin(Some(stream_slots(&raw)));
    assert!(matches!(action, AddStreamAction::ImportStream));
    let (reader, call, action) = call.import_stream(raw, true, 7);
    let reader = reader.unwrap();
    assert_eq!(reader.reader.schema().field(0).name(), "n");
    assert!(matches!(action, AddStreamAction::Commit(Some(7))));
    let rows: usize = reader.reader.map(|batch| batch.unwrap().num_rows()).sum();
    assert_eq!(rows, 3);
    assert_eq!(drops.load(Ordering::SeqCst), 1);
    let (call, action) = call.step(AddStreamEvent::Committed);
    assert_eq!(call, AddStreamCall::Returned);
    assert_eq!(ffi_status(&returned(action)), 0);
}

#[test]
fn a_refused_call_releases_its_stream_once() {
    for (dataset, batch_size, text) in [
        (false, 7, "dataset must not be NULL"),
        (true, 4294967296, "batch_size=4294967296 exceeds u32::MAX"),
    ] {
        let (raw, drops) = counted_stream();
        let (call, _) = AddStreamCall::begin(Some(complete()));
        let (reader, call, action) = call.import_stream(raw, dataset, batch_size);
        assert_eq!(call, AddStreamCall::Returned);
        assert_eq!(message(returned(action).unwrap_err()), text);
        assert_eq!(drops.load(Ordering::SeqCst), 0);
        drop(reader);
        assert_eq!(drops.load(Ordering::SeqCst), 1);
    }
}

#[test]
fn a_stream_that_was_moved_out_is_refused() {
    let (call, _) = AddStreamCall::begin(Some(complete()));
    let moved = FFI_ArrowArrayStream::empty();
    let (reader, call, action) = call.import_stream(moved, true, 0);
    assert!(reader.is_none());
    assert_eq!(call, AddStreamCall::Returned);
    assert_eq!(
        message(returned(action).unwrap_err()),
        "C Data interface error: input stream is already released"
    );
}

#[test]
fn a_stream_without_its_schema_callback_is_not_imported() {
    let (mut raw, drops) = counted_stream();
    raw.get_schema = None;
    let (call, _) = AddStreamCall::begin(Some(complete()));
    assert!(!is_importable(&raw));
    assert!(call.try_import_stream(raw, true, 0).is_none());
    assert_eq!(drops.load(Ordering::SeqCst), 1);
    // A released stream is refused by the import itself.
    let released = FFI_ArrowArrayStream::empty();
    assert!(is_importable(&released));
    let (reader, _, action) = call.try_import_stream(released, true, 0).unwrap();
    assert!(reader.is_none());
    assert!(returned(action).is_err());
    let (raw, _) = counted_stream();
    assert!(is_importable(&raw));
    let (reader, _, action) = call.try_import_stream(raw, true, 0).unwrap();
    assert!(reader.is_some());
    assert!(matches!(action, AddStreamAction::Commit(None)));
}

#[test]
fn a_failed_commit_is_passed_on() {
    let (call, _) = AddStreamCall::begin(Some(complete()));
    let (call, action) = call.step(AddStreamEvent::StreamImported {
        dataset: true,
        batch_size: 0,
    });
    assert!(matches!(action, AddStreamAction::Commit(None)));
    let (_, action) = call.step(AddStreamEvent::CommitFailed(Error {
        code: LanceErrorCode::NotSupported,
        message: "legacy".to_string(),
    }));
    let error = returned(action).unwrap_err();
    assert_eq!(error.code, LanceErrorCode::NotSupported);
    assert_eq!(error.message, "legacy");
}
