//! Adding columns to a dataset: the checks in front of the storage engine.
//!
//! * `add_columns_sql_inner`: columns derived from SQL expressions over existing
//!   columns.
//! * `add_columns_nulls_inner`: all-null columns described by an Arrow schema.
//! * [`crate::add_stream`]: columns spliced in from an Arrow stream.

use arrow_schema::Schema;
use vstd::prelude::*;
use vstd::utf8::*;

use crate::arrow_import;
use crate::arrow_import::{import_schema, HeaderView, SchemaArg, SchemaHeader};
use crate::error;
use crate::error::{Error, ErrorView, LanceErrorCode};
use crate::helpers;
use crate::helpers::{is_utf8, parse_c_string};
use crate::text;
use crate::text::decimal_text;

verus! {

/// A single new column defined by an SQL expression over the dataset's existing
/// columns, e.g. the name `doubled` and the expression `x * 2`. Each field is the
/// bytes of a C string, `None` for NULL; both have to be UTF-8 and not empty.
#[derive(Debug)]
pub struct LanceSqlColumn {
    /// Name of the new column.
    pub name: Option<Vec<u8>>,
    /// SQL expression evaluated against existing columns.
    pub expression: Option<Vec<u8>>,
}

/// What a [`LanceSqlColumn`] holds.
pub struct SqlColumnView {
    pub name: Option<Seq<u8>>,
    pub expression: Option<Seq<u8>>,
}

impl DeepView for LanceSqlColumn {
    type V = SqlColumnView;

    open spec fn deep_view(&self) -> SqlColumnView {
        SqlColumnView {
            name: helpers::c_bytes(self.name),
            expression: helpers::c_bytes(self.expression),
        }
    }
}

/// Checked SQL columns, ready for the storage engine.
#[derive(Debug)]
pub struct SqlColumns {
    /// Name and expression of each column, in the caller's order.
    pub pairs: Vec<(String, String)>,
    /// Rows per scan batch; `None` leaves it to the engine.
    pub batch_size: Option<u32>,
}

/// What [`SqlColumns`] hold.
#[verifier::ext_equal]
pub struct SqlColumnsView {
    pub pairs: Seq<(Seq<char>, Seq<char>)>,
    pub batch_size: Option<u32>,
}

impl DeepView for SqlColumns {
    type V = SqlColumnsView;

    open spec fn deep_view(&self) -> SqlColumnsView {
        SqlColumnsView { pairs: self.pairs.deep_view(), batch_size: self.batch_size }
    }
}

/// How an error names a field of the column at `index`.
pub open spec fn field_name(index: nat, field: Seq<char>) -> Seq<char> {
    "columns["@ + text::decimal(index) + "]."@ + field
}

/// The text of a required string field of the column at `index`. Whatever is wrong with
/// it, the error names the field.
pub open spec fn required_field(ptr: Option<Seq<u8>>, index: nat, field: Seq<char>) -> Result<
    Seq<char>,
    ErrorView,
> {
    match helpers::c_text(ptr) {
        Err(error) => Err(
            error::invalid_input(field_name(index, field) + ": "@ + error.message),
        ),
        Ok(value) => if value matches Some(value) && value.len() > 0 {
            Ok(value->0)
        } else {
            Err(error::invalid_input(field_name(index, field) + " must not be NULL or empty"@))
        },
    }
}

/// The name and the expression of the column at `index`, the name read first.
pub open spec fn sql_pair(column: SqlColumnView, index: nat) -> Result<
    (Seq<char>, Seq<char>),
    ErrorView,
> {
    match required_field(column.name, index, "name"@) {
        Err(error) => Err(error),
        Ok(name) => match required_field(column.expression, index, "expression"@) {
            Err(error) => Err(error),
            Ok(expression) => Ok((name, expression)),
        },
    }
}

/// How the columns of an array are read.
pub open spec fn sql_reader() -> spec_fn(SqlColumnView, nat) -> Result<
    (Seq<char>, Seq<char>),
    ErrorView,
> {
    |column: SqlColumnView, index: nat| sql_pair(column, index)
}

/// The batch size that a caller's number stands for: 0 leaves it to the engine,
/// and a number that does not fit the engine's type is refused.
pub open spec fn batch_size_of(batch_size: u64) -> Result<Option<u32>, ErrorView> {
    if batch_size == 0 {
        Ok(None)
    } else if batch_size <= u32::MAX {
        Ok(Some(batch_size as u32))
    } else {
        Err(
            error::invalid_input(
                "batch_size="@ + text::decimal(batch_size as nat) + " exceeds u32::MAX"@,
            ),
        )
    }
}

/// The request that the arguments of the SQL variant make, or the first thing
/// wrong with them. `columns` holds the array's entries, `None` for NULL; the
/// first `num_columns` of them count.
pub open spec fn sql_request(
    dataset: bool,
    columns: Option<Seq<SqlColumnView>>,
    num_columns: nat,
    batch_size: u64,
) -> Result<SqlColumnsView, ErrorView> {
    if !dataset {
        Err(error::invalid_input("dataset must not be NULL"@))
    } else {
        match columns {
            None => Err(error::invalid_input("columns must not be NULL"@)),
            Some(columns) => if num_columns == 0 {
                Err(error::invalid_input("num_columns must be > 0"@))
            } else {
                match batch_size_of(batch_size) {
                    Err(error) => Err(error),
                    Ok(batch_size) => match helpers::read_all(
                        columns.take(num_columns as int),
                        sql_reader(),
                    ) {
                        Err(error) => Err(error),
                        Ok(pairs) => Ok(SqlColumnsView { pairs, batch_size }),
                    },
                }
            },
        }
    }
}

/// Reads a required, non-empty string field of a [`LanceSqlColumn`], with the
/// column's index and the field's name in any error.
pub fn parse_required_field(ptr: &Option<Vec<u8>>, index: usize, field: &str) -> (result: Result<
    String,
    Error,
>)
    ensures
        error::outcome(result) == required_field(helpers::c_bytes(*ptr), index as nat, field@),
        result is Ok <==> ptr is Some && valid_utf8(ptr->0@) && ptr->0@.len() > 0,
        result matches Ok(value) ==> encode_utf8(value@) == ptr->0@,
{
    proof {
        law_field_errors_name_the_field(helpers::c_bytes(*ptr), index as nat, field@);
        if ptr is Some && valid_utf8(ptr->0@) {
            decode_utf8_encode_utf8(ptr->0@);
        }
    }
    let mut message = "columns[".to_owned();
    message.append(decimal_text(index as u64).as_str());
    message.append("].");
    message.append(field);
    match parse_c_string(ptr) {
        Err(error) => {
            message.append(": ");
            message.append(error.message.as_str());
            return Err(Error::invalid_input(message));
        },
        Ok(Some(value)) => if !value.as_str().is_empty() {
            return Ok(value);
        },
        Ok(None) => {},
    }
    message.append(" must not be NULL or empty");
    Err(Error::invalid_input(message))
}

/// Turns the caller's batch size into the engine's: 0 means that the engine
/// chooses, and a number that does not fit is refused rather than wrapped.
pub fn resolve_batch_size(batch_size: u64) -> (result: Result<Option<u32>, Error>)
    ensures
        error::outcome(result) == batch_size_of(batch_size),
        result is Ok <==> batch_size <= u32::MAX,
        result matches Ok(rows) ==> (rows is None <==> batch_size == 0),
        result matches Ok(Some(rows)) ==> rows == batch_size,
{
    if batch_size == 0 {
        return Ok(None);
    }
    if batch_size <= u32::MAX as u64 {
        return Ok(Some(batch_size as u32));
    }
    let mut message = "batch_size=".to_owned();
    message.append(decimal_text(batch_size).as_str());
    message.append(" exceeds u32::MAX");
    Err(Error::invalid_input(message))
}

/// Reads the first `num_columns` columns of an array, up to the first one that is
/// not sound.
fn read_sql_columns(columns: &Vec<LanceSqlColumn>, num_columns: usize) -> (result: Result<
    Vec<(String, String)>,
    Error,
>)
    requires
        num_columns <= columns.len(),
    ensures
        error::outcome(result) == helpers::read_all(
            columns.deep_view().take(num_columns as int),
            sql_reader(),
        ),
{
    let ghost entries = columns.deep_view().take(num_columns as int);
    let mut pairs: Vec<(String, String)> = Vec::new();
    let mut i: usize = 0;
    assert(pairs.deep_view() =~= seq![]);
    assert(entries.take(0) =~= seq![]);
    while i < num_columns
        invariant
            i <= num_columns <= columns.len(),
            entries.len() == num_columns,
            entries == columns.deep_view().take(num_columns as int),
            helpers::read_all(entries.take(i as int), sql_reader()) == Ok::<
                Seq<(Seq<char>, Seq<char>)>,
                ErrorView,
            >(pairs.deep_view()),
        decreases num_columns - i,
    {
        let entry = &columns[i];
        proof {
            assert(entries[i as int] == entry.deep_view());
            helpers::lemma_read_all_step(entries, sql_reader(), i as int);
            if sql_pair(entry.deep_view(), i as nat) is Err {
                helpers::lemma_read_all_prefix_error(entries, sql_reader(), i + 1);
            }
        }
        let name = match parse_required_field(&entry.name, i, "name") {
            Ok(name) => name,
            Err(error) => return Err(error),
        };
        let expression = match parse_required_field(&entry.expression, i, "expression") {
            Ok(expression) => expression,
            Err(error) => return Err(error),
        };
        let ghost before = pairs.deep_view();
        pairs.push((name, expression));
        assert(pairs.deep_view() =~= before.push((name@, expression@)));
        i = i + 1;
    }
    assert(entries.take(num_columns as int) =~= entries);
    Ok(pairs)
}

/// Checks the arguments of the SQL variant. `dataset` tells whether the dataset
/// handle is there. All of it happens before the dataset is locked.
pub fn add_columns_sql_inner(
    dataset: bool,
    columns: &Option<Vec<LanceSqlColumn>>,
    num_columns: usize,
    batch_size: u64,
) -> (result: Result<SqlColumns, Error>)
    requires
        columns matches Some(columns) ==> num_columns <= columns.len(),
    ensures
        error::outcome(result) == sql_request(
            dataset,
            columns.deep_view(),
            num_columns as nat,
            batch_size,
        ),
        result matches Ok(request) ==> {
            &&& dataset
            &&& request.pairs.len() == num_columns
            &&& forall|i: int|
                0 <= i < request.pairs.len() ==> {
                    &&& helpers::c_bytes(columns->0[i].name) == Some(
                        encode_utf8((#[trigger] request.pairs[i]).0@),
                    )
                    &&& helpers::c_bytes(columns->0[i].expression) == Some(
                        encode_utf8(request.pairs[i].1@),
                    )
                }
            &&& request.batch_size is None <==> batch_size == 0
            &&& request.batch_size matches Some(rows) ==> rows == batch_size
        },
{
    if !dataset {
        return Err(Error::invalid_input("dataset must not be NULL".to_owned()));
    }
    let ghost asked = batch_size;
    let ghost array = columns.deep_view();
    let columns = match columns {
        None => return Err(Error::invalid_input("columns must not be NULL".to_owned())),
        Some(columns) => columns,
    };
    if num_columns == 0 {
        return Err(Error::invalid_input("num_columns must be > 0".to_owned()));
    }
    let batch_size = match resolve_batch_size(batch_size) {
        Ok(batch_size) => batch_size,
        Err(error) => return Err(error),
    };

    match read_sql_columns(columns, num_columns) {
        Ok(pairs) => {
            let request = SqlColumns { pairs, batch_size };
            proof {
                law_sql_request_carries_over(dataset, array, num_columns as nat, asked);
                assert forall|i: int| 0 <= i < request.pairs.len() implies {
                    &&& helpers::c_bytes(columns[i].name) == Some(
                        encode_utf8((#[trigger] request.pairs[i]).0@),
                    )
                    &&& helpers::c_bytes(columns[i].expression) == Some(
                        encode_utf8(request.pairs[i].1@),
                    )
                } by {
                    assert(request.deep_view().pairs[i] == (
                        request.pairs[i].0@,
                        request.pairs[i].1@,
                    ));
                    assert(array->0[i] == columns[i].deep_view());
                }
            }
            Ok(request)
        },
        Err(error) => Err(error),
    }
}

/// What is wrong with the arguments of the all-null variant, if anything can be
/// told before the schema is imported.
pub open spec fn nulls_check(dataset: bool, schema: Option<HeaderView>) -> Result<(), ErrorView> {
    if !dataset {
        Err(error::invalid_input("dataset must not be NULL"@))
    } else {
        match schema {
            None => Err(error::invalid_input("schema must not be NULL"@)),
            Some(HeaderView { release: true, format: Some(format) }) => if valid_utf8(format) {
                Ok(())
            } else {
                Err(error::invalid_input("schema format string is not valid UTF-8"@))
            },
            Some(_) => Err(error::invalid_input("schema is uninitialised or already released"@)),
        }
    }
}

/// The error for a schema that cannot be imported, for the reason `cause`.
pub open spec fn unusable_schema(cause: Seq<char>) -> ErrorView {
    error::invalid_input("schema is not a valid Arrow schema: "@ + cause)
}

/// What the caller's schema argument tells of itself; `None` for NULL.
pub open spec fn schema_header(schema: Option<SchemaArg>) -> Option<HeaderView> {
    match schema {
        None => None,
        Some(schema) => Some(schema.header()),
    }
}

/// Checks the arguments of the all-null variant as far as that can be done before
/// the schema is imported: a released, uninitialised or malformed schema must not
/// reach the import.
pub fn check_nulls_arguments(dataset: bool, schema: Option<&SchemaHeader>) -> (result: Result<
    (),
    Error,
>)
    ensures
        error::outcome(result) == nulls_check(
            dataset,
            match schema {
                None => None,
                Some(header) => Some(header@),
            },
        ),
{
    if !dataset {
        return Err(Error::invalid_input("dataset must not be NULL".to_owned()));
    }
    let header = match schema {
        None => return Err(Error::invalid_input("schema must not be NULL".to_owned())),
        Some(header) => header,
    };
    match &header.format {
        Some(format) if header.release => {
            if is_utf8(format) {
                Ok(())
            } else {
                Err(
                    Error::invalid_input("schema format string is not valid UTF-8".to_owned()),
                )
            }
        },
        _ => Err(
            Error::invalid_input("schema is uninitialised or already released".to_owned()),
        ),
    }
}

/// The columns to add once the import of the schema came to `imported`: the schema,
/// or the reason why there is none.
pub fn nulls_columns(imported: Result<Schema, String>) -> (result: Result<Schema, Error>)
    ensures
        match imported {
            Ok(schema) => result == Ok::<Schema, Error>(schema),
            Err(cause) => result matches Err(error) && error@ == unusable_schema(cause@),
        },
{
    match imported {
        Ok(schema) => Ok(schema),
        Err(cause) => {
            let mut message = "schema is not a valid Arrow schema: ".to_owned();
            message.append(cause.as_str());
            Err(Error::invalid_input(message))
        },
    }
}

/// Checks the arguments of the all-null variant and imports the schema of the new
/// columns: the columns are those of the caller's schema. What the checks refuse is not
/// imported, and a type that is no struct is refused by the import. Where the import
/// refuses the schema, that is an invalid argument with the text of the Arrow error.
pub fn add_columns_nulls_inner(dataset: bool, schema: &Option<SchemaArg>) -> (result: Result<
    Schema,
    Error,
>)
    requires
        schema matches Some(schema) ==> schema.well_formed(),
        nulls_check(dataset, schema_header(*schema)) is Ok ==> arrow_import::schema_conforms(
            *schema->0.raw,
        ),
    ensures
        match nulls_check(dataset, schema_header(*schema)) {
            Err(refused) => result matches Err(error) && error@ == refused,
            Ok(_) => {
                &&& arrow_import::schema_format(*schema->0.raw) != arrow_import::struct_format()
                    ==> result is Err
                &&& match arrow_import::schema_refusal(*schema->0.raw) {
                    None => result matches Ok(imported) && arrow_import::imports_to(
                        *schema->0.raw,
                        imported,
                    ),
                    Some(cause) => result matches Err(error) && error@ == unusable_schema(cause),
                }
            },
        },
{
    let header = match schema {
        None => None,
        Some(schema) => Some(schema.read_header()),
    };
    match check_nulls_arguments(dataset, header.as_ref()) {
        Err(error) => return Err(error),
        Ok(()) => {},
    }
    match schema {
        None => Err(Error::invalid_input("schema must not be NULL".to_owned())),
        Some(schema) => nulls_columns(import_schema(schema.raw)),
    }
}

/// What a call returns once the storage engine came to `committed`: 0, or the
/// engine's error as it stands.
pub fn finish_add_columns(committed: Result<(), Error>) -> (result: Result<i32, Error>)
    ensures
        match committed {
            Ok(_) => result == Ok::<i32, Error>(0),
            Err(error) => result == Err::<i32, Error>(error),
        },
{
    match committed {
        Ok(()) => Ok(0),
        Err(error) => Err(error),
    }
}

/// Whatever is wrong with a field, the error names it: its text begins with the index of
/// the column and the name of the field.
pub proof fn law_field_errors_name_the_field(ptr: Option<Seq<u8>>, index: nat, field: Seq<char>)
    ensures
        required_field(ptr, index, field) is Ok <==> helpers::usable_text(ptr),
        required_field(ptr, index, field) matches Err(error) ==> {
            &&& error.code == LanceErrorCode::InvalidArgument
            &&& field_name(index, field).is_prefix_of(error.message)
        },
{
    let name = field_name(index, field);
    assert(name.is_prefix_of(name + " must not be NULL or empty"@));
    if let Err(cause) = helpers::c_text(ptr) {
        assert(name.is_prefix_of(name + ": "@ + cause.message));
    }
}

/// Whatever is wrong with the arguments, the caller reads an invalid argument.
pub proof fn law_arguments_rejected_as_invalid_argument(
    dataset: bool,
    columns: Option<Seq<SqlColumnView>>,
    num_columns: nat,
    batch_size: u64,
    schema: Option<HeaderView>,
)
    requires
        columns matches Some(columns) ==> num_columns <= columns.len(),
    ensures
        sql_request(dataset, columns, num_columns, batch_size) matches Err(error) ==> error.code
            == LanceErrorCode::InvalidArgument,
        batch_size_of(batch_size) matches Err(error) ==> error.code
            == LanceErrorCode::InvalidArgument,
        nulls_check(dataset, schema) matches Err(error) ==> error.code
            == LanceErrorCode::InvalidArgument,
{
    if let Some(columns) = columns {
        lemma_sql_error_is_invalid_argument(columns.take(num_columns as int));
    }
}

/// The error of an array of columns is an invalid argument.
proof fn lemma_sql_error_is_invalid_argument(columns: Seq<SqlColumnView>)
    ensures
        helpers::read_all(columns, sql_reader()) matches Err(error) ==> error.code
            == LanceErrorCode::InvalidArgument,
    decreases columns.len(),
{
    if columns.len() > 0 {
        lemma_sql_error_is_invalid_argument(columns.drop_last());
    }
}

/// A schema gets as far as the import exactly when the dataset is there and the schema
/// is there, not released, and with a format string in UTF-8.
pub proof fn law_schema_imported_iff(dataset: bool, schema: Option<HeaderView>)
    ensures
        nulls_check(dataset, schema) is Ok <==> {
            &&& dataset
            &&& schema matches Some(header)
            &&& header.release
            &&& header.format matches Some(format)
            &&& valid_utf8(format)
        },
{
}

/// An SQL request is made exactly when the dataset and a non-empty array are
/// there, the batch size fits, and every name and expression is UTF-8 and not
/// empty.
pub proof fn law_sql_request_accepted_iff(
    dataset: bool,
    columns: Option<Seq<SqlColumnView>>,
    num_columns: nat,
    batch_size: u64,
)
    requires
        columns matches Some(columns) ==> num_columns <= columns.len(),
    ensures
        sql_request(dataset, columns, num_columns, batch_size) is Ok <==> {
            &&& dataset
            &&& num_columns > 0
            &&& batch_size <= u32::MAX
            &&& columns matches Some(columns) && forall|i: int|
                0 <= i < num_columns ==> helpers::usable_text((#[trigger] columns[i]).name) && helpers::usable_text(
                    columns[i].expression,
                )
        },
{
    if let Some(columns) = columns {
        let entries = columns.take(num_columns as int);
        helpers::law_read_all_succeeds_iff(entries, sql_reader());
        assert forall|i: int| 0 <= i < num_columns implies (sql_reader()(entries[i], i as nat) is Ok
            <==> helpers::usable_text((#[trigger] columns[i]).name) && helpers::usable_text(columns[i].expression)) by {
            assert(entries[i] == columns[i]);
        }
        if helpers::read_all(entries, sql_reader()) is Ok {
            assert forall|i: int| 0 <= i < num_columns implies helpers::usable_text(
                (#[trigger] columns[i]).name,
            ) && helpers::usable_text(columns[i].expression) by {
                assert(sql_reader()(entries[i], i as nat) is Ok);
            }
        } else {
            let i = choose|i: int|
                0 <= i < entries.len() && !((#[trigger] sql_reader()(entries[i], i as nat)) is Ok);
            assert(!(helpers::usable_text(columns[i].name) && helpers::usable_text(columns[i].expression)));
        }
    }
}

/// An SQL request carries the caller's arguments over unchanged: as many columns,
/// in the same order, each name and expression byte for byte, and the batch size
/// itself, never a wrapped one.
pub proof fn law_sql_request_carries_over(
    dataset: bool,
    columns: Option<Seq<SqlColumnView>>,
    num_columns: nat,
    batch_size: u64,
)
    requires
        columns matches Some(columns) ==> num_columns <= columns.len(),
        sql_request(dataset, columns, num_columns, batch_size) is Ok,
    ensures
        sql_request(dataset, columns, num_columns, batch_size) matches Ok(request) && {
            &&& request.pairs.len() == num_columns
            &&& forall|i: int|
                0 <= i < num_columns ==> {
                    &&& columns->0[i].name == Some(encode_utf8((#[trigger] request.pairs[i]).0))
                    &&& columns->0[i].expression == Some(encode_utf8(request.pairs[i].1))
                }
            &&& request.batch_size == if batch_size == 0 {
                None
            } else {
                Some(batch_size as u32)
            }
            &&& request.batch_size matches Some(rows) ==> rows == batch_size
        },
{
    let columns = columns->0;
    let entries = columns.take(num_columns as int);
    helpers::law_read_all_succeeds_iff(entries, sql_reader());
    let pairs = helpers::read_all(entries, sql_reader())->Ok_0;
    assert forall|i: int| 0 <= i < num_columns implies {
        &&& columns[i].name == Some(encode_utf8((#[trigger] pairs[i]).0))
        &&& columns[i].expression == Some(encode_utf8(pairs[i].1))
    } by {
        assert(entries[i] == columns[i]);
        assert(sql_reader()(entries[i], i as nat) == Ok::<(Seq<char>, Seq<char>), ErrorView>(
            pairs[i],
        ));
        decode_utf8_encode_utf8(columns[i].name->0);
        decode_utf8_encode_utf8(columns[i].expression->0);
    }
}

/// A batch size is accepted exactly when it is at most `u32::MAX`: 0 leaves it to the
/// engine, and any other is the engine's very number. A larger one is refused and quoted.
pub proof fn law_batch_sizes(batch_size: u64)
    ensures
        batch_size_of(batch_size) is Ok <==> batch_size <= u32::MAX,
        batch_size == 0 ==> batch_size_of(batch_size) == Ok::<Option<u32>, ErrorView>(None),
        0 < batch_size <= u32::MAX ==> (batch_size_of(batch_size) matches Ok(rows) && (rows
            matches Some(rows) && rows == batch_size)),
        batch_size > u32::MAX ==> error::refused(
            batch_size_of(batch_size),
            "batch_size="@ + text::decimal(batch_size as nat) + " exceeds u32::MAX"@,
        ),
{
}

/// A single field is the text of the caller's very bytes, or is refused with what is wrong
/// with it.
pub proof fn law_field_on_its_own(ptr: Option<Seq<u8>>, index: nat, field: Seq<char>)
    ensures
        required_field(ptr, index, field) is Ok <==> ptr is Some && valid_utf8(ptr->0)
            && ptr->0.len() > 0,
        required_field(ptr, index, field) matches Ok(value) ==> encode_utf8(value) == ptr->0,
        field_name(index, field) == "columns["@ + text::decimal(index) + "]."@ + field,
        ptr is Some && !valid_utf8(ptr->0) ==> error::refused(
            required_field(ptr, index, field),
            "columns["@ + text::decimal(index) + "]."@ + field + ": "@
                + "string is not valid UTF-8"@,
        ),
        ptr is None || (valid_utf8(ptr->0) && ptr->0.len() == 0) ==> error::refused(
            required_field(ptr, index, field),
            "columns["@ + text::decimal(index) + "]."@ + field + " must not be NULL or empty"@,
        ),
{
    if let Some(bytes) = ptr {
        if valid_utf8(bytes) {
            decode_utf8_encode_utf8(bytes);
        }
    }
}

/// A column is its name and its expression, in this order; a faulty name is reported in
/// front of a faulty expression.
pub proof fn law_column_on_its_own(column: SqlColumnView, index: nat)
    ensures
        sql_pair(column, index) matches Ok(pair) ==> {
            &&& column.name is Some && encode_utf8(pair.0) == column.name->0
            &&& column.expression is Some && encode_utf8(pair.1) == column.expression->0
        },
        sql_pair(column, index) is Ok <==> helpers::usable_text(column.name)
            && helpers::usable_text(column.expression),
        !helpers::usable_text(column.name) ==> (required_field(column.name, index, "name"@)
            matches Err(error) && sql_pair(column, index) == Err::<
            (Seq<char>, Seq<char>),
            ErrorView,
        >(error)),
        helpers::usable_text(column.name) && !helpers::usable_text(column.expression) ==> (
        required_field(column.expression, index, "expression"@) matches Err(error) && sql_pair(
            column,
            index,
        ) == Err::<(Seq<char>, Seq<char>), ErrorView>(error)),
        sql_reader()(column, index) == sql_pair(column, index),
{
    law_field_on_its_own(column.name, index, "name"@);
    law_field_on_its_own(column.expression, index, "expression"@);
}

/// The first thing wrong with the arguments of the SQL variant is reported: the dataset, the
/// array, its length, the batch size, the first column that is not sound.
pub proof fn law_sql_faults_in_order(
    dataset: bool,
    columns: Option<Seq<SqlColumnView>>,
    num_columns: nat,
    batch_size: u64,
    first: int,
)
    requires
        columns is Some ==> num_columns <= columns->0.len(),
    ensures
        !dataset ==> error::refused(
            sql_request(dataset, columns, num_columns, batch_size),
            "dataset must not be NULL"@,
        ),
        dataset && columns is None ==> error::refused(
            sql_request(dataset, columns, num_columns, batch_size),
            "columns must not be NULL"@,
        ),
        dataset && columns is Some && num_columns == 0 ==> error::refused(
            sql_request(dataset, columns, num_columns, batch_size),
            "num_columns must be > 0"@,
        ),
        dataset && columns is Some && num_columns > 0 && batch_size > u32::MAX ==> error::refused(
            sql_request(dataset, columns, num_columns, batch_size),
            "batch_size="@ + text::decimal(batch_size as nat) + " exceeds u32::MAX"@,
        ),
        dataset && columns is Some && batch_size <= u32::MAX && 0 <= first < num_columns && (forall|
            i: int,
        |
            0 <= i < first ==> (#[trigger] sql_pair(columns->0[i], i as nat)) is Ok) ==> (sql_pair(
            columns->0[first],
            first as nat,
        ) matches Err(error) ==> sql_request(dataset, columns, num_columns, batch_size) == Err::<
            SqlColumnsView,
            ErrorView,
        >(error)),
{
    if columns is Some && 0 <= first < num_columns && (forall|i: int|
        0 <= i < first ==> (#[trigger] sql_pair(columns->0[i], i as nat)) is Ok) && sql_pair(
        columns->0[first],
        first as nat,
    ) is Err {
        let entries = columns->0.take(num_columns as int);
        assert forall|i: int| 0 <= i < first implies (#[trigger] sql_reader()(
            entries[i],
            i as nat,
        )) is Ok by {
            assert(entries[i] == columns->0[i]);
            assert(sql_pair(columns->0[i], i as nat) is Ok);
        }
        assert(entries[first] == columns->0[first]);
        helpers::law_read_all_reports_the_first_error(entries, sql_reader(), first);
    }
}

/// Sound arguments of the SQL variant are never refused: the dataset and a non-empty array of
/// sound columns, with any batch size up to `u32::MAX`, make a request with one pair for
/// each column.
pub proof fn law_sound_sql_arguments_make_a_request(
    columns: Seq<SqlColumnView>,
    num_columns: nat,
    batch_size: u64,
)
    requires
        0 < num_columns <= columns.len(),
        batch_size <= u32::MAX,
        forall|i: int|
            0 <= i < num_columns ==> {
                &&& (#[trigger] columns[i]).name is Some
                &&& valid_utf8(columns[i].name->0)
                &&& columns[i].name->0.len() > 0
                &&& columns[i].expression is Some
                &&& valid_utf8(columns[i].expression->0)
                &&& columns[i].expression->0.len() > 0
            },
    ensures
        sql_request(true, Some(columns), num_columns, batch_size) matches Ok(request)
            && request.pairs.len() == num_columns && (request.batch_size is None <==> batch_size
            == 0) && (request.batch_size is Some ==> request.batch_size->0 == batch_size),
{
    assert forall|i: int| 0 <= i < num_columns implies helpers::usable_text(
        (#[trigger] columns[i]).name,
    ) && helpers::usable_text(columns[i].expression) by {}
    law_sql_request_accepted_iff(true, Some(columns), num_columns, batch_size);
    law_sql_request_carries_over(true, Some(columns), num_columns, batch_size);
}

/// The first thing wrong with the arguments of the all-null variant is reported: the dataset,
/// the schema, its release, its format string. A schema that the import refuses is quoted
/// with the reason.
pub proof fn law_schema_faults_in_order(
    dataset: bool,
    schema: Option<HeaderView>,
    cause: Seq<char>,
)
    ensures
        !dataset ==> error::refused(nulls_check(dataset, schema), "dataset must not be NULL"@),
        dataset && schema is None ==> error::refused(
            nulls_check(dataset, schema),
            "schema must not be NULL"@,
        ),
        dataset && schema is Some && (!schema->0.release || schema->0.format is None)
            ==> error::refused(
            nulls_check(dataset, schema),
            "schema is uninitialised or already released"@,
        ),
        dataset && schema is Some && schema->0.release && schema->0.format is Some && !valid_utf8(
            schema->0.format->0,
        ) ==> error::refused(
            nulls_check(dataset, schema),
            "schema format string is not valid UTF-8"@,
        ),
        unusable_schema(cause).code == LanceErrorCode::InvalidArgument,
        unusable_schema(cause).message == "schema is not a valid Arrow schema: "@ + cause,
{
}

/// Columns, requests and schemas are seen as they are: every string, every pair, every
/// number, every header.
pub proof fn law_columns_are_seen_as_they_are(
    column: LanceSqlColumn,
    request: SqlColumns,
    schema: Option<SchemaArg>,
)
    ensures
        column.name is None <==> column.deep_view().name is None,
        column.name is Some ==> column.deep_view().name == Some(column.name->0@),
        column.expression is None <==> column.deep_view().expression is None,
        column.expression is Some ==> column.deep_view().expression == Some(column.expression->0@),
        request.deep_view().batch_size == request.batch_size,
        request.deep_view().pairs.len() == request.pairs.len(),
        forall|i: int|
            0 <= i < request.pairs.len() ==> {
                &&& (#[trigger] request.deep_view().pairs[i]).0 == request.pairs[i].0@
                &&& request.deep_view().pairs[i].1 == request.pairs[i].1@
            },
        schema is None <==> schema_header(schema) is None,
        schema is Some ==> schema_header(schema) == Some(schema->0.header()),
{
}

} // verus!
