//! Arrow C Data Interface values: what the library reads of them, and their
//! import through the `arrow` crate.

use arrow::ffi_stream::{ArrowArrayStreamReader, FFI_ArrowArrayStream};
use arrow_schema::ffi::FFI_ArrowSchema;
use arrow_schema::{ArrowError, Schema};
use vstd::prelude::*;
use vstd::utf8::*;

use crate::error::{Error, LanceErrorCode};

verus! {

/// `arrow_schema::ffi::FFI_ArrowSchema`, a schema as a C producer hands it over.
#[verifier::external_type_specification]
#[verifier::external_body]
pub struct ExFfiArrowSchema(FFI_ArrowSchema);

/// `arrow::ffi_stream::FFI_ArrowArrayStream`, a stream as a C producer hands it
/// over.
#[verifier::external_type_specification]
#[verifier::external_body]
pub struct ExFfiArrowArrayStream(FFI_ArrowArrayStream);

/// `arrow_schema::Schema`, an imported schema.
#[verifier::external_type_specification]
#[verifier::external_body]
pub struct ExSchema(Schema);

/// The batches of an imported stream, yet to be read: an
/// `arrow::ffi_stream::ArrowArrayStreamReader`. Dropping it releases the stream.
#[verifier::external_body]
pub struct StreamReader {
    pub reader: ArrowArrayStreamReader,
}

/// `arrow_schema::ArrowError`, the error of an import.
#[verifier::external_type_specification]
#[verifier::external_body]
pub struct ExArrowError(ArrowError);

/// What is checked of a C schema before it is imported.
#[derive(Debug)]
pub struct SchemaHeader {
    /// Whether the `release` callback is set. It is cleared when a schema is
    /// released.
    pub release: bool,
    /// The bytes of the `format` string; `None` where the pointer is NULL, or the
    /// schema is released and the pointer must not be followed.
    pub format: Option<Vec<u8>>,
}

/// What a [`SchemaHeader`] holds.
pub struct HeaderView {
    pub release: bool,
    pub format: Option<Seq<u8>>,
}

impl View for SchemaHeader {
    type V = HeaderView;

    open spec fn view(&self) -> HeaderView {
        HeaderView { release: self.release, format: crate::helpers::c_bytes(self.format) }
    }
}

/// A C schema in the caller's memory, with its format string.
pub struct SchemaArg<'a> {
    pub raw: &'a FFI_ArrowSchema,
    /// The bytes of the string at the `format` pointer. The pointer may be followed only
    /// where the schema is not released and the pointer is not NULL; elsewhere they
    /// mean nothing.
    pub format: Vec<u8>,
}

/// Which callbacks of a C stream are set.
#[derive(Clone, Copy, Debug, PartialEq, Eq, Structural)]
pub struct StreamSlots {
    /// Whether `release` is set. It is cleared when a stream is released or
    /// moved.
    pub release: bool,
    pub get_schema: bool,
    pub get_next: bool,
}

impl View for StreamSlots {
    type V = (bool, bool, bool);

    open spec fn view(&self) -> (bool, bool, bool) {
        (self.release, self.get_schema, self.get_next)
    }
}

/// Whether the `release` callback of a schema is set, and whether its `format` pointer
/// is NULL: what its public fields of these names hold.
pub uninterp spec fn schema_slots(schema: FFI_ArrowSchema) -> (bool, bool);

/// The bytes of the string at the `format` pointer of a schema that is not released.
pub uninterp spec fn schema_format(schema: FFI_ArrowSchema) -> Seq<u8>;

/// Whether a schema that is not released keeps the C Data Interface in what lies behind
/// its pointers: its format string ends, its name is UTF-8, its metadata is well laid
/// out, and it has the children and the dictionary that it counts and that the format
/// calls for, each of them initialised, with a format string in UTF-8, and keeping the
/// interface in turn. It is the producer's word: no code can look it up.
pub uninterp spec fn schema_conforms(schema: FFI_ArrowSchema) -> bool;

/// Why `<arrow_schema::Schema as TryFrom<&FFI_ArrowSchema>>::try_from` refuses a schema
/// that is not released and keeps the C Data Interface: the text of its error, or `None`
/// where it accepts the schema.
pub uninterp spec fn schema_refusal(schema: FFI_ArrowSchema) -> Option<Seq<char>>;

/// Whether that conversion can turn `schema` into `imported`. It is a relation, since the
/// metadata of an imported schema lies in a hash map that each process seeds anew.
pub uninterp spec fn imports_to(schema: FFI_ArrowSchema, imported: Schema) -> bool;

/// Whether `ArrowArrayStreamReader::try_new` can come to `opened` on this very stream: the
/// reader, or the text of the error. Two calls may come to different ends, as the
/// producer's callback decides.
pub uninterp spec fn opens(
    stream: FFI_ArrowArrayStream,
    opened: Result<StreamReader, Seq<char>>,
) -> bool;

/// Whether the callbacks of a stream that is not released keep the C stream interface: a
/// `get_schema` that reports success has filled in a schema with a format string in
/// UTF-8, which keeps the C Data Interface. It is the producer's word: no code can look
/// it up.
pub uninterp spec fn stream_conforms(stream: FFI_ArrowArrayStream) -> bool;

/// Which of the callbacks `release`, `get_schema` and `get_next` of a stream are
/// set: what its public fields of these names hold.
pub uninterp spec fn callbacks_set(stream: FFI_ArrowArrayStream) -> (bool, bool, bool);

/// Whether `text` is what the `Display` of some Arrow error writes.
pub open spec fn is_arrow_error_text(text: String) -> bool {
    exists|cause: ArrowError| #[trigger]
        vstd::string::to_string_from_display_ensures::<ArrowError>(&cause, text)
}

/// Whether `text` is what the `Display` of `cause` writes.
pub open spec fn reads(cause: ArrowError, text: Seq<char>) -> bool {
    forall|written: String| #[trigger]
        vstd::string::to_string_from_display_ensures::<ArrowError>(&cause, written) ==> written@
            == text
}

/// Whether the attempt to open a reader on `stream` can come to the error `cause`.
pub open spec fn refuses(stream: FFI_ArrowArrayStream, cause: ArrowError) -> bool {
    forall|written: String| #[trigger]
        vstd::string::to_string_from_display_ensures::<ArrowError>(&cause, written) ==> opens(
            stream,
            Err(written@),
        )
}

/// The text of the Arrow error for a stream that is released.
pub open spec fn released_stream() -> Seq<char> {
    "C Data interface error: input stream is already released"@
}

/// The format string of a struct, the type that stands for a schema: `+s`.
pub open spec fn struct_format() -> Seq<u8> {
    seq![43u8, 115u8]
}

/// `<arrow_schema::Schema as TryFrom<&FFI_ArrowSchema>>::try_from`. It asserts that the
/// format string is there and expects it to be UTF-8, and it follows the other pointers
/// in the belief that the schema keeps the C Data Interface. The schema alone decides
/// whether it is accepted and with which error it is refused; none is accepted but those
/// of a struct.
#[verifier::external_body]
fn schema_try_from(raw: &FFI_ArrowSchema) -> (result: Result<Schema, ArrowError>)
    requires
        schema_slots(*raw) == (true, false),
        valid_utf8(schema_format(*raw)),
        schema_conforms(*raw),
    ensures
        match result {
            Ok(imported) => schema_refusal(*raw) is None && imports_to(*raw, imported),
            Err(cause) => schema_refusal(*raw) is Some && reads(cause, schema_refusal(*raw)->0),
        },
        schema_conforms(*raw) && schema_format(*raw) != struct_format() ==> result is Err,
{
    Schema::try_from(raw)
}

/// Reads the public fields `release` and `format` of an `FFI_ArrowSchema`: whether the
/// one holds a callback, and whether the other is NULL.
#[verifier::external_body]
fn read_schema_slots(raw: &FFI_ArrowSchema) -> (slots: (bool, bool))
    ensures
        slots == schema_slots(*raw),
{
    (raw.release.is_some(), raw.format.is_null())
}

/// Reads the public fields `release`, `get_schema` and `get_next` of an
/// `FFI_ArrowArrayStream`: whether each holds a callback.
#[verifier::external_body]
fn read_callbacks(raw: &FFI_ArrowArrayStream) -> (slots: StreamSlots)
    ensures
        slots@ == callbacks_set(*raw),
{
    StreamSlots {
        release: raw.release.is_some(),
        get_schema: raw.get_schema.is_some(),
        get_next: raw.get_next.is_some(),
    }
}

/// `ArrowArrayStreamReader::try_new`. A stream without its `release` callback is refused,
/// as one that is released. Of any other it invokes the `get_schema` callback, which has
/// to be there, and imports the schema that it fills in, in the belief that the stream
/// keeps the C stream interface. So a reader is opened on no stream but a live one that
/// keeps it. The outcome is one of this stream; which one is not said, as the producer's
/// callback decides.
#[verifier::external_body]
fn reader_try_new(stream: FFI_ArrowArrayStream) -> (result: Result<StreamReader, ArrowError>)
    requires
        callbacks_set(stream).0 ==> callbacks_set(stream).1 && stream_conforms(stream),
    ensures
        match result {
            Ok(reader) => opens(stream, Ok(reader)),
            Err(cause) => refuses(stream, cause),
        },
        !(callbacks_set(stream).0 && stream_conforms(stream)) ==> result is Err,
        !callbacks_set(stream).0 ==> result is Err && reads(result->Err_0, released_stream()),
{
    match ArrowArrayStreamReader::try_new(stream) {
        Ok(reader) => Ok(StreamReader { reader }),
        Err(error) => Err(error),
    }
}

/// Which callbacks of a stream are set.
pub fn stream_slots(raw: &FFI_ArrowArrayStream) -> (slots: StreamSlots)
    ensures
        slots@ == callbacks_set(*raw),
        slots.release == callbacks_set(*raw).0,
        slots.get_schema == callbacks_set(*raw).1,
        slots.get_next == callbacks_set(*raw).2,
{
    read_callbacks(raw)
}

/// Whether an import finds the callback that it invokes: that is `get_schema`, of every
/// stream that is not released.
pub open spec fn importable(stream: FFI_ArrowArrayStream) -> bool {
    callbacks_set(stream).0 ==> callbacks_set(stream).1
}

/// Whether the producer keeps the C stream interface, where an import relies on it.
pub open spec fn reliable(stream: FFI_ArrowArrayStream) -> bool {
    callbacks_set(stream).0 && callbacks_set(stream).1 ==> stream_conforms(stream)
}

/// Whether an import finds the callback that it invokes.
pub fn is_importable(stream: &FFI_ArrowArrayStream) -> (found: bool)
    ensures
        found == importable(*stream),
        found <==> (callbacks_set(*stream).0 ==> callbacks_set(*stream).1),
{
    let slots = stream_slots(stream);
    !slots.release || slots.get_schema
}

/// Opens a reader on a stream that was moved out of the caller's memory. The stream is
/// consumed either way: it goes on in the reader, or is released. Where the `release`
/// callback is missing the import fails; otherwise the producer's `get_schema` callback
/// decides. The error is an invalid argument with the text of the Arrow error.
pub fn import_stream(stream: FFI_ArrowArrayStream) -> (result: Result<StreamReader, Error>)
    requires
        importable(stream),
        reliable(stream),
    ensures
        match result {
            Ok(reader) => opens(stream, Ok(reader)),
            Err(error) => {
                &&& error.code == LanceErrorCode::InvalidArgument
                &&& opens(stream, Err(error.message@))
                &&& is_arrow_error_text(error.message)
            },
        },
        !callbacks_set(stream).0 ==> (result matches Err(error) && error@
            == crate::error::invalid_input(released_stream())),
{
    match reader_try_new(stream) {
        Ok(reader) => Ok(reader),
        Err(cause) => {
            let message = cause.to_string();
            assert(is_arrow_error_text(message));
            Err(Error::invalid_input(message))
        },
    }
}

impl SchemaArg<'_> {
    /// Whether the format string is the one of the schema, where the schema has one.
    pub open spec fn well_formed(&self) -> bool {
        schema_slots(*self.raw) == (true, false) ==> self.format@ == schema_format(*self.raw)
    }

    /// What is checked of the schema before it is imported.
    pub open spec fn header(&self) -> HeaderView {
        HeaderView {
            release: schema_slots(*self.raw).0,
            format: if schema_slots(*self.raw) == (true, false) {
                Some(schema_format(*self.raw))
            } else {
                None
            },
        }
    }

    /// Reads what is checked of the schema before it is imported.
    pub fn read_header(&self) -> (header: SchemaHeader)
        requires
            self.well_formed(),
        ensures
            header@ == self.header(),
            header.release == schema_slots(*self.raw).0,
            header.format is Some <==> schema_slots(*self.raw) == (true, false),
            header.format is Some ==> header.format->0@ == schema_format(*self.raw),
    {
        let (release, no_format) = read_schema_slots(self.raw);
        let format = if !release || no_format {
            None
        } else {
            let bytes = self.format.clone();
            assert(bytes@ =~= self.format@);
            Some(bytes)
        };
        SchemaHeader { release, format }
    }
}

/// Imports a C schema that passed the checks on its header. The schema itself decides; a
/// type that is no struct is refused. The error is the text of the Arrow error.
pub fn import_schema(raw: &FFI_ArrowSchema) -> (result: Result<Schema, String>)
    requires
        schema_slots(*raw) == (true, false),
        valid_utf8(schema_format(*raw)),
        schema_conforms(*raw),
    ensures
        match schema_refusal(*raw) {
            None => result matches Ok(imported) && imports_to(*raw, imported),
            Some(refusal) => result matches Err(message) && message@ == refusal,
        },
        schema_format(*raw) != struct_format() ==> result is Err,
{
    match schema_try_from(raw) {
        Ok(imported) => Ok(imported),
        Err(cause) => Err(cause.to_string()),
    }
}

/// Streams and schemas are seen as they are: each callback under its own name, and the
/// format string only where the schema is not released and has one.
pub proof fn law_arguments_are_seen_as_they_are(
    slots: StreamSlots,
    header: SchemaHeader,
    schema: SchemaArg,
    stream: FFI_ArrowArrayStream,
)
    ensures
        slots@.0 == slots.release,
        slots@.1 == slots.get_schema,
        slots@.2 == slots.get_next,
        header@.release == header.release,
        header.format is None <==> header@.format is None,
        header.format is Some ==> header@.format == Some(header.format->0@),
        schema.header().release == schema_slots(*schema.raw).0,
        schema.header().format is Some <==> schema_slots(*schema.raw).0 && !schema_slots(
            *schema.raw,
        ).1,
        schema.header().format is Some ==> schema.header().format->0 == schema_format(*schema.raw),
        schema.well_formed() <==> (schema.header().format is Some ==> schema.format@
            == schema_format(*schema.raw)),
        importable(stream) <==> (callbacks_set(stream).0 ==> callbacks_set(stream).1),
        reliable(stream) <==> (callbacks_set(stream).0 && callbacks_set(stream).1
            ==> stream_conforms(stream)),
{
}

/// The format string of a struct is a plus sign and an s, nothing more.
pub proof fn law_struct_format(format: Seq<u8>)
    ensures
        format == struct_format() <==> format.len() == 2 && format[0] == 0x2b && format[1] == 0x73,
{
    if format.len() == 2 && format[0] == 0x2b && format[1] == 0x73 {
        assert(format =~= struct_format());
    }
}

} // verus!
