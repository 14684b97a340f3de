//! Adding columns from an Arrow C stream.
//!
//! The call alternates with outside work: the import of the stream, its release
//! where it cannot be imported, and the commit. [`AddStreamCall`] takes the
//! decisions: it names an action, the host performs it and reports what came of it
//! as an event, until the action is to return.

use arrow::ffi_stream::FFI_ArrowArrayStream;
use vstd::prelude::*;

use crate::add_columns;
use crate::add_columns::resolve_batch_size;
use crate::arrow_import;
use crate::arrow_import::{import_stream, is_importable, StreamReader, StreamSlots};
use crate::error;
use crate::error::{Error, ErrorView, LanceErrorCode};

verus! {

/// Where a call stands: what it waits for.
#[derive(Clone, Copy, Debug, PartialEq, Eq, Structural)]
pub enum AddStreamCall {
    /// The stream is being imported.
    Importing,
    /// The stream is being released, unread.
    Releasing,
    /// The storage engine is adding the columns.
    Committing,
    /// The call has returned.
    Returned,
}

/// What the host does next. `E` is the type of an error.
#[derive(Debug)]
pub enum AddStreamAction<E> {
    /// Move the stream out of the caller's memory and open a reader on it. This
    /// consumes the stream, also where it fails.
    ImportStream,
    /// Clear the stream's `release` slot, then invoke the callback that was there,
    /// once.
    ReleaseStream,
    /// Under the dataset's write lock, add the columns of the reader, with so many
    /// rows per batch; `None` leaves that to the engine.
    Commit(Option<u32>),
    /// Return to the caller. A reader that is still open is dropped, which releases
    /// the stream.
    Return(Result<i32, E>),
}

/// What came of an action. `E` is the type of an error.
#[derive(Debug)]
pub enum AddStreamEvent<E> {
    /// The stream was imported. `dataset` tells whether the caller's dataset handle
    /// is there, `batch_size` is the number that the caller passed.
    StreamImported { dataset: bool, batch_size: u64 },
    /// The import failed.
    StreamRefused(E),
    /// The stream was released.
    StreamReleased,
    /// The columns were committed.
    Committed,
    /// The storage engine failed.
    CommitFailed(E),
}

impl DeepView for AddStreamAction<Error> {
    type V = AddStreamAction<ErrorView>;

    open spec fn deep_view(&self) -> AddStreamAction<ErrorView> {
        match *self {
            AddStreamAction::ImportStream => AddStreamAction::ImportStream,
            AddStreamAction::ReleaseStream => AddStreamAction::ReleaseStream,
            AddStreamAction::Commit(batch_size) => AddStreamAction::Commit(batch_size),
            AddStreamAction::Return(result) => AddStreamAction::Return(error::outcome(result)),
        }
    }
}

impl DeepView for AddStreamEvent<Error> {
    type V = AddStreamEvent<ErrorView>;

    open spec fn deep_view(&self) -> AddStreamEvent<ErrorView> {
        match *self {
            AddStreamEvent::StreamImported { dataset, batch_size } => {
                AddStreamEvent::StreamImported { dataset, batch_size }
            },
            AddStreamEvent::StreamRefused(error) => AddStreamEvent::StreamRefused(error@),
            AddStreamEvent::StreamReleased => AddStreamEvent::StreamReleased,
            AddStreamEvent::Committed => AddStreamEvent::Committed,
            AddStreamEvent::CommitFailed(error) => AddStreamEvent::CommitFailed(error@),
        }
    }
}

/// The error for a stream that lacks a mandatory callback.
pub open spec fn incomplete_stream() -> ErrorView {
    error::invalid_input(
        "stream is uninitialised, already released, or missing a required get_schema/get_next/release callback"@,
    )
}

/// The batch size of the commit that the arguments ask for, or the first thing
/// wrong with them.
pub open spec fn stream_request(dataset: bool, batch_size: u64) -> Result<Option<u32>, ErrorView> {
    if !dataset {
        Err(error::invalid_input("dataset must not be NULL"@))
    } else {
        add_columns::batch_size_of(batch_size)
    }
}

/// How a call begins with the stream `stream`, `None` for NULL. A stream that
/// lacks a mandatory callback must not reach the import; it is released here where
/// it can be.
pub open spec fn begun(stream: Option<StreamSlots>) -> (AddStreamCall, AddStreamAction<ErrorView>) {
    match stream {
        None => (
            AddStreamCall::Returned,
            AddStreamAction::Return(Err(error::invalid_input("stream must not be NULL"@))),
        ),
        Some(slots) => if slots.release && slots.get_schema && slots.get_next {
            (AddStreamCall::Importing, AddStreamAction::ImportStream)
        } else if slots.release {
            (AddStreamCall::Releasing, AddStreamAction::ReleaseStream)
        } else {
            (AddStreamCall::Returned, AddStreamAction::Return(Err(incomplete_stream())))
        },
    }
}

impl AddStreamCall {
    /// Whether `event` can come of the action that the call waits for.
    pub open spec fn expects(self, event: AddStreamEvent<ErrorView>) -> bool {
        match event {
            AddStreamEvent::StreamImported { .. } => self == AddStreamCall::Importing,
            AddStreamEvent::StreamRefused(_) => self == AddStreamCall::Importing,
            AddStreamEvent::StreamReleased => self == AddStreamCall::Releasing,
            AddStreamEvent::Committed => self == AddStreamCall::Committing,
            AddStreamEvent::CommitFailed(_) => self == AddStreamCall::Committing,
        }
    }

    /// How the call goes on after `event`.
    pub open spec fn stepped(self, event: AddStreamEvent<ErrorView>) -> (
        AddStreamCall,
        AddStreamAction<ErrorView>,
    ) {
        match event {
            AddStreamEvent::StreamImported { dataset, batch_size } => match stream_request(
                dataset,
                batch_size,
            ) {
                Ok(rows) => (AddStreamCall::Committing, AddStreamAction::Commit(rows)),
                Err(error) => (AddStreamCall::Returned, AddStreamAction::Return(Err(error))),
            },
            AddStreamEvent::StreamRefused(error) => (
                AddStreamCall::Returned,
                AddStreamAction::Return(Err(error)),
            ),
            AddStreamEvent::StreamReleased => (
                AddStreamCall::Returned,
                AddStreamAction::Return(Err(incomplete_stream())),
            ),
            AddStreamEvent::Committed => (
                AddStreamCall::Returned,
                AddStreamAction::Return(Ok(0)),
            ),
            AddStreamEvent::CommitFailed(error) => (
                AddStreamCall::Returned,
                AddStreamAction::Return(Err(error)),
            ),
        }
    }

    /// Begins a call. `stream` tells which callbacks of the caller's stream are
    /// set, `None` for NULL. It is the only check in front of the import: every
    /// later one returns with the stream consumed.
    pub fn begin(stream: Option<StreamSlots>) -> (next: (AddStreamCall, AddStreamAction<Error>))
        ensures
            (next.0, next.1.deep_view()) == begun(stream),
    {
        let slots = match stream {
            None => return (
                AddStreamCall::Returned,
                AddStreamAction::Return(
                    Err(Error::invalid_input("stream must not be NULL".to_owned())),
                ),
            ),
            Some(slots) => slots,
        };
        if !slots.release || !slots.get_schema || !slots.get_next {
            if slots.release {
                return (AddStreamCall::Releasing, AddStreamAction::ReleaseStream);
            }
            return (
                AddStreamCall::Returned,
                AddStreamAction::Return(Err(incomplete_stream_error())),
            );
        }
        (AddStreamCall::Importing, AddStreamAction::ImportStream)
    }

    /// Goes on after `event`, which came of the last action.
    pub fn step(self, event: AddStreamEvent<Error>) -> (next: (
        AddStreamCall,
        AddStreamAction<Error>,
    ))
        requires
            self.expects(event.deep_view()),
        ensures
            (next.0, next.1.deep_view()) == self.stepped(event.deep_view()),
            event matches AddStreamEvent::StreamImported { dataset, batch_size } ==> {
                &&& dataset && batch_size <= u32::MAX <==> next.1 is Commit
                &&& next.1 matches AddStreamAction::Commit(rows) ==> {
                    &&& rows is None <==> batch_size == 0
                    &&& rows is Some ==> rows->0 == batch_size
                }
            },
            event matches AddStreamEvent::StreamRefused(error) ==> (next.1
                matches AddStreamAction::Return(result) && result == Err::<i32, Error>(error)),
            event matches AddStreamEvent::CommitFailed(error) ==> (next.1
                matches AddStreamAction::Return(result) && result == Err::<i32, Error>(error)),
            event is Committed ==> (next.1 matches AddStreamAction::Return(result) && result == Ok::<
                i32,
                Error,
            >(0)),
    {
        match event {
            AddStreamEvent::StreamImported { dataset, batch_size } => {
                if !dataset {
                    return (
                        AddStreamCall::Returned,
                        AddStreamAction::Return(
                            Err(Error::invalid_input("dataset must not be NULL".to_owned())),
                        ),
                    );
                }
                match resolve_batch_size(batch_size) {
                    Ok(rows) => (AddStreamCall::Committing, AddStreamAction::Commit(rows)),
                    Err(error) => (AddStreamCall::Returned, AddStreamAction::Return(Err(error))),
                }
            },
            AddStreamEvent::StreamRefused(error) => (
                AddStreamCall::Returned,
                AddStreamAction::Return(Err(error)),
            ),
            AddStreamEvent::StreamReleased => (
                AddStreamCall::Returned,
                AddStreamAction::Return(Err(incomplete_stream_error())),
            ),
            AddStreamEvent::Committed => (AddStreamCall::Returned, AddStreamAction::Return(Ok(0))),
            AddStreamEvent::CommitFailed(error) => (
                AddStreamCall::Returned,
                AddStreamAction::Return(Err(error)),
            ),
        }
    }
}

/// What the import of a stream leads to: the reader, if there is one, where the call
/// stands, and its next action.
pub type AfterImport = (Option<StreamReader>, AddStreamCall, AddStreamAction<Error>);

impl AddStreamCall {
    /// Whether the call goes on as it has to after the import of `stream`. The reader
    /// is there where the import of this very stream succeeded, which is for the
    /// producer's callbacks to decide, except that a stream without its `release` callback
    /// is refused. A refusal is an invalid argument with the text of the Arrow error.
    pub open spec fn goes_on_after_import(
        self,
        stream: FFI_ArrowArrayStream,
        dataset: bool,
        batch_size: u64,
        next: AfterImport,
    ) -> bool {
        &&& match next.0 {
            Some(reader) => {
                &&& arrow_import::opens(stream, Ok(reader))
                &&& (next.1, next.2.deep_view()) == self.stepped(
                    AddStreamEvent::StreamImported { dataset, batch_size },
                )
            },
            None => exists|error: Error|
                {
                    &&& error.code == LanceErrorCode::InvalidArgument
                    &&& arrow_import::opens(stream, Err(error.message@))
                    &&& arrow_import::is_arrow_error_text(error.message)
                    &&& (next.1, next.2.deep_view()) == #[trigger] self.stepped(
                        AddStreamEvent::StreamRefused(error@),
                    )
                },
        }
        &&& !arrow_import::callbacks_set(stream).0 ==> {
            &&& next.0 is None
            &&& (next.1, next.2.deep_view()) == self.stepped(
                AddStreamEvent::StreamRefused(
                    error::invalid_input(arrow_import::released_stream()),
                ),
            )
        }
    }

    /// Performs [`AddStreamAction::ImportStream`] on the stream that was moved out of
    /// the caller's memory, and goes on with what came of it.
    pub fn import_stream(self, stream: FFI_ArrowArrayStream, dataset: bool, batch_size: u64) -> (next:
        AfterImport)
        requires
            self == AddStreamCall::Importing,
            arrow_import::importable(stream),
            arrow_import::reliable(stream),
        ensures
            self.goes_on_after_import(stream, dataset, batch_size, next),
    {
        match import_stream(stream) {
            Ok(reader) => {
                let (call, action) = self.step(
                    AddStreamEvent::StreamImported { dataset, batch_size },
                );
                (Some(reader), call, action)
            },
            Err(error) => {
                let ghost refused = error;
                let (call, action) = self.step(AddStreamEvent::StreamRefused(error));
                assert((call, action.deep_view()) == self.stepped(
                    AddStreamEvent::StreamRefused(refused@),
                ));
                (None, call, action)
            },
        }
    }

    /// As [`AddStreamCall::import_stream`], also for a stream without the
    /// `get_schema` callback that the import invokes: `None` for such a stream.
    pub fn try_import_stream(self, stream: FFI_ArrowArrayStream, dataset: bool, batch_size: u64) -> (next:
        Option<AfterImport>)
        requires
            self == AddStreamCall::Importing,
            arrow_import::reliable(stream),
        ensures
            next is None <==> !arrow_import::importable(stream),
            next matches Some(next) ==> self.goes_on_after_import(
                stream,
                dataset,
                batch_size,
                next,
            ),
    {
        if is_importable(&stream) {
            Some(self.import_stream(stream, dataset, batch_size))
        } else {
            None
        }
    }
}

/// The error for a stream that lacks a mandatory callback.
fn incomplete_stream_error() -> (error: Error)
    ensures
        error@ == incomplete_stream(),
{
    Error::invalid_input(
        "stream is uninitialised, already released, or missing a required get_schema/get_next/release callback".to_owned(),
    )
}

/// Where a call stands after `events`, and its last action.
pub open spec fn after(
    stream: Option<StreamSlots>,
    events: Seq<AddStreamEvent<ErrorView>>,
) -> (AddStreamCall, AddStreamAction<ErrorView>)
    decreases events.len(),
{
    if events.len() == 0 {
        begun(stream)
    } else {
        after(stream, events.drop_last()).0.stepped(events.last())
    }
}

/// Whether a call can meet with `events`: each comes of the action before it.
pub open spec fn possible(
    stream: Option<StreamSlots>,
    events: Seq<AddStreamEvent<ErrorView>>,
) -> bool
    decreases events.len(),
{
    events.len() == 0 || {
        &&& possible(stream, events.drop_last())
        &&& after(stream, events.drop_last()).0.expects(events.last())
    }
}

/// The actions of a call that met with `events`.
pub open spec fn actions(
    stream: Option<StreamSlots>,
    events: Seq<AddStreamEvent<ErrorView>>,
) -> Seq<AddStreamAction<ErrorView>> {
    Seq::new(events.len() + 1, |i: int| after(stream, events.take(i)).1)
}

/// Whether an action takes the stream from the caller: it is imported or released.
pub open spec fn consumes_stream(action: AddStreamAction<ErrorView>) -> bool {
    action is ImportStream || action is ReleaseStream
}

/// Whether the caller passed a stream that is not released yet.
pub open spec fn live(stream: Option<StreamSlots>) -> bool {
    stream matches Some(slots) && slots.release
}

/// The stream is consumed on every path, and only once: of a stream that is there
/// and not released yet, the first action takes it, whatever happens then, and no
/// later action does. A NULL or released stream is never touched.
pub proof fn law_stream_consumed_exactly_once(
    stream: Option<StreamSlots>,
    events: Seq<AddStreamEvent<ErrorView>>,
    i: int,
)
    requires
        possible(stream, events),
        0 <= i <= events.len(),
    ensures
        consumes_stream(actions(stream, events)[i]) <==> i == 0 && live(stream),
{
    assert(events.take(0) =~= seq![]);
}

/// A stream is imported only with all its mandatory callbacks: no other reaches
/// the import.
pub proof fn law_only_complete_streams_are_imported(
    stream: Option<StreamSlots>,
    events: Seq<AddStreamEvent<ErrorView>>,
    i: int,
)
    requires
        possible(stream, events),
        0 <= i <= events.len(),
        actions(stream, events)[i] is ImportStream,
    ensures
        stream matches Some(slots) && slots.release && slots.get_schema && slots.get_next,
{
    assert(events.take(0) =~= seq![]);
}

/// A call goes on until it returns, after two events at most, and returns once.
pub proof fn law_call_returns(
    stream: Option<StreamSlots>,
    events: Seq<AddStreamEvent<ErrorView>>,
)
    requires
        possible(stream, events),
    ensures
        events.len() <= 2,
        after(stream, events).0 == AddStreamCall::Returned <==> after(stream, events).1 is Return,
        after(stream, events).0 == AddStreamCall::Returned ==> forall|
            event: AddStreamEvent<ErrorView>,
        |
            !after(stream, events).0.expects(event),
        after(stream, events).0 != AddStreamCall::Returned ==> exists|
            event: AddStreamEvent<ErrorView>,
        |
            after(stream, events).0.expects(event),
{
    lemma_waits_after(stream, events);
    let call = after(stream, events).0;
    if call == AddStreamCall::Importing {
        assert(call.expects(AddStreamEvent::StreamImported { dataset: true, batch_size: 0 }));
    } else if call == AddStreamCall::Releasing {
        assert(call.expects(AddStreamEvent::StreamReleased));
    } else if call == AddStreamCall::Committing {
        assert(call.expects(AddStreamEvent::Committed));
    }
}

/// How many events lie behind a call that waits.
proof fn lemma_waits_after(
    stream: Option<StreamSlots>,
    events: Seq<AddStreamEvent<ErrorView>>,
)
    requires
        possible(stream, events),
    ensures
        events.len() <= 2,
        match after(stream, events).0 {
            AddStreamCall::Importing => events.len() == 0 && after(stream, events).1 is ImportStream,
            AddStreamCall::Releasing => events.len() == 0 && after(
                stream,
                events,
            ).1 is ReleaseStream,
            AddStreamCall::Committing => events.len() == 1 && after(stream, events).1 is Commit,
            AddStreamCall::Returned => after(stream, events).1 is Return,
        },
    decreases events.len(),
{
    if events.len() > 0 {
        lemma_waits_after(stream, events.drop_last());
    }
}

/// The storage engine is asked only after the stream was imported and every
/// argument was found sound, and with the batch size that the caller passed.
pub proof fn law_engine_asked_after_all_checks(
    stream: Option<StreamSlots>,
    events: Seq<AddStreamEvent<ErrorView>>,
)
    requires
        possible(stream, events),
        after(stream, events).1 is Commit,
    ensures
        events.len() == 1,
        events[0] matches AddStreamEvent::StreamImported { dataset, batch_size } && dataset
            && stream_request(dataset, batch_size) == Ok::<Option<u32>, ErrorView>(
            after(stream, events).1->Commit_0,
        ),
{
    lemma_waits_after(stream, events);
    lemma_waits_after(stream, events.drop_last());
}

/// A call succeeds exactly when its commit did: it returns 0 after a commit, and
/// an error otherwise, which is the engine's own where the engine failed, the
/// import's own where the import failed, and an invalid argument in every other
/// case.
pub proof fn law_returns_zero_iff_committed(
    stream: Option<StreamSlots>,
    events: Seq<AddStreamEvent<ErrorView>>,
)
    requires
        possible(stream, events),
        after(stream, events).1 is Return,
    ensures
        after(stream, events).1->Return_0 == Ok::<i32, ErrorView>(0) <==> events.len() > 0
            && events.last() is Committed,
        after(stream, events).1->Return_0 is Ok <==> events.len() > 0 && events.last() is Committed,
        events.len() > 0 ==> match events.last() {
            AddStreamEvent::CommitFailed(error) => after(stream, events).1->Return_0 == Err::<
                i32,
                ErrorView,
            >(error),
            AddStreamEvent::StreamRefused(error) => after(stream, events).1->Return_0 == Err::<
                i32,
                ErrorView,
            >(error),
            AddStreamEvent::Committed => true,
            _ => after(stream, events).1->Return_0 matches Err(error) && error.code
                == LanceErrorCode::InvalidArgument,
        },
        events.len() == 0 ==> (after(stream, events).1->Return_0 matches Err(error) && error.code
            == LanceErrorCode::InvalidArgument),
{
}

/// After the import a call goes on to the commit exactly when the dataset is there and the
/// batch size is at most `u32::MAX`. The commit gets no batch size for 0, and the very
/// number otherwise. Any other call is refused with what is wrong with it.
pub proof fn law_commits_with_the_callers_batch_size(
    call: AddStreamCall,
    dataset: bool,
    batch_size: u64,
)
    ensures
        ({
            let next = call.stepped(AddStreamEvent::StreamImported { dataset, batch_size });
            &&& dataset && batch_size <= u32::MAX <==> next.1 is Commit
            &&& next.1 is Commit <==> next.0 is Committing
            &&& next.1 matches AddStreamAction::Commit(rows) ==> {
                &&& rows is None <==> batch_size == 0
                &&& rows is Some ==> rows->0 == batch_size
            }
            &&& !(next.1 is Commit) ==> next.0 is Returned && next.1 is Return
            &&& !dataset ==> error::refused(next.1->Return_0, "dataset must not be NULL"@)
            &&& dataset && batch_size > u32::MAX ==> error::refused(
                next.1->Return_0,
                "batch_size="@ + crate::text::decimal(batch_size as nat) + " exceeds u32::MAX"@,
            )
        }),
        stream_request(dataset, batch_size) is Ok <==> dataset && batch_size <= u32::MAX,
{
}

/// How a call begins with each kind of stream: NULL is refused, a complete stream is
/// imported, an incomplete one is released where it can be and refused otherwise.
pub proof fn law_call_begins_with_the_stream(stream: Option<StreamSlots>)
    ensures
        stream is None ==> {
            &&& begun(stream).0 is Returned
            &&& begun(stream).1 is Return
            &&& error::refused(begun(stream).1->Return_0, "stream must not be NULL"@)
        },
        stream matches Some(slots) ==> {
            &&& slots.release && slots.get_schema && slots.get_next <==> begun(
                stream,
            ).1 is ImportStream
            &&& slots.release && !(slots.get_schema && slots.get_next) <==> begun(
                stream,
            ).1 is ReleaseStream
            &&& begun(stream).1 is ImportStream <==> begun(stream).0 is Importing
            &&& begun(stream).1 is ReleaseStream <==> begun(stream).0 is Releasing
            &&& !slots.release ==> {
                &&& begun(stream).0 is Returned
                &&& begun(stream).1 is Return
                &&& error::refused(
                    begun(stream).1->Return_0,
                    "stream is uninitialised, already released, or missing a required get_schema/get_next/release callback"@,
                )
            }
        },
        live(stream) <==> stream is Some && stream->0.release,
{
}

/// What the other reports lead to: a released stream to the refusal of the stream, a commit
/// to 0, a failed commit and a refused import to that very error.
pub proof fn law_reports_lead_on(call: AddStreamCall, error: ErrorView)
    ensures
        ({
            let next = call.stepped(AddStreamEvent::StreamReleased);
            &&& next.0 is Returned
            &&& next.1 is Return
            &&& error::refused(
                next.1->Return_0,
                "stream is uninitialised, already released, or missing a required get_schema/get_next/release callback"@,
            )
        }),
        ({
            let next = call.stepped(AddStreamEvent::Committed);
            &&& next.0 is Returned
            &&& next.1 is Return
            &&& next.1->Return_0 == Ok::<i32, ErrorView>(0)
        }),
        ({
            let next = call.stepped(AddStreamEvent::CommitFailed(error));
            &&& next.0 is Returned
            &&& next.1 is Return
            &&& next.1->Return_0 == Err::<i32, ErrorView>(error)
        }),
        ({
            let next = call.stepped(AddStreamEvent::StreamRefused(error));
            &&& next.0 is Returned
            &&& next.1 is Return
            &&& next.1->Return_0 == Err::<i32, ErrorView>(error)
        }),
{
}

/// What a call can hear while it waits: of the import, with any dataset and any batch size;
/// of the release; of the commit; each with any error; and of nothing once it has returned.
pub proof fn law_what_a_call_can_hear(
    call: AddStreamCall,
    dataset: bool,
    batch_size: u64,
    error: ErrorView,
)
    ensures
        call.expects(AddStreamEvent::StreamImported { dataset, batch_size }) <==> call is Importing,
        call.expects(AddStreamEvent::StreamRefused(error)) <==> call is Importing,
        call.expects(AddStreamEvent::StreamReleased) <==> call is Releasing,
        call.expects(AddStreamEvent::Committed) <==> call is Committing,
        call.expects(AddStreamEvent::CommitFailed(error)) <==> call is Committing,
{
}

/// A call is the sequence of its steps: it begins, and each event that it can hear takes it
/// one step on.
pub proof fn law_calls_go_step_by_step(
    stream: Option<StreamSlots>,
    events: Seq<AddStreamEvent<ErrorView>>,
    event: AddStreamEvent<ErrorView>,
)
    ensures
        after(stream, seq![]) == begun(stream),
        possible(stream, seq![]),
        after(stream, events.push(event)) == after(stream, events).0.stepped(event),
        possible(stream, events.push(event)) <==> possible(stream, events) && after(
            stream,
            events,
        ).0.expects(event),
        actions(stream, events).len() == events.len() + 1,
        actions(stream, events).last() == after(stream, events).1,
        actions(stream, events.push(event)) == actions(stream, events).push(
            after(stream, events.push(event)).1,
        ),
{
    assert(events.push(event).drop_last() =~= events);
    assert(events.take(events.len() as int) =~= events);
    assert(events.push(event).take((events.len() + 1) as int) =~= events.push(event));
    assert forall|i: int| 0 <= i <= events.len() implies events.push(event).take(i)
        == #[trigger] events.take(i) by {
        assert(events.push(event).take(i) =~= events.take(i));
    }
    assert(actions(stream, events.push(event)) =~= actions(stream, events).push(
        after(stream, events.push(event)).1,
    ));
}

/// The stream is consumed by its import or by its release, and by nothing else.
pub proof fn law_what_consumes_a_stream(action: AddStreamAction<ErrorView>)
    ensures
        consumes_stream(action) <==> !(action is Commit || action is Return),
        incomplete_stream().code == LanceErrorCode::InvalidArgument,
        incomplete_stream().message
            == "stream is uninitialised, already released, or missing a required get_schema/get_next/release callback"@,
{
}

/// Actions and events are seen as they are: variant by variant, with all that they hold.
pub proof fn law_calls_are_seen_as_they_are(
    action: AddStreamAction<Error>,
    event: AddStreamEvent<Error>,
)
    ensures
        action is ImportStream <==> action.deep_view() is ImportStream,
        action is ReleaseStream <==> action.deep_view() is ReleaseStream,
        action is Commit <==> action.deep_view() is Commit,
        action matches AddStreamAction::Commit(rows) ==> action.deep_view()->Commit_0 == rows,
        action is Return <==> action.deep_view() is Return,
        action matches AddStreamAction::Return(result) ==> {
            &&& result matches Ok(value) ==> action.deep_view()->Return_0 == Ok::<i32, ErrorView>(
                value,
            )
            &&& result matches Err(error) ==> action.deep_view()->Return_0 == Err::<i32, ErrorView>(
                error@,
            )
        },
        event is StreamImported <==> event.deep_view() is StreamImported,
        event matches AddStreamEvent::StreamImported { dataset, batch_size } ==> {
            &&& event.deep_view()->dataset == dataset
            &&& event.deep_view()->batch_size == batch_size
        },
        event is StreamRefused <==> event.deep_view() is StreamRefused,
        event matches AddStreamEvent::StreamRefused(error)
            ==> event.deep_view()->StreamRefused_0 == error@,
        event is StreamReleased <==> event.deep_view() is StreamReleased,
        event is Committed <==> event.deep_view() is Committed,
        event is CommitFailed <==> event.deep_view() is CommitFailed,
        event matches AddStreamEvent::CommitFailed(error) ==> event.deep_view()->CommitFailed_0
            == error@,
{
}

/// What the import of the stream leads to: with a reader, which is one of this very stream,
/// the call commits exactly when the dataset is there and the batch size fits. Without one
/// it returns an invalid argument, with an error of this very stream.
pub proof fn law_import_leads_on(
    call: AddStreamCall,
    stream: FFI_ArrowArrayStream,
    dataset: bool,
    batch_size: u64,
    next: AfterImport,
)
    requires
        call.goes_on_after_import(stream, dataset, batch_size, next),
    ensures
        next.0 matches Some(reader) ==> {
            &&& arrow_import::opens(stream, Ok(reader))
            &&& dataset && batch_size <= u32::MAX <==> next.2 is Commit
            &&& next.2 is Commit <==> next.1 is Committing
            &&& next.2 matches AddStreamAction::Commit(rows) ==> {
                &&& rows is None <==> batch_size == 0
                &&& rows is Some ==> rows->0 == batch_size
            }
            &&& !(next.2 is Commit) ==> (next.2 matches AddStreamAction::Return(result) && result is Err)
        },
        next.0 is None ==> next.1 is Returned && (next.2 matches AddStreamAction::Return(result) && (
        result matches Err(error) && error.code == LanceErrorCode::InvalidArgument
            && arrow_import::opens(stream, Err(error.message@)))),
        !arrow_import::callbacks_set(stream).0 ==> next.0 is None && (next.2
            matches AddStreamAction::Return(result) && (result matches Err(error) && error.message@
            == "C Data interface error: input stream is already released"@)),
{
    if next.0 is Some {
        law_commits_with_the_callers_batch_size(call, dataset, batch_size);
    }
}

} // verus!
