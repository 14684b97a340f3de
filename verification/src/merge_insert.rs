//! Merging an Arrow stream into a dataset, SQL-MERGE style.
//!
//! The call alternates with outside work: the import of the source stream, the
//! parse of a delete filter against the dataset, the build and the execution of the
//! merge job. [`MergeInsertCall`] takes the decisions: it names an action, the host
//! performs it and reports what came of it as an event, until the call has ended.

use arrow::ffi_stream::FFI_ArrowArrayStream;
use vstd::prelude::*;
use vstd::utf8::*;

use crate::arrow_import;
use crate::arrow_import::{import_stream, is_importable, StreamReader};
use crate::error;
use crate::error::{Error, ErrorView, LanceErrorCode};
use crate::helpers;
use crate::helpers::parse_c_string;
use crate::merge_params;
use crate::merge_params::{
    resolve_params, BySourceView, LanceMergeInsertParams, ParamsView, ResolvedParams,
    ResolvedView, ResolvedWhenNotMatchedBySource,
};
use crate::text;
use crate::text::decimal_text;

verus! {

/// Per-call merge statistics, as the caller receives them.
#[derive(Clone, Copy, Debug, Default, PartialEq, Eq, Structural)]
pub struct LanceMergeInsertResult {
    /// Rows that did not match any target row and were inserted.
    pub num_inserted_rows: u64,
    /// Target rows that matched a source row and were updated in place.
    pub num_updated_rows: u64,
    /// Target rows deleted as a result of the merge.
    pub num_deleted_rows: u64,
}

/// The row counts that the storage engine reports for a merge.
#[derive(Clone, Copy, Debug, PartialEq, Eq, Structural)]
pub struct MergeStats {
    pub num_inserted_rows: u64,
    pub num_updated_rows: u64,
    pub num_deleted_rows: u64,
}

/// What the caller passed beside the source stream.
#[derive(Debug)]
pub struct MergeInsertArgs {
    /// Whether the dataset handle is there.
    pub dataset: bool,
    /// The join keys: each the bytes of a C string, `None` for a NULL entry; `None`
    /// altogether for a NULL array.
    pub on_columns: Option<Vec<Option<Vec<u8>>>>,
    /// How many entries of the array count.
    pub num_on_columns: usize,
    /// The merge parameters, if there are any.
    pub params: Option<LanceMergeInsertParams>,
    /// Whether the caller wants the statistics.
    pub out_result: bool,
}

/// What [`MergeInsertArgs`] hold.
pub struct ArgsView {
    pub dataset: bool,
    pub on_columns: Option<Seq<Option<Seq<u8>>>>,
    pub num_on_columns: nat,
    pub params: Option<ParamsView>,
    pub out_result: bool,
}

/// The entries of an array of C strings.
pub open spec fn c_strings(ptrs: Seq<Option<Vec<u8>>>) -> Seq<Option<Seq<u8>>> {
    Seq::new(ptrs.len(), |i: int| helpers::c_bytes(ptrs[i]))
}

impl DeepView for MergeInsertArgs {
    type V = ArgsView;

    open spec fn deep_view(&self) -> ArgsView {
        ArgsView {
            dataset: self.dataset,
            on_columns: match self.on_columns {
                None => None,
                Some(ptrs) => Some(c_strings(ptrs@)),
            },
            num_on_columns: self.num_on_columns as nat,
            params: self.params.deep_view(),
            out_result: self.out_result,
        }
    }
}

impl ArgsView {
    /// The array has the entries that count, as a C caller guarantees.
    pub open spec fn well_formed(self) -> bool {
        self.on_columns matches Some(ptrs) ==> self.num_on_columns <= ptrs.len()
    }
}

/// A checked merge, ready for the storage engine.
#[derive(Debug)]
pub struct MergeInsertPlan {
    /// The join keys, in the caller's order.
    pub keys: Vec<String>,
    pub behavior: ResolvedParams,
}

/// What a [`MergeInsertPlan`] holds.
#[verifier::ext_equal]
pub struct PlanView {
    pub keys: Seq<Seq<char>>,
    pub behavior: ResolvedView,
}

impl DeepView for MergeInsertPlan {
    type V = PlanView;

    open spec fn deep_view(&self) -> PlanView {
        PlanView { keys: self.keys.deep_view(), behavior: self.behavior.deep_view() }
    }
}

/// The join key in the array entry `ptr` at `index`.
pub open spec fn join_key(ptr: Option<Seq<u8>>, index: nat) -> Result<Seq<char>, ErrorView> {
    match helpers::c_text(ptr) {
        Err(error) => Err(error),
        Ok(key) => if key matches Some(key) && key.len() > 0 {
            Ok(key->0)
        } else {
            Err(
                error::invalid_input(
                    "on_columns["@ + text::decimal(index) + "] must not be NULL or empty"@,
                ),
            )
        },
    }
}

/// How the join keys of an array are read.
pub open spec fn key_reader() -> spec_fn(Option<Seq<u8>>, nat) -> Result<Seq<char>, ErrorView> {
    |ptr: Option<Seq<u8>>, index: nat| join_key(ptr, index)
}

/// The merge that the arguments ask for, or the first thing wrong with them: the
/// dataset, the number of keys, the array, each key in order, the parameters.
pub open spec fn merge_plan(args: ArgsView) -> Result<PlanView, ErrorView> {
    if !args.dataset {
        Err(error::invalid_input("dataset must not be NULL"@))
    } else if args.num_on_columns == 0 {
        Err(error::invalid_input("num_on_columns must be >= 1"@))
    } else {
        match args.on_columns {
            None => Err(
                error::invalid_input("on_columns must not be NULL when num_on_columns > 0"@),
            ),
            Some(ptrs) => match helpers::read_all(
                ptrs.take(args.num_on_columns as int),
                key_reader(),
            ) {
                Err(error) => Err(error),
                Ok(keys) => match merge_params::resolved(args.params) {
                    Err(error) => Err(error),
                    Ok(behavior) => Ok(PlanView { keys, behavior }),
                },
            },
        }
    }
}

/// Reads the join key in the array entry `ptr` at `index`.
fn read_join_key(ptr: &Option<Vec<u8>>, index: usize) -> (result: Result<String, Error>)
    ensures
        error::outcome(result) == join_key(helpers::c_bytes(*ptr), index as nat),
{
    match parse_c_string(ptr) {
        Err(error) => return Err(error),
        Ok(Some(key)) => if !key.as_str().is_empty() {
            return Ok(key);
        },
        Ok(None) => {},
    }
    let mut message = "on_columns[".to_owned();
    message.append(decimal_text(index as u64).as_str());
    message.append("] must not be NULL or empty");
    Err(Error::invalid_input(message))
}

/// Reads the first `num_keys` join keys of an array, up to the first one that is
/// not sound.
fn read_join_keys(ptrs: &Vec<Option<Vec<u8>>>, num_keys: usize) -> (result: Result<
    Vec<String>,
    Error,
>)
    requires
        num_keys <= ptrs.len(),
    ensures
        error::outcome(result) == helpers::read_all(
            c_strings(ptrs@).take(num_keys as int),
            key_reader(),
        ),
{
    let ghost entries = c_strings(ptrs@).take(num_keys as int);
    let mut keys: Vec<String> = Vec::new();
    let mut i: usize = 0;
    assert(keys.deep_view() =~= seq![]);
    assert(entries.take(0) =~= seq![]);
    while i < num_keys
        invariant
            i <= num_keys <= ptrs.len(),
            entries.len() == num_keys,
            entries == c_strings(ptrs@).take(num_keys as int),
            helpers::read_all(entries.take(i as int), key_reader()) == Ok::<
                Seq<Seq<char>>,
                ErrorView,
            >(keys.deep_view()),
        decreases num_keys - i,
    {
        let entry = &ptrs[i];
        proof {
            assert(entries[i as int] == helpers::c_bytes(*entry));
            helpers::lemma_read_all_step(entries, key_reader(), i as int);
            if join_key(helpers::c_bytes(*entry), i as nat) is Err {
                helpers::lemma_read_all_prefix_error(entries, key_reader(), i + 1);
            }
        }
        let key = match read_join_key(entry, i) {
            Ok(key) => key,
            Err(error) => return Err(error),
        };
        let ghost before = keys.deep_view();
        keys.push(key);
        assert(keys.deep_view() =~= before.push(key@));
        i = i + 1;
    }
    assert(entries.take(num_keys as int) =~= entries);
    Ok(keys)
}

/// Checks the arguments of a merge. All of it happens before the dataset is locked.
pub fn plan_merge_insert(args: &MergeInsertArgs) -> (result: Result<MergeInsertPlan, Error>)
    requires
        args.deep_view().well_formed(),
    ensures
        error::outcome(result) == merge_plan(args.deep_view()),
        result matches Ok(plan) ==> {
            &&& args.dataset
            &&& plan.keys.len() == args.num_on_columns
            &&& forall|i: int|
                0 <= i < plan.keys.len() ==> helpers::c_bytes(args.on_columns->0[i]) == Some(
                    encode_utf8((#[trigger] plan.keys[i])@),
                )
            &&& args.params matches Some(params) ==> merge_params::behaves_as_asked(
                plan.behavior,
                params,
            )
            &&& args.params is None ==> {
                &&& plan.behavior.when_matched is DoNothing
                &&& plan.behavior.when_not_matched is InsertAll
                &&& plan.behavior.when_not_matched_by_source is Keep
            }
        },
{
    if !args.dataset {
        return Err(Error::invalid_input("dataset must not be NULL".to_owned()));
    }
    if args.num_on_columns == 0 {
        return Err(Error::invalid_input("num_on_columns must be >= 1".to_owned()));
    }
    let ptrs = match &args.on_columns {
        None => return Err(
            Error::invalid_input(
                "on_columns must not be NULL when num_on_columns > 0".to_owned(),
            ),
        ),
        Some(ptrs) => ptrs,
    };
    let keys = match read_join_keys(ptrs, args.num_on_columns) {
        Ok(keys) => keys,
        Err(error) => return Err(error),
    };
    proof {
        let entries = args.deep_view().on_columns->0.take(args.num_on_columns as int);
        helpers::law_read_all_succeeds_iff(entries, key_reader());
        assert forall|i: int| 0 <= i < keys.len() implies helpers::c_bytes(ptrs[i]) == Some(
            encode_utf8((#[trigger] keys[i])@),
        ) by {
            assert(keys.deep_view()[i] == keys[i]@);
            law_join_key_on_its_own(entries[i], i as nat);
        }
    }
    match resolve_params(&args.params) {
        Ok(behavior) => Ok(MergeInsertPlan { keys, behavior }),
        Err(error) => Err(error),
    }
}

/// Where a call stands: what it waits for. `P` is the type of a checked merge.
#[derive(Debug)]
pub enum MergeInsertCall<P> {
    /// The source stream is being imported.
    Importing,
    /// The delete filter is being parsed.
    ParsingFilter { plan: P, write_out: bool },
    /// The merge job is being built.
    BuildingJob { write_out: bool },
    /// The merge job is being executed.
    Executing { write_out: bool },
    /// The call has ended.
    Ended,
}

/// What the host does next. `T` is the type of a text, `P` that of a checked merge,
/// `E` that of an error.
#[derive(Debug)]
pub enum MergeInsertAction<T, P, E> {
    /// Move the source stream out of the caller's memory and open a reader on it.
    /// This consumes the stream, also where it fails.
    ImportSource,
    /// Under the dataset's write lock, parse a delete filter against a snapshot of
    /// the dataset.
    ParseFilter(T),
    /// Under the lock, build the merge job on that snapshot: keyed on the plan's
    /// keys, with the plan's behavior, and with the parsed filter where there is one.
    BuildJob(P),
    /// Under the lock, execute the job on the reader's rows.
    Execute,
    /// Put the new dataset in place of the old one, release the lock, write the
    /// statistics to the caller's slot if there are any here, and return 0.
    Publish { out: Option<LanceMergeInsertResult> },
    /// Leave the dataset and the caller's slot as they are and return the error. A
    /// reader that is still open is dropped, which releases the stream.
    Fail(E),
}

/// What came of an action. `A` is the type of the arguments, `E` that of an error.
#[derive(Debug)]
pub enum MergeInsertEvent<A, E> {
    /// The source stream was imported; these are the other arguments.
    SourceImported(A),
    /// The import failed.
    SourceRefused(E),
    /// The delete filter was parsed.
    FilterParsed,
    /// The merge job was built.
    JobBuilt,
    /// The merge job was executed and committed.
    Executed(MergeStats),
    /// The storage engine failed to parse the filter, to build the job or to
    /// execute it.
    EngineFailed(E),
}

impl DeepView for MergeInsertCall<MergeInsertPlan> {
    type V = MergeInsertCall<PlanView>;

    open spec fn deep_view(&self) -> MergeInsertCall<PlanView> {
        match *self {
            MergeInsertCall::Importing => MergeInsertCall::Importing,
            MergeInsertCall::ParsingFilter { plan, write_out } => MergeInsertCall::ParsingFilter {
                plan: plan.deep_view(),
                write_out,
            },
            MergeInsertCall::BuildingJob { write_out } => MergeInsertCall::BuildingJob {
                write_out,
            },
            MergeInsertCall::Executing { write_out } => MergeInsertCall::Executing { write_out },
            MergeInsertCall::Ended => MergeInsertCall::Ended,
        }
    }
}

impl DeepView for MergeInsertAction<String, MergeInsertPlan, Error> {
    type V = MergeInsertAction<Seq<char>, PlanView, ErrorView>;

    open spec fn deep_view(&self) -> MergeInsertAction<Seq<char>, PlanView, ErrorView> {
        match *self {
            MergeInsertAction::ImportSource => MergeInsertAction::ImportSource,
            MergeInsertAction::ParseFilter(filter) => MergeInsertAction::ParseFilter(filter@),
            MergeInsertAction::BuildJob(plan) => MergeInsertAction::BuildJob(plan.deep_view()),
            MergeInsertAction::Execute => MergeInsertAction::Execute,
            MergeInsertAction::Publish { out } => MergeInsertAction::Publish { out },
            MergeInsertAction::Fail(error) => MergeInsertAction::Fail(error@),
        }
    }
}

impl DeepView for MergeInsertEvent<MergeInsertArgs, Error> {
    type V = MergeInsertEvent<ArgsView, ErrorView>;

    open spec fn deep_view(&self) -> MergeInsertEvent<ArgsView, ErrorView> {
        match *self {
            MergeInsertEvent::SourceImported(args) => MergeInsertEvent::SourceImported(
                args.deep_view(),
            ),
            MergeInsertEvent::SourceRefused(error) => MergeInsertEvent::SourceRefused(error@),
            MergeInsertEvent::FilterParsed => MergeInsertEvent::FilterParsed,
            MergeInsertEvent::JobBuilt => MergeInsertEvent::JobBuilt,
            MergeInsertEvent::Executed(stats) => MergeInsertEvent::Executed(stats),
            MergeInsertEvent::EngineFailed(error) => MergeInsertEvent::EngineFailed(error@),
        }
    }
}

/// How a call goes on: where it stands, and its next action.
pub type Next = (
    MergeInsertCall<MergeInsertPlan>,
    MergeInsertAction<String, MergeInsertPlan, Error>,
);

/// What a [`Next`] holds.
pub type NextView = (
    MergeInsertCall<PlanView>,
    MergeInsertAction<Seq<char>, PlanView, ErrorView>,
);

/// The statistics for the caller, out of the engine's.
pub open spec fn counts(stats: MergeStats) -> LanceMergeInsertResult {
    LanceMergeInsertResult {
        num_inserted_rows: stats.num_inserted_rows,
        num_updated_rows: stats.num_updated_rows,
        num_deleted_rows: stats.num_deleted_rows,
    }
}

/// How a call begins. `source` tells whether the caller passed a stream.
pub open spec fn begun(source: bool) -> NextView {
    if source {
        (MergeInsertCall::Importing, MergeInsertAction::ImportSource)
    } else {
        (
            MergeInsertCall::Ended,
            MergeInsertAction::Fail(error::invalid_input("source stream must not be NULL"@)),
        )
    }
}

/// How a call goes on once the source is there: with the engine where the arguments
/// are sound. A delete filter is parsed before the job is built.
pub open spec fn engaged(args: ArgsView) -> NextView {
    match merge_plan(args) {
        Err(error) => (MergeInsertCall::Ended, MergeInsertAction::Fail(error)),
        Ok(plan) => match plan.behavior.when_not_matched_by_source {
            BySourceView::DeleteIf(filter) => (
                MergeInsertCall::ParsingFilter { plan, write_out: args.out_result },
                MergeInsertAction::ParseFilter(filter),
            ),
            _ => (
                MergeInsertCall::BuildingJob { write_out: args.out_result },
                MergeInsertAction::BuildJob(plan),
            ),
        },
    }
}

impl MergeInsertCall<PlanView> {
    /// Whether `event` can come of the action that the call waits for.
    pub open spec fn expects(self, event: MergeInsertEvent<ArgsView, ErrorView>) -> bool {
        match event {
            MergeInsertEvent::SourceImported(args) => self is Importing && args.well_formed(),
            MergeInsertEvent::SourceRefused(_) => self is Importing,
            MergeInsertEvent::FilterParsed => self is ParsingFilter,
            MergeInsertEvent::JobBuilt => self is BuildingJob,
            MergeInsertEvent::Executed(_) => self is Executing,
            MergeInsertEvent::EngineFailed(_) => self is ParsingFilter || self is BuildingJob
                || self is Executing,
        }
    }

    /// How the call goes on after `event`.
    pub open spec fn stepped(self, event: MergeInsertEvent<ArgsView, ErrorView>) -> NextView
        recommends
            self.expects(event),
    {
        match event {
            MergeInsertEvent::SourceImported(args) => engaged(args),
            MergeInsertEvent::SourceRefused(error) => (
                MergeInsertCall::Ended,
                MergeInsertAction::Fail(error),
            ),
            MergeInsertEvent::FilterParsed => (
                MergeInsertCall::BuildingJob { write_out: self->ParsingFilter_write_out },
                MergeInsertAction::BuildJob(self->plan),
            ),
            MergeInsertEvent::JobBuilt => (
                MergeInsertCall::Executing { write_out: self->BuildingJob_write_out },
                MergeInsertAction::Execute,
            ),
            MergeInsertEvent::Executed(stats) => (
                MergeInsertCall::Ended,
                MergeInsertAction::Publish {
                    out: if self->Executing_write_out {
                        Some(counts(stats))
                    } else {
                        None
                    },
                },
            ),
            MergeInsertEvent::EngineFailed(error) => (
                MergeInsertCall::Ended,
                MergeInsertAction::Fail(error),
            ),
        }
    }
}

impl MergeInsertCall<MergeInsertPlan> {
    /// Begins a call. `source` tells whether the caller passed a stream. It is the
    /// only check in front of the import: every later one ends the call with the
    /// stream consumed.
    pub fn begin(source: bool) -> (next: Next)
        ensures
            next.deep_view() == begun(source),
    {
        if !source {
            return (
                MergeInsertCall::Ended,
                MergeInsertAction::Fail(
                    Error::invalid_input("source stream must not be NULL".to_owned()),
                ),
            );
        }
        (MergeInsertCall::Importing, MergeInsertAction::ImportSource)
    }

    /// Goes on after `event`, which came of the last action.
    pub fn step(self, event: MergeInsertEvent<MergeInsertArgs, Error>) -> (next: Next)
        requires
            self.deep_view().expects(event.deep_view()),
        ensures
            next.deep_view() == self.deep_view().stepped(event.deep_view()),
            event matches MergeInsertEvent::SourceRefused(error) ==> (next.1
                matches MergeInsertAction::Fail(reported) && reported == error),
            event matches MergeInsertEvent::EngineFailed(error) ==> (next.1
                matches MergeInsertAction::Fail(reported) && reported == error),
            event matches MergeInsertEvent::Executed(stats) ==> (next.1
                matches MergeInsertAction::Publish { out } && {
                &&& out is Some <==> self->Executing_write_out
                &&& out matches Some(result) ==> {
                    &&& result.num_inserted_rows == stats.num_inserted_rows
                    &&& result.num_updated_rows == stats.num_updated_rows
                    &&& result.num_deleted_rows == stats.num_deleted_rows
                }
            }),
    {
        match event {
            MergeInsertEvent::SourceImported(args) => engage(args),
            MergeInsertEvent::SourceRefused(error) => (
                MergeInsertCall::Ended,
                MergeInsertAction::Fail(error),
            ),
            MergeInsertEvent::FilterParsed => match self {
                MergeInsertCall::ParsingFilter { plan, write_out } => (
                    MergeInsertCall::BuildingJob { write_out },
                    MergeInsertAction::BuildJob(plan),
                ),
                _ => vstd::pervasive::unreached(),
            },
            MergeInsertEvent::JobBuilt => match self {
                MergeInsertCall::BuildingJob { write_out } => (
                    MergeInsertCall::Executing { write_out },
                    MergeInsertAction::Execute,
                ),
                _ => vstd::pervasive::unreached(),
            },
            MergeInsertEvent::Executed(stats) => match self {
                MergeInsertCall::Executing { write_out } => {
                    let out = if write_out {
                        Some(
                            LanceMergeInsertResult {
                                num_inserted_rows: stats.num_inserted_rows,
                                num_updated_rows: stats.num_updated_rows,
                                num_deleted_rows: stats.num_deleted_rows,
                            },
                        )
                    } else {
                        None
                    };
                    (MergeInsertCall::Ended, MergeInsertAction::Publish { out })
                },
                _ => vstd::pervasive::unreached(),
            },
            MergeInsertEvent::EngineFailed(error) => (
                MergeInsertCall::Ended,
                MergeInsertAction::Fail(error),
            ),
        }
    }

    /// Whether the call goes on as it has to after the import of `stream`. The reader
    /// is there where the import of this very stream succeeded, which is for the
    /// producer's callbacks to decide, except that a stream without its `release` callback
    /// is refused. A refusal is an invalid argument with the text of the Arrow error.
    pub open spec fn goes_on_after_import(
        self,
        stream: FFI_ArrowArrayStream,
        args: MergeInsertArgs,
        next: (Option<StreamReader>, Next),
    ) -> bool {
        &&& match next.0 {
            Some(reader) => {
                &&& arrow_import::opens(stream, Ok(reader))
                &&& next.1.deep_view() == self.deep_view().stepped(
                    MergeInsertEvent::SourceImported(args.deep_view()),
                )
            },
            None => exists|error: Error|
                {
                    &&& error.code == LanceErrorCode::InvalidArgument
                    &&& arrow_import::opens(stream, Err(error.message@))
                    &&& arrow_import::is_arrow_error_text(error.message)
                    &&& next.1.deep_view() == #[trigger] self.deep_view().stepped(
                        MergeInsertEvent::SourceRefused(error@),
                    )
                },
        }
        &&& !arrow_import::callbacks_set(stream).0 ==> {
            &&& next.0 is None
            &&& next.1.deep_view() == self.deep_view().stepped(
                MergeInsertEvent::SourceRefused(
                    error::invalid_input(arrow_import::released_stream()),
                ),
            )
        }
    }

    /// Performs [`MergeInsertAction::ImportSource`] on the stream that was moved out
    /// of the caller's memory, and goes on with what came of it.
    pub fn import_source(self, stream: FFI_ArrowArrayStream, args: MergeInsertArgs) -> (next: (
        Option<StreamReader>,
        Next,
    ))
        requires
            self is Importing,
            arrow_import::importable(stream),
            arrow_import::reliable(stream),
            args.deep_view().well_formed(),
        ensures
            self.goes_on_after_import(stream, args, next),
    {
        match import_stream(stream) {
            Ok(reader) => (Some(reader), self.step(MergeInsertEvent::SourceImported(args))),
            Err(error) => {
                let ghost refused = error;
                let ghost call = self.deep_view();
                let next = self.step(MergeInsertEvent::SourceRefused(error));
                assert(next.deep_view() == call.stepped(
                    MergeInsertEvent::SourceRefused(refused@),
                ));
                (None, next)
            },
        }
    }

    /// As [`MergeInsertCall::import_source`], also for a stream without the
    /// `get_schema` callback that the import invokes: `None` for such a stream.
    pub fn try_import_source(self, stream: FFI_ArrowArrayStream, args: MergeInsertArgs) -> (next: Option<
        (Option<StreamReader>, Next),
    >)
        requires
            self is Importing,
            arrow_import::reliable(stream),
            args.deep_view().well_formed(),
        ensures
            next is None <==> !arrow_import::importable(stream),
            next matches Some(next) ==> self.goes_on_after_import(stream, args, next),
    {
        if is_importable(&stream) {
            Some(self.import_source(stream, args))
        } else {
            None
        }
    }
}

/// Goes on once the source is there: with the engine where the arguments are sound.
fn engage(args: MergeInsertArgs) -> (next: Next)
    requires
        args.deep_view().well_formed(),
    ensures
        next.deep_view() == engaged(args.deep_view()),
{
    let plan = match plan_merge_insert(&args) {
        Ok(plan) => plan,
        Err(error) => return (MergeInsertCall::Ended, MergeInsertAction::Fail(error)),
    };
    let filter = match &plan.behavior.when_not_matched_by_source {
        ResolvedWhenNotMatchedBySource::DeleteIf(filter) => Some(filter.clone()),
        _ => None,
    };
    match filter {
        Some(filter) => (
            MergeInsertCall::ParsingFilter { plan, write_out: args.out_result },
            MergeInsertAction::ParseFilter(filter),
        ),
        None => (
            MergeInsertCall::BuildingJob { write_out: args.out_result },
            MergeInsertAction::BuildJob(plan),
        ),
    }
}

/// What the call returns with an action, if the action ends it.
pub open spec fn returned(action: MergeInsertAction<Seq<char>, PlanView, ErrorView>) -> Option<
    Result<i32, ErrorView>,
> {
    match action {
        MergeInsertAction::Publish { .. } => Some(Ok(0)),
        MergeInsertAction::Fail(error) => Some(Err(error)),
        _ => None,
    }
}

impl MergeInsertAction<String, MergeInsertPlan, Error> {
    /// What the call returns with this action, if the action ends it.
    pub fn into_result(self) -> (result: Option<Result<i32, Error>>)
        ensures
            match result {
                None => returned(self.deep_view()) is None,
                Some(result) => returned(self.deep_view()) == Some(error::outcome(result)),
            },
            self is Publish ==> result == Some(Ok::<i32, Error>(0)),
            self matches MergeInsertAction::Fail(error) ==> result == Some(Err::<i32, Error>(error)),
            !(self is Publish || self is Fail) ==> result is None,
    {
        match self {
            MergeInsertAction::Publish { .. } => Some(Ok(0)),
            MergeInsertAction::Fail(error) => Some(Err(error)),
            _ => None,
        }
    }
}

/// Where a call stands after `events`, and its last action.
pub open spec fn after(source: bool, events: Seq<MergeInsertEvent<ArgsView, ErrorView>>) -> NextView
    decreases events.len(),
{
    if events.len() == 0 {
        begun(source)
    } else {
        after(source, events.drop_last()).0.stepped(events.last())
    }
}

/// Whether a call can meet with `events`: each comes of the action before it.
pub open spec fn possible(source: bool, events: Seq<MergeInsertEvent<ArgsView, ErrorView>>) -> bool
    decreases events.len(),
{
    events.len() == 0 || {
        &&& possible(source, events.drop_last())
        &&& after(source, events.drop_last()).0.expects(events.last())
    }
}

/// The actions of a call that met with `events`.
pub open spec fn actions(
    source: bool,
    events: Seq<MergeInsertEvent<ArgsView, ErrorView>>,
) -> Seq<MergeInsertAction<Seq<char>, PlanView, ErrorView>> {
    Seq::new(events.len() + 1, |i: int| after(source, events.take(i)).1)
}

/// Whether an action needs the storage engine, and with it the dataset's lock.
pub open spec fn engine_action(action: MergeInsertAction<Seq<char>, PlanView, ErrorView>) -> bool {
    action is ParseFilter || action is BuildJob || action is Execute || action is Publish
}

/// What an action writes to the caller's slot.
pub open spec fn written(
    action: MergeInsertAction<Seq<char>, PlanView, ErrorView>,
) -> Option<LanceMergeInsertResult> {
    match action {
        MergeInsertAction::Publish { out } => out,
        _ => None,
    }
}

/// What lies behind a call at each point.
proof fn lemma_history(source: bool, events: Seq<MergeInsertEvent<ArgsView, ErrorView>>)
    requires
        possible(source, events),
    ensures
        after(source, events).0 is Importing ==> source && events.len() == 0 && after(
            source,
            events,
        ).1 is ImportSource,
        after(source, events).0 is Ended <==> returned(after(source, events).1) is Some,
        !(after(source, events).0 is Importing || after(source, events).0 is Ended) || after(
            source,
            events,
        ).1 is Publish ==> {
            &&& events.len() > 0
            &&& events[0] matches MergeInsertEvent::SourceImported(args)
            &&& args.well_formed()
            &&& merge_plan(args) matches Ok(plan)
            &&& match after(source, events) {
                (
                    MergeInsertCall::ParsingFilter { plan: pending, write_out },
                    MergeInsertAction::ParseFilter(filter),
                ) => {
                    &&& events.len() == 1
                    &&& pending == plan
                    &&& write_out == args.out_result
                    &&& plan.behavior.when_not_matched_by_source == BySourceView::DeleteIf(filter)
                },
                (
                    MergeInsertCall::BuildingJob { write_out },
                    MergeInsertAction::BuildJob(pending),
                ) => {
                    &&& events.len() == 1 + filter_steps(plan)
                    &&& pending == plan
                    &&& write_out == args.out_result
                },
                (MergeInsertCall::Executing { write_out }, MergeInsertAction::Execute) => {
                    &&& events.len() == 2 + filter_steps(plan)
                    &&& write_out == args.out_result
                },
                (MergeInsertCall::Ended, MergeInsertAction::Publish { out }) => {
                    &&& events.len() == 3 + filter_steps(plan)
                    &&& events.last() matches MergeInsertEvent::Executed(stats) && out
                        == if args.out_result {
                        Some(counts(stats))
                    } else {
                        None
                    }
                },
                _ => false,
            }
        },
        events.len() <= 4,
    decreases events.len(),
{
    if events.len() > 0 {
        lemma_history(source, events.drop_last());
    }
}

/// How many events the parse of a delete filter adds.
pub open spec fn filter_steps(plan: PlanView) -> int {
    if plan.behavior.when_not_matched_by_source is DeleteIf {
        1
    } else {
        0
    }
}

/// The source stream is consumed on every path, and only once: of a stream that is
/// there, the first action takes it, whatever happens then, and no later action
/// does. A NULL stream is never touched.
pub proof fn law_source_consumed_exactly_once(
    source: bool,
    events: Seq<MergeInsertEvent<ArgsView, ErrorView>>,
    i: int,
)
    requires
        possible(source, events),
        0 <= i <= events.len(),
    ensures
        actions(source, events)[i] is ImportSource <==> i == 0 && source,
{
    assert(events.take(0) =~= seq![]);
}

/// A call goes on until it ends, after four events at most, and ends once.
pub proof fn law_call_ends(source: bool, events: Seq<MergeInsertEvent<ArgsView, ErrorView>>)
    requires
        possible(source, events),
    ensures
        events.len() <= 4,
        after(source, events).0 is Ended <==> returned(after(source, events).1) is Some,
        after(source, events).0 is Ended ==> forall|
            event: MergeInsertEvent<ArgsView, ErrorView>,
        |
            !after(source, events).0.expects(event),
        !(after(source, events).0 is Ended) ==> exists|
            event: MergeInsertEvent<ArgsView, ErrorView>,
        |
            after(source, events).0.expects(event),
{
    lemma_history(source, events);
    let call = after(source, events).0;
    let error = error::invalid_input(seq![]);
    if call is Importing {
        assert(call.expects(MergeInsertEvent::SourceRefused(error)));
    } else if !(call is Ended) {
        assert(call.expects(MergeInsertEvent::EngineFailed(error)));
    }
}

/// The storage engine is asked, and the dataset locked, only after the source was
/// imported and every argument was found sound. The filter and the plan that it
/// gets are the ones that the arguments ask for.
pub proof fn law_engine_asked_after_all_checks(
    source: bool,
    events: Seq<MergeInsertEvent<ArgsView, ErrorView>>,
)
    requires
        possible(source, events),
        engine_action(after(source, events).1),
    ensures
        source,
        events.len() > 0,
        ({
            &&& events[0] matches MergeInsertEvent::SourceImported(args)
            &&& merge_plan(args) matches Ok(plan)
            &&& match after(source, events).1 {
                MergeInsertAction::ParseFilter(filter) => plan.behavior.when_not_matched_by_source
                    == BySourceView::DeleteIf(filter),
                MergeInsertAction::BuildJob(built) => built == plan,
                _ => true,
            }
        }),
{
    lemma_history(source, events);
    lemma_source_there(source, events);
}

/// Events only follow where a stream was passed.
proof fn lemma_source_there(source: bool, events: Seq<MergeInsertEvent<ArgsView, ErrorView>>)
    requires
        possible(source, events),
        events.len() > 0,
    ensures
        source,
    decreases events.len(),
{
    if events.len() > 1 {
        lemma_source_there(source, events.drop_last());
    }
}

/// A delete filter is parsed before the job is built, and exactly in the mode that
/// has one.
pub proof fn law_filter_parsed_iff_needed(
    source: bool,
    events: Seq<MergeInsertEvent<ArgsView, ErrorView>>,
)
    requires
        possible(source, events),
        after(source, events).1 is BuildJob,
    ensures
        after(source, events).1 matches MergeInsertAction::BuildJob(plan) && match plan.behavior.when_not_matched_by_source {
            BySourceView::DeleteIf(filter) => {
                &&& events.len() == 2
                &&& events[1] is FilterParsed
                &&& after(source, events.drop_last()).1 == MergeInsertAction::<
                    Seq<char>,
                    PlanView,
                    ErrorView,
                >::ParseFilter(filter)
            },
            _ => events.len() == 1,
        },
{
    lemma_history(source, events);
    lemma_history(source, events.drop_last());
}

/// The new dataset is published exactly when the engine executed and committed the
/// merge; the call then returns 0. On every other path the dataset stays as it was
/// and the call returns an error: the engine's own, the import's own, or an invalid
/// argument.
pub proof fn law_published_iff_executed(
    source: bool,
    events: Seq<MergeInsertEvent<ArgsView, ErrorView>>,
)
    requires
        possible(source, events),
        after(source, events).0 is Ended,
    ensures
        after(source, events).1 is Publish <==> events.len() > 0 && events.last() is Executed,
        after(source, events).1 is Publish <==> returned(after(source, events).1) == Some(
            Ok::<i32, ErrorView>(0),
        ),
        !(after(source, events).1 is Publish) ==> (after(source, events).1
            matches MergeInsertAction::Fail(error) && {
            ||| events.len() > 0 && events.last() == MergeInsertEvent::<
                ArgsView,
                ErrorView,
            >::EngineFailed(error)
            ||| events.len() > 0 && events.last() == MergeInsertEvent::<
                ArgsView,
                ErrorView,
            >::SourceRefused(error)
            ||| (events.len() == 0 || events.last() is SourceImported) && error.code
                == LanceErrorCode::InvalidArgument
        }),
{
    lemma_history(source, events);
    if events.len() > 0 {
        if let MergeInsertEvent::SourceImported(args) = events.last() {
            law_arguments_rejected_as_invalid_argument(args);
        }
    }
}

/// The caller's slot is left as it is unless the merge was committed: only the last
/// action of a successful call writes to it, the counts that the engine reported,
/// and only if the caller passed one.
pub proof fn law_slot_written_only_on_success(
    source: bool,
    events: Seq<MergeInsertEvent<ArgsView, ErrorView>>,
    i: int,
)
    requires
        possible(source, events),
        0 <= i <= events.len(),
    ensures
        written(actions(source, events)[i]) matches Some(result) ==> {
            &&& i == events.len()
            &&& returned(actions(source, events)[i]) == Some(Ok::<i32, ErrorView>(0))
            &&& events.last() matches MergeInsertEvent::Executed(stats) && result == counts(stats)
        },
        actions(source, events)[i] is Publish ==> {
            &&& events[0] matches MergeInsertEvent::SourceImported(args) && (written(
                actions(source, events)[i],
            ) is Some <==> args.out_result)
        },
{
    let prefix = events.take(i);
    lemma_possible_prefix(source, events, i);
    lemma_history(source, prefix);
    if i < events.len() {
        lemma_possible_prefix(source, events, i + 1);
        assert(events.take(i + 1).drop_last() =~= prefix);
    } else {
        assert(prefix =~= events);
    }
}

/// What happens to a call up to some point can happen.
proof fn lemma_possible_prefix(
    source: bool,
    events: Seq<MergeInsertEvent<ArgsView, ErrorView>>,
    n: int,
)
    requires
        possible(source, events),
        0 <= n <= events.len(),
    ensures
        possible(source, events.take(n)),
    decreases events.len(),
{
    if n == events.len() {
        assert(events.take(n) =~= events);
    } else {
        assert(events.drop_last().take(n) =~= events.take(n));
        lemma_possible_prefix(source, events.drop_last(), n);
    }
}

/// Whatever is wrong with the arguments, the caller reads an invalid argument.
pub proof fn law_arguments_rejected_as_invalid_argument(args: ArgsView)
    ensures
        merge_plan(args) matches Err(error) ==> error.code == LanceErrorCode::InvalidArgument,
{
    if let Some(ptrs) = args.on_columns {
        lemma_key_error_is_invalid_argument(ptrs.take(args.num_on_columns as int));
    }
    merge_params::law_params_rejected_as_invalid_argument(args.params);
}

/// The error of an array of join keys is an invalid argument.
proof fn lemma_key_error_is_invalid_argument(ptrs: Seq<Option<Seq<u8>>>)
    ensures
        helpers::read_all(ptrs, key_reader()) matches Err(error) ==> error.code
            == LanceErrorCode::InvalidArgument,
    decreases ptrs.len(),
{
    if ptrs.len() > 0 {
        lemma_key_error_is_invalid_argument(ptrs.drop_last());
    }
}

/// The arguments are accepted exactly when the dataset is there, at least one join
/// key is passed, every key is UTF-8 and not empty, and the parameters are accepted.
pub proof fn law_arguments_accepted_iff(args: ArgsView)
    requires
        args.well_formed(),
    ensures
        merge_plan(args) is Ok <==> {
            &&& args.dataset
            &&& args.num_on_columns >= 1
            &&& args.on_columns matches Some(ptrs) && forall|i: int|
                0 <= i < args.num_on_columns ==> helpers::usable_text(#[trigger] ptrs[i])
            &&& merge_params::resolved(args.params) is Ok
        },
{
    if let Some(ptrs) = args.on_columns {
        let entries = ptrs.take(args.num_on_columns as int);
        helpers::law_read_all_succeeds_iff(entries, key_reader());
        if helpers::read_all(entries, key_reader()) is Ok {
            assert forall|i: int| 0 <= i < args.num_on_columns implies helpers::usable_text(
                #[trigger] ptrs[i],
            ) by {
                assert(entries[i] == ptrs[i]);
                assert(key_reader()(entries[i], i as nat) is Ok);
            }
        } else {
            let i = choose|i: int|
                0 <= i < entries.len() && !((#[trigger] key_reader()(entries[i], i as nat)) is Ok);
            assert(entries[i] == ptrs[i]);
            assert(!helpers::usable_text(ptrs[i]));
        }
    }
}

/// The join keys carry over unchanged: as many, in the same order, byte for byte.
pub proof fn law_keys_carry_over(args: ArgsView)
    requires
        args.well_formed(),
        merge_plan(args) is Ok,
    ensures
        merge_plan(args) matches Ok(plan) && {
            &&& plan.keys.len() == args.num_on_columns
            &&& forall|i: int|
                0 <= i < plan.keys.len() ==> args.on_columns->0[i] == Some(
                    encode_utf8(#[trigger] plan.keys[i]),
                )
        },
{
    let ptrs = args.on_columns->0;
    let entries = ptrs.take(args.num_on_columns as int);
    helpers::law_read_all_succeeds_iff(entries, key_reader());
    let keys = helpers::read_all(entries, key_reader())->Ok_0;
    assert forall|i: int| 0 <= i < keys.len() implies ptrs[i] == Some(
        encode_utf8(#[trigger] keys[i]),
    ) by {
        assert(entries[i] == ptrs[i]);
        assert(key_reader()(entries[i], i as nat) == Ok::<Seq<char>, ErrorView>(keys[i]));
        decode_utf8_encode_utf8(ptrs[i]->0);
    }
}

/// The behavior of a plan is the one that the caller's parameters stand for: its modes have
/// the numbers that the caller passed, and its filters are the caller's, byte for byte.
pub proof fn law_behavior_carries_over(args: ArgsView)
    requires
        merge_plan(args) is Ok,
    ensures
        merge_plan(args) matches Ok(plan) && {
            &&& merge_params::resolved(args.params) == Ok::<ResolvedView, ErrorView>(plan.behavior)
            &&& args.params matches Some(params) ==> {
                &&& match plan.behavior.when_matched {
                    merge_params::WhenMatchedView::DoNothing => params.when_matched == 0,
                    merge_params::WhenMatchedView::UpdateAll => params.when_matched == 1,
                    merge_params::WhenMatchedView::UpdateIf(filter) => params.when_matched == 2
                        && params.when_matched_expr == Some(encode_utf8(filter)),
                    merge_params::WhenMatchedView::Fail => params.when_matched == 3,
                    merge_params::WhenMatchedView::Delete => params.when_matched == 4,
                }
                &&& plan.behavior.when_not_matched is InsertAll <==> params.when_not_matched == 0
                &&& plan.behavior.when_not_matched is DoNothing <==> params.when_not_matched == 1
                &&& match plan.behavior.when_not_matched_by_source {
                    BySourceView::Keep => params.when_not_matched_by_source == 0,
                    BySourceView::Delete => params.when_not_matched_by_source == 1,
                    BySourceView::DeleteIf(filter) => params.when_not_matched_by_source == 2
                        && params.when_not_matched_by_source_expr == Some(encode_utf8(filter)),
                }
            }
            &&& args.params is None ==> {
                &&& plan.behavior.when_matched is DoNothing
                &&& plan.behavior.when_not_matched is InsertAll
                &&& plan.behavior.when_not_matched_by_source is Keep
            }
        },
{
    if let Some(params) = args.params {
        merge_params::law_resolved_params_carry_over(params);
    }
}

/// The first thing wrong with the arguments is reported: the dataset, the number of keys,
/// the array of keys, the first key that is not sound, the parameters.
pub proof fn law_argument_faults_in_order(args: ArgsView, first: int)
    requires
        args.well_formed(),
    ensures
        !args.dataset ==> error::refused(merge_plan(args), "dataset must not be NULL"@),
        args.dataset && args.num_on_columns == 0 ==> error::refused(
            merge_plan(args),
            "num_on_columns must be >= 1"@,
        ),
        args.dataset && args.num_on_columns > 0 && args.on_columns is None ==> error::refused(
            merge_plan(args),
            "on_columns must not be NULL when num_on_columns > 0"@,
        ),
        args.dataset && args.on_columns is Some && 0 <= first < args.num_on_columns && (forall|
            i: int,
        |
            0 <= i < first ==> helpers::usable_text(#[trigger] args.on_columns->0[i])) ==> {
            let entry = args.on_columns->0[first];
            &&& entry is Some && !valid_utf8(entry->0) ==> error::refused(
                merge_plan(args),
                "string is not valid UTF-8"@,
            )
            &&& entry is None || (valid_utf8(entry->0) && entry->0.len() == 0) ==> error::refused(
                merge_plan(args),
                "on_columns["@ + text::decimal(first as nat) + "] must not be NULL or empty"@,
            )
        },
        args.dataset && args.num_on_columns > 0 && args.on_columns is Some && (forall|i: int|
            0 <= i < args.num_on_columns ==> helpers::usable_text(#[trigger] args.on_columns->0[i]))
            ==> (merge_params::resolved(args.params) matches Err(error) ==> merge_plan(args)
            == Err::<PlanView, ErrorView>(error)),
{
    if let Some(ptrs) = args.on_columns {
        let entries = ptrs.take(args.num_on_columns as int);
        if args.dataset && 0 <= first < args.num_on_columns && (forall|i: int|
            0 <= i < first ==> helpers::usable_text(#[trigger] ptrs[i])) && !helpers::usable_text(
            ptrs[first],
        ) {
            assert forall|i: int| 0 <= i < first implies (#[trigger] key_reader()(
                entries[i],
                i as nat,
            )) is Ok by {
                assert(entries[i] == ptrs[i]);
                assert(helpers::usable_text(ptrs[i]));
            }
            assert(entries[first] == ptrs[first]);
            helpers::law_read_all_reports_the_first_error(entries, key_reader(), first);
        }
        helpers::law_read_all_succeeds_iff(entries, key_reader());
        if forall|i: int|
            0 <= i < args.num_on_columns ==> helpers::usable_text(#[trigger] ptrs[i]) {
            assert forall|i: int| 0 <= i < entries.len() implies (#[trigger] key_reader()(
                entries[i],
                i as nat,
            )) is Ok by {
                assert(entries[i] == ptrs[i]);
                assert(helpers::usable_text(ptrs[i]));
            }
        }
    }
}

/// A single join key is accepted exactly when it is there, in UTF-8 and not empty, and is
/// then the text of these very bytes; otherwise the caller reads what is wrong with it.
pub proof fn law_join_key_on_its_own(ptr: Option<Seq<u8>>, index: nat)
    ensures
        join_key(ptr, index) is Ok <==> ptr is Some && valid_utf8(ptr->0) && ptr->0.len() > 0,
        join_key(ptr, index) matches Ok(key) ==> encode_utf8(key) == ptr->0,
        ptr is Some && !valid_utf8(ptr->0) ==> error::refused(
            join_key(ptr, index),
            "string is not valid UTF-8"@,
        ),
        ptr is None || (valid_utf8(ptr->0) && ptr->0.len() == 0) ==> error::refused(
            join_key(ptr, index),
            "on_columns["@ + text::decimal(index) + "] must not be NULL or empty"@,
        ),
        key_reader()(ptr, index) == join_key(ptr, index),
{
    if let Some(bytes) = ptr {
        if valid_utf8(bytes) {
            decode_utf8_encode_utf8(bytes);
        }
    }
}

/// Each count that the caller receives is the engine's count of the same name.
pub proof fn law_counts_keep_their_names(stats: MergeStats)
    ensures
        counts(stats).num_inserted_rows == stats.num_inserted_rows,
        counts(stats).num_updated_rows == stats.num_updated_rows,
        counts(stats).num_deleted_rows == stats.num_deleted_rows,
{
}

/// A call begins with the import of the stream, and ends at once where there is none.
pub proof fn law_call_begins_with_the_source(source: bool)
    ensures
        source ==> begun(source).0 is Importing && begun(source).1 is ImportSource,
        !source ==> begun(source).0 is Ended,
        !source ==> (begun(source).1 matches MergeInsertAction::Fail(error) && error.code
            == LanceErrorCode::InvalidArgument && error.message
            == "source stream must not be NULL"@),
{
}

/// Sound arguments are never refused: once the source is there the call goes on with the
/// parse of the plan's delete filter if it has one, and with the build of the very plan
/// otherwise. Unsound ones end the call with their very error.
pub proof fn law_sound_arguments_reach_the_engine(call: MergeInsertCall<PlanView>, args: ArgsView)
    ensures
        merge_plan(args) matches Err(fault) ==> {
            &&& call.stepped(MergeInsertEvent::SourceImported(args)).0 is Ended
            &&& call.stepped(MergeInsertEvent::SourceImported(args)).1 == MergeInsertAction::<
                Seq<char>,
                PlanView,
                ErrorView,
            >::Fail(fault)
        },
        merge_plan(args) matches Ok(plan) ==> match plan.behavior.when_not_matched_by_source {
            BySourceView::DeleteIf(filter) => {
                &&& call.stepped(MergeInsertEvent::SourceImported(args)).0 == (
                MergeInsertCall::ParsingFilter { plan, write_out: args.out_result })
                &&& call.stepped(MergeInsertEvent::SourceImported(args)).1 == MergeInsertAction::<
                    Seq<char>,
                    PlanView,
                    ErrorView,
                >::ParseFilter(filter)
            },
            _ => {
                &&& call.stepped(MergeInsertEvent::SourceImported(args)).0 == (
                MergeInsertCall::<PlanView>::BuildingJob { write_out: args.out_result })
                &&& call.stepped(MergeInsertEvent::SourceImported(args)).1 == MergeInsertAction::<
                    Seq<char>,
                    PlanView,
                    ErrorView,
                >::BuildJob(plan)
            },
        },
{
}

/// What is asked of the engine, from the caller's arguments alone: where the dataset is
/// there, at least one key is passed, every key is sound and so are the parameters, the
/// engine is asked to parse the caller's delete filter in the mode that has one, and to
/// build the job in every other.
pub proof fn law_engine_gets_what_the_caller_passed(
    call: MergeInsertCall<PlanView>,
    args: ArgsView,
    params: ParamsView,
)
    requires
        args.well_formed(),
        args.dataset,
        args.num_on_columns >= 1,
        args.on_columns is Some,
        forall|i: int|
            0 <= i < args.num_on_columns ==> (#[trigger] args.on_columns->0[i]) is Some
                && valid_utf8(args.on_columns->0[i]->0) && args.on_columns->0[i]->0.len() > 0,
        args.params == Some(params),
        0 <= params.when_matched <= 4,
        0 <= params.when_not_matched <= 1,
        0 <= params.when_not_matched_by_source <= 2,
        params.when_matched != 2 ==> params.when_matched_expr is None,
        params.when_matched == 2 ==> params.when_matched_expr is Some && valid_utf8(
            params.when_matched_expr->0,
        ) && params.when_matched_expr->0.len() > 0,
        params.when_not_matched_by_source != 2 ==> params.when_not_matched_by_source_expr is None,
        params.when_not_matched_by_source == 2 ==> params.when_not_matched_by_source_expr is Some
            && valid_utf8(params.when_not_matched_by_source_expr->0)
            && params.when_not_matched_by_source_expr->0.len() > 0,
    ensures
        params.when_not_matched_by_source == 2 ==> (call.stepped(
            MergeInsertEvent::SourceImported(args),
        ).1 matches MergeInsertAction::ParseFilter(filter) && encode_utf8(filter)
            == params.when_not_matched_by_source_expr->0),
        params.when_not_matched_by_source != 2 ==> (call.stepped(
            MergeInsertEvent::SourceImported(args),
        ).1 matches MergeInsertAction::BuildJob(plan) && plan.keys.len() == args.num_on_columns),
{
    merge_params::law_every_mode_is_available(params);
    assert forall|i: int| 0 <= i < args.num_on_columns implies helpers::usable_text(
        #[trigger] args.on_columns->0[i],
    ) by {}
    law_arguments_accepted_iff(args);
    law_keys_carry_over(args);
}

/// What each report of the engine leads to: a parsed filter to the build of the plan that
/// waited for it, a built job to its execution, an executed job to its publication with
/// the engine's counts for a caller that wants them, and a failure to that very error. A
/// source that was refused ends the call with that very error.
pub proof fn law_reports_lead_on(
    plan: PlanView,
    write_out: bool,
    stats: MergeStats,
    call: MergeInsertCall<PlanView>,
    error: ErrorView,
)
    ensures
        ({
            let next = (MergeInsertCall::ParsingFilter { plan, write_out }).stepped(
                MergeInsertEvent::FilterParsed,
            );
            &&& next.0 == (MergeInsertCall::<PlanView>::BuildingJob { write_out })
            &&& next.1 matches MergeInsertAction::BuildJob(built)
            &&& built == plan
        }),
        ({
            let next = (MergeInsertCall::<PlanView>::BuildingJob { write_out }).stepped(
                MergeInsertEvent::JobBuilt,
            );
            &&& next.0 == (MergeInsertCall::<PlanView>::Executing { write_out })
            &&& next.1 is Execute
        }),
        ({
            let next = (MergeInsertCall::<PlanView>::Executing { write_out }).stepped(
                MergeInsertEvent::Executed(stats),
            );
            &&& next.0 is Ended
            &&& next.1 matches MergeInsertAction::Publish { out }
            &&& out is Some <==> write_out
            &&& out matches Some(result) ==> {
                &&& result.num_inserted_rows == stats.num_inserted_rows
                &&& result.num_updated_rows == stats.num_updated_rows
                &&& result.num_deleted_rows == stats.num_deleted_rows
            }
        }),
        ({
            let next = call.stepped(MergeInsertEvent::EngineFailed(error));
            &&& next.0 is Ended
            &&& next.1 matches MergeInsertAction::Fail(reported)
            &&& reported == error
        }),
        ({
            let next = call.stepped(MergeInsertEvent::SourceRefused(error));
            &&& next.0 is Ended
            &&& next.1 matches MergeInsertAction::Fail(reported)
            &&& reported == error
        }),
{
}

/// What a call can hear while it waits: of the import, with any array of keys that has the
/// entries that count; of the parse, the build or the execution, with any counts and any
/// error; and of nothing once it has ended.
pub proof fn law_what_a_call_can_hear(
    call: MergeInsertCall<PlanView>,
    args: ArgsView,
    stats: MergeStats,
    error: ErrorView,
)
    ensures
        args.well_formed() <==> (args.on_columns is Some ==> args.num_on_columns
            <= args.on_columns->0.len()),
        call.expects(MergeInsertEvent::SourceImported(args)) <==> call is Importing
            && args.well_formed(),
        call.expects(MergeInsertEvent::SourceRefused(error)) <==> call is Importing,
        call.expects(MergeInsertEvent::FilterParsed) <==> call is ParsingFilter,
        call.expects(MergeInsertEvent::JobBuilt) <==> call is BuildingJob,
        call.expects(MergeInsertEvent::Executed(stats)) <==> call is Executing,
        call.expects(MergeInsertEvent::EngineFailed(error)) <==> call is ParsingFilter
            || call is BuildingJob || call is Executing,
{
}

/// A call is the sequence of its steps: it begins, and each event that it can hear takes it
/// one step on.
pub proof fn law_calls_go_step_by_step(
    source: bool,
    events: Seq<MergeInsertEvent<ArgsView, ErrorView>>,
    event: MergeInsertEvent<ArgsView, ErrorView>,
)
    ensures
        after(source, seq![]) == begun(source),
        possible(source, seq![]),
        after(source, events.push(event)) == after(source, events).0.stepped(event),
        possible(source, events.push(event)) <==> possible(source, events) && after(
            source,
            events,
        ).0.expects(event),
        actions(source, events).len() == events.len() + 1,
        actions(source, events).last() == after(source, events).1,
        actions(source, events.push(event)) == actions(source, events).push(
            after(source, events.push(event)).1,
        ),
{
    assert(events.push(event).drop_last() =~= events);
    assert(events.take(events.len() as int) =~= events);
    assert(events.push(event).take((events.len() + 1) as int) =~= events.push(event));
    assert forall|i: int| 0 <= i <= events.len() implies events.push(event).take(i)
        == #[trigger] events.take(i) by {
        assert(events.push(event).take(i) =~= events.take(i));
    }
    assert(actions(source, events.push(event)) =~= actions(source, events).push(
        after(source, events.push(event)).1,
    ));
}

/// What the caller gets at the end of a successful merge, from the first event and the last:
/// the engine's counts in the caller's slot if there is one, nothing else, and 0.
pub proof fn law_success_reports_the_counts(
    source: bool,
    events: Seq<MergeInsertEvent<ArgsView, ErrorView>>,
    args: ArgsView,
    stats: MergeStats,
)
    requires
        possible(source, events),
        events.len() > 0,
        events[0] == MergeInsertEvent::<ArgsView, ErrorView>::SourceImported(args),
        events.last() == MergeInsertEvent::<ArgsView, ErrorView>::Executed(stats),
    ensures
        after(source, events).1 matches MergeInsertAction::Publish { out } && {
            &&& out is Some <==> args.out_result
            &&& out matches Some(result) ==> {
                &&& result.num_inserted_rows == stats.num_inserted_rows
                &&& result.num_updated_rows == stats.num_updated_rows
                &&& result.num_deleted_rows == stats.num_deleted_rows
            }
        },
        returned(after(source, events).1) == Some(Ok::<i32, ErrorView>(0)),
{
    lemma_history(source, events);
}

/// A call fails right after the import of its source only for a fault of its arguments, and
/// with that very fault.
pub proof fn law_refusals_have_their_reason(
    source: bool,
    events: Seq<MergeInsertEvent<ArgsView, ErrorView>>,
    args: ArgsView,
)
    requires
        possible(source, events),
        events.len() > 0,
        events.last() == MergeInsertEvent::<ArgsView, ErrorView>::SourceImported(args),
    ensures
        after(source, events).1 is Fail <==> merge_plan(args) is Err,
        after(source, events).1 matches MergeInsertAction::Fail(error) ==> merge_plan(args)
            == Err::<PlanView, ErrorView>(error),
        after(source, events).0 is Ended <==> merge_plan(args) is Err,
{
}

/// What the laws read of an action: what the call returns with it, what it writes to the
/// caller's slot, and whether it needs the engine.
pub proof fn law_actions_on_their_own(action: MergeInsertAction<Seq<char>, PlanView, ErrorView>)
    ensures
        action is Publish ==> returned(action) == Some(Ok::<i32, ErrorView>(0)),
        action matches MergeInsertAction::Fail(error) ==> returned(action) == Some(
            Err::<i32, ErrorView>(error),
        ),
        !(action is Publish || action is Fail) ==> returned(action) is None,
        action matches MergeInsertAction::Publish { out } ==> written(action) == out,
        !(action is Publish) ==> written(action) is None,
        engine_action(action) <==> !(action is ImportSource || action is Fail),
{
}

/// Arguments and plans are seen as they are: every flag and number, every key and string.
pub proof fn law_arguments_are_seen_as_they_are(args: MergeInsertArgs, plan: MergeInsertPlan)
    ensures
        args.deep_view().dataset == args.dataset,
        args.deep_view().num_on_columns == args.num_on_columns,
        args.deep_view().out_result == args.out_result,
        args.on_columns is None <==> args.deep_view().on_columns is None,
        args.on_columns matches Some(ptrs) ==> {
            &&& args.deep_view().on_columns->0.len() == ptrs.len()
            &&& forall|i: int|
                0 <= i < ptrs.len() ==> {
                    &&& ptrs[i] is None ==> (#[trigger] args.deep_view().on_columns->0[i]) is None
                    &&& ptrs[i] is Some ==> args.deep_view().on_columns->0[i] == Some(ptrs[i]->0@)
                }
        },
        args.params is None <==> args.deep_view().params is None,
        args.params matches Some(params) ==> args.deep_view().params == Some(params.deep_view()),
        plan.deep_view().keys.len() == plan.keys.len(),
        forall|i: int|
            0 <= i < plan.keys.len() ==> #[trigger] plan.deep_view().keys[i] == plan.keys[i]@,
        plan.deep_view().behavior == plan.behavior.deep_view(),
{
}

/// Calls, actions and events are seen as they are: variant by variant, with all that they
/// hold.
pub proof fn law_calls_are_seen_as_they_are(
    call: MergeInsertCall<MergeInsertPlan>,
    action: MergeInsertAction<String, MergeInsertPlan, Error>,
    event: MergeInsertEvent<MergeInsertArgs, Error>,
)
    ensures
        call is Importing <==> call.deep_view() is Importing,
        call is Ended <==> call.deep_view() is Ended,
        call matches MergeInsertCall::ParsingFilter { plan, write_out } ==> call.deep_view() == (
        MergeInsertCall::ParsingFilter { plan: plan.deep_view(), write_out }),
        call matches MergeInsertCall::BuildingJob { write_out } ==> call.deep_view() == (
        MergeInsertCall::<PlanView>::BuildingJob { write_out }),
        call matches MergeInsertCall::Executing { write_out } ==> call.deep_view() == (
        MergeInsertCall::<PlanView>::Executing { write_out }),
        action is ImportSource <==> action.deep_view() is ImportSource,
        action is Execute <==> action.deep_view() is Execute,
        action is ParseFilter <==> action.deep_view() is ParseFilter,
        action matches MergeInsertAction::ParseFilter(filter)
            ==> action.deep_view()->ParseFilter_0 == filter@,
        action is BuildJob <==> action.deep_view() is BuildJob,
        action matches MergeInsertAction::BuildJob(plan) ==> action.deep_view()->BuildJob_0
            == plan.deep_view(),
        action is Publish <==> action.deep_view() is Publish,
        action matches MergeInsertAction::Publish { out } ==> action.deep_view()->out == out,
        action is Fail <==> action.deep_view() is Fail,
        action matches MergeInsertAction::Fail(error) ==> action.deep_view()->Fail_0 == error@,
        event is SourceImported <==> event.deep_view() is SourceImported,
        event matches MergeInsertEvent::SourceImported(args)
            ==> event.deep_view()->SourceImported_0 == args.deep_view(),
        event is SourceRefused <==> event.deep_view() is SourceRefused,
        event matches MergeInsertEvent::SourceRefused(error)
            ==> event.deep_view()->SourceRefused_0 == error@,
        event is FilterParsed <==> event.deep_view() is FilterParsed,
        event is JobBuilt <==> event.deep_view() is JobBuilt,
        event is Executed <==> event.deep_view() is Executed,
        event matches MergeInsertEvent::Executed(stats) ==> event.deep_view()->Executed_0 == stats,
        event is EngineFailed <==> event.deep_view() is EngineFailed,
        event matches MergeInsertEvent::EngineFailed(error) ==> event.deep_view()->EngineFailed_0
            == error@,
{
}

/// What the import of the source leads to: with a reader, which is one of this very stream,
/// the call goes on to the engine exactly when the arguments are sound, and otherwise fails
/// with their fault. Without one it fails as an invalid argument, with an error of this
/// very stream.
pub proof fn law_import_leads_on(
    call: MergeInsertCall<MergeInsertPlan>,
    stream: FFI_ArrowArrayStream,
    args: MergeInsertArgs,
    next: (Option<StreamReader>, Next),
)
    requires
        call.goes_on_after_import(stream, args, next),
    ensures
        next.0 matches Some(reader) ==> {
            &&& arrow_import::opens(stream, Ok(reader))
            &&& match next.1.1 {
                MergeInsertAction::Fail(error) => merge_plan(args.deep_view()) == Err::<
                    PlanView,
                    ErrorView,
                >(error@),
                MergeInsertAction::BuildJob(plan) => {
                    &&& merge_plan(args.deep_view()) == Ok::<PlanView, ErrorView>(plan.deep_view())
                    &&& !(plan.behavior.when_not_matched_by_source is DeleteIf)
                    &&& next.1.0 matches MergeInsertCall::BuildingJob { write_out }
                    &&& write_out == args.out_result
                },
                MergeInsertAction::ParseFilter(filter) => {
                    &&& merge_plan(args.deep_view()) matches Ok(plan)
                    &&& plan.behavior.when_not_matched_by_source == BySourceView::DeleteIf(filter@)
                    &&& next.1.0 matches MergeInsertCall::ParsingFilter { plan: waiting, write_out }
                    &&& waiting.deep_view() == plan
                    &&& write_out == args.out_result
                },
                _ => false,
            }
        },
        next.0 is None ==> (next.1.1 matches MergeInsertAction::Fail(error) && error.code
            == LanceErrorCode::InvalidArgument && arrow_import::opens(stream, Err(error.message@))),
        !arrow_import::callbacks_set(stream).0 ==> next.0 is None && (next.1.1
            matches MergeInsertAction::Fail(error) && error.message@
            == "C Data interface error: input stream is already released"@),
{
}

} // verus!
