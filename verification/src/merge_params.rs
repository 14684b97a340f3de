//! The behaviour of a merge: the mode numbers and filter expressions that the
//! caller passes, and the checked behaviour that they stand for.

use vstd::prelude::*;
use vstd::utf8::*;

use crate::error;
use crate::error::{Error, ErrorView};
use crate::helpers;
use crate::helpers::parse_c_string;
use crate::text;
use crate::text::signed_decimal_text;

verus! {

/// Behavior when a target row matches a source row on the join keys.
///
/// The variants stand in the order of their discriminants, which are pinned for
/// ABI stability. A number outside their range is rejected as an invalid
/// argument.
#[derive(Clone, Copy, Debug, PartialEq, Eq, Structural)]
pub enum LanceMergeWhenMatched {
    /// Keep the target row unchanged (find-or-create). This is the default.
    DoNothing,
    /// Replace the target row with the source row (upsert).
    UpdateAll,
    /// Replace the target row only when an SQL filter evaluates true.
    /// Requires `when_matched_expr` on [`LanceMergeInsertParams`].
    UpdateIf,
    /// Fail the operation on any match.
    Fail,
    /// Drop the matching target row without inserting anything in its place.
    Delete,
}

/// Behavior when a source row has no matching target row.
#[derive(Clone, Copy, Debug, PartialEq, Eq, Structural)]
pub enum LanceMergeWhenNotMatched {
    /// Insert the source row (the default).
    InsertAll,
    /// Discard the source row.
    DoNothing,
}

/// Behavior when a target row has no matching source row.
#[derive(Clone, Copy, Debug, PartialEq, Eq, Structural)]
pub enum LanceMergeWhenNotMatchedBySource {
    /// Keep the target row (the default).
    Keep,
    /// Delete every unmatched target row.
    Delete,
    /// Delete unmatched target rows that satisfy an SQL filter. Requires
    /// `when_not_matched_by_source_expr` on [`LanceMergeInsertParams`].
    DeleteIf,
}

impl DeepView for LanceMergeWhenMatched {
    type V = Self;

    open spec fn deep_view(&self) -> Self {
        *self
    }
}

impl LanceMergeWhenMatched {
    /// The number that stands for the mode at the C boundary.
    pub open spec fn discriminant(self) -> int {
        match self {
            LanceMergeWhenMatched::DoNothing => 0,
            LanceMergeWhenMatched::UpdateAll => 1,
            LanceMergeWhenMatched::UpdateIf => 2,
            LanceMergeWhenMatched::Fail => 3,
            LanceMergeWhenMatched::Delete => 4,
        }
    }

    /// The error for a number that stands for no mode.
    pub open spec fn out_of_range(raw: i32) -> ErrorView {
        error::invalid_input(
            "invalid when_matched "@ + text::signed_decimal(raw as int)
                + "; expected 0..=4 (see LanceMergeWhenMatched)"@,
        )
    }

    /// The mode that `raw` stands for, or the error for it.
    pub open spec fn decoded(raw: i32) -> Result<Self, ErrorView> {
        if raw == 0 {
            Ok(LanceMergeWhenMatched::DoNothing)
        } else if raw == 1 {
            Ok(LanceMergeWhenMatched::UpdateAll)
        } else if raw == 2 {
            Ok(LanceMergeWhenMatched::UpdateIf)
        } else if raw == 3 {
            Ok(LanceMergeWhenMatched::Fail)
        } else if raw == 4 {
            Ok(LanceMergeWhenMatched::Delete)
        } else {
            Err(Self::out_of_range(raw))
        }
    }

    /// Whether the number `raw` stands for a mode that takes an expression. The string of
    /// an expression is followed only then.
    pub fn takes_expr(raw: i32) -> (takes: bool)
        ensures
            takes == (raw == LanceMergeWhenMatched::UpdateIf.discriminant()),
            takes <==> raw == 2,
    {
        raw == 2
    }

    /// The mode that the number `raw` stands for.
    pub fn from_raw(raw: i32) -> (result: Result<Self, Error>)
        ensures
            result is Ok <==> 0 <= raw <= 4,
            result matches Ok(mode) ==> mode.discriminant() == raw,
            result matches Err(error) ==> error@ == Self::out_of_range(raw),
            error::outcome(result) == Self::decoded(raw),
    {
        match raw {
            0 => Ok(LanceMergeWhenMatched::DoNothing),
            1 => Ok(LanceMergeWhenMatched::UpdateAll),
            2 => Ok(LanceMergeWhenMatched::UpdateIf),
            3 => Ok(LanceMergeWhenMatched::Fail),
            4 => Ok(LanceMergeWhenMatched::Delete),
            other => {
                let mut message = "invalid when_matched ".to_owned();
                message.append(signed_decimal_text(other).as_str());
                message.append("; expected 0..=4 (see LanceMergeWhenMatched)");
                Err(Error::invalid_input(message))
            },
        }
    }
}

impl DeepView for LanceMergeWhenNotMatched {
    type V = Self;

    open spec fn deep_view(&self) -> Self {
        *self
    }
}

impl LanceMergeWhenNotMatched {
    /// The number that stands for the mode at the C boundary.
    pub open spec fn discriminant(self) -> int {
        match self {
            LanceMergeWhenNotMatched::InsertAll => 0,
            LanceMergeWhenNotMatched::DoNothing => 1,
        }
    }

    /// The error for a number that stands for no mode.
    pub open spec fn out_of_range(raw: i32) -> ErrorView {
        error::invalid_input(
            "invalid when_not_matched "@ + text::signed_decimal(raw as int)
                + "; expected 0 or 1 (see LanceMergeWhenNotMatched)"@,
        )
    }

    /// The mode that `raw` stands for, or the error for it.
    pub open spec fn decoded(raw: i32) -> Result<Self, ErrorView> {
        if raw == 0 {
            Ok(LanceMergeWhenNotMatched::InsertAll)
        } else if raw == 1 {
            Ok(LanceMergeWhenNotMatched::DoNothing)
        } else {
            Err(Self::out_of_range(raw))
        }
    }

    /// The mode that the number `raw` stands for.
    pub fn from_raw(raw: i32) -> (result: Result<Self, Error>)
        ensures
            result is Ok <==> 0 <= raw <= 1,
            result matches Ok(mode) ==> mode.discriminant() == raw,
            result matches Err(error) ==> error@ == Self::out_of_range(raw),
            error::outcome(result) == Self::decoded(raw),
    {
        match raw {
            0 => Ok(LanceMergeWhenNotMatched::InsertAll),
            1 => Ok(LanceMergeWhenNotMatched::DoNothing),
            other => {
                let mut message = "invalid when_not_matched ".to_owned();
                message.append(signed_decimal_text(other).as_str());
                message.append("; expected 0 or 1 (see LanceMergeWhenNotMatched)");
                Err(Error::invalid_input(message))
            },
        }
    }
}

impl DeepView for LanceMergeWhenNotMatchedBySource {
    type V = Self;

    open spec fn deep_view(&self) -> Self {
        *self
    }
}

impl LanceMergeWhenNotMatchedBySource {
    /// The number that stands for the mode at the C boundary.
    pub open spec fn discriminant(self) -> int {
        match self {
            LanceMergeWhenNotMatchedBySource::Keep => 0,
            LanceMergeWhenNotMatchedBySource::Delete => 1,
            LanceMergeWhenNotMatchedBySource::DeleteIf => 2,
        }
    }

    /// The error for a number that stands for no mode.
    pub open spec fn out_of_range(raw: i32) -> ErrorView {
        error::invalid_input(
            "invalid when_not_matched_by_source "@ + text::signed_decimal(raw as int)
                + "; expected 0..=2 (see LanceMergeWhenNotMatchedBySource)"@,
        )
    }

    /// The mode that `raw` stands for, or the error for it.
    pub open spec fn decoded(raw: i32) -> Result<Self, ErrorView> {
        if raw == 0 {
            Ok(LanceMergeWhenNotMatchedBySource::Keep)
        } else if raw == 1 {
            Ok(LanceMergeWhenNotMatchedBySource::Delete)
        } else if raw == 2 {
            Ok(LanceMergeWhenNotMatchedBySource::DeleteIf)
        } else {
            Err(Self::out_of_range(raw))
        }
    }

    /// Whether the number `raw` stands for a mode that takes an expression. The string of
    /// an expression is followed only then.
    pub fn takes_expr(raw: i32) -> (takes: bool)
        ensures
            takes == (raw == LanceMergeWhenNotMatchedBySource::DeleteIf.discriminant()),
            takes <==> raw == 2,
    {
        raw == 2
    }

    /// The mode that the number `raw` stands for.
    pub fn from_raw(raw: i32) -> (result: Result<Self, Error>)
        ensures
            result is Ok <==> 0 <= raw <= 2,
            result matches Ok(mode) ==> mode.discriminant() == raw,
            result matches Err(error) ==> error@ == Self::out_of_range(raw),
            error::outcome(result) == Self::decoded(raw),
    {
        match raw {
            0 => Ok(LanceMergeWhenNotMatchedBySource::Keep),
            1 => Ok(LanceMergeWhenNotMatchedBySource::Delete),
            2 => Ok(LanceMergeWhenNotMatchedBySource::DeleteIf),
            other => {
                let mut message = "invalid when_not_matched_by_source ".to_owned();
                message.append(signed_decimal_text(other).as_str());
                message.append("; expected 0..=2 (see LanceMergeWhenNotMatchedBySource)");
                Err(Error::invalid_input(message))
            },
        }
    }
}

/// Tunable parameters of a merge. A caller that passes none gets the
/// find-or-create defaults (`DoNothing` / `InsertAll` / `Keep`).
///
/// Each mode is the number that the C caller wrote; each expression is the bytes
/// of a C string, `None` for NULL. An expression is read only when its mode takes one.
/// Beside any other mode it is rejected unread, so that the contract stays unambiguous.
#[derive(Debug)]
pub struct LanceMergeInsertParams {
    /// [`LanceMergeWhenMatched`] discriminant. Default: `DoNothing` (0).
    pub when_matched: i32,
    /// SQL filter for `UpdateIf`. Required iff `when_matched` is `UpdateIf`,
    /// forbidden otherwise. Must not be empty when set.
    pub when_matched_expr: Option<Vec<u8>>,
    /// [`LanceMergeWhenNotMatched`] discriminant. Default: `InsertAll` (0).
    pub when_not_matched: i32,
    /// [`LanceMergeWhenNotMatchedBySource`] discriminant. Default: `Keep` (0).
    pub when_not_matched_by_source: i32,
    /// SQL filter for `DeleteIf`. Required iff `when_not_matched_by_source` is
    /// `DeleteIf`, forbidden otherwise. Must not be empty when set.
    pub when_not_matched_by_source_expr: Option<Vec<u8>>,
}

/// What [`LanceMergeInsertParams`] hold.
pub struct ParamsView {
    pub when_matched: i32,
    pub when_matched_expr: Option<Seq<u8>>,
    pub when_not_matched: i32,
    pub when_not_matched_by_source: i32,
    pub when_not_matched_by_source_expr: Option<Seq<u8>>,
}

impl DeepView for LanceMergeInsertParams {
    type V = ParamsView;

    open spec fn deep_view(&self) -> ParamsView {
        ParamsView {
            when_matched: self.when_matched,
            when_matched_expr: helpers::c_bytes(self.when_matched_expr),
            when_not_matched: self.when_not_matched,
            when_not_matched_by_source: self.when_not_matched_by_source,
            when_not_matched_by_source_expr: helpers::c_bytes(self.when_not_matched_by_source_expr),
        }
    }
}

/// Checked behavior for a target row that matches a source row.
#[derive(Debug)]
pub enum WhenMatched {
    DoNothing,
    UpdateAll,
    /// Update where this SQL filter holds.
    UpdateIf(String),
    Fail,
    Delete,
}

/// What a [`WhenMatched`] holds.
pub enum WhenMatchedView {
    DoNothing,
    UpdateAll,
    UpdateIf(Seq<char>),
    Fail,
    Delete,
}

impl DeepView for WhenMatched {
    type V = WhenMatchedView;

    open spec fn deep_view(&self) -> WhenMatchedView {
        match *self {
            WhenMatched::DoNothing => WhenMatchedView::DoNothing,
            WhenMatched::UpdateAll => WhenMatchedView::UpdateAll,
            WhenMatched::UpdateIf(expr) => WhenMatchedView::UpdateIf(expr@),
            WhenMatched::Fail => WhenMatchedView::Fail,
            WhenMatched::Delete => WhenMatchedView::Delete,
        }
    }
}

/// Checked behavior for a target row that no source row matches.
#[derive(Debug)]
pub enum ResolvedWhenNotMatchedBySource {
    Keep,
    Delete,
    /// Delete where this SQL filter holds.
    DeleteIf(String),
}

/// What a [`ResolvedWhenNotMatchedBySource`] holds.
pub enum BySourceView {
    Keep,
    Delete,
    DeleteIf(Seq<char>),
}

impl DeepView for ResolvedWhenNotMatchedBySource {
    type V = BySourceView;

    open spec fn deep_view(&self) -> BySourceView {
        match *self {
            ResolvedWhenNotMatchedBySource::Keep => BySourceView::Keep,
            ResolvedWhenNotMatchedBySource::Delete => BySourceView::Delete,
            ResolvedWhenNotMatchedBySource::DeleteIf(expr) => BySourceView::DeleteIf(expr@),
        }
    }
}

/// Checked merge parameters, with the caller's strings copied.
#[derive(Debug)]
pub struct ResolvedParams {
    pub when_matched: WhenMatched,
    pub when_not_matched: LanceMergeWhenNotMatched,
    pub when_not_matched_by_source: ResolvedWhenNotMatchedBySource,
}

/// What [`ResolvedParams`] hold.
pub struct ResolvedView {
    pub when_matched: WhenMatchedView,
    pub when_not_matched: LanceMergeWhenNotMatched,
    pub when_not_matched_by_source: BySourceView,
}

impl DeepView for ResolvedParams {
    type V = ResolvedView;

    open spec fn deep_view(&self) -> ResolvedView {
        ResolvedView {
            when_matched: self.when_matched.deep_view(),
            when_not_matched: self.when_not_matched,
            when_not_matched_by_source: self.when_not_matched_by_source.deep_view(),
        }
    }
}

/// The behavior of a merge without parameters: find or create.
pub open spec fn find_or_create() -> ResolvedView {
    ResolvedView {
        when_matched: WhenMatchedView::DoNothing,
        when_not_matched: LanceMergeWhenNotMatched::InsertAll,
        when_not_matched_by_source: BySourceView::Keep,
    }
}

/// The filter expression in the C string `ptr`, the field `field` of the
/// parameters: none for NULL, an error where it is empty or not UTF-8.
pub open spec fn optional_expr(ptr: Option<Seq<u8>>, field: Seq<char>) -> Result<
    Option<Seq<char>>,
    ErrorView,
> {
    match helpers::c_text(ptr) {
        Ok(Some(expr)) => if expr.len() == 0 {
            Err(error::invalid_input(field + " must not be empty"@))
        } else {
            Ok(Some(expr))
        },
        other => other,
    }
}

/// The error for an expression beside a mode `mode` that takes none.
pub open spec fn unused_expr(field: Seq<char>, mode: Seq<char>) -> ErrorView {
    error::invalid_input(field + "_expr must be NULL when "@ + field + "="@ + mode)
}

/// The name of a mode for matched rows.
pub open spec fn matched_mode_name(mode: LanceMergeWhenMatched) -> Seq<char> {
    match mode {
        LanceMergeWhenMatched::DoNothing => "DoNothing"@,
        LanceMergeWhenMatched::UpdateAll => "UpdateAll"@,
        LanceMergeWhenMatched::UpdateIf => "UpdateIf"@,
        LanceMergeWhenMatched::Fail => "Fail"@,
        LanceMergeWhenMatched::Delete => "Delete"@,
    }
}

/// The name of a mode for target rows without a source row.
pub open spec fn by_source_mode_name(mode: LanceMergeWhenNotMatchedBySource) -> Seq<char> {
    match mode {
        LanceMergeWhenNotMatchedBySource::Keep => "Keep"@,
        LanceMergeWhenNotMatchedBySource::Delete => "Delete"@,
        LanceMergeWhenNotMatchedBySource::DeleteIf => "DeleteIf"@,
    }
}

/// The filter in the C string `ptr` beside a mode for matched rows. The string is read
/// only where the mode takes a filter.
pub open spec fn matched_filter(mode: LanceMergeWhenMatched, ptr: Option<Seq<u8>>) -> Result<
    Option<Seq<char>>,
    ErrorView,
> {
    if mode == LanceMergeWhenMatched::UpdateIf {
        optional_expr(ptr, "when_matched_expr"@)
    } else {
        Ok(None)
    }
}

/// The filter in the C string `ptr` beside a mode for target rows without a source row.
/// The string is read only where the mode takes a filter.
pub open spec fn by_source_filter(
    mode: LanceMergeWhenNotMatchedBySource,
    ptr: Option<Seq<u8>>,
) -> Result<Option<Seq<char>>, ErrorView> {
    if mode == LanceMergeWhenNotMatchedBySource::DeleteIf {
        optional_expr(ptr, "when_not_matched_by_source_expr"@)
    } else {
        Ok(None)
    }
}

/// The behavior of a mode for matched rows. `given` tells whether there is an expression
/// beside it, whatever it holds, and `filter` is the filter that was read. The mode has
/// to have its filter if it takes one, and no expression beside it if not.
pub open spec fn matched_behavior(
    mode: LanceMergeWhenMatched,
    given: bool,
    filter: Option<Seq<char>>,
) -> Result<WhenMatchedView, ErrorView> {
    match (mode, filter) {
        (LanceMergeWhenMatched::UpdateIf, Some(filter)) => Ok(WhenMatchedView::UpdateIf(filter)),
        (LanceMergeWhenMatched::UpdateIf, None) => Err(
            error::invalid_input("when_matched=UpdateIf requires when_matched_expr"@),
        ),
        _ => if given {
            Err(unused_expr("when_matched"@, matched_mode_name(mode)))
        } else {
            Ok(
                match mode {
                    LanceMergeWhenMatched::UpdateAll => WhenMatchedView::UpdateAll,
                    LanceMergeWhenMatched::Fail => WhenMatchedView::Fail,
                    LanceMergeWhenMatched::Delete => WhenMatchedView::Delete,
                    _ => WhenMatchedView::DoNothing,
                },
            )
        },
    }
}

/// The behavior of a mode for target rows without a source row, in the same way.
pub open spec fn by_source_behavior(
    mode: LanceMergeWhenNotMatchedBySource,
    given: bool,
    filter: Option<Seq<char>>,
) -> Result<BySourceView, ErrorView> {
    match (mode, filter) {
        (LanceMergeWhenNotMatchedBySource::DeleteIf, Some(filter)) => Ok(
            BySourceView::DeleteIf(filter),
        ),
        (LanceMergeWhenNotMatchedBySource::DeleteIf, None) => Err(
            error::invalid_input(
                "when_not_matched_by_source=DeleteIf requires when_not_matched_by_source_expr"@,
            ),
        ),
        _ => if given {
            Err(unused_expr("when_not_matched_by_source"@, by_source_mode_name(mode)))
        } else {
            Ok(
                match mode {
                    LanceMergeWhenNotMatchedBySource::Delete => BySourceView::Delete,
                    _ => BySourceView::Keep,
                },
            )
        },
    }
}

/// The three modes of the parameters.
pub open spec fn modes(params: ParamsView) -> Result<
    (LanceMergeWhenMatched, LanceMergeWhenNotMatched, LanceMergeWhenNotMatchedBySource),
    ErrorView,
> {
    match LanceMergeWhenMatched::decoded(params.when_matched) {
        Err(error) => Err(error),
        Ok(matched) => match LanceMergeWhenNotMatched::decoded(params.when_not_matched) {
            Err(error) => Err(error),
            Ok(not_matched) => match LanceMergeWhenNotMatchedBySource::decoded(
                params.when_not_matched_by_source,
            ) {
                Err(error) => Err(error),
                Ok(by_source) => Ok((matched, not_matched, by_source)),
            },
        },
    }
}

/// The two filters of the parameters, the one for matched rows first.
pub open spec fn filters(
    matched: LanceMergeWhenMatched,
    by_source: LanceMergeWhenNotMatchedBySource,
    params: ParamsView,
) -> Result<(Option<Seq<char>>, Option<Seq<char>>), ErrorView> {
    match matched_filter(matched, params.when_matched_expr) {
        Err(error) => Err(error),
        Ok(first) => match by_source_filter(by_source, params.when_not_matched_by_source_expr) {
            Err(error) => Err(error),
            Ok(second) => Ok((first, second)),
        },
    }
}

/// The behavior that the caller's parameters stand for, or the first thing wrong
/// with them: first the mode numbers, then the filters that the modes take, then each
/// mode against the expression beside it.
pub open spec fn resolved(params: Option<ParamsView>) -> Result<ResolvedView, ErrorView> {
    match params {
        None => Ok(find_or_create()),
        Some(params) => match modes(params) {
            Err(error) => Err(error),
            Ok((matched, not_matched, by_source)) => match filters(matched, by_source, params) {
                Err(error) => Err(error),
                Ok((first, second)) => match matched_behavior(
                    matched,
                    params.when_matched_expr is Some,
                    first,
                ) {
                    Err(error) => Err(error),
                    Ok(when_matched) => match by_source_behavior(
                        by_source,
                        params.when_not_matched_by_source_expr is Some,
                        second,
                    ) {
                        Err(error) => Err(error),
                        Ok(when_not_matched_by_source) => Ok(
                            ResolvedView {
                                when_matched,
                                when_not_matched: not_matched,
                                when_not_matched_by_source,
                            },
                        ),
                    },
                },
            },
        },
    }
}

impl ResolvedParams {
    /// The behavior of a merge without parameters: find or create.
    pub fn defaults() -> (params: Self)
        ensures
            params.deep_view() == find_or_create(),
            params.when_matched is DoNothing,
            params.when_not_matched is InsertAll,
            params.when_not_matched_by_source is Keep,
    {
        ResolvedParams {
            when_matched: WhenMatched::DoNothing,
            when_not_matched: LanceMergeWhenNotMatched::InsertAll,
            when_not_matched_by_source: ResolvedWhenNotMatchedBySource::Keep,
        }
    }
}

/// Reads a filter expression, the field `field` of the parameters.
pub fn read_optional_expr(ptr: &Option<Vec<u8>>, field: &str) -> (result: Result<
    Option<String>,
    Error,
>)
    ensures
        error::outcome(result) == optional_expr(helpers::c_bytes(*ptr), field@),
        ptr is None ==> (result matches Ok(expr) && expr is None),
        ptr matches Some(bytes) ==> (result is Ok <==> valid_utf8(bytes@) && bytes@.len() > 0),
        ptr matches Some(bytes) ==> (result matches Ok(expr) ==> expr is Some && encode_utf8(
            expr->0@,
        ) == bytes@),
{
    match parse_c_string(ptr) {
        Err(error) => Err(error),
        Ok(None) => Ok(None),
        Ok(Some(expr)) => if expr.as_str().is_empty() {
            let mut message = field.to_owned();
            message.append(" must not be empty");
            Err(Error::invalid_input(message))
        } else {
            Ok(Some(expr))
        },
    }
}

/// Rejects an expression beside a mode that takes none, without a look at it.
pub fn reject_unused_expr<T>(field: &str, mode: &str, expr: &Option<T>) -> (result: Result<
    (),
    Error,
>)
    ensures
        result is Ok <==> expr is None,
        result matches Err(error) ==> error@ == unused_expr(field@, mode@),
{
    if expr.is_some() {
        let mut message = field.to_owned();
        message.append("_expr must be NULL when ");
        message.append(field);
        message.append("=");
        message.append(mode);
        return Err(Error::invalid_input(message));
    }
    Ok(())
}

/// Checks the caller's merge parameters and turns them into a behavior.
pub fn resolve_params(params: &Option<LanceMergeInsertParams>) -> (result: Result<
    ResolvedParams,
    Error,
>)
    ensures
        error::outcome(result) == resolved(params.deep_view()),
        result matches Ok(behavior) ==> (params matches Some(params) ==> behaves_as_asked(
            behavior,
            *params,
        )),
        params is None ==> (result matches Ok(behavior) && {
            &&& behavior.when_matched is DoNothing
            &&& behavior.when_not_matched is InsertAll
            &&& behavior.when_not_matched_by_source is Keep
        }),
{
    let params = match params {
        None => return Ok(ResolvedParams::defaults()),
        Some(params) => params,
    };

    let when_matched_kind = match LanceMergeWhenMatched::from_raw(params.when_matched) {
        Ok(mode) => mode,
        Err(error) => return Err(error),
    };
    let when_not_matched = match LanceMergeWhenNotMatched::from_raw(params.when_not_matched) {
        Ok(mode) => mode,
        Err(error) => return Err(error),
    };
    let by_source_kind = match LanceMergeWhenNotMatchedBySource::from_raw(
        params.when_not_matched_by_source,
    ) {
        Ok(mode) => mode,
        Err(error) => return Err(error),
    };

    let matched_filter = match read_matched_filter(when_matched_kind, &params.when_matched_expr) {
        Ok(filter) => filter,
        Err(error) => return Err(error),
    };
    let by_source_filter = match read_by_source_filter(
        by_source_kind,
        &params.when_not_matched_by_source_expr,
    ) {
        Ok(filter) => filter,
        Err(error) => return Err(error),
    };

    let when_matched = match resolve_when_matched(
        when_matched_kind,
        &params.when_matched_expr,
        matched_filter,
    ) {
        Ok(behavior) => behavior,
        Err(error) => return Err(error),
    };
    let when_not_matched_by_source = match resolve_by_source(
        by_source_kind,
        &params.when_not_matched_by_source_expr,
        by_source_filter,
    ) {
        Ok(behavior) => behavior,
        Err(error) => return Err(error),
    };

    let behavior = ResolvedParams { when_matched, when_not_matched, when_not_matched_by_source };
    proof {
        assert(resolved(Some(params.deep_view())) == Ok::<ResolvedView, ErrorView>(
            behavior.deep_view(),
        ));
        law_resolved_params_carry_over(params.deep_view());
    }
    Ok(behavior)
}

/// Reads the filter beside a mode for matched rows, if the mode takes one.
fn read_matched_filter(mode: LanceMergeWhenMatched, ptr: &Option<Vec<u8>>) -> (result: Result<
    Option<String>,
    Error,
>)
    ensures
        error::outcome(result) == matched_filter(mode, helpers::c_bytes(*ptr)),
{
    match mode {
        LanceMergeWhenMatched::UpdateIf => read_optional_expr(ptr, "when_matched_expr"),
        _ => Ok(None),
    }
}

/// Reads the filter beside a mode for target rows without a source row, if the mode
/// takes one.
fn read_by_source_filter(mode: LanceMergeWhenNotMatchedBySource, ptr: &Option<Vec<u8>>) -> (result:
    Result<Option<String>, Error>)
    ensures
        error::outcome(result) == by_source_filter(mode, helpers::c_bytes(*ptr)),
{
    match mode {
        LanceMergeWhenNotMatchedBySource::DeleteIf => read_optional_expr(
            ptr,
            "when_not_matched_by_source_expr",
        ),
        _ => Ok(None),
    }
}

/// Puts a mode for matched rows together with its filter, or makes sure that there is no
/// expression beside it.
fn resolve_when_matched(
    mode: LanceMergeWhenMatched,
    ptr: &Option<Vec<u8>>,
    filter: Option<String>,
) -> (result: Result<WhenMatched, Error>)
    ensures
        error::outcome(result) == matched_behavior(mode, ptr is Some, filter.deep_view()),
{
    let (name, behavior) = match mode {
        LanceMergeWhenMatched::UpdateIf => return match filter {
            Some(filter) => Ok(WhenMatched::UpdateIf(filter)),
            None => Err(
                Error::invalid_input(
                    "when_matched=UpdateIf requires when_matched_expr".to_owned(),
                ),
            ),
        },
        LanceMergeWhenMatched::DoNothing => ("DoNothing", WhenMatched::DoNothing),
        LanceMergeWhenMatched::UpdateAll => ("UpdateAll", WhenMatched::UpdateAll),
        LanceMergeWhenMatched::Fail => ("Fail", WhenMatched::Fail),
        LanceMergeWhenMatched::Delete => ("Delete", WhenMatched::Delete),
    };
    match reject_unused_expr("when_matched", name, ptr) {
        Ok(()) => Ok(behavior),
        Err(error) => Err(error),
    }
}

/// Puts a mode for target rows without a source row together with its filter, or makes
/// sure that there is no expression beside it.
fn resolve_by_source(
    mode: LanceMergeWhenNotMatchedBySource,
    ptr: &Option<Vec<u8>>,
    filter: Option<String>,
) -> (result: Result<ResolvedWhenNotMatchedBySource, Error>)
    ensures
        error::outcome(result) == by_source_behavior(mode, ptr is Some, filter.deep_view()),
{
    let (name, behavior) = match mode {
        LanceMergeWhenNotMatchedBySource::DeleteIf => return match filter {
            Some(filter) => Ok(ResolvedWhenNotMatchedBySource::DeleteIf(filter)),
            None => Err(
                Error::invalid_input(
                    "when_not_matched_by_source=DeleteIf requires when_not_matched_by_source_expr".to_owned(),
                ),
            ),
        },
        LanceMergeWhenNotMatchedBySource::Keep => ("Keep", ResolvedWhenNotMatchedBySource::Keep),
        LanceMergeWhenNotMatchedBySource::Delete => (
            "Delete",
            ResolvedWhenNotMatchedBySource::Delete,
        ),
    };
    match reject_unused_expr("when_not_matched_by_source", name, ptr) {
        Ok(()) => Ok(behavior),
        Err(error) => Err(error),
    }
}

/// The discriminants are pinned: each mode is decoded from its own number and
/// from no other.
pub proof fn law_discriminants_round_trip(
    raw: i32,
    matched: LanceMergeWhenMatched,
    not_matched: LanceMergeWhenNotMatched,
    by_source: LanceMergeWhenNotMatchedBySource,
)
    ensures
        LanceMergeWhenMatched::decoded(raw) == Ok::<LanceMergeWhenMatched, ErrorView>(matched)
            <==> matched.discriminant() == raw,
        LanceMergeWhenNotMatched::decoded(raw) == Ok::<LanceMergeWhenNotMatched, ErrorView>(
            not_matched,
        ) <==> not_matched.discriminant() == raw,
        LanceMergeWhenNotMatchedBySource::decoded(raw) == Ok::<
            LanceMergeWhenNotMatchedBySource,
            ErrorView,
        >(by_source) <==> by_source.discriminant() == raw,
{
}

/// Parameters that spell out the defaults mean the same as no parameters.
pub proof fn law_no_params_are_the_defaults(params: ParamsView)
    requires
        params.when_matched == LanceMergeWhenMatched::DoNothing.discriminant(),
        params.when_not_matched == LanceMergeWhenNotMatched::InsertAll.discriminant(),
        params.when_not_matched_by_source == LanceMergeWhenNotMatchedBySource::Keep.discriminant(),
        params.when_matched_expr is None,
        params.when_not_matched_by_source_expr is None,
    ensures
        resolved(Some(params)) == resolved(None),
{
}

/// Parameters are accepted exactly when every mode number is in range and each
/// expression is there, usable, if its mode takes one, and NULL if not.
pub proof fn law_params_accepted_iff(params: ParamsView)
    ensures
        resolved(Some(params)) is Ok <==> {
            &&& 0 <= params.when_matched <= 4
            &&& 0 <= params.when_not_matched <= 1
            &&& 0 <= params.when_not_matched_by_source <= 2
            &&& if params.when_matched == LanceMergeWhenMatched::UpdateIf.discriminant() {
                helpers::usable_text(params.when_matched_expr)
            } else {
                params.when_matched_expr is None
            }
            &&& if params.when_not_matched_by_source
                == LanceMergeWhenNotMatchedBySource::DeleteIf.discriminant() {
                helpers::usable_text(params.when_not_matched_by_source_expr)
            } else {
                params.when_not_matched_by_source_expr is None
            }
        },
{
    lemma_expr_empty_iff(params.when_matched_expr);
    lemma_expr_empty_iff(params.when_not_matched_by_source_expr);
}

/// An expression beside a mode that takes none is not read: parameters that differ in
/// nothing but what such expressions hold come to the same result. So any bytes may
/// stand for a string that was not followed.
pub proof fn law_unused_expressions_are_not_read(params: ParamsView, other: ParamsView)
    requires
        params.when_matched == other.when_matched,
        params.when_not_matched == other.when_not_matched,
        params.when_not_matched_by_source == other.when_not_matched_by_source,
        if params.when_matched == LanceMergeWhenMatched::UpdateIf.discriminant() {
            params.when_matched_expr == other.when_matched_expr
        } else {
            params.when_matched_expr is Some == other.when_matched_expr is Some
        },
        if params.when_not_matched_by_source
            == LanceMergeWhenNotMatchedBySource::DeleteIf.discriminant() {
            params.when_not_matched_by_source_expr == other.when_not_matched_by_source_expr
        } else {
            params.when_not_matched_by_source_expr is Some
                == other.when_not_matched_by_source_expr is Some
        },
    ensures
        resolved(Some(params)) == resolved(Some(other)),
{
}

/// Once the mode numbers and the filters that the modes take are sound, an expression
/// beside a mode that takes none is rejected with an error that names the mode. The
/// mode for matched rows is judged first.
pub proof fn law_unused_expressions_are_rejected(
    params: ParamsView,
    matched: LanceMergeWhenMatched,
    not_matched: LanceMergeWhenNotMatched,
    by_source: LanceMergeWhenNotMatchedBySource,
)
    requires
        modes(params) == Ok::<_, ErrorView>((matched, not_matched, by_source)),
        filters(matched, by_source, params) is Ok,
    ensures
        matched != LanceMergeWhenMatched::UpdateIf && params.when_matched_expr is Some ==> resolved(
            Some(params),
        ) == Err::<ResolvedView, ErrorView>(
            unused_expr("when_matched"@, matched_mode_name(matched)),
        ),
        by_source != LanceMergeWhenNotMatchedBySource::DeleteIf
            && params.when_not_matched_by_source_expr is Some && (matched
            == LanceMergeWhenMatched::UpdateIf <==> params.when_matched_expr is Some) ==> resolved(
            Some(params),
        ) == Err::<ResolvedView, ErrorView>(
            unused_expr("when_not_matched_by_source"@, by_source_mode_name(by_source)),
        ),
{
}

/// Accepted parameters carry over unchanged: the behavior is the one of the mode
/// numbers, and a filter is, byte for byte, the expression that the caller passed.
pub proof fn law_resolved_params_carry_over(params: ParamsView)
    requires
        resolved(Some(params)) is Ok,
    ensures
        resolved(Some(params)) matches Ok(behavior) && {
            &&& behavior.when_not_matched.discriminant() == params.when_not_matched
            &&& match behavior.when_matched {
                WhenMatchedView::DoNothing => params.when_matched == 0,
                WhenMatchedView::UpdateAll => params.when_matched == 1,
                WhenMatchedView::UpdateIf(filter) => params.when_matched == 2
                    && params.when_matched_expr == Some(encode_utf8(filter)),
                WhenMatchedView::Fail => params.when_matched == 3,
                WhenMatchedView::Delete => params.when_matched == 4,
            }
            &&& match behavior.when_not_matched_by_source {
                BySourceView::Keep => params.when_not_matched_by_source == 0,
                BySourceView::Delete => params.when_not_matched_by_source == 1,
                BySourceView::DeleteIf(filter) => params.when_not_matched_by_source == 2
                    && params.when_not_matched_by_source_expr == Some(encode_utf8(filter)),
            }
        },
{
    if let Some(bytes) = params.when_matched_expr {
        if valid_utf8(bytes) {
            decode_utf8_encode_utf8(bytes);
        }
    }
    if let Some(bytes) = params.when_not_matched_by_source_expr {
        if valid_utf8(bytes) {
            decode_utf8_encode_utf8(bytes);
        }
    }
}

/// Whatever is wrong with the parameters, the caller reads an invalid argument.
pub proof fn law_params_rejected_as_invalid_argument(params: Option<ParamsView>)
    ensures
        resolved(params) matches Err(error) ==> error.code
            == crate::error::LanceErrorCode::InvalidArgument,
{
}

/// A C string in UTF-8 holds no text exactly when it holds no byte.
proof fn lemma_expr_empty_iff(ptr: Option<Seq<u8>>)
    ensures
        ptr matches Some(bytes) ==> valid_utf8(bytes) ==> (decode_utf8(bytes).len() == 0
            <==> bytes.len() == 0),
{
}

/// Whether a checked behavior is the one that the numbers and the strings of the caller's
/// parameters ask for.
pub open spec fn behaves_as_asked(
    behavior: ResolvedParams,
    params: LanceMergeInsertParams,
) -> bool {
    &&& match behavior.when_matched {
        WhenMatched::DoNothing => params.when_matched == 0,
        WhenMatched::UpdateAll => params.when_matched == 1,
        WhenMatched::UpdateIf(filter) => params.when_matched == 2 && (params.when_matched_expr
            matches Some(bytes) && bytes@ == encode_utf8(filter@)),
        WhenMatched::Fail => params.when_matched == 3,
        WhenMatched::Delete => params.when_matched == 4,
    }
    &&& match behavior.when_not_matched {
        LanceMergeWhenNotMatched::InsertAll => params.when_not_matched == 0,
        LanceMergeWhenNotMatched::DoNothing => params.when_not_matched == 1,
    }
    &&& match behavior.when_not_matched_by_source {
        ResolvedWhenNotMatchedBySource::Keep => params.when_not_matched_by_source == 0,
        ResolvedWhenNotMatchedBySource::Delete => params.when_not_matched_by_source == 1,
        ResolvedWhenNotMatchedBySource::DeleteIf(filter) => params.when_not_matched_by_source == 2
            && (params.when_not_matched_by_source_expr matches Some(bytes) && bytes@ == encode_utf8(
            filter@,
        )),
    }
}

/// What each mode number means, and that every other number is refused with an error that
/// quotes it.
pub proof fn law_mode_numbers(raw: i32)
    ensures
        raw == 0 ==> LanceMergeWhenMatched::decoded(raw) == Ok::<LanceMergeWhenMatched, ErrorView>(
            LanceMergeWhenMatched::DoNothing,
        ),
        raw == 1 ==> LanceMergeWhenMatched::decoded(raw) == Ok::<LanceMergeWhenMatched, ErrorView>(
            LanceMergeWhenMatched::UpdateAll,
        ),
        raw == 2 ==> LanceMergeWhenMatched::decoded(raw) == Ok::<LanceMergeWhenMatched, ErrorView>(
            LanceMergeWhenMatched::UpdateIf,
        ),
        raw == 3 ==> LanceMergeWhenMatched::decoded(raw) == Ok::<LanceMergeWhenMatched, ErrorView>(
            LanceMergeWhenMatched::Fail,
        ),
        raw == 4 ==> LanceMergeWhenMatched::decoded(raw) == Ok::<LanceMergeWhenMatched, ErrorView>(
            LanceMergeWhenMatched::Delete,
        ),
        !(0 <= raw <= 4) ==> error::refused(
            LanceMergeWhenMatched::decoded(raw),
            "invalid when_matched "@ + text::signed_decimal(raw as int)
                + "; expected 0..=4 (see LanceMergeWhenMatched)"@,
        ),
        raw == 0 ==> LanceMergeWhenNotMatched::decoded(raw) == Ok::<LanceMergeWhenNotMatched, ErrorView>(
            LanceMergeWhenNotMatched::InsertAll,
        ),
        raw == 1 ==> LanceMergeWhenNotMatched::decoded(raw) == Ok::<LanceMergeWhenNotMatched, ErrorView>(
            LanceMergeWhenNotMatched::DoNothing,
        ),
        !(0 <= raw <= 1) ==> error::refused(
            LanceMergeWhenNotMatched::decoded(raw),
            "invalid when_not_matched "@ + text::signed_decimal(raw as int)
                + "; expected 0 or 1 (see LanceMergeWhenNotMatched)"@,
        ),
        raw == 0 ==> LanceMergeWhenNotMatchedBySource::decoded(raw) == Ok::<LanceMergeWhenNotMatchedBySource, ErrorView>(
            LanceMergeWhenNotMatchedBySource::Keep,
        ),
        raw == 1 ==> LanceMergeWhenNotMatchedBySource::decoded(raw) == Ok::<LanceMergeWhenNotMatchedBySource, ErrorView>(
            LanceMergeWhenNotMatchedBySource::Delete,
        ),
        raw == 2 ==> LanceMergeWhenNotMatchedBySource::decoded(raw) == Ok::<LanceMergeWhenNotMatchedBySource, ErrorView>(
            LanceMergeWhenNotMatchedBySource::DeleteIf,
        ),
        !(0 <= raw <= 2) ==> error::refused(
            LanceMergeWhenNotMatchedBySource::decoded(raw),
            "invalid when_not_matched_by_source "@ + text::signed_decimal(raw as int)
                + "; expected 0..=2 (see LanceMergeWhenNotMatchedBySource)"@,
        ),
{
}

/// The numbers of the modes at the C boundary.
pub proof fn law_modes_have_their_numbers(
    matched: LanceMergeWhenMatched,
    not_matched: LanceMergeWhenNotMatched,
    by_source: LanceMergeWhenNotMatchedBySource,
)
    ensures
        matched is DoNothing <==> matched.discriminant() == 0,
        matched is UpdateAll <==> matched.discriminant() == 1,
        matched is UpdateIf <==> matched.discriminant() == 2,
        matched is Fail <==> matched.discriminant() == 3,
        matched is Delete <==> matched.discriminant() == 4,
        not_matched is InsertAll <==> not_matched.discriminant() == 0,
        not_matched is DoNothing <==> not_matched.discriminant() == 1,
        by_source is Keep <==> by_source.discriminant() == 0,
        by_source is Delete <==> by_source.discriminant() == 1,
        by_source is DeleteIf <==> by_source.discriminant() == 2,
{
}

/// Parameters and behaviors are seen as they are: number by number, string by string, and
/// variant by variant.
pub proof fn law_parameters_are_seen_as_they_are(
    params: LanceMergeInsertParams,
    behavior: ResolvedParams,
    mode: LanceMergeWhenMatched,
    not_matched: LanceMergeWhenNotMatched,
    by_source: LanceMergeWhenNotMatchedBySource,
)
    ensures
        params.deep_view().when_matched == params.when_matched,
        params.deep_view().when_not_matched == params.when_not_matched,
        params.deep_view().when_not_matched_by_source == params.when_not_matched_by_source,
        params.when_matched_expr is None <==> params.deep_view().when_matched_expr is None,
        params.when_matched_expr matches Some(bytes) ==> params.deep_view().when_matched_expr
            == Some(bytes@),
        params.when_not_matched_by_source_expr is None
            <==> params.deep_view().when_not_matched_by_source_expr is None,
        params.when_not_matched_by_source_expr matches Some(bytes)
            ==> params.deep_view().when_not_matched_by_source_expr == Some(bytes@),
        behavior.when_matched is DoNothing <==> behavior.deep_view().when_matched is DoNothing,
        behavior.when_matched is UpdateAll <==> behavior.deep_view().when_matched is UpdateAll,
        behavior.when_matched is Fail <==> behavior.deep_view().when_matched is Fail,
        behavior.when_matched is Delete <==> behavior.deep_view().when_matched is Delete,
        behavior.when_matched is UpdateIf <==> behavior.deep_view().when_matched is UpdateIf,
        behavior.when_matched matches WhenMatched::UpdateIf(filter)
            ==> behavior.deep_view().when_matched == WhenMatchedView::UpdateIf(filter@),
        behavior.deep_view().when_not_matched == behavior.when_not_matched,
        behavior.when_not_matched_by_source is Keep
            <==> behavior.deep_view().when_not_matched_by_source is Keep,
        behavior.when_not_matched_by_source is Delete
            <==> behavior.deep_view().when_not_matched_by_source is Delete,
        behavior.when_not_matched_by_source is DeleteIf
            <==> behavior.deep_view().when_not_matched_by_source is DeleteIf,
        behavior.when_not_matched_by_source matches ResolvedWhenNotMatchedBySource::DeleteIf(filter)
            ==> behavior.deep_view().when_not_matched_by_source == BySourceView::DeleteIf(filter@),
        mode.deep_view() == mode,
        not_matched.deep_view() == not_matched,
        by_source.deep_view() == by_source,
{
}

/// A merge without parameters finds or creates: it leaves matched rows alone, inserts the
/// source rows that match none, and keeps the target rows that match none.
pub proof fn law_defaults_find_or_create()
    ensures
        resolved(None) matches Ok(behavior) && behavior.when_matched is DoNothing
            && behavior.when_not_matched is InsertAll && behavior.when_not_matched_by_source is Keep,
{
}

/// Every mode is available: numbers in range, with a filter in UTF-8 that is not empty
/// exactly beside the modes that take one, come to a behavior with these very modes.
pub proof fn law_every_mode_is_available(params: ParamsView)
    requires
        0 <= params.when_matched <= 4,
        0 <= params.when_not_matched <= 1,
        0 <= params.when_not_matched_by_source <= 2,
        params.when_matched != 2 ==> params.when_matched_expr is None,
        params.when_matched == 2 ==> params.when_matched_expr is Some && valid_utf8(
            params.when_matched_expr->0,
        ) && params.when_matched_expr->0.len() > 0,
        params.when_not_matched_by_source != 2 ==> params.when_not_matched_by_source_expr is None,
        params.when_not_matched_by_source == 2 ==> params.when_not_matched_by_source_expr is Some
            && valid_utf8(params.when_not_matched_by_source_expr->0)
            && params.when_not_matched_by_source_expr->0.len() > 0,
    ensures
        resolved(Some(params)) matches Ok(behavior) && {
            &&& params.when_matched == 0 <==> behavior.when_matched is DoNothing
            &&& params.when_matched == 1 <==> behavior.when_matched is UpdateAll
            &&& params.when_matched == 2 <==> behavior.when_matched is UpdateIf
            &&& params.when_matched == 3 <==> behavior.when_matched is Fail
            &&& params.when_matched == 4 <==> behavior.when_matched is Delete
            &&& behavior.when_matched matches WhenMatchedView::UpdateIf(filter) ==> encode_utf8(
                filter,
            ) == params.when_matched_expr->0
            &&& params.when_not_matched == 0 <==> behavior.when_not_matched is InsertAll
            &&& params.when_not_matched == 1 <==> behavior.when_not_matched is DoNothing
            &&& params.when_not_matched_by_source == 0
                <==> behavior.when_not_matched_by_source is Keep
            &&& params.when_not_matched_by_source == 1
                <==> behavior.when_not_matched_by_source is Delete
            &&& params.when_not_matched_by_source == 2
                <==> behavior.when_not_matched_by_source is DeleteIf
            &&& behavior.when_not_matched_by_source matches BySourceView::DeleteIf(filter)
                ==> encode_utf8(filter) == params.when_not_matched_by_source_expr->0
        },
{
    law_params_accepted_iff(params);
    law_resolved_params_carry_over(params);
}

/// A mode number out of range is what a caller hears of first, and of the first such
/// number.
pub proof fn law_bad_numbers_are_reported_first(params: ParamsView)
    ensures
        !(0 <= params.when_matched <= 4) ==> error::refused(
            resolved(Some(params)),
            "invalid when_matched "@ + text::signed_decimal(params.when_matched as int)
                + "; expected 0..=4 (see LanceMergeWhenMatched)"@,
        ),
        0 <= params.when_matched <= 4 && !(0 <= params.when_not_matched <= 1) ==> error::refused(
            resolved(Some(params)),
            "invalid when_not_matched "@ + text::signed_decimal(params.when_not_matched as int)
                + "; expected 0 or 1 (see LanceMergeWhenNotMatched)"@,
        ),
        0 <= params.when_matched <= 4 && 0 <= params.when_not_matched <= 1 && !(0
            <= params.when_not_matched_by_source <= 2) ==> error::refused(
            resolved(Some(params)),
            "invalid when_not_matched_by_source "@ + text::signed_decimal(
                params.when_not_matched_by_source as int,
            ) + "; expected 0..=2 (see LanceMergeWhenNotMatchedBySource)"@,
        ),
{
}

/// A filter that a mode takes is refused where it is not UTF-8 or empty, the one for matched
/// rows first.
pub proof fn law_bad_filters_are_reported_next(params: ParamsView)
    requires
        0 <= params.when_matched <= 4,
        0 <= params.when_not_matched <= 1,
        0 <= params.when_not_matched_by_source <= 2,
    ensures
        params.when_matched == 2 && params.when_matched_expr is Some && !valid_utf8(
            params.when_matched_expr->0,
        ) ==> error::refused(resolved(Some(params)), "string is not valid UTF-8"@),
        params.when_matched == 2 && params.when_matched_expr is Some
            && params.when_matched_expr->0.len() == 0 ==> error::refused(
            resolved(Some(params)),
            "when_matched_expr"@ + " must not be empty"@,
        ),
        params.when_matched != 2 || params.when_matched_expr is None || valid_utf8(
            params.when_matched_expr->0,
        ) && params.when_matched_expr->0.len() > 0 ==> {
            &&& params.when_not_matched_by_source == 2
                && params.when_not_matched_by_source_expr is Some && !valid_utf8(
                params.when_not_matched_by_source_expr->0,
            ) ==> error::refused(resolved(Some(params)), "string is not valid UTF-8"@)
            &&& params.when_not_matched_by_source == 2
                && params.when_not_matched_by_source_expr is Some
                && params.when_not_matched_by_source_expr->0.len() == 0 ==> error::refused(
                resolved(Some(params)),
                "when_not_matched_by_source_expr"@ + " must not be empty"@,
            )
        },
{
    lemma_expr_empty_iff(params.when_matched_expr);
    lemma_expr_empty_iff(params.when_not_matched_by_source_expr);
    lemma_empty_is_utf8();
}

/// No bytes are UTF-8.
proof fn lemma_empty_is_utf8()
    ensures
        forall|bytes: Seq<u8>| bytes.len() == 0 ==> #[trigger] valid_utf8(bytes),
{
}

/// Once the numbers and the filters are sound, a mode that lacks its filter is refused, and
/// so is an expression beside a mode that takes none; the mode for matched rows is judged
/// first, and the error names the mode.
pub proof fn law_modes_and_expressions_go_together(params: ParamsView)
    requires
        0 <= params.when_matched <= 4,
        0 <= params.when_not_matched <= 1,
        0 <= params.when_not_matched_by_source <= 2,
        params.when_matched == 2 && params.when_matched_expr is Some ==> valid_utf8(
            params.when_matched_expr->0,
        ) && params.when_matched_expr->0.len() > 0,
        params.when_not_matched_by_source == 2 && params.when_not_matched_by_source_expr is Some
            ==> valid_utf8(params.when_not_matched_by_source_expr->0)
            && params.when_not_matched_by_source_expr->0.len() > 0,
    ensures
        params.when_matched == 2 && params.when_matched_expr is None ==> error::refused(
            resolved(Some(params)),
            "when_matched=UpdateIf requires when_matched_expr"@,
        ),
        params.when_matched != 2 && params.when_matched_expr is Some ==> error::refused(
            resolved(Some(params)),
            "when_matched"@ + "_expr must be NULL when "@ + "when_matched"@ + "="@ + (
            if params.when_matched == 0 {
                "DoNothing"@
            } else if params.when_matched == 1 {
                "UpdateAll"@
            } else if params.when_matched == 3 {
                "Fail"@
            } else {
                "Delete"@
            }),
        ),
        (params.when_matched == 2 <==> params.when_matched_expr is Some) ==> {
            &&& params.when_not_matched_by_source == 2
                && params.when_not_matched_by_source_expr is None ==> error::refused(
                resolved(Some(params)),
                "when_not_matched_by_source=DeleteIf requires when_not_matched_by_source_expr"@,
            )
            &&& params.when_not_matched_by_source != 2
                && params.when_not_matched_by_source_expr is Some ==> error::refused(
                resolved(Some(params)),
                "when_not_matched_by_source"@ + "_expr must be NULL when "@
                    + "when_not_matched_by_source"@ + "="@ + (if params.when_not_matched_by_source
                    == 0 {
                    "Keep"@
                } else {
                    "Delete"@
                }),
            )
        },
{
    lemma_expr_empty_iff(params.when_matched_expr);
    lemma_expr_empty_iff(params.when_not_matched_by_source_expr);
}

/// The single steps: how an expression is read on its own, and how an unused one is
/// refused.
pub proof fn law_expressions_on_their_own(
    ptr: Option<Seq<u8>>,
    field: Seq<char>,
    mode: Seq<char>,
)
    ensures
        ptr is None ==> optional_expr(ptr, field) == Ok::<Option<Seq<char>>, ErrorView>(None),
        ptr is Some && !valid_utf8(ptr->0) ==> error::refused(
            optional_expr(ptr, field),
            "string is not valid UTF-8"@,
        ),
        ptr is Some && ptr->0.len() == 0 ==> error::refused(
            optional_expr(ptr, field),
            field + " must not be empty"@,
        ),
        ptr is Some && valid_utf8(ptr->0) && ptr->0.len() > 0 ==> {
            &&& optional_expr(ptr, field) is Ok
            &&& optional_expr(ptr, field)->Ok_0 is Some
            &&& encode_utf8(optional_expr(ptr, field)->Ok_0->0) == ptr->0
        },
        unused_expr(field, mode).code == crate::error::LanceErrorCode::InvalidArgument,
        unused_expr(field, mode).message == field + "_expr must be NULL when "@ + field + "="@
            + mode,
{
    lemma_expr_empty_iff(ptr);
    lemma_empty_is_utf8();
    if let Some(bytes) = ptr {
        if valid_utf8(bytes) {
            decode_utf8_encode_utf8(bytes);
        }
    }
}

} // verus!
