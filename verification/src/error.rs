//! The error that a rejected or failed call reports, and the status that the
//! C caller sees.

use vstd::prelude::*;

verus! {

/// The class of an error, as the C API reports it.
#[derive(Clone, Copy, Debug, PartialEq, Eq, Structural)]
pub enum LanceErrorCode {
    /// An argument was NULL, empty, out of range, malformed or contradictory.
    InvalidArgument,
    /// The dataset, or a part of it, does not exist.
    NotFound,
    /// A dataset already exists at the location.
    DatasetAlreadyExists,
    /// An index could not be built, found or used.
    IndexError,
    /// The operation is not available for this dataset.
    NotSupported,
    /// Another writer committed first.
    CommitConflict,
    /// Any other failure inside the storage engine.
    Internal,
}

/// An error: its class and the text for the caller.
#[derive(Debug)]
pub struct Error {
    pub code: LanceErrorCode,
    pub message: String,
}

/// What an [`Error`] says.
pub struct ErrorView {
    pub code: LanceErrorCode,
    pub message: Seq<char>,
}

impl View for Error {
    type V = ErrorView;

    open spec fn view(&self) -> ErrorView {
        ErrorView { code: self.code, message: self.message@ }
    }
}

/// The error for an argument that is refused with the text `message`.
pub open spec fn invalid_input(message: Seq<char>) -> ErrorView {
    ErrorView { code: LanceErrorCode::InvalidArgument, message }
}

/// What a fallible function returned, with the value and the error taken by
/// their views.
pub open spec fn outcome<T: DeepView>(result: Result<T, Error>) -> Result<T::V, ErrorView> {
    match result {
        Ok(value) => Ok(value.deep_view()),
        Err(error) => Err(error@),
    }
}

impl Error {
    /// The error for an argument that is refused with the text `message`.
    pub fn invalid_input(message: String) -> (error: Error)
        ensures
            error@ == invalid_input(message@),
            error.code == LanceErrorCode::InvalidArgument,
            error.message == message,
    {
        Error { code: LanceErrorCode::InvalidArgument, message }
    }
}

/// The integer that a C function returns for `result`.
pub open spec fn status(result: Result<i32, ErrorView>) -> i32 {
    match result {
        Ok(value) => value,
        Err(_) => -1i32,
    }
}

/// The integer that a C function returns: the value on success, -1 on error.
pub fn ffi_status(result: &Result<i32, Error>) -> (code: i32)
    ensures
        code == status(outcome(*result)),
        result is Err ==> code == -1,
        result matches Ok(value) ==> code == *value,
{
    match result {
        Ok(value) => *value,
        Err(_) => -1,
    }
}

/// Whether `result` is the refusal of an argument with the text `message`.
pub open spec fn refused<T>(result: Result<T, ErrorView>, message: Seq<char>) -> bool {
    result matches Err(error) && error.code == LanceErrorCode::InvalidArgument && error.message
        == message
}

/// The status is -1 for every error, whatever its class and text, and the value itself for
/// every success.
pub proof fn law_status_tells_success(result: Result<i32, ErrorView>)
    ensures
        result is Err ==> status(result) == -1,
        result matches Ok(value) ==> status(result) == value,
{
}

/// A refused argument is an error of the class for arguments, with the very text.
pub proof fn law_refusals_are_invalid_arguments<T>(message: Seq<char>, result: Result<T, ErrorView>)
    ensures
        invalid_input(message).code == LanceErrorCode::InvalidArgument,
        invalid_input(message).message == message,
        refused(result, message) <==> result is Err && result->Err_0.code
            == LanceErrorCode::InvalidArgument && result->Err_0.message == message,
{
}

/// Results are seen as they are: a success by what its value holds, an error by its class
/// and its text.
pub proof fn law_results_are_seen_as_they_are<T: DeepView>(result: Result<T, Error>)
    ensures
        result matches Ok(value) ==> outcome(result) == Ok::<T::V, ErrorView>(value.deep_view()),
        result matches Err(error) ==> {
            &&& outcome(result) is Err
            &&& outcome(result)->Err_0 == error@
            &&& error@.code == error.code
            &&& error@.message == error.message@
        },
{
}

} // verus!
