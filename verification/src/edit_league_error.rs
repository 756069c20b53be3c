//! Errors of editing a league, and their conversions from the errors of the
//! database, serialization and prompt libraries.

use vstd::prelude::*;
use inquire::InquireError;

verus! {

/// An error of the SQLite library.
#[verifier::external_type_specification]
#[verifier::external_body]
pub struct ExSqlError(rusqlite::Error);

/// An error of the JSON library.
#[verifier::external_type_specification]
#[verifier::external_body]
pub struct ExJsonError(serde_json::Error);

/// An error of the prompt library.
#[verifier::external_type_specification]
#[verifier::external_body]
pub struct ExInquireError(InquireError);

/// Possible errors that could arise from editing a league.
#[derive(Debug)]
pub enum EditLeagueError {
    /// There is already a team with the same abbreviation in the league.
    AbrvTaken,
    /// There is already a team with the same name in the league.
    NameTaken,
    /// Error accessing the database.
    DatabaseError(rusqlite::Error),
    /// Error serializing.
    SerdeError(serde_json::Error),
    /// Error prompting the user.
    Inquire(InquireError),
    /// A pennant race could not be generated.
    PennantError(String),
}

/// Turns a database error into an `EditLeagueError`, keeping a value as it is.
pub fn handle_sql_error<T>(input: Result<T, rusqlite::Error>) -> (r: Result<T, EditLeagueError>)
    ensures
        match input {
            Ok(value) => r == Ok::<T, EditLeagueError>(value),
            Err(message) => r == Err::<T, EditLeagueError>(EditLeagueError::DatabaseError(message)),
        },
{
    match input {
        Err(message) => Err(EditLeagueError::DatabaseError(message)),
        Ok(value) => Ok(value),
    }
}

/// Turns a serialization error into an `EditLeagueError`, keeping a value as it is.
pub fn handle_serde_error<T>(input: Result<T, serde_json::Error>) -> (r: Result<T, EditLeagueError>)
    ensures
        match input {
            Ok(value) => r == Ok::<T, EditLeagueError>(value),
            Err(message) => r == Err::<T, EditLeagueError>(EditLeagueError::SerdeError(message)),
        },
{
    match input {
        Err(message) => Err(EditLeagueError::SerdeError(message)),
        Ok(value) => Ok(value),
    }
}

/// Turns a prompt error into an `EditLeagueError`, keeping a value as it is.
pub fn handle_inquire_error<T>(input: Result<T, InquireError>) -> (r: Result<T, EditLeagueError>)
    ensures
        match input {
            Ok(value) => r == Ok::<T, EditLeagueError>(value),
            Err(message) => r == Err::<T, EditLeagueError>(EditLeagueError::Inquire(message)),
        },
{
    match input {
        Err(message) => Err(EditLeagueError::Inquire(message)),
        Ok(value) => Ok(value),
    }
}

/// `text` is how rusqlite's `Display` writes the database error `e`. A
/// relation, not a function: for some errors the text holds an operating
/// system's message or one written by another library, which need not be the
/// same on every machine, so only that the text is a writing of `e` is claimed.
pub uninterp spec fn sql_error_reads(e: rusqlite::Error, text: Seq<char>) -> bool;

/// `text` is how serde_json's `Display` writes the JSON error `e` (a relation,
/// as for `sql_error_reads`: an I/O error's text comes from the system).
pub uninterp spec fn json_error_reads(e: serde_json::Error, text: Seq<char>) -> bool;

/// `text` is how inquire's `Display` writes the prompt error `e` (a relation,
/// as for `sql_error_reads`: an I/O or user-provided error's text comes from
/// elsewhere).
pub uninterp spec fn inquire_error_reads(e: InquireError, text: Seq<char>) -> bool;

/// The message of a database error, as `rusqlite::Error`'s `Display` writes
/// it. The claim: the text is a writing of that error.
#[verifier::external_body]
fn sql_error_text(e: &rusqlite::Error) -> (r: String)
    ensures
        sql_error_reads(*e, r@),
{
    e.to_string()
}

/// The message of a JSON error, as `serde_json::Error`'s `Display` writes it.
/// The claim: the text is a writing of that error.
#[verifier::external_body]
fn json_error_text(e: &serde_json::Error) -> (r: String)
    ensures
        json_error_reads(*e, r@),
{
    e.to_string()
}

/// The message of a prompt error, as `InquireError`'s `Display` writes it.
/// The claim: the text is a writing of that error.
#[verifier::external_body]
fn inquire_error_text(e: &InquireError) -> (r: String)
    ensures
        inquire_error_reads(*e, r@),
{
    e.to_string()
}

impl EditLeagueError {
    /// The error written out: for an error of the database, JSON or prompt
    /// library, that library's own writing of that error (see
    /// `sql_error_reads`); for any other error the note that a team's name or
    /// abbreviation is invalid.
    pub fn to_display(&self) -> (r: String)
        ensures
            self matches EditLeagueError::DatabaseError(e) ==> sql_error_reads(*e, r@),
            self matches EditLeagueError::SerdeError(e) ==> json_error_reads(*e, r@),
            self matches EditLeagueError::Inquire(e) ==> inquire_error_reads(*e, r@),
            !(self is DatabaseError || self is SerdeError || self is Inquire) ==> r@
                == "Invalid Team and/or Abbreviation"@,
    {
        match self {
            EditLeagueError::DatabaseError(message) => sql_error_text(message),
            EditLeagueError::SerdeError(message) => json_error_text(message),
            EditLeagueError::Inquire(message) => inquire_error_text(message),
            _ => String::from_str("Invalid Team and/or Abbreviation"),
        }
    }
}

/// Whether a prompt error is `InquireError::OperationCanceled`, the user
/// pressing escape: a fact of the error's variant alone.
pub uninterp spec fn is_canceled(e: InquireError) -> bool;

/// Whether the prompt error is `InquireError::OperationCanceled`. The claim:
/// the answer is `is_canceled` of the error, so the same error always gets
/// the same answer; which errors those are is inquire's to say.
#[verifier::external_body]
fn operation_canceled(err: &InquireError) -> (r: bool)
    ensures
        r == is_canceled(*err),
{
    match err {
        InquireError::OperationCanceled => true,
        _ => false,
    }
}

/// What a prompt error comes to, given whether it was a cancel: a canceled
/// prompt is no error, the user backs out; any other prompt error becomes an
/// `EditLeagueError::Inquire`, holding the prompt's error.
pub fn prompt_error_outcome(canceled: bool, err: InquireError) -> (r: Result<(), EditLeagueError>)
    ensures
        canceled ==> r is Ok,
        !canceled ==> r == Err::<(), EditLeagueError>(EditLeagueError::Inquire(err)),
{
    if canceled {
        Ok(())
    } else {
        Err(EditLeagueError::Inquire(err))
    }
}

/// A canceled prompt is no error: the user backs out. Any other prompt error
/// becomes an `EditLeagueError::Inquire`, holding the prompt's error (see
/// `prompt_error_outcome`).
pub fn inquire_check(err: InquireError) -> (r: Result<(), EditLeagueError>)
    ensures
        is_canceled(err) ==> r is Ok,
        !is_canceled(err) ==> r == Err::<(), EditLeagueError>(EditLeagueError::Inquire(err)),
{
    let canceled = operation_canceled(&err);
    prompt_error_outcome(canceled, err)
}

} // verus!
