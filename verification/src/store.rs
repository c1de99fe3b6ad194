//! The three operations of the store, as a machine that decides and a driver
//! that acts.
//!
//! The library never touches the disk. An operation is a sequence of
//! [`Step`]s. Each step but the last names one thing for the driver to do;
//! the driver does it, says in a [`Report`] what came of it, and gets the next
//! step from [`Step::advance`]. The last step holds the [`Outcome`].

use crate::codec::{decode, decoded, encode, encoded};
use crate::error::{ErrorKind, Failure, StoreError};
use crate::location::{path_bytes, token_file, token_file_in};
use crate::record::{TokenData, TokenRecord};
use std::path::PathBuf;
use vstd::prelude::*;

verus! {

/// The mathematical value of a [`Command`].
pub enum CommandView {
    Load,
    Save(TokenRecord),
    Clear,
}

/// What the host asks of the store.
#[derive(Clone, Debug, PartialEq, Eq)]
pub enum Command {
    /// Read the record, if there is one.
    Load,
    /// Replace whatever is stored by this record.
    Save(TokenData),
    /// Remove the record, if there is one.
    Clear,
}

impl View for Command {
    type V = CommandView;

    open spec fn view(&self) -> CommandView {
        match *self {
            Command::Load => CommandView::Load,
            Command::Save(data) => CommandView::Save(data@),
            Command::Clear => CommandView::Clear,
        }
    }
}

/// The mathematical value of a [`Report`].
pub enum ReportView {
    Located(Seq<u8>),
    Done,
    Present(bool),
    Text(Seq<char>),
    Failed(Seq<char>),
}

/// What came of the thing that a step asked for.
#[derive(Debug, PartialEq, Eq)]
pub enum Report {
    /// The host named its data directory: this is its path.
    Located(PathBuf),
    /// It was done, and there is nothing to tell.
    Done,
    /// The token file was looked for: it is there, or it is not.
    Present(bool),
    /// The token file was read: this is all of its content.
    Text(String),
    /// It could not be done, for the reason given.
    Failed(String),
}

impl View for Report {
    type V = ReportView;

    open spec fn view(&self) -> ReportView {
        match *self {
            Report::Located(dir) => ReportView::Located(path_bytes(dir)),
            Report::Done => ReportView::Done,
            Report::Present(present) => ReportView::Present(present),
            Report::Text(text) => ReportView::Text(text@),
            Report::Failed(message) => ReportView::Failed(message@),
        }
    }
}

/// The mathematical value of an [`Outcome`].
pub enum OutcomeView {
    Loaded(Option<TokenRecord>),
    Saved,
    Cleared,
    Failed(Failure),
}

/// How an operation ended.
#[derive(Clone, Debug, PartialEq, Eq)]
pub enum Outcome {
    /// A load found this record, or found no token file.
    Loaded(Option<TokenData>),
    /// A save wrote the record.
    Saved,
    /// A clear left no token file behind.
    Cleared,
    /// The operation failed.
    Failed(StoreError),
}

impl View for Outcome {
    type V = OutcomeView;

    open spec fn view(&self) -> OutcomeView {
        match *self {
            Outcome::Loaded(None) => OutcomeView::Loaded(None),
            Outcome::Loaded(Some(data)) => OutcomeView::Loaded(Some(data@)),
            Outcome::Saved => OutcomeView::Saved,
            Outcome::Cleared => OutcomeView::Cleared,
            Outcome::Failed(error) => OutcomeView::Failed(error@),
        }
    }
}

/// The mathematical value of a [`Step`].
pub enum StepView {
    LocateDataDir(CommandView),
    CreateDataDir { command: CommandView, dir: Seq<u8> },
    ProbeToLoad { file: Seq<u8> },
    ProbeToClear { file: Seq<u8> },
    ReadTokenFile { file: Seq<u8> },
    WriteTokenFile { file: Seq<u8>, text: Seq<char> },
    RemoveTokenFile { file: Seq<u8> },
    Finished(OutcomeView),
}

/// Where an operation stands: what the driver is to do now, or how the
/// operation ended.
#[derive(Debug, PartialEq, Eq)]
pub enum Step {
    /// Ask the host for its per-user data directory. Answered by
    /// [`Report::Located`].
    LocateDataDir(Command),
    /// Create the directory `dir` and every missing directory above it; one
    /// that is there already counts as created. Answered by [`Report::Done`].
    CreateDataDir { command: Command, dir: PathBuf },
    /// See whether `file` is there, on behalf of a load. Answered by
    /// [`Report::Present`].
    ProbeToLoad { file: PathBuf },
    /// See whether `file` is there, on behalf of a clear. Answered by
    /// [`Report::Present`].
    ProbeToClear { file: PathBuf },
    /// Read the whole of `file`. Answered by [`Report::Text`].
    ReadTokenFile { file: PathBuf },
    /// Replace the content of `file` by `text`, creating the file if need
    /// be. Answered by [`Report::Done`].
    WriteTokenFile { file: PathBuf, text: String },
    /// Delete `file`. Answered by [`Report::Done`].
    RemoveTokenFile { file: PathBuf },
    /// Nothing is left to do.
    Finished(Outcome),
}

impl View for Step {
    type V = StepView;

    open spec fn view(&self) -> StepView {
        match *self {
            Step::LocateDataDir(command) => StepView::LocateDataDir(command@),
            Step::CreateDataDir { command, dir } => StepView::CreateDataDir {
                command: command@,
                dir: path_bytes(dir),
            },
            Step::ProbeToLoad { file } => StepView::ProbeToLoad { file: path_bytes(file) },
            Step::ProbeToClear { file } => StepView::ProbeToClear { file: path_bytes(file) },
            Step::ReadTokenFile { file } => StepView::ReadTokenFile { file: path_bytes(file) },
            Step::WriteTokenFile { file, text } => StepView::WriteTokenFile {
                file: path_bytes(file),
                text: text@,
            },
            Step::RemoveTokenFile { file } => StepView::RemoveTokenFile { file: path_bytes(file) },
            Step::Finished(outcome) => StepView::Finished(outcome@),
        }
    }
}

/// The message for a report that does not answer the step it was given for.
pub open spec fn unexpected_report() -> Seq<char> {
    "unexpected report"@
}

/// An operation that ended in the failure of the given kind and message.
pub open spec fn failed(kind: ErrorKind, message: Seq<char>) -> StepView {
    StepView::Finished(OutcomeView::Failed(Failure { kind, message }))
}

/// The first step of every operation: the data directory is located anew each
/// time, and nothing is remembered between operations.
pub open spec fn first_step(command: CommandView) -> StepView {
    StepView::LocateDataDir(command)
}

/// The step that follows once the data directory `dir` is known to exist. A
/// load and a clear look for the token file of `dir`. A save encodes its
/// record, and goes on to write the text into that file or ends with the
/// failure to encode.
pub open spec fn step_in_data_dir(command: CommandView, dir: Seq<u8>) -> StepView {
    match command {
        CommandView::Load => StepView::ProbeToLoad { file: token_file(dir) },
        CommandView::Clear => StepView::ProbeToClear { file: token_file(dir) },
        CommandView::Save(record) => match encoded(record) {
            Ok(text) => StepView::WriteTokenFile { file: token_file(dir), text },
            Err(failure) => StepView::Finished(OutcomeView::Failed(failure)),
        },
    }
}

/// The end of a load that read `text` from the token file: the record that
/// the text decodes to, or the failure to decode. Never "no record".
pub open spec fn step_after_read(text: Seq<char>) -> StepView {
    match decoded(text) {
        Ok(record) => StepView::Finished(OutcomeView::Loaded(Some(record))),
        Err(failure) => StepView::Finished(OutcomeView::Failed(failure)),
    }
}

/// The kind of failure that a step ends in when the driver cannot do what it
/// asks: a failure to resolve the path where the data directory could not be
/// located, an I/O failure everywhere else.
pub open spec fn failure_kind(step: StepView) -> ErrorKind {
    if step is LocateDataDir {
        ErrorKind::PathResolution
    } else {
        ErrorKind::Io
    }
}

/// The step that follows `step` on a report that answers it, and `None` for
/// a report that does not.
///
/// Once the data directory is located it is created. In it, a load reads the
/// token file if the file is there, and ends with no record if it is not; a
/// clear removes the file if it is there, and ends at once if it is not; a
/// save writes.
pub open spec fn answered(step: StepView, report: ReportView) -> Option<StepView> {
    match (step, report) {
        (StepView::LocateDataDir(command), ReportView::Located(dir)) => Some(
            StepView::CreateDataDir { command, dir },
        ),
        (StepView::CreateDataDir { command, dir }, ReportView::Done) => Some(
            step_in_data_dir(command, dir),
        ),
        (StepView::ProbeToLoad { file }, ReportView::Present(present)) => Some(
            if present {
                StepView::ReadTokenFile { file }
            } else {
                StepView::Finished(OutcomeView::Loaded(None))
            },
        ),
        (StepView::ProbeToClear { file }, ReportView::Present(present)) => Some(
            if present {
                StepView::RemoveTokenFile { file }
            } else {
                StepView::Finished(OutcomeView::Cleared)
            },
        ),
        (StepView::ReadTokenFile { file }, ReportView::Text(text)) => Some(step_after_read(text)),
        (StepView::WriteTokenFile { file, text }, ReportView::Done) => Some(
            StepView::Finished(OutcomeView::Saved),
        ),
        (StepView::RemoveTokenFile { file }, ReportView::Done) => Some(
            StepView::Finished(OutcomeView::Cleared),
        ),
        _ => None,
    }
}

/// The step that follows `step` once the driver has reported on it.
///
/// A finished operation stays as it is. A failure ends the operation at once,
/// with the driver's message and the kind that [`failure_kind`] gives. A
/// report that does not answer the step ends it as an I/O failure.
pub open spec fn next(step: StepView, report: ReportView) -> StepView {
    if step is Finished {
        step
    } else {
        match report {
            ReportView::Failed(message) => failed(failure_kind(step), message),
            _ => match answered(step, report) {
                Some(following) => following,
                None => failed(ErrorKind::Io, unexpected_report()),
            },
        }
    }
}

/// Ends an operation with a failure.
fn fail(kind: ErrorKind, message: String) -> (step: Step)
    ensures
        step@ == failed(kind, message@),
{
    Step::Finished(Outcome::Failed(StoreError::new(kind, message)))
}

/// Ends an operation whose driver failed, or answered something that was not
/// asked.
fn fail_on(kind: ErrorKind, report: Report) -> (step: Step)
    ensures
        step@ == match report@ {
            ReportView::Failed(message) => failed(kind, message),
            _ => failed(ErrorKind::Io, unexpected_report()),
        },
{
    match report {
        Report::Failed(message) => fail(kind, message),
        _ => fail(ErrorKind::Io, String::from_str("unexpected report")),
    }
}

/// Starts a load: the record is read from the token file, if there is one.
pub fn load_tokens() -> (step: Step)
    ensures
        step@ == first_step(CommandView::Load),
{
    Step::LocateDataDir(Command::Load)
}

/// Starts a save: the three texts are stored as one record, unchanged and
/// unchecked, in place of whatever was stored before.
pub fn save_tokens(access_token: String, refresh_token: String, expires_at: String) -> (step: Step)
    ensures
        step@ == first_step(
            CommandView::Save(
                TokenRecord {
                    access_token: access_token@,
                    refresh_token: refresh_token@,
                    expires_at: expires_at@,
                },
            ),
        ),
{
    Step::LocateDataDir(Command::Save(TokenData::new(access_token, refresh_token, expires_at)))
}

/// Starts a clear: the token file is removed, if there is one.
pub fn clear_tokens() -> (step: Step)
    ensures
        step@ == first_step(CommandView::Clear),
{
    Step::LocateDataDir(Command::Clear)
}

/// Goes on with an operation whose data directory is known to exist.
fn enter_data_dir(command: Command, dir: PathBuf) -> (step: Step)
    ensures
        step@ == step_in_data_dir(command@, path_bytes(dir)),
{
    let file = token_file_in(&dir);
    match command {
        Command::Load => Step::ProbeToLoad { file },
        Command::Clear => Step::ProbeToClear { file },
        Command::Save(data) => match encode(&data) {
            Ok(text) => Step::WriteTokenFile { file, text },
            Err(error) => Step::Finished(Outcome::Failed(error)),
        },
    }
}

/// Ends a load with what the content of the token file decodes to.
fn finish_load(text: String) -> (step: Step)
    ensures
        step@ == step_after_read(text@),
{
    match decode(text.as_str()) {
        Ok(data) => Step::Finished(Outcome::Loaded(Some(data))),
        Err(error) => Step::Finished(Outcome::Failed(error)),
    }
}

impl Step {
    /// Takes the driver's report on this step and gives the step that
    /// follows.
    pub fn advance(self, report: Report) -> (step: Step)
        ensures
            step@ == next(self@, report@),
    {
        match self {
            Step::LocateDataDir(command) => match report {
                Report::Located(dir) => Step::CreateDataDir { command, dir },
                other => fail_on(ErrorKind::PathResolution, other),
            },
            Step::CreateDataDir { command, dir } => match report {
                Report::Done => enter_data_dir(command, dir),
                other => fail_on(ErrorKind::Io, other),
            },
            Step::ProbeToLoad { file } => match report {
                Report::Present(true) => Step::ReadTokenFile { file },
                Report::Present(false) => Step::Finished(Outcome::Loaded(None)),
                other => fail_on(ErrorKind::Io, other),
            },
            Step::ProbeToClear { file } => match report {
                Report::Present(true) => Step::RemoveTokenFile { file },
                Report::Present(false) => Step::Finished(Outcome::Cleared),
                other => fail_on(ErrorKind::Io, other),
            },
            Step::ReadTokenFile { file: _ } => match report {
                Report::Text(text) => finish_load(text),
                other => fail_on(ErrorKind::Io, other),
            },
            Step::WriteTokenFile { file: _, text: _ } => match report {
                Report::Done => Step::Finished(Outcome::Saved),
                other => fail_on(ErrorKind::Io, other),
            },
            Step::RemoveTokenFile { file: _ } => match report {
                Report::Done => Step::Finished(Outcome::Cleared),
                other => fail_on(ErrorKind::Io, other),
            },
            Step::Finished(outcome) => Step::Finished(outcome),
        }
    }
}

} // verus!
