//! What the operations mean on a disk that never fails, and the laws that
//! follow.

use crate::codec::{decoded, encoded};
use crate::error::ErrorKind;
use crate::location::token_file;
use crate::record::TokenRecord;
use crate::store::{
    failed, failure_kind, first_step, next, CommandView, OutcomeView, ReportView, StepView,
};
use vstd::prelude::*;

verus! {

/// What the data directory holds.
pub enum Content {
    /// The data directory does not exist.
    Bare,
    /// The data directory exists and holds no token file.
    Empty,
    /// The data directory exists, and the token file has this text.
    Holding(Seq<char>),
}

/// The part of the disk that the store can see: the path of the data
/// directory that the host names, and what is in that directory.
pub struct Disk {
    pub data_dir: Seq<u8>,
    pub content: Content,
}

/// The message of a disk that is asked for what it cannot do.
pub open spec fn refusal() -> Seq<char> {
    "no such file or directory"@
}

/// The disk once its data directory has been created: what was there stays.
pub open spec fn with_data_dir(disk: Disk) -> Disk {
    match disk.content {
        Content::Bare => Disk { content: Content::Empty, ..disk },
        _ => disk,
    }
}

/// Whether `file` is the token file of the disk and is there.
pub open spec fn holds(disk: Disk, file: Seq<u8>) -> bool {
    file == token_file(disk.data_dir) && disk.content is Holding
}

/// What a faithful driver reports on a step, and the disk it leaves behind.
/// The disk fails only where it must: reading or removing a file that is not
/// there, writing into a directory that is not there.
pub open spec fn perform(step: StepView, disk: Disk) -> (ReportView, Disk) {
    match step {
        StepView::LocateDataDir(_) => (ReportView::Located(disk.data_dir), disk),
        StepView::CreateDataDir { command, dir } => (
            ReportView::Done,
            if dir == disk.data_dir {
                with_data_dir(disk)
            } else {
                disk
            },
        ),
        StepView::ProbeToLoad { file } => (ReportView::Present(holds(disk, file)), disk),
        StepView::ProbeToClear { file } => (ReportView::Present(holds(disk, file)), disk),
        StepView::ReadTokenFile { file } => match disk.content {
            Content::Holding(text) if file == token_file(disk.data_dir) => (
                ReportView::Text(text),
                disk,
            ),
            _ => (ReportView::Failed(refusal()), disk),
        },
        StepView::WriteTokenFile { file, text } => if file == token_file(disk.data_dir)
            && !(disk.content is Bare) {
            (ReportView::Done, Disk { content: Content::Holding(text), ..disk })
        } else {
            (ReportView::Failed(refusal()), disk)
        },
        StepView::RemoveTokenFile { file } => if holds(disk, file) {
            (ReportView::Done, Disk { content: Content::Empty, ..disk })
        } else {
            (ReportView::Failed(refusal()), disk)
        },
        StepView::Finished(_) => (ReportView::Done, disk),
    }
}

/// The step and the disk reached from `step` and `disk` when a faithful
/// driver performs at most `turns` steps.
pub open spec fn drive(step: StepView, disk: Disk, turns: nat) -> (StepView, Disk)
    decreases turns,
{
    if turns == 0 || step is Finished {
        (step, disk)
    } else {
        let (report, disk_after) = perform(step, disk);
        drive(next(step, report), disk_after, (turns - 1) as nat)
    }
}

/// The last step and the disk when a faithful driver carries out `command`.
/// No operation takes more than four steps.
pub open spec fn run(command: CommandView, disk: Disk) -> (StepView, Disk) {
    drive(first_step(command), disk, 4)
}

/// How `command` ends on `disk`.
///
/// A load gives the record that the token file decodes to, the failure to
/// decode it, or no record where there is no file. A save succeeds if the
/// record can be encoded. A clear always succeeds.
pub open spec fn outcome_on(command: CommandView, disk: Disk) -> OutcomeView {
    match command {
        CommandView::Load => match disk.content {
            Content::Holding(text) => match decoded(text) {
                Ok(record) => OutcomeView::Loaded(Some(record)),
                Err(failure) => OutcomeView::Failed(failure),
            },
            _ => OutcomeView::Loaded(None),
        },
        CommandView::Save(record) => match encoded(record) {
            Ok(_) => OutcomeView::Saved,
            Err(failure) => OutcomeView::Failed(failure),
        },
        CommandView::Clear => OutcomeView::Cleared,
    }
}

/// The disk that `command` leaves behind.
///
/// The data directory exists afterwards in every case. A load changes nothing
/// else. A save that succeeds leaves the text of its record and nothing of
/// what the file held before. A clear leaves no file.
pub open spec fn disk_after(command: CommandView, disk: Disk) -> Disk {
    match command {
        CommandView::Load => with_data_dir(disk),
        CommandView::Save(record) => match encoded(record) {
            Ok(text) => Disk { content: Content::Holding(text), ..disk },
            Err(_) => with_data_dir(disk),
        },
        CommandView::Clear => Disk { content: Content::Empty, ..disk },
    }
}

/// Every operation runs to its end, and ends as [`outcome_on`] and
/// [`disk_after`] say.
pub proof fn run_ends(command: CommandView, disk: Disk)
    ensures
        run(command, disk) == (
            StepView::Finished(outcome_on(command, disk)),
            disk_after(command, disk),
        ),
{
    reveal_with_fuel(drive, 5);
}

/// After a save that succeeded, a load gives back the record that was saved:
/// all three fields, character for character.
pub proof fn save_then_load(record: TokenRecord, disk: Disk)
    ensures
        run(CommandView::Save(record), disk).0 == StepView::Finished(OutcomeView::Saved) ==> run(
            CommandView::Load,
            run(CommandView::Save(record), disk).1,
        ).0 == StepView::Finished(OutcomeView::Loaded(Some(record))),
{
    run_ends(CommandView::Save(record), disk);
    run_ends(CommandView::Load, disk_after(CommandView::Save(record), disk));
}

/// A clear succeeds and leaves no token file, whether or not there was one.
/// So on a disk without a token file it succeeds and changes nothing but the
/// data directory, and a second clear right after the first succeeds too.
pub proof fn clear_is_idempotent(disk: Disk)
    ensures
        run(CommandView::Clear, disk) == (
            StepView::Finished(OutcomeView::Cleared),
            Disk { content: Content::Empty, ..disk },
        ),
        run(CommandView::Clear, run(CommandView::Clear, disk).1) == run(CommandView::Clear, disk),
{
    run_ends(CommandView::Clear, disk);
    run_ends(CommandView::Clear, Disk { content: Content::Empty, ..disk });
}

/// A save replaces the stored record as a whole. After two saves that
/// succeeded the disk is the one that the second save alone would have left,
/// and a load gives the second record.
pub proof fn save_overwrites(first: TokenRecord, second: TokenRecord, disk: Disk)
    ensures
        ({
            let between = run(CommandView::Save(first), disk).1;
            let last = run(CommandView::Save(second), between);
            last.0 == StepView::Finished(OutcomeView::Saved) ==> {
                &&& last.1 == run(CommandView::Save(second), disk).1
                &&& run(CommandView::Load, last.1).0 == StepView::Finished(
                    OutcomeView::Loaded(Some(second)),
                )
            }
        }),
{
    let between = run(CommandView::Save(first), disk).1;
    run_ends(CommandView::Save(first), disk);
    run_ends(CommandView::Save(second), between);
    run_ends(CommandView::Save(second), disk);
    run_ends(CommandView::Load, disk_after(CommandView::Save(second), between));
}

/// A missing token file is no record; a token file that does not hold a
/// record is a failure to decode. The two are never confused: with a file on
/// the disk a load never reports "no record".
pub proof fn absence_is_not_corruption(disk: Disk)
    ensures
        !(disk.content is Holding) ==> run(CommandView::Load, disk).0 == StepView::Finished(
            OutcomeView::Loaded(None),
        ),
        disk.content matches Content::Holding(text) ==> match decoded(text) {
            Ok(record) => run(CommandView::Load, disk).0 == StepView::Finished(
                OutcomeView::Loaded(Some(record)),
            ),
            Err(failure) => failure.kind == ErrorKind::Decode && run(CommandView::Load, disk).0
                == StepView::Finished(OutcomeView::Failed(failure)),
        },
{
    run_ends(CommandView::Load, disk);
}

/// Every operation leaves the data directory in place, also where there was
/// none before. A load leaves a disk that had the directory as it was.
pub proof fn data_dir_is_created(command: CommandView, disk: Disk)
    ensures
        !(run(command, disk).1.content is Bare),
        run(CommandView::Load, disk).1 == with_data_dir(disk),
{
    run_ends(command, disk);
    run_ends(CommandView::Load, disk);
}

/// No step touches the token file before the data directory was located and
/// created: an operation starts by locating it, goes on to create the
/// directory that the host named, and ends at once if either fails. The file
/// that the later steps name is the token file of that directory.
pub proof fn data_dir_comes_first(command: CommandView, dir: Seq<u8>, report: ReportView)
    ensures
        first_step(command) == StepView::LocateDataDir(command),
        next(StepView::LocateDataDir(command), ReportView::Located(dir))
            == (StepView::CreateDataDir { command, dir }),
        !(report is Located) ==> next(StepView::LocateDataDir(command), report) is Finished,
        report != ReportView::Done ==> next(
            StepView::CreateDataDir { command, dir },
            report,
        ) is Finished,
        match next(StepView::CreateDataDir { command, dir }, ReportView::Done) {
            StepView::ProbeToLoad { file } => file == token_file(dir),
            StepView::ProbeToClear { file } => file == token_file(dir),
            StepView::WriteTokenFile { file, text } => file == token_file(dir),
            other => other is Finished,
        },
{
}

/// No failure is swallowed. Whatever step an operation is at, a failure that
/// the driver reports ends it at once, with the driver's own message: as a
/// failure to resolve the path where the data directory could not be located,
/// as an I/O failure everywhere else.
pub proof fn failure_is_reported(step: StepView, message: Seq<char>)
    ensures
        !(step is Finished) ==> next(step, ReportView::Failed(message)) == failed(
            failure_kind(step),
            message,
        ),
        failure_kind(step) == ErrorKind::PathResolution <==> step is LocateDataDir,
        failure_kind(step) == ErrorKind::Io <==> !(step is LocateDataDir),
{
}

} // verus!
