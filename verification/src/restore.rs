//! The rules of the archive restorer.
//!
//! One restore attempt runs in a fixed order: plan the command, run it, look
//! at the size of the file it left, open the file. Running, measuring and
//! opening are the caller's part; what each report means is decided here. Every
//! failure ends the attempt: nothing is retried.

use vstd::prelude::*;
use vstd::string::StringExecFns;
use crate::path::native_path;
use crate::template::{build_restore_command, expand, references};
use crate::text::{decimal, push_decimal};

verus! {

/// Why a restore attempt ended without a file.
#[derive(Clone, Copy, Debug, PartialEq, Eq, Structural)]
pub enum RestoreError {
    /// The template references a value that this attempt does not have.
    UnsatisfiableTemplate,
    /// The command ran and ended with an exit code other than zero.
    CommandFailed,
    /// The command was ended by a signal, so it left no exit code.
    CommandSignaled,
    /// The command could not be started.
    LaunchFailed,
    /// The size of the restored file could not be read.
    StatFailed,
    /// The restored file does not have the size that was asked for.
    SizeMismatch { actual: u64, expected: u64 },
    /// The restored file could not be opened.
    OpenFailed,
}

/// The three families of failure.
#[derive(Clone, Copy, Debug, PartialEq, Eq, Structural)]
pub enum FailureKind {
    UnsatisfiableTemplate,
    ExternalCommandFailure,
    ValidationFailure,
}

/// How the restore command ended.
#[derive(Clone, Copy, Debug, PartialEq, Eq, Structural)]
pub enum CommandOutcome {
    /// It ran to its end and left this exit code.
    Exited(i32),
    /// It was ended by a signal.
    Signaled,
    /// It never started.
    NotLaunched,
}

/// What looking at the restored file gave.
#[derive(Clone, Copy, Debug, PartialEq, Eq, Structural)]
pub enum StatOutcome {
    /// The file is there and has this many bytes.
    Size(u64),
    /// The file could not be examined.
    Failed,
}

/// What one attempt works with: the file to fill and the command that fills it.
pub struct RestorePlan {
    /// Where the restored file is expected.
    pub target: String,
    /// The command to hand to the host, as one string.
    pub command: String,
}

/// The directory, below the data directory, that holds the log.
pub open spec fn wal_root() -> Seq<char> {
    seq!['p', 'g', '_', 'w', 'a', 'l']
}

/// The place of a restored file: the log directory, the subdirectory and the
/// file's name, joined by slashes.
pub open spec fn target_path_of(subdir: Seq<char>, fname: Seq<char>) -> Seq<char> {
    wal_root() + seq!['/'] + subdir + seq!['/'] + fname
}

/// The family that a failure belongs to.
pub open spec fn kind_of(e: RestoreError) -> FailureKind {
    match e {
        RestoreError::UnsatisfiableTemplate => FailureKind::UnsatisfiableTemplate,
        RestoreError::CommandFailed => FailureKind::ExternalCommandFailure,
        RestoreError::CommandSignaled => FailureKind::ExternalCommandFailure,
        RestoreError::LaunchFailed => FailureKind::ExternalCommandFailure,
        RestoreError::StatFailed => FailureKind::ValidationFailure,
        RestoreError::SizeMismatch { .. } => FailureKind::ValidationFailure,
        RestoreError::OpenFailed => FailureKind::ValidationFailure,
    }
}

/// What the end of the command means for the attempt.
pub open spec fn command_verdict(outcome: CommandOutcome) -> Result<(), RestoreError> {
    match outcome {
        CommandOutcome::Exited(code) => if code == 0 {
            Ok(())
        } else {
            Err(RestoreError::CommandFailed)
        },
        CommandOutcome::Signaled => Err(RestoreError::CommandSignaled),
        CommandOutcome::NotLaunched => Err(RestoreError::LaunchFailed),
    }
}

/// What the examined file means for the attempt: only the exact size passes.
pub open spec fn size_verdict(stat: StatOutcome, expected: u64) -> Result<(), RestoreError> {
    match stat {
        StatOutcome::Size(actual) => if actual == expected {
            Ok(())
        } else {
            Err((RestoreError::SizeMismatch { actual, expected }))
        },
        StatOutcome::Failed => Err(RestoreError::StatFailed),
    }
}

impl RestoreError {
    /// The family that this failure belongs to.
    pub fn kind(&self) -> (k: FailureKind)
        ensures
            k == kind_of(*self),
    {
        match self {
            RestoreError::UnsatisfiableTemplate => FailureKind::UnsatisfiableTemplate,
            RestoreError::CommandFailed => FailureKind::ExternalCommandFailure,
            RestoreError::CommandSignaled => FailureKind::ExternalCommandFailure,
            RestoreError::LaunchFailed => FailureKind::ExternalCommandFailure,
            RestoreError::StatFailed => FailureKind::ValidationFailure,
            RestoreError::SizeMismatch { .. } => FailureKind::ValidationFailure,
            RestoreError::OpenFailed => FailureKind::ValidationFailure,
        }
    }
}

/// The line that reports a failure. `target` is the place of the file and
/// `detail` what the host said of a launch, a look at the file or an opening
/// that failed; a failure mentions only what concerns it.
pub open spec fn message_of(e: RestoreError, target: Seq<char>, detail: Seq<char>) -> Seq<char> {
    match e {
        RestoreError::UnsatisfiableTemplate => "cannot use restore_command with %r placeholder"@,
        RestoreError::CommandFailed => "could not restore file \""@ + target
            + "\" from archive"@,
        RestoreError::CommandSignaled => "restore command failed: terminated by signal"@,
        RestoreError::LaunchFailed => "restore command failed: "@ + detail,
        RestoreError::StatFailed => "could not stat file \""@ + target + "\": "@ + detail,
        RestoreError::SizeMismatch { actual, expected } => "unexpected file size for \""@
            + target + "\": "@ + decimal(actual as nat) + " instead of "@ + decimal(
            expected as nat,
        ),
        RestoreError::OpenFailed => "could not open file \""@ + target
            + "\" restored from archive: "@ + detail,
    }
}

/// The line that reports the failure `e` of an attempt on `target`.
pub fn fatal_message(e: RestoreError, target: &str, detail: &str) -> (m: String)
    ensures
        m@ == message_of(e, target@, detail@),
{
    match e {
        RestoreError::UnsatisfiableTemplate => String::from_str(
            "cannot use restore_command with %r placeholder",
        ),
        RestoreError::CommandFailed => {
            let mut m: String = String::from_str("could not restore file \"");
            m.append(target);
            m.append("\" from archive");
            m
        },
        RestoreError::CommandSignaled => String::from_str(
            "restore command failed: terminated by signal",
        ),
        RestoreError::LaunchFailed => {
            let mut m: String = String::from_str("restore command failed: ");
            m.append(detail);
            m
        },
        RestoreError::StatFailed => {
            let mut m: String = String::from_str("could not stat file \"");
            m.append(target);
            m.append("\": ");
            m.append(detail);
            m
        },
        RestoreError::SizeMismatch { actual, expected } => {
            let mut m: String = String::from_str("unexpected file size for \"");
            m.append(target);
            m.append("\": ");
            push_decimal(&mut m, actual);
            m.append(" instead of ");
            push_decimal(&mut m, expected);
            m
        },
        RestoreError::OpenFailed => {
            let mut m: String = String::from_str("could not open file \"");
            m.append(target);
            m.append("\" restored from archive: ");
            m.append(detail);
            m
        },
    }
}

/// The place where the restored file is expected.
pub fn target_path(subdir: &str, xlog_fname: &str) -> (r: String)
    ensures
        r@ == target_path_of(subdir@, xlog_fname@),
{
    proof {
        reveal_strlit("pg_wal");
        reveal_strlit("/");
    }
    let mut r: String = String::from_str("pg_wal");
    assert("/"@ =~= seq!['/']);
    r.append("/");
    r.append(subdir);
    r.append("/");
    r.append(xlog_fname);
    r
}

/// Plans one restore attempt: the target's place and the rendered command.
///
/// The path is bound to the target and the name to the file's name; the name
/// of a restart point is never bound. So a template that references a restart
/// point can never be planned, nor one that references the name when the name
/// is empty; every other template can.
pub fn plan_restore(subdir: &str, xlog_fname: &str, restore_command: &str) -> (r: Result<
    RestorePlan,
    RestoreError,
>)
    ensures
        r is Err <==> references(restore_command@, 'r') || (references(restore_command@, 'f')
            && xlog_fname@.len() == 0),
        r is Err ==> r->Err_0 == RestoreError::UnsatisfiableTemplate,
        r is Ok ==> r->Ok_0.target@ == target_path_of(subdir@, xlog_fname@),
        r is Ok ==> r->Ok_0.command@ == expand(
            restore_command@,
            native_path(target_path_of(subdir@, xlog_fname@), false),
            xlog_fname@,
            Seq::empty(),
        ) || r->Ok_0.command@ == expand(
            restore_command@,
            native_path(target_path_of(subdir@, xlog_fname@), true),
            xlog_fname@,
            Seq::empty(),
        ),
{
    let target: String = target_path(subdir, xlog_fname);
    proof {
        reveal_strlit("");
    }
    assert(""@ =~= Seq::<char>::empty());
    match build_restore_command(restore_command, target.as_str(), xlog_fname, "") {
        Some(command) => Ok(RestorePlan { target, command }),
        None => Err(RestoreError::UnsatisfiableTemplate),
    }
}

/// Decides what the end of the command means: only exit code zero lets the
/// attempt go on.
pub fn check_command(outcome: CommandOutcome) -> (r: Result<(), RestoreError>)
    ensures
        r == command_verdict(outcome),
{
    match outcome {
        CommandOutcome::Exited(code) => {
            if code == 0 {
                Ok(())
            } else {
                Err(RestoreError::CommandFailed)
            }
        },
        CommandOutcome::Signaled => Err(RestoreError::CommandSignaled),
        CommandOutcome::NotLaunched => Err(RestoreError::LaunchFailed),
    }
}

/// Decides what the examined file means: the size must be exactly the
/// expected one, a larger file fails as a smaller one does.
pub fn check_size(stat: StatOutcome, expected_size: u64) -> (r: Result<(), RestoreError>)
    ensures
        r == size_verdict(stat, expected_size),
        r is Ok <==> stat == StatOutcome::Size(expected_size),
{
    match stat {
        StatOutcome::Size(actual) => {
            if actual == expected_size {
                Ok(())
            } else {
                Err(RestoreError::SizeMismatch { actual, expected: expected_size })
            }
        },
        StatOutcome::Failed => Err(RestoreError::StatFailed),
    }
}

} // verus!
