use wal_restore::restore::{
    check_command, check_size, fatal_message, plan_restore, target_path,
    CommandOutcome, FailureKind, RestoreError, StatOutcome,
};
use wal_restore::text::{digit, push_decimal};

fn host_target(path: &str) -> String {
    if std::path::MAIN_SEPARATOR == '\\' {
        path.replace('/', "\\")
    } else {
        path.to_string()
    }
}

#[test]
fn target_is_below_the_log_directory() {
    assert_eq!(
        target_path("archive", "000000010000000000000001"),
        "pg_wal/archive/000000010000000000000001"
    );
    assert_eq!(target_path("", ""), "pg_wal//");
}

#[test]
fn plans_command_and_target() {
    let plan = plan_restore("sub", "SEG", "fetch %f to \"%p\" 100%%").unwrap();
    assert_eq!(plan.target, "pg_wal/sub/SEG");
    assert_eq!(
        plan.command,
        format!("fetch SEG to \"{}\" 100%", host_target("pg_wal/sub/SEG"))
    );
}

#[test]
fn restart_point_template_is_never_planned() {
    assert_eq!(
        plan_restore("sub", "SEG", "cleanup %r").err(),
        Some(RestoreError::UnsatisfiableTemplate)
    );
    assert_eq!(
        plan_restore("", "", "cp %p x; cleanup %r").err(),
        Some(RestoreError::UnsatisfiableTemplate)
    );
}

#[test]
fn empty_name_is_planned_only_when_not_referenced() {
    assert_eq!(
        plan_restore("sub", "", "fetch %f").err(),
        Some(RestoreError::UnsatisfiableTemplate)
    );
    let plan = plan_restore("sub", "", "fetch %p").unwrap();
    assert_eq!(plan.target, "pg_wal/sub/");
    assert_eq!(plan.command, format!("fetch {}", host_target("pg_wal/sub/")));
}

#[test]
fn only_exit_code_zero_passes() {
    assert_eq!(check_command(CommandOutcome::Exited(0)), Ok(()));
    assert_eq!(
        check_command(CommandOutcome::Exited(1)),
        Err(RestoreError::CommandFailed)
    );
    assert_eq!(
        check_command(CommandOutcome::Exited(-1)),
        Err(RestoreError::CommandFailed)
    );
    assert_eq!(
        check_command(CommandOutcome::Signaled),
        Err(RestoreError::CommandSignaled)
    );
    assert_eq!(
        check_command(CommandOutcome::NotLaunched),
        Err(RestoreError::LaunchFailed)
    );
}

#[test]
fn only_the_exact_size_passes() {
    assert_eq!(check_size(StatOutcome::Size(100), 100), Ok(()));
    assert_eq!(
        check_size(StatOutcome::Size(99), 100),
        Err(RestoreError::SizeMismatch { actual: 99, expected: 100 })
    );
    assert_eq!(
        check_size(StatOutcome::Size(101), 100),
        Err(RestoreError::SizeMismatch { actual: 101, expected: 100 })
    );
    assert_eq!(check_size(StatOutcome::Size(0), 0), Ok(()));
    assert_eq!(check_size(StatOutcome::Size(u64::MAX), u64::MAX), Ok(()));
}

#[test]
fn truncated_file_is_a_validation_failure() {
    assert_eq!(check_command(CommandOutcome::Exited(0)), Ok(()));
    let verdict = check_size(StatOutcome::Size(50), 64);
    assert_eq!(
        verdict,
        Err(RestoreError::SizeMismatch { actual: 50, expected: 64 })
    );
    assert_eq!(verdict.unwrap_err().kind(), FailureKind::ValidationFailure);
}

#[test]
fn unreadable_size_fails() {
    assert_eq!(
        check_size(StatOutcome::Failed, 64),
        Err(RestoreError::StatFailed)
    );
}

#[test]
fn failures_fall_into_three_families() {
    assert_eq!(
        RestoreError::UnsatisfiableTemplate.kind(),
        FailureKind::UnsatisfiableTemplate
    );
    assert_eq!(
        RestoreError::CommandFailed.kind(),
        FailureKind::ExternalCommandFailure
    );
    assert_eq!(
        RestoreError::CommandSignaled.kind(),
        FailureKind::ExternalCommandFailure
    );
    assert_eq!(
        RestoreError::LaunchFailed.kind(),
        FailureKind::ExternalCommandFailure
    );
    assert_eq!(RestoreError::StatFailed.kind(), FailureKind::ValidationFailure);
    assert_eq!(
        RestoreError::SizeMismatch { actual: 1, expected: 2 }.kind(),
        FailureKind::ValidationFailure
    );
    assert_eq!(RestoreError::OpenFailed.kind(), FailureKind::ValidationFailure);
}

#[test]
fn writes_numbers_in_decimal() {
    let mut s = String::from("n=");
    push_decimal(&mut s, 0);
    assert_eq!(s, "n=0");
    push_decimal(&mut s, 7);
    assert_eq!(s, "n=07");
    let mut s = String::new();
    push_decimal(&mut s, 16777216);
    assert_eq!(s, "16777216");
    let mut s = String::new();
    push_decimal(&mut s, 1000);
    assert_eq!(s, "1000");
    let mut s = String::new();
    push_decimal(&mut s, u64::MAX);
    assert_eq!(s, "18446744073709551615");
    assert_eq!(digit(0), '0');
    assert_eq!(digit(5), '5');
    assert_eq!(digit(9), '9');
}

#[test]
fn reports_each_failure() {
    let target = "pg_wal/sub/SEG";
    assert_eq!(
        fatal_message(RestoreError::UnsatisfiableTemplate, target, "x"),
        "cannot use restore_command with %r placeholder"
    );
    assert_eq!(
        fatal_message(RestoreError::CommandFailed, target, "x"),
        "could not restore file \"pg_wal/sub/SEG\" from archive"
    );
    assert_eq!(
        fatal_message(RestoreError::CommandSignaled, target, "x"),
        "restore command failed: terminated by signal"
    );
    assert_eq!(
        fatal_message(RestoreError::LaunchFailed, target, "not found"),
        "restore command failed: not found"
    );
    assert_eq!(
        fatal_message(RestoreError::StatFailed, target, "no such file"),
        "could not stat file \"pg_wal/sub/SEG\": no such file"
    );
    assert_eq!(
        fatal_message(
            RestoreError::SizeMismatch { actual: 50, expected: 64 },
            target,
            "x"
        ),
        "unexpected file size for \"pg_wal/sub/SEG\": 50 instead of 64"
    );
    assert_eq!(
        fatal_message(RestoreError::OpenFailed, target, "denied"),
        "could not open file \"pg_wal/sub/SEG\" restored from archive: denied"
    );
}
