use ch::changes::{Change, record_outcomes};
use ch::file::File;
use ch::libc_error::LibCError;
use ch::mode::ModeChange;
use ch::options::{Group, Options, User};
use ch::report::{format_mode, Report};
use ch::target::Target;

fn alice_staff_file(mode: u32) -> File {
    File::new(
        "notes.txt".to_string(),
        "/home/alice/notes.txt".to_string(),
        User { uid: 1000, name: "alice".to_string() },
        Group { gid: 50, name: "staff".to_string() },
        mode,
    )
}

fn bob_request(verbose: u8) -> Options {
    Options::new(
        Some(User { uid: 1001, name: "bob".to_string() }),
        None,
        None,
        false,
        verbose,
    )
}

#[test]
fn test_format_mode() {
    assert_eq!("0000000", format_mode(0));
    assert_eq!("0000644", format_mode(0o644));
    assert_eq!("0100644", format_mode(0o100644));
    assert_eq!("37777777777", format_mode(u32::MAX));
}

#[test]
fn test_describe_owner_change() {
    // report shows "owner alice -> bob"
    let file = alice_staff_file(0o644);
    let options = bob_request(0);
    let changes = file.changes(&options);
    assert_eq!(1, changes.len());
    let applied = changes[0].apply(None);
    let report = Report::new("ch".to_string(), &options);
    assert_eq!("owner alice -> bob", report.describe_change(&file, &applied));
}

#[test]
fn test_describe_owner_and_group_change() {
    let file = alice_staff_file(0o644);
    let options = Options::new(
        Some(User { uid: 1001, name: "bob".to_string() }),
        Some(Group { gid: 90, name: "wheel".to_string() }),
        None,
        false,
        2,
    );
    let changes = file.changes(&options);
    let applied = changes[0].apply(None);
    let report = Report::new("ch".to_string(), &options);
    assert_eq!(
        "owner alice -> bob, group staff -> wheel",
        report.describe_change(&file, &applied)
    );
}

#[test]
fn test_describe_mode_change() {
    let file = alice_staff_file(0o100644);
    let options = Options::new(None, None, ModeChange::new("0754"), false, 2);
    let changes = file.changes(&options);
    assert_eq!(1, changes.len());
    let applied = changes[0].apply(None);
    let report = Report::new("ch".to_string(), &options);
    assert_eq!("mode 0100644 -> 0100754", report.describe_change(&file, &applied));
}

#[test]
fn test_changes_applied_verbosity_tiers() {
    let file = alice_staff_file(0o644);
    for verbose in 0..4 {
        let options = bob_request(verbose);
        let changes = file.changes(&options);
        let applied = record_outcomes(changes, &vec![None]);
        let report = Report::new("ch".to_string(), &options);
        let (out_lines, err_lines) = report.changes_applied(&file, &applied);
        assert!(err_lines.is_empty());
        match verbose {
            0 => assert!(out_lines.is_empty()),
            1 => assert_eq!(vec!["notes.txt".to_string()], out_lines),
            2 => assert_eq!(vec!["notes.txt: owner alice -> bob".to_string()], out_lines),
            _ => assert_eq!(
                vec!["/home/alice/notes.txt: owner alice -> bob".to_string()],
                out_lines
            ),
        }
    }
}

#[test]
fn test_changes_applied_joins_descriptions() {
    let file = alice_staff_file(0o100644);
    let options = Options::new(
        Some(User { uid: 1001, name: "bob".to_string() }),
        None,
        ModeChange::new("0754"),
        false,
        2,
    );
    let changes = file.changes(&options);
    let applied = record_outcomes(changes, &vec![None, None]);
    let report = Report::new("ch".to_string(), &options);
    let (out_lines, err_lines) = report.changes_applied(&file, &applied);
    assert!(err_lines.is_empty());
    assert_eq!(
        vec!["notes.txt: owner alice -> bob, mode 0100644 -> 0100754".to_string()],
        out_lines
    );
}

#[test]
fn test_changes_applied_reports_failure_beside_success() {
    let file = alice_staff_file(0o100644);
    let options = Options::new(
        Some(User { uid: 1001, name: "bob".to_string() }),
        None,
        ModeChange::new("0754"),
        false,
        1,
    );
    let changes = file.changes(&options);
    let applied = record_outcomes(changes, &vec![Some(LibCError::from_errno(1)), None]);
    let report = Report::new("ch".to_string(), &options);
    let (out_lines, err_lines) = report.changes_applied(&file, &applied);
    // the mode change still succeeded and is still reported
    assert_eq!(vec!["notes.txt".to_string()], out_lines);
    assert_eq!(
        vec!["ch: notes.txt: (owner alice -> bob): ERROR".to_string()],
        err_lines
    );
}

#[test]
fn test_changes_applied_all_failed_prints_nothing_to_stdout() {
    let file = alice_staff_file(0o644);
    let options = bob_request(2);
    let changes = file.changes(&options);
    let applied = record_outcomes(changes, &vec![Some(LibCError::from_errno(30))]);
    let report = Report::new("ch".to_string(), &options);
    let (out_lines, err_lines) = report.changes_applied(&file, &applied);
    assert!(out_lines.is_empty());
    assert_eq!(1, err_lines.len());
}

#[test]
fn test_no_changes_lines() {
    let file = alice_staff_file(0o644);
    let silent = Report::new("ch".to_string(), &bob_request(0));
    assert!(silent.no_changes(&file).is_empty());
    let terse = Report::new("ch".to_string(), &bob_request(1));
    assert_eq!(vec!["notes.txt".to_string()], terse.no_changes(&file));
    let chatty = Report::new("ch".to_string(), &bob_request(2));
    assert_eq!(vec!["notes.txt: no changes".to_string()], chatty.no_changes(&file));
}

#[test]
fn test_missing_target_line() {
    let options = bob_request(0);
    let report = Report::new("ch".to_string(), &options);
    assert_eq!(
        "ch: gone.txt: No such file or directory",
        report.missing_target("gone.txt")
    );
}

#[test]
fn test_missing_target_from_capture_none() {
    // a path that could not be captured yields the missing-target outcome
    let target = Target::new("gone.txt".to_string(), None);
    assert!(target.file.is_none());
    assert_eq!("gone.txt", target.short_name());
    assert_eq!("gone.txt", target.long_name());
    let options = bob_request(0);
    let report = Report::new("ch".to_string(), &options);
    let line = report.missing_target(target.short_name());
    assert_eq!("ch: gone.txt: No such file or directory", line);
}

#[test]
fn test_target_names() {
    let file = alice_staff_file(0o644);
    let target = Target::new("notes.txt".to_string(), Some(file));
    assert_eq!("notes.txt", target.short_name());
    assert_eq!("/home/alice/notes.txt", target.long_name());
}
