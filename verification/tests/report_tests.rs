use rename_tool::host::{Report, STATUS_DONE, STATUS_FAILED};

fn word(s: &str) -> String {
    s.to_string()
}

#[test]
fn exit_statuses() {
    assert_eq!(STATUS_DONE, 0);
    assert_eq!(STATUS_FAILED, 1);
}

#[test]
fn usage_has_both_lines() {
    assert_eq!(
        Report::Usage.message(),
        "Usage: rename_tool export <directory_path> [output_csv]\nUsage: rename_tool import <directory_path> <input_csv>"
    );
}

#[test]
fn fatal_messages() {
    assert_eq!(
        Report::NoCurrentDir { detail: word("gone") }.message(),
        "Failed to get current directory: gone"
    );
    assert_eq!(
        Report::NotADirectory { path: word("/d") }.message(),
        "Not a valid directory: /d"
    );
    assert_eq!(
        Report::ListFailed { path: word("/d"), detail: word("denied") }.message(),
        "Failed to read directory /d: denied"
    );
    assert_eq!(
        Report::CreateFailed { path: word("o.csv"), detail: word("denied") }.message(),
        "Failed to create CSV o.csv: denied"
    );
    assert_eq!(
        Report::WriteFailed { path: word("o.csv"), detail: word("full") }.message(),
        "Failed to write CSV o.csv: full"
    );
    assert_eq!(
        Report::NotAFile { path: word("/t.csv") }.message(),
        "Not a valid CSV file: /t.csv"
    );
    assert_eq!(
        Report::CsvUnreadable { path: word("/t.csv"), detail: word("denied") }.message(),
        "Failed to read CSV /t.csv: denied"
    );
    assert_eq!(
        Report::HeaderUnreadable { path: word("/t.csv"), detail: word("bad") }.message(),
        "Failed to read CSV headers /t.csv: bad"
    );
    assert_eq!(
        Report::InvalidHeaders { path: word("/t.csv") }.message(),
        "Invalid CSV headers in /t.csv. Expected: old_name,new_name"
    );
}

#[test]
fn row_messages_count_lines_from_two() {
    assert_eq!(
        Report::RowUnreadable { row: 0, detail: word("bad") }.message(),
        "Failed to read CSV row 2: bad"
    );
    assert_eq!(
        Report::RowEmpty { row: 0 }.message(),
        "skipping row 2: empty old_name or new_name"
    );
    assert_eq!(
        Report::RowEmpty { row: 8 }.message(),
        "skipping row 10: empty old_name or new_name"
    );
    assert_eq!(
        Report::SourceMissing { row: 1, path: word("/d/a") }.message(),
        "Skipping row 3: source folder does not exist: /d/a"
    );
    assert_eq!(
        Report::TargetExists { row: 98, path: word("/d/b") }.message(),
        "Skipping row 100: target already exists: /d/b"
    );
    assert_eq!(
        Report::RenameFailed {
            row: 2,
            old_name: word("a"),
            new_name: word("b"),
            detail: word("busy"),
        }
        .message(),
        "Failed to rename row 4 (a -> b): busy"
    );
}

#[test]
fn row_message_for_the_last_possible_row() {
    let expected = format!(
        "skipping row {}: empty old_name or new_name",
        usize::MAX as u128 + 2
    );
    assert_eq!(Report::RowEmpty { row: usize::MAX }.message(), expected);
}

#[test]
fn success_messages() {
    assert_eq!(
        Report::Renamed { old_name: word("a"), new_name: word("b") }.message(),
        "Renamed: a -> b"
    );
    assert_eq!(Report::Wrote { path: word("folders.csv") }.message(), "Wrote CSV: folders.csv");
}

#[test]
fn only_success_goes_to_standard_output() {
    assert!(!Report::Renamed { old_name: word("a"), new_name: word("b") }.is_failure());
    assert!(!Report::Wrote { path: word("o.csv") }.is_failure());
    assert!(Report::Usage.is_failure());
    assert!(Report::RowEmpty { row: 0 }.is_failure());
    assert!(Report::NotADirectory { path: word("/d") }.is_failure());
    assert!(Report::TargetExists { row: 0, path: word("/d/b") }.is_failure());
}

#[test]
fn duplicate_is_equal() {
    let report = Report::RenameFailed {
        row: 3,
        old_name: word("a"),
        new_name: word("b"),
        detail: word("busy"),
    };
    assert_eq!(report.duplicate(), report);
    assert_eq!(Report::Usage.duplicate(), Report::Usage);
}
