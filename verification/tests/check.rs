use std::io::{BufRead, Cursor};

use noemoji::check::{check_reader, scan_line, CheckError};

fn lines_of(text: &str) -> Vec<std::io::Result<String>> {
    Cursor::new(text.to_owned()).lines().collect()
}

#[test]
fn check_reader_finds_single_violation() {
    let (violations, result) = check_reader(lines_of("text → more"));

    assert!(result.unwrap());
    assert_eq!(violations, vec![(1, 6, '→')]);
}

#[test]
fn check_reader_finds_multiple_violations_same_line() {
    let (violations, result) = check_reader(lines_of("a → b ← c"));

    assert!(result.unwrap());
    assert_eq!(violations, vec![(1, 3, '→'), (1, 7, '←')]);
}

#[test]
fn check_reader_finds_violations_across_lines() {
    let (violations, result) = check_reader(lines_of("line one →\nline two ←\nline three"));

    assert!(result.unwrap());
    assert_eq!(violations, vec![(1, 10, '→'), (2, 10, '←')]);
}

#[test]
fn check_reader_clean_input() {
    let (violations, result) = check_reader(lines_of("clean text with no violations"));

    assert!(!result.unwrap());
    assert!(violations.is_empty());
}

#[test]
fn check_reader_empty_input() {
    let (violations, result) = check_reader(lines_of(""));

    assert!(!result.unwrap());
    assert!(violations.is_empty());
}

#[test]
fn check_reader_all_prohibited_chars() {
    let (violations, result) = check_reader(lines_of("→←↑↓"));

    assert!(result.unwrap());
    assert_eq!(
        violations,
        vec![(1, 1, '→'), (1, 2, '←'), (1, 3, '↑'), (1, 4, '↓')]
    );
}

#[test]
fn check_reader_violation_at_line_start() {
    let (violations, result) = check_reader(lines_of("→ starts with arrow"));

    assert!(result.unwrap());
    assert_eq!(violations, vec![(1, 1, '→')]);
}

#[test]
fn check_reader_violation_at_line_end() {
    let (violations, result) = check_reader(lines_of("ends with arrow →"));

    assert!(result.unwrap());
    assert_eq!(violations, vec![(1, 17, '→')]);
}

#[test]
fn check_reader_reports_what_precedes_a_read_failure() {
    let lines = vec![
        Ok("→ start".to_owned()),
        Ok("middle ←".to_owned()),
        Err(std::io::Error::from(std::io::ErrorKind::InvalidData)),
        Ok("end ↑".to_owned()),
    ];

    let (violations, result) = check_reader(lines);

    assert_eq!(violations, vec![(1, 1, '→'), (2, 8, '←')]);
    match result {
        Err(CheckError::ReadLine { source }) => {
            assert_eq!(source.kind(), std::io::ErrorKind::InvalidData)
        }
        other => panic!("expected a read failure, got {:?}", other),
    }
}

#[test]
fn check_reader_invalid_utf8_is_a_read_failure() {
    let bytes: Vec<u8> = vec![b'o', b'k', b'\n', 0xFF, 0xFE];
    let lines: Vec<std::io::Result<String>> = Cursor::new(bytes).lines().collect();

    let (violations, result) = check_reader(lines);

    assert!(violations.is_empty());
    assert!(matches!(result, Err(CheckError::ReadLine { .. })));
}

#[test]
fn check_reader_counts_columns_in_characters() {
    let (violations, result) = check_reader(lines_of("café 世界 →\n\n↓"));

    assert!(result.unwrap());
    assert_eq!(violations, vec![(1, 9, '→'), (3, 1, '↓')]);
}

#[test]
fn scan_line_uses_the_given_line_number() {
    assert_eq!(scan_line("x ↑ y ↓", 42), vec![(42, 3, '↑'), (42, 7, '↓')]);
    assert!(scan_line("", 1).is_empty());
    assert!(scan_line("-> <- ^ v", 7).is_empty());
}
