use safe_backup::journal::{format_entry, logAction, sanitize, LOG_FILE};

fn is_stamp(stamp: &str) -> bool {
    let b = stamp.as_bytes();
    let n = b.len();
    n >= 19
        && b[n - 15] == b'-'
        && b[n - 12] == b'-'
        && b[n - 9] == b' '
        && b[n - 6] == b':'
        && b[n - 3] == b':'
        && (0..n).all(|i| {
            [n - 15, n - 12, n - 9, n - 6, n - 3].contains(&i)
                || b[i].is_ascii_digit()
                || (i == 0 && (b[i] == b'+' || b[i] == b'-'))
        })
}

#[test]
fn log_file_has_its_fixed_name() {
    assert_eq!(LOG_FILE, "logfile.txt");
}

#[test]
fn sanitize_replaces_line_breaks_by_spaces() {
    assert_eq!(sanitize("a\nb"), "a b");
    assert_eq!(sanitize("a\rb"), "a b");
    assert_eq!(sanitize("a\r\nb"), "a  b");
    assert_eq!(sanitize("\n\n"), "  ");
    assert_eq!(sanitize("x\n"), "x ");
}

#[test]
fn sanitize_keeps_everything_else() {
    assert_eq!(sanitize(""), "");
    assert_eq!(sanitize("Performed backup on notes.txt"), "Performed backup on notes.txt");
    assert_eq!(sanitize("tab\there \u{e9}\u{2028}\u{85}\u{b}\u{c}"), "tab\there \u{e9}\u{2028}\u{85}\u{b}\u{c}");
}

#[test]
fn sanitize_agrees_with_replace() {
    for text in ["", "a", "\n", "\r", "a\nb\rc\r\nd", "[2020-01-01 00:00:00] forged\nline"] {
        assert_eq!(sanitize(text), text.replace("\n", " ").replace("\r", " "));
    }
}

#[test]
fn entry_is_stamp_in_brackets_then_message() {
    assert_eq!(
        format_entry("2024-03-05 14:07:09", "Performed backup on notes.txt"),
        "[2024-03-05 14:07:09] Performed backup on notes.txt"
    );
    assert_eq!(format_entry("T", ""), "[T] ");
    assert_eq!(format_entry("", "m"), "[] m");
}

#[test]
fn entry_has_no_line_break_of_the_message() {
    assert_eq!(
        format_entry("2024-03-05 14:07:09", "one\n[2024-03-05 14:07:10] two\r\n"),
        "[2024-03-05 14:07:09] one [2024-03-05 14:07:10] two  "
    );
}

#[test]
fn log_action_stamps_the_message() {
    let line = logAction("Performed backup on notes.txt");
    assert!(line.starts_with('['));
    let close = line.find("] ").unwrap();
    let stamp = &line[1..close];
    assert!(is_stamp(stamp), "{:?}", stamp);
    assert_eq!(&line[close + 2..], "Performed backup on notes.txt");
    assert_eq!(line, format_entry(stamp, "Performed backup on notes.txt"));
}

#[test]
fn log_action_writes_one_line() {
    let line = logAction("first\nsecond\rthird");
    assert!(!line.contains('\n'));
    assert!(!line.contains('\r'));
    assert!(line.ends_with("] first second third"));
}

#[test]
fn stamp_has_nineteen_characters_in_this_millennium() {
    let line = logAction("");
    assert_eq!(line.len(), 22);
    assert!(is_stamp(&line[1..20]));
    assert!(line.starts_with("[2"));
}

#[test]
fn stamp_shape_is_told_apart() {
    assert!(is_stamp("2024-03-05 14:07:09"));
    assert!(is_stamp("+12024-03-05 14:07:09"));
    assert!(!is_stamp("2024-03-05T14:07:09"));
    assert!(!is_stamp("24-03-05 14:07:09"));
    assert!(!is_stamp("Performed backup on"));
}
