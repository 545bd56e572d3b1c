use safe_backup::filename::{backup_name, isValidFilename, staging_name, MAX_FILENAME_LENGTH};

#[test]
fn plain_names_are_valid() {
    assert!(isValidFilename("notes.txt"));
    assert!(isValidFilename("a"));
    assert!(isValidFilename("A-b_c.9"));
    assert!(isValidFilename(".hidden"));
    assert!(isValidFilename("trailing."));
    assert!(isValidFilename("-"));
}

#[test]
fn every_allowed_character_is_accepted() {
    let alphabet = "abcdefghijklmnopqrstuvwxyzABCDEFGHIJKLMNOPQRSTUVWXYZ0123456789_-.";
    for c in alphabet.chars() {
        assert!(isValidFilename(&c.to_string()), "{:?}", c);
        assert!(isValidFilename(&format!("x{}y", c)), "{:?}", c);
    }
    assert!(isValidFilename(&alphabet[..alphabet.len() - 1]));
}

#[test]
fn every_other_ascii_character_is_rejected() {
    let alphabet = "abcdefghijklmnopqrstuvwxyzABCDEFGHIJKLMNOPQRSTUVWXYZ0123456789_-.";
    for b in 0u8..128 {
        let c = b as char;
        if !alphabet.contains(c) {
            assert!(!isValidFilename(&c.to_string()), "{:?}", c);
            assert!(!isValidFilename(&format!("x{}y", c)), "{:?}", c);
        }
    }
}

#[test]
fn characters_beyond_ascii_are_rejected() {
    assert!(!isValidFilename("caf\u{e9}.txt"));
    assert!(!isValidFilename("\u{65e5}\u{672c}"));
    assert!(!isValidFilename("a\u{2024}\u{2024}b"));
    assert!(!isValidFilename("\u{ff0e}"));
}

#[test]
fn parent_path_is_rejected() {
    assert!(!isValidFilename("../etc/passwd"));
}

#[test]
fn separators_are_rejected() {
    assert!(!isValidFilename("/"));
    assert!(!isValidFilename("a/b"));
    assert!(!isValidFilename("/etc/passwd"));
    assert!(!isValidFilename("dir/"));
    assert!(!isValidFilename("\\"));
    assert!(!isValidFilename("a\\b"));
    assert!(!isValidFilename("C:\\notes.txt"));
}

#[test]
fn two_dots_in_a_row_are_rejected() {
    assert!(!isValidFilename(".."));
    assert!(!isValidFilename("a..b"));
    assert!(!isValidFilename("..a"));
    assert!(!isValidFilename("a.."));
    assert!(!isValidFilename("..."));
    assert!(!isValidFilename("notes..txt"));
}

#[test]
fn separate_dots_are_accepted() {
    assert!(isValidFilename("."));
    assert!(isValidFilename("a.b.c"));
    assert!(isValidFilename(".a."));
    assert!(isValidFilename("archive.tar.gz"));
}

#[test]
fn empty_name_is_rejected() {
    assert!(!isValidFilename(""));
}

#[test]
fn length_limit_is_255() {
    assert_eq!(MAX_FILENAME_LENGTH, 255);
    assert!(isValidFilename(&"a".repeat(254)));
    assert!(isValidFilename(&"a".repeat(255)));
    assert!(!isValidFilename(&"a".repeat(256)));
    assert!(!isValidFilename(&"a".repeat(1000)));
}

#[test]
fn white_space_is_rejected() {
    assert!(!isValidFilename(" "));
    assert!(!isValidFilename("notes txt"));
    assert!(!isValidFilename("notes.txt\n"));
    assert!(!isValidFilename("\tnotes.txt"));
}

#[test]
fn validation_agrees_with_its_definition() {
    let alphabet = "abcdefghijklmnopqrstuvwxyzABCDEFGHIJKLMNOPQRSTUVWXYZ0123456789_-.";
    let samples = [
        "", "a", "..", "a.b", "a..b", "a/b", "a\\b", "x y", "_", "-.-", ".-.", "9", "Z9_",
        "a.b..c", "....", ".a.b.", "notes.txt.bak", "notes.txt.bak.tmp", "\u{e9}", "a\0b",
    ];
    for s in samples {
        let expected = !s.is_empty()
            && s.chars().count() <= 255
            && !s.contains("..")
            && !s.contains('/')
            && !s.contains('\\')
            && s.chars().all(|c| alphabet.contains(c));
        assert_eq!(isValidFilename(s), expected, "{:?}", s);
    }
}

#[test]
fn backup_name_appends_bak() {
    assert_eq!(backup_name("notes.txt"), "notes.txt.bak");
    assert_eq!(backup_name(""), ".bak");
}

#[test]
fn staging_name_appends_tmp() {
    assert_eq!(staging_name("notes.txt"), "notes.txt.tmp");
    assert_eq!(staging_name("notes.txt.bak"), "notes.txt.bak.tmp");
}

#[test]
fn derived_names_are_valid_names_too() {
    assert!(isValidFilename(&backup_name("notes.txt")));
    assert!(isValidFilename(&staging_name(&backup_name("notes.txt"))));
}
