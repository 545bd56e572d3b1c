use safe_backup::text::{chars_of, confirms_delete, confirms_overwrite, is_space, same_text, trim};

#[test]
fn white_space_is_what_unicode_says() {
    let mut count = 0;
    for n in 0u32..=0x10ffff {
        if let Some(c) = char::from_u32(n) {
            assert_eq!(is_space(c), c.is_whitespace(), "U+{:04X}", n);
            if is_space(c) {
                count += 1;
            }
        }
    }
    assert_eq!(count, 25);
}

#[test]
fn chars_of_gives_every_character() {
    assert_eq!(chars_of(""), Vec::<char>::new());
    assert_eq!(chars_of("abc"), vec!['a', 'b', 'c']);
    assert_eq!(chars_of("h\u{e9}\u{65e5}\u{1f600}!"), vec!['h', '\u{e9}', '\u{65e5}', '\u{1f600}', '!']);
}

#[test]
fn trim_removes_surrounding_white_space() {
    assert_eq!(trim("notes.txt\n"), "notes.txt");
    assert_eq!(trim("notes.txt\r\n"), "notes.txt");
    assert_eq!(trim("  backup \t"), "backup");
    assert_eq!(trim("plain"), "plain");
}

#[test]
fn trim_keeps_inner_white_space() {
    assert_eq!(trim("  a b\tc  "), "a b\tc");
    assert_eq!(trim("\na\nb\n"), "a\nb");
}

#[test]
fn trim_of_blank_text_is_empty() {
    assert_eq!(trim(""), "");
    assert_eq!(trim(" "), "");
    assert_eq!(trim("\n"), "");
    assert_eq!(trim(" \t\r\n\u{a0}\u{3000}"), "");
}

#[test]
fn trim_agrees_with_the_standard_library() {
    let mut spaces = Vec::new();
    for n in 0u32..=0x10ffff {
        if let Some(c) = char::from_u32(n) {
            if c.is_whitespace() {
                spaces.push(c);
            }
        }
    }
    let cores = ["", "x", "yes", "a b", "\u{e9}t\u{e9}", "\u{200b}", "\u{feff}x", "x\u{180e}"];
    for core in cores {
        for &before in &spaces {
            for &after in &spaces {
                let text = format!("{}{}{}{}", before, core, after, after);
                assert_eq!(trim(&text), text.trim(), "{:?}", text);
            }
        }
        assert_eq!(trim(core), core.trim(), "{:?}", core);
    }
}

#[test]
fn same_text_compares_characters() {
    assert!(same_text("", ""));
    assert!(same_text("DELETE", "DELETE"));
    assert!(!same_text("DELETE", "DELETe"));
    assert!(!same_text("DELETE", "DELETE "));
    assert!(!same_text("a", ""));
    assert!(same_text("\u{e9}", "\u{e9}"));
    assert!(!same_text("\u{e9}", "e\u{301}"));
}

#[test]
fn yes_in_any_case_allows_overwrite() {
    for answer in ["yes", "YES", "Yes", "yEs", "yeS", "YEs", "yES", "YeS"] {
        assert!(confirms_overwrite(answer), "{:?}", answer);
        assert!(confirms_overwrite(&format!("{}\n", answer)), "{:?}", answer);
        assert!(confirms_overwrite(&format!("  {}\r\n", answer)), "{:?}", answer);
    }
}

#[test]
fn anything_else_does_not_allow_overwrite() {
    for answer in [
        "", "\n", "no", "y", "ye", "yess", "yes yes", "y es", "yes.", "oui", "true", "1", "YEP",
        "ye\u{17f}", "\u{ff59}\u{ff45}\u{ff53}", "yes\u{200b}", "DELETE",
    ] {
        assert!(!confirms_overwrite(answer), "{:?}", answer);
    }
}

#[test]
fn overwrite_rule_agrees_with_lower_casing() {
    for first in 0u32..=0x10ffff {
        if let Some(c) = char::from_u32(first) {
            for text in [format!("{}es", c), format!("y{}s", c), format!("ye{}", c), format!("ye{}\n", c)] {
                assert_eq!(
                    confirms_overwrite(&text),
                    text.trim().to_lowercase() == "yes",
                    "{:?}",
                    text
                );
            }
        }
    }
}

#[test]
fn only_capital_delete_allows_deletion() {
    assert!(confirms_delete("DELETE"));
    assert!(confirms_delete("DELETE\n"));
    assert!(confirms_delete("  DELETE\r\n"));
    for answer in ["delete", "Delete", "DELET", "DELETED", "D E L E T E", "yes", "", "\n", "DELETE!"] {
        assert!(!confirms_delete(answer), "{:?}", answer);
    }
}
