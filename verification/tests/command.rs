use safe_backup::command::{parse_command, Command};

#[test]
fn the_three_words_are_commands() {
    assert_eq!(parse_command("backup"), Some(Command::Backup));
    assert_eq!(parse_command("restore"), Some(Command::Restore));
    assert_eq!(parse_command("delete"), Some(Command::Delete));
}

#[test]
fn a_typed_line_is_a_command() {
    assert_eq!(parse_command("backup\n"), Some(Command::Backup));
    assert_eq!(parse_command("  restore \r\n"), Some(Command::Restore));
    assert_eq!(parse_command("\tdelete"), Some(Command::Delete));
}

#[test]
fn other_words_are_no_commands() {
    for line in [
        "", "\n", "Backup", "BACKUP", "back up", "backup now", "backups", "restor", "remove",
        "delete!", "DELETE", "copy", "backup\0",
    ] {
        assert_eq!(parse_command(line), None, "{:?}", line);
    }
}

#[test]
fn each_command_has_its_word() {
    assert_eq!(Command::Backup.word(), "backup");
    assert_eq!(Command::Restore.word(), "restore");
    assert_eq!(Command::Delete.word(), "delete");
    for command in [Command::Backup, Command::Restore, Command::Delete] {
        assert_eq!(parse_command(command.word()), Some(command));
    }
}

#[test]
fn record_names_command_and_file() {
    assert_eq!(Command::Backup.record("notes.txt"), "Performed backup on notes.txt");
    assert_eq!(Command::Restore.record("notes.txt"), "Performed restore on notes.txt");
    assert_eq!(Command::Delete.record("secret.txt"), "Performed delete on secret.txt");
}

#[test]
fn files_of_a_backup() {
    assert_eq!(Command::Backup.source("notes.txt"), "notes.txt");
    assert_eq!(Command::Backup.target("notes.txt"), "notes.txt.bak");
    assert_eq!(Command::Backup.staging("notes.txt"), "notes.txt.bak.tmp");
}

#[test]
fn files_of_a_restore() {
    assert_eq!(Command::Restore.source("notes.txt"), "notes.txt.bak");
    assert_eq!(Command::Restore.target("notes.txt"), "notes.txt");
    assert_eq!(Command::Restore.staging("notes.txt"), "notes.txt.tmp");
}

#[test]
fn files_of_a_deletion() {
    assert_eq!(Command::Delete.source("secret.txt"), "secret.txt");
    assert_eq!(Command::Delete.target("secret.txt"), "secret.txt");
}
