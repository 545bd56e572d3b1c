//! The three commands, and how a typed word selects one.
use crate::text::{same_text, trim, trimmed};
use vstd::prelude::*;
use vstd::string::StringExecFns;

verus! {

/// What can be done to the named file.
#[derive(Clone, Copy, PartialEq, Eq, Debug, Structural)]
pub enum Command {
    /// Copy the file to its backup.
    Backup,
    /// Copy the backup over the file.
    Restore,
    /// Remove the file.
    Delete,
}

/// The command that `word` names, if it names one: `backup`, `restore` or
/// `delete`, in lower case.
pub open spec fn command_named(word: Seq<char>) -> Option<Command> {
    if word == "backup"@ {
        Some(Command::Backup)
    } else if word == "restore"@ {
        Some(Command::Restore)
    } else if word == "delete"@ {
        Some(Command::Delete)
    } else {
        None
    }
}

/// The word that names `command`.
pub open spec fn word_of(command: Command) -> Seq<char> {
    match command {
        Command::Backup => "backup"@,
        Command::Restore => "restore"@,
        Command::Delete => "delete"@,
    }
}

/// What the audit log says of `command` done to the file `filename`.
pub open spec fn record_of(command: Command, filename: Seq<char>) -> Seq<char> {
    "Performed "@ + word_of(command) + " on "@ + filename
}

/// Reads a command from a typed line. White space around the word is
/// ignored; any other word is no command.
pub fn parse_command(line: &str) -> (command: Option<Command>)
    ensures
        command == command_named(trimmed(line@)),
{
    let word = trim(line);
    if same_text(word, "backup") {
        Some(Command::Backup)
    } else if same_text(word, "restore") {
        Some(Command::Restore)
    } else if same_text(word, "delete") {
        Some(Command::Delete)
    } else {
        None
    }
}

impl Command {
    /// The word that names this command.
    pub fn word(&self) -> (w: &'static str)
        ensures
            w@ == word_of(*self),
    {
        match self {
            Command::Backup => "backup",
            Command::Restore => "restore",
            Command::Delete => "delete",
        }
    }

    /// What the audit log says of this command done to the file `filename`.
    pub fn record(&self, filename: &str) -> (message: String)
        ensures
            message@ == record_of(*self, filename@),
    {
        let mut message = String::from_str("Performed ");
        message.append(self.word());
        message.append(" on ");
        message.append(filename);
        message
    }
}

/// Every command is selected by its own word, and by that word alone among
/// the three.
pub proof fn word_selects_its_command(command: Command)
    ensures
        command_named(word_of(command)) == Some(command),
{
    reveal_strlit("backup");
    reveal_strlit("restore");
    reveal_strlit("delete");
    assert("backup"@.len() == 6 && "restore"@.len() == 7 && "delete"@.len() == 6);
    assert("backup"@[0] == 'b' && "delete"@[0] == 'd');
}

} // verus!
