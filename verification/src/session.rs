//! One operation on one file, as a sequence of steps.
//!
//! The library decides; a driver acts. A [`Session`] opens with the first
//! [`Action`] to perform. The driver performs it, reports the [`Event`] that
//! came of it to [`Session::step`], and is given the next action, until the
//! action is [`Action::Stop`].
use crate::command::Command;
use crate::filename::{backup_name, backup_of, isValidFilename, staging_name, staging_of, valid_filename};
use crate::text::{allows_delete, allows_overwrite, confirms_delete, confirms_overwrite};
use vstd::prelude::*;
use vstd::string::StringExecFns;

verus! {

/// The largest file that is copied, in bytes: 10 MiB.
pub const MAX_FILE_SIZE: u64 = 10 * 1024 * 1024;

/// Why an operation did not take effect.
#[derive(Clone, Copy, PartialEq, Eq, Debug, Structural)]
pub enum Failure {
    /// The file name is not a valid one.
    InvalidFilename,
    /// The file to copy is larger than [`MAX_FILE_SIZE`].
    TooLarge,
    /// The file to copy or to delete is not there.
    NotFound,
    /// Fewer or more bytes were copied than the file to copy holds.
    IncompleteCopy,
    /// The user did not confirm the deletion.
    PermissionDenied,
    /// The file system or the terminal reported an error.
    Io,
}

/// How an operation ended.
#[derive(Clone, Copy, PartialEq, Eq, Debug, Structural)]
pub enum Outcome {
    /// It took effect and the audit log says so.
    Completed,
    /// It took effect, but the audit log could not be written.
    Unrecorded,
    /// The user declined to overwrite a file; nothing was changed.
    Cancelled,
    /// It did not take effect.
    Failed(Failure),
}

/// What the driver is asked to do next. The files are named by their role:
/// see [`source_of`] and [`target_of`].
#[derive(Clone, Copy, PartialEq, Eq, Debug, Structural)]
pub enum Action {
    /// Look the source up: [`Event::Missing`] if it is not there, else
    /// [`Event::Size`] with its size.
    Inspect,
    /// Say whether the target is there: [`Event::Found`] or [`Event::Missing`].
    Probe,
    /// Ask the user to confirm, and hand the line typed to [`Command::judge`].
    Ask,
    /// Create the staging file, writable by its owner, and copy the source
    /// into it: [`Event::Copied`] with the number of bytes copied.
    Copy,
    /// Remove the staging file.
    Discard,
    /// Rename the staging file to the target, replacing it in one step.
    Rename,
    /// Remove the target.
    Remove,
    /// Tell the user that the operation took effect, and append its record
    /// to the audit log.
    Record,
    /// Nothing more: the operation ended in this way.
    Stop(Outcome),
}

/// What came of the action last asked for.
#[derive(Clone, Copy, PartialEq, Eq, Debug, Structural)]
pub enum Event {
    /// The file is not there.
    Missing,
    /// The file is there.
    Found,
    /// The file is there and holds this many bytes.
    Size(u64),
    /// The user confirmed.
    Accepted,
    /// The user did not confirm.
    Declined,
    /// The copy ended after this many bytes.
    Copied(u64),
    /// The action was performed.
    Done,
    /// The action met an error.
    Failed,
}

/// Where an operation stands: the action whose event is awaited.
#[derive(Clone, Copy, PartialEq, Eq, Debug, Structural)]
pub enum Stage {
    /// [`Action::Inspect`] was asked for.
    Inspecting,
    /// [`Action::Probe`] was asked for.
    Probing,
    /// [`Action::Ask`] was asked for.
    Asking,
    /// [`Action::Copy`] was asked for.
    Copying,
    /// [`Action::Discard`] was asked for, after this failure of the copy.
    Discarding(Failure),
    /// [`Action::Rename`] was asked for.
    Renaming,
    /// [`Action::Remove`] was asked for.
    Removing,
    /// [`Action::Record`] was asked for.
    Recording,
    /// The operation has ended.
    Finished(Outcome),
}

/// An operation under way.
#[derive(Clone, Copy, PartialEq, Eq, Debug, Structural)]
pub struct Session {
    /// What is being done.
    pub command: Command,
    /// How far it has come.
    pub stage: Stage,
    /// The size of the source, once it is known; 0 before.
    pub expected: u64,
}

/// The file that `command` reads or removes, for the file `name`.
pub open spec fn source_of(command: Command, name: Seq<char>) -> Seq<char> {
    match command {
        Command::Backup => name,
        Command::Restore => backup_of(name),
        Command::Delete => name,
    }
}

/// The file that `command` writes or removes, for the file `name`.
pub open spec fn target_of(command: Command, name: Seq<char>) -> Seq<char> {
    match command {
        Command::Backup => backup_of(name),
        Command::Restore => name,
        Command::Delete => name,
    }
}

/// The event that the answer `answer` is to `command`'s question. A
/// deletion is confirmed by `DELETE` alone, an overwrite by `yes`.
pub open spec fn judged(command: Command, answer: Seq<char>) -> Event {
    let allowed = match command {
        Command::Delete => allows_delete(answer),
        _ => allows_overwrite(answer),
    };
    if allowed {
        Event::Accepted
    } else {
        Event::Declined
    }
}

/// The session that has ended with `outcome`, and the action that says so.
pub open spec fn ended(s: Session, outcome: Outcome) -> (Session, Action) {
    (Session { stage: Stage::Finished(outcome), ..s }, Action::Stop(outcome))
}

/// The session that awaits the event of `action` at `stage`.
pub open spec fn moved(s: Session, stage: Stage, action: Action) -> (Session, Action) {
    (Session { stage, ..s }, action)
}

/// How a command opens, given whether the file name is valid: an invalid
/// name ends it at once; a backup or a restore looks its source up first, a
/// deletion its target.
pub open spec fn opened(command: Command, valid: bool) -> (Session, Action) {
    let s = Session { command, stage: Stage::Inspecting, expected: 0 };
    if !valid {
        ended(s, Outcome::Failed(Failure::InvalidFilename))
    } else if command == Command::Delete {
        moved(s, Stage::Probing, Action::Probe)
    } else {
        moved(s, Stage::Inspecting, Action::Inspect)
    }
}

/// One step of a backup or a restore: a safe replacement of the target by a
/// copy of the source.
///
/// The source must be there and hold no more than [`MAX_FILE_SIZE`] bytes. A
/// target that is there is replaced only if the user confirms. The copy goes
/// to the staging file; only a copy of exactly the size that the source was
/// found to have is renamed to the target; after any other copy the staging
/// file is removed. An event that does not answer the action asked for
/// counts as an error of that action.
pub open spec fn replace_next(s: Session, e: Event) -> (Session, Action) {
    match s.stage {
        Stage::Inspecting => match e {
            Event::Missing => ended(s, Outcome::Failed(Failure::NotFound)),
            Event::Size(n) => if n > MAX_FILE_SIZE {
                ended(s, Outcome::Failed(Failure::TooLarge))
            } else {
                moved(Session { expected: n, ..s }, Stage::Probing, Action::Probe)
            },
            _ => if s.command == Command::Restore {
                ended(s, Outcome::Failed(Failure::NotFound))
            } else {
                ended(s, Outcome::Failed(Failure::Io))
            },
        },
        Stage::Probing => match e {
            Event::Found => moved(s, Stage::Asking, Action::Ask),
            Event::Missing => moved(s, Stage::Copying, Action::Copy),
            _ => ended(s, Outcome::Failed(Failure::Io)),
        },
        Stage::Asking => match e {
            Event::Accepted => moved(s, Stage::Copying, Action::Copy),
            Event::Declined => ended(s, Outcome::Cancelled),
            _ => ended(s, Outcome::Failed(Failure::Io)),
        },
        Stage::Copying => match e {
            Event::Copied(n) => if n == s.expected {
                moved(s, Stage::Renaming, Action::Rename)
            } else {
                moved(s, Stage::Discarding(Failure::IncompleteCopy), Action::Discard)
            },
            _ => moved(s, Stage::Discarding(Failure::Io), Action::Discard),
        },
        Stage::Discarding(failure) => match e {
            Event::Done => ended(s, Outcome::Failed(failure)),
            _ => ended(s, Outcome::Failed(Failure::Io)),
        },
        Stage::Renaming => match e {
            Event::Done => moved(s, Stage::Recording, Action::Record),
            _ => ended(s, Outcome::Failed(Failure::Io)),
        },
        Stage::Recording => match e {
            Event::Done => ended(s, Outcome::Completed),
            _ => ended(s, Outcome::Failed(Failure::Io)),
        },
        Stage::Removing => ended(s, Outcome::Failed(Failure::Io)),
        Stage::Finished(outcome) => ended(s, outcome),
    }
}

/// One step of a deletion.
///
/// The file must be there, and the user must confirm: a deletion that is
/// not confirmed fails. Once the file is removed the deletion has taken
/// effect, whether or not the audit log can be written.
pub open spec fn delete_next(s: Session, e: Event) -> (Session, Action) {
    match s.stage {
        Stage::Probing => match e {
            Event::Found => moved(s, Stage::Asking, Action::Ask),
            Event::Missing => ended(s, Outcome::Failed(Failure::NotFound)),
            _ => ended(s, Outcome::Failed(Failure::Io)),
        },
        Stage::Asking => match e {
            Event::Accepted => moved(s, Stage::Removing, Action::Remove),
            Event::Declined => ended(s, Outcome::Failed(Failure::PermissionDenied)),
            _ => ended(s, Outcome::Failed(Failure::Io)),
        },
        Stage::Removing => match e {
            Event::Done => moved(s, Stage::Recording, Action::Record),
            _ => ended(s, Outcome::Failed(Failure::Io)),
        },
        Stage::Recording => match e {
            Event::Done => ended(s, Outcome::Completed),
            _ => ended(s, Outcome::Unrecorded),
        },
        Stage::Finished(outcome) => ended(s, outcome),
        _ => ended(s, Outcome::Failed(Failure::Io)),
    }
}

/// One step of any operation: the session after the event `e`, and the
/// action to perform next.
pub open spec fn next(s: Session, e: Event) -> (Session, Action) {
    if s.command == Command::Delete {
        delete_next(s, e)
    } else {
        replace_next(s, e)
    }
}

impl Command {
    /// The name of the file that this command reads or removes.
    pub fn source(&self, filename: &str) -> (name: String)
        ensures
            name@ == source_of(*self, filename@),
    {
        match self {
            Command::Restore => backup_name(filename),
            _ => String::from_str(filename),
        }
    }

    /// The name of the file that this command writes or removes.
    pub fn target(&self, filename: &str) -> (name: String)
        ensures
            name@ == target_of(*self, filename@),
    {
        match self {
            Command::Backup => backup_name(filename),
            _ => String::from_str(filename),
        }
    }

    /// The name of the staging file that this command copies into.
    pub fn staging(&self, filename: &str) -> (name: String)
        ensures
            name@ == staging_of(target_of(*self, filename@)),
    {
        let target = self.target(filename);
        staging_name(target.as_str())
    }

    /// Judges the line that the user typed in answer to this command's
    /// question.
    pub fn judge(&self, answer: &str) -> (event: Event)
        ensures
            event == judged(*self, answer@),
    {
        let allowed = match self {
            Command::Delete => confirms_delete(answer),
            _ => confirms_overwrite(answer),
        };
        if allowed {
            Event::Accepted
        } else {
            Event::Declined
        }
    }
}

impl Outcome {
    /// The exit code of a run that ended in this way: 1 after a failure,
    /// 0 otherwise, also where the user declined.
    pub fn exit_code(&self) -> (code: i32)
        ensures
            code == if *self is Failed { 1i32 } else { 0i32 },
    {
        match self {
            Outcome::Failed(_) => 1,
            _ => 0,
        }
    }
}

impl Session {
    /// Opens `command` on the file `filename`.
    pub fn open(command: Command, filename: &str) -> (opening: (Session, Action))
        ensures
            opening == opened(command, valid_filename(filename@)),
    {
        let session = Session { command, stage: Stage::Inspecting, expected: 0 };
        if !isValidFilename(filename) {
            session.end(Outcome::Failed(Failure::InvalidFilename))
        } else {
            match command {
                Command::Delete => session.go(Stage::Probing, Action::Probe),
                _ => session.go(Stage::Inspecting, Action::Inspect),
            }
        }
    }

    fn end(self, outcome: Outcome) -> (r: (Session, Action))
        ensures
            r == ended(self, outcome),
    {
        (
            Session { command: self.command, stage: Stage::Finished(outcome), expected: self.expected },
            Action::Stop(outcome),
        )
    }

    fn go(self, stage: Stage, action: Action) -> (r: (Session, Action))
        ensures
            r == moved(self, stage, action),
    {
        (Session { command: self.command, stage, expected: self.expected }, action)
    }

    fn fail(self, failure: Failure) -> (r: (Session, Action))
        ensures
            r == ended(self, Outcome::Failed(failure)),
    {
        self.end(Outcome::Failed(failure))
    }

    fn replace_step(self, event: Event) -> (r: (Session, Action))
        ensures
            r == replace_next(self, event),
    {
        match (self.stage, event) {
            (Stage::Finished(outcome), _) => self.end(outcome),
            (Stage::Inspecting, Event::Missing) => self.fail(Failure::NotFound),
            (Stage::Inspecting, Event::Size(n)) => {
                if n > MAX_FILE_SIZE {
                    self.fail(Failure::TooLarge)
                } else {
                    let known = Session { command: self.command, stage: self.stage, expected: n };
                    known.go(Stage::Probing, Action::Probe)
                }
            },
            (Stage::Inspecting, _) => match self.command {
                Command::Restore => self.fail(Failure::NotFound),
                _ => self.fail(Failure::Io),
            },
            (Stage::Probing, Event::Found) => self.go(Stage::Asking, Action::Ask),
            (Stage::Probing, Event::Missing) => self.go(Stage::Copying, Action::Copy),
            (Stage::Asking, Event::Accepted) => self.go(Stage::Copying, Action::Copy),
            (Stage::Asking, Event::Declined) => self.end(Outcome::Cancelled),
            (Stage::Copying, Event::Copied(n)) => {
                if n == self.expected {
                    self.go(Stage::Renaming, Action::Rename)
                } else {
                    self.go(Stage::Discarding(Failure::IncompleteCopy), Action::Discard)
                }
            },
            (Stage::Copying, _) => self.go(Stage::Discarding(Failure::Io), Action::Discard),
            (Stage::Discarding(failure), Event::Done) => self.fail(failure),
            (Stage::Renaming, Event::Done) => self.go(Stage::Recording, Action::Record),
            (Stage::Recording, Event::Done) => self.end(Outcome::Completed),
            _ => self.fail(Failure::Io),
        }
    }

    fn delete_step(self, event: Event) -> (r: (Session, Action))
        ensures
            r == delete_next(self, event),
    {
        match (self.stage, event) {
            (Stage::Finished(outcome), _) => self.end(outcome),
            (Stage::Probing, Event::Found) => self.go(Stage::Asking, Action::Ask),
            (Stage::Probing, Event::Missing) => self.fail(Failure::NotFound),
            (Stage::Asking, Event::Accepted) => self.go(Stage::Removing, Action::Remove),
            (Stage::Asking, Event::Declined) => self.fail(Failure::PermissionDenied),
            (Stage::Removing, Event::Done) => self.go(Stage::Recording, Action::Record),
            (Stage::Recording, Event::Done) => self.end(Outcome::Completed),
            (Stage::Recording, _) => self.end(Outcome::Unrecorded),
            _ => self.fail(Failure::Io),
        }
    }

    /// Takes the event of the action last asked for, and gives the next
    /// action.
    pub fn step(&mut self, event: Event) -> (action: Action)
        ensures
            (*final(self), action) == next(*old(self), event),
    {
        let (session, action) = match self.command {
            Command::Delete => self.delete_step(event),
            _ => self.replace_step(event),
        };
        *self = session;
        action
    }
}

/// Opens a backup of the file `filename`: its copy to `<filename>.bak`.
pub fn backupFile(filename: &str) -> (opening: (Session, Action))
    ensures
        opening == opened(Command::Backup, valid_filename(filename@)),
{
    Session::open(Command::Backup, filename)
}

/// Opens a restore of the file `filename`: the copy of `<filename>.bak`
/// over it.
pub fn restoreFile(filename: &str) -> (opening: (Session, Action))
    ensures
        opening == opened(Command::Restore, valid_filename(filename@)),
{
    Session::open(Command::Restore, filename)
}

/// Opens the deletion of the file `filename`.
pub fn deleteFile(filename: &str) -> (opening: (Session, Action))
    ensures
        opening == opened(Command::Delete, valid_filename(filename@)),
{
    Session::open(Command::Delete, filename)
}

} // verus!
