//! What an operation does to the files, stated over a model of the outside.
//!
//! The model says what each [`Action`] means: how a driver that performs it
//! faithfully changes the files and the audit log, and which [`Event`] it
//! reports. What the library cannot know beforehand (what the user types,
//! how far a copy gets, which action meets an error) is an [`Outside`]. The
//! laws below hold for every one of them.
use crate::command::{record_of, Command};
use crate::filename::{backup_of, derived_names_differ, staging_of, valid_filename};
use crate::journal::log_line;
use crate::session::{
    judged, next, opened, source_of, target_of, Action, Event, Failure, Outcome, Session, Stage,
    MAX_FILE_SIZE,
};
use crate::text::{allows_delete, allows_overwrite};
use vstd::prelude::*;

verus! {

/// The files of the working directory, by name, and the lines of the audit
/// log.
pub struct World {
    /// What each file holds.
    pub files: Map<Seq<char>, Seq<u8>>,
    /// The lines of the audit log, oldest first.
    pub log: Seq<Seq<char>>,
}

/// What the outside does in the course of one operation.
pub struct Outside {
    /// Looking the source up meets an error.
    pub inspect_fails: bool,
    /// Reading the user's answer meets an error.
    pub ask_fails: bool,
    /// What the user types when asked.
    pub answer: Seq<char>,
    /// How many bytes the copy gets through, if the source holds as many.
    pub copied: nat,
    /// The copy meets an error.
    pub copy_fails: bool,
    /// Removing the staging file meets an error.
    pub discard_fails: bool,
    /// Renaming the staging file meets an error.
    pub rename_fails: bool,
    /// Removing the target meets an error.
    pub remove_fails: bool,
    /// Writing the audit log meets an error.
    pub record_fails: bool,
    /// The time at which the audit log is written.
    pub stamp: Seq<char>,
}

/// The size of a file that holds `data`, as the file system reports it.
pub open spec fn size_of(data: Seq<u8>) -> u64 {
    if data.len() <= u64::MAX {
        data.len() as u64
    } else {
        u64::MAX
    }
}

/// The first `n` bytes of `data`, or all of it if it holds fewer.
pub open spec fn prefix(data: Seq<u8>, n: nat) -> Seq<u8> {
    if n < data.len() {
        data.take(n as int)
    } else {
        data
    }
}

/// The world with the files `files`.
pub open spec fn with_files(w: World, files: Map<Seq<char>, Seq<u8>>) -> World {
    World { files, ..w }
}

/// What comes of performing `action` for `command` on the file `name`: the
/// world afterwards and the event reported.
pub open spec fn performed(w: World, command: Command, name: Seq<char>, action: Action, o: Outside) -> (
    World,
    Event,
) {
    let source = source_of(command, name);
    let target = target_of(command, name);
    let staging = staging_of(target);
    match action {
        Action::Inspect => if o.inspect_fails {
            (w, Event::Failed)
        } else if w.files.contains_key(source) {
            (w, Event::Size(size_of(w.files[source])))
        } else {
            (w, Event::Missing)
        },
        Action::Probe => if w.files.contains_key(target) {
            (w, Event::Found)
        } else {
            (w, Event::Missing)
        },
        Action::Ask => if o.ask_fails {
            (w, Event::Failed)
        } else {
            (w, judged(command, o.answer))
        },
        Action::Copy => if !w.files.contains_key(source) {
            (w, Event::Failed)
        } else {
            let written = prefix(w.files[source], o.copied);
            let after = with_files(w, w.files.insert(staging, written));
            if o.copy_fails {
                (after, Event::Failed)
            } else {
                (after, Event::Copied(size_of(written)))
            }
        },
        Action::Discard => if o.discard_fails {
            (w, Event::Failed)
        } else {
            (with_files(w, w.files.remove(staging)), Event::Done)
        },
        Action::Rename => if o.rename_fails || !w.files.contains_key(staging) {
            (w, Event::Failed)
        } else {
            (with_files(w, w.files.remove(staging).insert(target, w.files[staging])), Event::Done)
        },
        Action::Remove => if o.remove_fails || !w.files.contains_key(target) {
            (w, Event::Failed)
        } else {
            (with_files(w, w.files.remove(target)), Event::Done)
        },
        Action::Record => if o.record_fails {
            (w, Event::Failed)
        } else {
            (World { log: w.log.push(log_line(o.stamp, record_of(command, name))), ..w }, Event::Done)
        },
        Action::Stop(_) => (w, Event::Done),
    }
}

/// How many steps a session at `stage` may still take, at most.
pub open spec fn steps_left(stage: Stage) -> nat {
    match stage {
        Stage::Inspecting => 6,
        Stage::Probing => 5,
        Stage::Asking => 4,
        Stage::Copying => 3,
        Stage::Discarding(_) => 2,
        Stage::Renaming => 2,
        Stage::Removing => 2,
        Stage::Recording => 1,
        Stage::Finished(_) => 0,
    }
}

/// The rest of an operation: from the session `s`, which has asked for
/// `action`, to its end.
pub open spec fn run(w: World, name: Seq<char>, s: Session, action: Action, o: Outside) -> (
    World,
    Outcome,
)
    decreases steps_left(s.stage),
{
    match action {
        Action::Stop(outcome) => (w, outcome),
        _ => {
            let (after, event) = performed(w, s.command, name, action, o);
            let (s2, action2) = next(s, event);
            match action2 {
                Action::Stop(outcome) => (after, outcome),
                _ => run(after, name, s2, action2, o),
            }
        },
    }
}

/// A whole operation: `command` on the file `name`, from its opening to its
/// end.
pub open spec fn carried_out(w: World, command: Command, name: Seq<char>, o: Outside) -> (
    World,
    Outcome,
) {
    let (s, action) = opened(command, valid_filename(name));
    run(w, name, s, action, o)
}

/// What a backup or a restore comes to, said at once.
///
/// It fails, and changes nothing, if the name is not valid, if the source
/// is not there or cannot be looked up, or if it holds more than
/// [`MAX_FILE_SIZE`] bytes. Where the target is there, the user is asked:
/// without the answer `yes` nothing is changed. Then the source is copied to
/// the staging file. If the copy meets an error or stops short, the staging
/// file is removed again. Else it is renamed to the target, which from then
/// on holds all the bytes of the source, and a line is added to the log.
pub open spec fn replaced(w: World, command: Command, name: Seq<char>, o: Outside) -> (
    World,
    Outcome,
) {
    let source = source_of(command, name);
    let target = target_of(command, name);
    let staging = staging_of(target);
    if !valid_filename(name) {
        (w, Outcome::Failed(Failure::InvalidFilename))
    } else if o.inspect_fails {
        (
            w,
            Outcome::Failed(
                if command == Command::Restore {
                    Failure::NotFound
                } else {
                    Failure::Io
                },
            ),
        )
    } else if !w.files.contains_key(source) {
        (w, Outcome::Failed(Failure::NotFound))
    } else if w.files[source].len() > MAX_FILE_SIZE {
        (w, Outcome::Failed(Failure::TooLarge))
    } else if w.files.contains_key(target) && o.ask_fails {
        (w, Outcome::Failed(Failure::Io))
    } else if w.files.contains_key(target) && !allows_overwrite(o.answer) {
        (w, Outcome::Cancelled)
    } else if o.copy_fails || o.copied < w.files[source].len() {
        let written = prefix(w.files[source], o.copied);
        if o.discard_fails {
            (with_files(w, w.files.insert(staging, written)), Outcome::Failed(Failure::Io))
        } else {
            (
                with_files(w, w.files.remove(staging)),
                Outcome::Failed(
                    if o.copy_fails {
                        Failure::Io
                    } else {
                        Failure::IncompleteCopy
                    },
                ),
            )
        }
    } else if o.rename_fails {
        (with_files(w, w.files.insert(staging, w.files[source])), Outcome::Failed(Failure::Io))
    } else {
        let files = w.files.remove(staging).insert(target, w.files[source]);
        if o.record_fails {
            (with_files(w, files), Outcome::Failed(Failure::Io))
        } else {
            (
                World { files, log: w.log.push(log_line(o.stamp, record_of(command, name))) },
                Outcome::Completed,
            )
        }
    }
}

/// What a deletion comes to, said at once.
///
/// It fails, and changes nothing, if the name is not valid, if the file is
/// not there, or if the user does not answer `DELETE`. Else the file is
/// removed and a line is added to the log; if the log cannot be written, the
/// file is removed all the same.
pub open spec fn deleted(w: World, name: Seq<char>, o: Outside) -> (World, Outcome) {
    if !valid_filename(name) {
        (w, Outcome::Failed(Failure::InvalidFilename))
    } else if !w.files.contains_key(name) {
        (w, Outcome::Failed(Failure::NotFound))
    } else if o.ask_fails {
        (w, Outcome::Failed(Failure::Io))
    } else if !allows_delete(o.answer) {
        (w, Outcome::Failed(Failure::PermissionDenied))
    } else if o.remove_fails {
        (w, Outcome::Failed(Failure::Io))
    } else if o.record_fails {
        (with_files(w, w.files.remove(name)), Outcome::Unrecorded)
    } else {
        (
            World {
                files: w.files.remove(name),
                log: w.log.push(log_line(o.stamp, record_of(Command::Delete, name))),
            },
            Outcome::Completed,
        )
    }
}

/// Step by step, a backup or a restore comes to what [`replaced`] says.
pub proof fn steps_make_replacement(w: World, command: Command, name: Seq<char>, o: Outside)
    requires
        command != Command::Delete,
    ensures
        carried_out(w, command, name, o) == replaced(w, command, name, o),
{
    reveal_with_fuel(run, 6);
    derived_names_differ(name);
    let source = source_of(command, name);
    let target = target_of(command, name);
    let staging = staging_of(target);
    if valid_filename(name) && !o.inspect_fails && w.files.contains_key(source)
        && w.files[source].len() <= MAX_FILE_SIZE {
        let data = w.files[source];
        let written = prefix(data, o.copied);
        let staged = w.files.insert(staging, written);
        assert(staged.contains_key(source) && staged[source] == data);
        if w.files.contains_key(target) && (o.ask_fails || !allows_overwrite(o.answer)) {
        } else if o.copy_fails || o.copied < data.len() {
            assert(size_of(written) != size_of(data) || o.copy_fails);
            assert(staged.remove(staging) =~= w.files.remove(staging));
        } else {
            assert(written == data);
            assert(staged.remove(staging).insert(target, staged[staging]) =~= w.files.remove(
                staging,
            ).insert(target, data));
        }
    }
}

/// Step by step, a deletion comes to what [`deleted`] says.
pub proof fn steps_make_deletion(w: World, name: Seq<char>, o: Outside)
    ensures
        carried_out(w, Command::Delete, name, o) == deleted(w, name, o),
{
    reveal_with_fuel(run, 5);
}

/// The file `name` is the same in both sets of files: in both or in
/// neither, and then with the same bytes.
pub open spec fn same_file(
    a: Map<Seq<char>, Seq<u8>>,
    b: Map<Seq<char>, Seq<u8>>,
    name: Seq<char>,
) -> bool {
    &&& a.contains_key(name) == b.contains_key(name)
    &&& a.contains_key(name) ==> a[name] == b[name]
}

/// The copy is asked for: the target is not there, or the user allows it to
/// be overwritten.
pub open spec fn copy_is_due(w: World, command: Command, name: Seq<char>, o: Outside) -> bool {
    !w.files.contains_key(target_of(command, name)) || (!o.ask_fails && allows_overwrite(
        o.answer,
    ))
}

/// An operation on a name that is not valid fails before anything is looked
/// at, and changes nothing.
pub proof fn invalid_name_is_refused(w: World, command: Command, name: Seq<char>, o: Outside)
    requires
        !valid_filename(name),
    ensures
        carried_out(w, command, name, o) == (w, Outcome::Failed(Failure::InvalidFilename)),
{
}

/// A source of more than [`MAX_FILE_SIZE`] bytes is not copied: the backup
/// or restore fails and changes nothing, no file and no line of the log.
/// Unless looking the source up met an error, it fails as too large.
pub proof fn oversized_source_is_refused(w: World, command: Command, name: Seq<char>, o: Outside)
    requires
        command != Command::Delete,
        valid_filename(name),
        w.files.contains_key(source_of(command, name)),
        w.files[source_of(command, name)].len() > MAX_FILE_SIZE,
    ensures
        carried_out(w, command, name, o).0 == w,
        carried_out(w, command, name, o).1 is Failed,
        !o.inspect_fails ==> carried_out(w, command, name, o).1 == Outcome::Failed(
            Failure::TooLarge,
        ),
{
    steps_make_replacement(w, command, name, o);
}

/// A copy that meets an error or stops short leaves no trace: the backup or
/// restore fails, the staging file is gone, and every other file, the target
/// among them, and the audit log are as they were.
pub proof fn interrupted_copy_leaves_no_trace(
    w: World,
    command: Command,
    name: Seq<char>,
    o: Outside,
)
    requires
        command != Command::Delete,
        valid_filename(name),
        w.files.contains_key(source_of(command, name)),
        w.files[source_of(command, name)].len() <= MAX_FILE_SIZE,
        !o.inspect_fails,
        copy_is_due(w, command, name, o),
        o.copy_fails || o.copied < w.files[source_of(command, name)].len(),
        !o.discard_fails,
    ensures
        carried_out(w, command, name, o).1 == Outcome::Failed(
            if o.copy_fails {
                Failure::Io
            } else {
                Failure::IncompleteCopy
            },
        ),
        !carried_out(w, command, name, o).0.files.contains_key(
            staging_of(target_of(command, name)),
        ),
        forall|other: Seq<char>|
            other != staging_of(target_of(command, name)) ==> #[trigger] same_file(
                carried_out(w, command, name, o).0.files,
                w.files,
                other,
            ),
        carried_out(w, command, name, o).0.log == w.log,
{
    steps_make_replacement(w, command, name, o);
}

/// The target is never seen half written: after a backup or a restore,
/// however it went, the target is as it was or holds all the bytes of the
/// source; the source is as it was; and so is every file but the target and
/// the staging file.
pub proof fn target_is_old_or_whole(w: World, command: Command, name: Seq<char>, o: Outside)
    requires
        command != Command::Delete,
    ensures
        ({
            let after = carried_out(w, command, name, o).0.files;
            let source = source_of(command, name);
            let target = target_of(command, name);
            &&& same_file(after, w.files, target) || (w.files.contains_key(source)
                && after.contains_key(target) && after[target] == w.files[source])
            &&& same_file(after, w.files, source)
            &&& forall|other: Seq<char>|
                other != target && other != staging_of(target) ==> #[trigger] same_file(
                    after,
                    w.files,
                    other,
                )
        }),
{
    steps_make_replacement(w, command, name, o);
    derived_names_differ(name);
}

/// With nothing going wrong outside, a copy that runs to its end, and the
/// user's consent where the target is there, a backup or a restore of a file
/// within the size limit completes: the target holds the bytes of the
/// source, the staging file is gone, and the log has one line more.
pub proof fn undisturbed_replacement_completes(
    w: World,
    command: Command,
    name: Seq<char>,
    o: Outside,
)
    requires
        command != Command::Delete,
        valid_filename(name),
        w.files.contains_key(source_of(command, name)),
        w.files[source_of(command, name)].len() <= MAX_FILE_SIZE,
        !o.inspect_fails && !o.copy_fails && !o.rename_fails && !o.record_fails,
        copy_is_due(w, command, name, o),
        o.copied >= w.files[source_of(command, name)].len(),
    ensures
        carried_out(w, command, name, o).1 == Outcome::Completed,
        carried_out(w, command, name, o).0.files == w.files.remove(
            staging_of(target_of(command, name)),
        ).insert(target_of(command, name), w.files[source_of(command, name)]),
        carried_out(w, command, name, o).0.log == w.log.push(
            log_line(o.stamp, record_of(command, name)),
        ),
{
    steps_make_replacement(w, command, name, o);
}

/// Where the target is there and the user does not answer `yes`, a backup
/// or a restore is cancelled: it changes nothing, writes nothing to the log,
/// and is no failure.
pub proof fn declined_overwrite_changes_nothing(
    w: World,
    command: Command,
    name: Seq<char>,
    o: Outside,
)
    requires
        command != Command::Delete,
        valid_filename(name),
        w.files.contains_key(source_of(command, name)),
        w.files[source_of(command, name)].len() <= MAX_FILE_SIZE,
        w.files.contains_key(target_of(command, name)),
        !o.inspect_fails && !o.ask_fails,
        !allows_overwrite(o.answer),
    ensures
        carried_out(w, command, name, o) == (w, Outcome::Cancelled),
{
    steps_make_replacement(w, command, name, o);
}

/// A backup that completed can be restored: as long as the backup file is
/// left as the backup made it, a restore that completes gives the file the
/// very bytes that it held when it was backed up, whatever became of it in
/// between.
pub proof fn restore_returns_what_was_backed_up(
    w: World,
    name: Seq<char>,
    o: Outside,
    later: World,
    p: Outside,
)
    requires
        carried_out(w, Command::Backup, name, o).1 == Outcome::Completed,
        same_file(later.files, carried_out(w, Command::Backup, name, o).0.files, backup_of(name)),
        carried_out(later, Command::Restore, name, p).1 == Outcome::Completed,
    ensures
        w.files.contains_key(name),
        carried_out(later, Command::Restore, name, p).0.files.contains_key(name),
        carried_out(later, Command::Restore, name, p).0.files[name] == w.files[name],
{
    steps_make_replacement(w, Command::Backup, name, o);
    steps_make_replacement(later, Command::Restore, name, p);
}

/// A backup at once followed by a restore leaves the file with the bytes it
/// had, if both complete.
pub proof fn backup_then_restore_is_identity(w: World, name: Seq<char>, o: Outside, p: Outside)
    requires
        carried_out(w, Command::Backup, name, o).1 == Outcome::Completed,
        carried_out(carried_out(w, Command::Backup, name, o).0, Command::Restore, name, p).1
            == Outcome::Completed,
    ensures
        w.files.contains_key(name),
        same_file(
            carried_out(carried_out(w, Command::Backup, name, o).0, Command::Restore, name, p).0.files,
            w.files,
            name,
        ),
{
    restore_returns_what_was_backed_up(
        w,
        name,
        o,
        carried_out(w, Command::Backup, name, o).0,
        p,
    );
}

/// A deletion that the user does not confirm with `DELETE` is refused: it
/// fails, and the file is still there.
pub proof fn unconfirmed_delete_is_refused(w: World, name: Seq<char>, o: Outside)
    requires
        valid_filename(name),
        w.files.contains_key(name),
        !o.ask_fails,
        !allows_delete(o.answer),
    ensures
        carried_out(w, Command::Delete, name, o) == (
            w,
            Outcome::Failed(Failure::PermissionDenied),
        ),
{
    steps_make_deletion(w, name, o);
}

/// A deletion touches no file but the one it names, and removes that one
/// only when the user has confirmed with `DELETE`.
pub proof fn delete_removes_only_on_consent(w: World, name: Seq<char>, o: Outside)
    ensures
        forall|other: Seq<char>|
            other != name ==> #[trigger] same_file(
                carried_out(w, Command::Delete, name, o).0.files,
                w.files,
                other,
            ),
        !same_file(carried_out(w, Command::Delete, name, o).0.files, w.files, name)
            ==> allows_delete(o.answer),
        carried_out(w, Command::Delete, name, o).1 is Failed ==> carried_out(
            w,
            Command::Delete,
            name,
            o,
        ).0 == w,
{
    steps_make_deletion(w, name, o);
}

} // verus!
