//! File names: which ones are accepted, and the names derived from them.
use vstd::prelude::*;
use vstd::string::is_ascii_spec_bytes;
use vstd::string::StringExecFns;

verus! {

/// The longest file name that is accepted, in characters.
pub const MAX_FILENAME_LENGTH: usize = 255;

/// The characters a file name may be made of: ASCII letters and digits,
/// underscore, hyphen and dot.
pub open spec fn allowed_char(c: char) -> bool {
    ||| 'a' <= c <= 'z'
    ||| 'A' <= c <= 'Z'
    ||| '0' <= c <= '9'
    ||| c == '_'
    ||| c == '-'
    ||| c == '.'
}

/// Two dots stand at positions `i` and `i + 1` of `s`.
pub open spec fn dots_at(s: Seq<char>, i: int) -> bool {
    0 <= i && i + 1 < s.len() && s[i] == '.' && s[i + 1] == '.'
}

/// `s` contains the two-character sequence `..`.
pub open spec fn has_dot_dot(s: Seq<char>) -> bool {
    exists|i: int| dots_at(s, i)
}

/// A file name is valid when it is not empty, has at most 255 characters,
/// contains no `..`, no `/` and no `\`, and is made of allowed characters
/// only. Such a name cannot leave the working directory.
pub open spec fn valid_filename(s: Seq<char>) -> bool {
    &&& 0 < s.len() <= MAX_FILENAME_LENGTH
    &&& !has_dot_dot(s)
    &&& !s.contains('/')
    &&& !s.contains('\\')
    &&& forall|i: int| 0 <= i < s.len() ==> allowed_char(#[trigger] s[i])
}

fn allowed_byte(b: u8) -> (ok: bool)
    ensures
        ok == allowed_char(b as char),
{
    (97 <= b && b <= 122) || (65 <= b && b <= 90) || (48 <= b && b <= 57) || b == 95 || b == 45
        || b == 46
}

/// Decides whether `filename` is a valid file name.
pub fn isValidFilename(filename: &str) -> (ok: bool)
    ensures
        ok == valid_filename(filename@),
{
    if !filename.is_ascii() {
        return false;
    }
    let bytes = filename.as_bytes();
    proof {
        is_ascii_spec_bytes(filename);
    }
    let n: usize = bytes.len();
    if n == 0 || n > MAX_FILENAME_LENGTH {
        return false;
    }
    let mut i: usize = 0;
    while i < n
        invariant
            i <= n,
            n == filename@.len(),
            n == bytes@.len(),
            forall|j: int| 0 <= j < n ==> bytes@[j] == (#[trigger] filename@[j]) as u8,
            forall|j: int| 0 <= j < n ==> '\0' <= #[trigger] filename@[j] <= '\u{7f}',
            forall|j: int| 0 <= j < i ==> allowed_char(#[trigger] filename@[j]),
            forall|j: int| 0 <= j && j + 1 < i ==> !dots_at(filename@, j),
        decreases n - i,
    {
        let b: u8 = bytes[i];
        assert(b as char == filename@[i as int]);
        if !allowed_byte(b) {
            return false;
        }
        if i > 0 && b == 46 && bytes[i - 1] == 46 {
            assert(dots_at(filename@, i - 1));
            return false;
        }
        i += 1;
    }
    proof {
        assert forall|j: int| !dots_at(filename@, j) by {
            if dots_at(filename@, j) {
                assert(j + 1 < i);
            }
        }
        assert(!filename@.contains('/')) by {
            if filename@.contains('/') {
                let k = choose|k: int| 0 <= k < filename@.len() && filename@[k] == '/';
                assert(allowed_char(filename@[k]));
            }
        }
        assert(!filename@.contains('\\')) by {
            if filename@.contains('\\') {
                let k = choose|k: int| 0 <= k < filename@.len() && filename@[k] == '\\';
                assert(allowed_char(filename@[k]));
            }
        }
    }
    true
}

/// The name of the backup of the file `name`.
pub open spec fn backup_of(name: Seq<char>) -> Seq<char> {
    name + ".bak"@
}

/// The name of the staging file in which a new `target` is put together.
pub open spec fn staging_of(target: Seq<char>) -> Seq<char> {
    target + ".tmp"@
}

/// The name of the backup of the file `filename`.
pub fn backup_name(filename: &str) -> (name: String)
    ensures
        name@ == backup_of(filename@),
{
    let mut name = String::from_str(filename);
    name.append(".bak");
    name
}

/// The name of the staging file in which a new `target` is put together.
pub fn staging_name(target: &str) -> (name: String)
    ensures
        name@ == staging_of(target@),
{
    let mut name = String::from_str(target);
    name.append(".tmp");
    name
}

/// A name that contains `/`, `\` or `..` is not valid.
pub proof fn traversal_is_rejected(s: Seq<char>)
    requires
        s.contains('/') || s.contains('\\') || has_dot_dot(s),
    ensures
        !valid_filename(s),
{
}

/// The empty name and a name of more than 255 characters are not valid.
pub proof fn bad_length_is_rejected(s: Seq<char>)
    requires
        s.len() == 0 || s.len() > 255,
    ensures
        !valid_filename(s),
{
}

/// A name of 1 to 255 allowed characters is valid, unless two dots follow
/// one another in it.
pub proof fn plain_name_is_accepted(s: Seq<char>)
    requires
        0 < s.len() <= 255,
        forall|i: int| 0 <= i < s.len() ==> allowed_char(#[trigger] s[i]),
        !has_dot_dot(s),
    ensures
        valid_filename(s),
{
    assert(!s.contains('/')) by {
        if s.contains('/') {
            let k = choose|k: int| 0 <= k < s.len() && s[k] == '/';
            assert(allowed_char(s[k]));
        }
    }
    assert(!s.contains('\\')) by {
        if s.contains('\\') {
            let k = choose|k: int| 0 <= k < s.len() && s[k] == '\\';
            assert(allowed_char(s[k]));
        }
    }
}

/// A valid name, its backup and the staging files of both are four different
/// names: no step of one operation can mistake one file for another.
pub proof fn derived_names_differ(name: Seq<char>)
    ensures
        backup_of(name) != name,
        staging_of(name) != name,
        staging_of(name) != backup_of(name),
        staging_of(backup_of(name)) != name,
        staging_of(backup_of(name)) != backup_of(name),
        staging_of(backup_of(name)) != staging_of(name),
{
    reveal_strlit(".bak");
    reveal_strlit(".tmp");
    let n = name.len() as int;
    assert(backup_of(name).len() == n + 4);
    assert(staging_of(name).len() == n + 4);
    assert(staging_of(backup_of(name)).len() == n + 8);
    assert(staging_of(name)[n + 1] == 't');
    assert(backup_of(name)[n + 1] == 'b');
}

/// The names derived from a valid name are made of allowed characters only:
/// like the name itself they hold no `/` and no `\`, and so name files of
/// the working directory.
pub proof fn derived_names_stay_put(name: Seq<char>)
    requires
        valid_filename(name),
    ensures
        forall|i: int| 0 <= i < backup_of(name).len() ==> allowed_char(#[trigger] backup_of(name)[i]),
        forall|i: int|
            0 <= i < staging_of(name).len() ==> allowed_char(#[trigger] staging_of(name)[i]),
        forall|i: int|
            0 <= i < staging_of(backup_of(name)).len() ==> allowed_char(
                #[trigger] staging_of(backup_of(name))[i],
            ),
{
    reveal_strlit(".bak");
    reveal_strlit(".tmp");
    let n = name.len() as int;
    assert forall|i: int| 0 <= i < backup_of(name).len() implies allowed_char(
        #[trigger] backup_of(name)[i],
    ) by {
        if i < n {
            assert(backup_of(name)[i] == name[i]);
        }
    }
    assert forall|i: int| 0 <= i < staging_of(name).len() implies allowed_char(
        #[trigger] staging_of(name)[i],
    ) by {
        if i < n {
            assert(staging_of(name)[i] == name[i]);
        }
    }
    assert forall|i: int| 0 <= i < staging_of(backup_of(name)).len() implies allowed_char(
        #[trigger] staging_of(backup_of(name))[i],
    ) by {
        if i < n + 4 {
            assert(staging_of(backup_of(name))[i] == backup_of(name)[i]);
        }
    }
}

} // verus!
