//! The audit log: one line of text for each action that took effect.
use vstd::prelude::*;
use vstd::string::StringExecFns;
use crate::text::chars_of;

verus! {

/// The name of the file that holds the audit log. It is opened to append,
/// and made if it is not there; nothing in it is ever overwritten.
pub const LOG_FILE: &'static str = "logfile.txt";

/// A line feed or a carriage return.
pub open spec fn is_line_break(c: char) -> bool {
    c == '\n' || c == '\r'
}

/// No character of `s` is a line break.
pub open spec fn is_one_line(s: Seq<char>) -> bool {
    forall|i: int| 0 <= i < s.len() ==> !is_line_break(#[trigger] s[i])
}

/// `c`, or a space in its place where `c` is a line break.
pub open spec fn sanitized_char(c: char) -> char {
    if is_line_break(c) {
        ' '
    } else {
        c
    }
}

/// `s` with a space in place of every line break.
pub open spec fn sanitized(s: Seq<char>) -> Seq<char> {
    Seq::new(s.len(), |i: int| sanitized_char(s[i]))
}

/// The line that records `message` at the time `stamp`: the time in square
/// brackets, a space, and the message with its line breaks taken out.
pub open spec fn log_line(stamp: Seq<char>, message: Seq<char>) -> Seq<char> {
    seq!['['] + stamp + seq![']', ' '] + sanitized(message)
}

/// A decimal digit.
pub open spec fn is_digit(c: char) -> bool {
    '0' <= c <= '9'
}

/// The shape of a time stamp, `YYYY-MM-DD HH:MM:SS`: counted from the end,
/// two hyphens, a space and two colons stand where they belong; every other
/// character is a digit, but that a sign may come first (a year outside
/// 0 to 9999 is written with its sign and more digits).
pub open spec fn is_timestamp(s: Seq<char>) -> bool {
    let n = s.len() as int;
    &&& n >= 19
    &&& s[n - 15] == '-'
    &&& s[n - 12] == '-'
    &&& s[n - 9] == ' '
    &&& s[n - 6] == ':'
    &&& s[n - 3] == ':'
    &&& forall|i: int|
        0 <= i < n && i != n - 15 && i != n - 12 && i != n - 9 && i != n - 6 && i != n - 3
            ==> is_digit(#[trigger] s[i]) || (i == 0 && (s[i] == '+' || s[i] == '-'))
}

/// `String::push` of the standard library. Trusted: that it appends the
/// character to the end of the string and changes nothing else.
pub assume_specification[ String::push ](s: &mut String, ch: char)
    ensures
        final(s)@ == old(s)@.push(ch),
;

/// `message` with a space in place of every line break.
pub fn sanitize(message: &str) -> (clean: String)
    ensures
        clean@ == sanitized(message@),
        is_one_line(clean@),
{
    let v = chars_of(message);
    let mut clean = String::new();
    let mut i: usize = 0;
    while i < v.len()
        invariant
            i <= v.len(),
            v@ == message@,
            clean@ == sanitized(message@).take(i as int),
        decreases v.len() - i,
    {
        let c: char = v[i];
        if c == '\n' || c == '\r' {
            clean.push(' ');
        } else {
            clean.push(c);
        }
        assert(clean@ =~= sanitized(message@).take(i + 1));
        i += 1;
    }
    assert(clean@ =~= sanitized(message@));
    clean
}

/// The line that records `message` at the time `stamp`.
pub fn format_entry(stamp: &str, message: &str) -> (line: String)
    ensures
        line@ == log_line(stamp@, message@),
{
    let clean = sanitize(message);
    let mut line = String::from_str("[");
    line.append(stamp);
    line.append("] ");
    line.append(clean.as_str());
    proof {
        reveal_strlit("[");
        reveal_strlit("] ");
        assert("["@ =~= seq!['[']);
        assert("] "@ =~= seq![']', ' ']);
    }
    line
}

/// A line that holds a time stamp and a message without line breaks holds
/// none itself: whatever the message, one call adds one line to the log.
pub proof fn entry_is_one_line(stamp: Seq<char>, message: Seq<char>)
    requires
        is_timestamp(stamp),
    ensures
        is_one_line(log_line(stamp, message)),
{
    let line = log_line(stamp, message);
    assert forall|i: int| 0 <= i < line.len() implies !is_line_break(#[trigger] line[i]) by {
        let n = stamp.len() as int;
        if 1 <= i < 1 + n {
            let k = i - 1;
            assert(line[i] == stamp[k]);
        } else if i >= n + 3 {
            assert(line[i] == sanitized(message)[i - n - 3]);
        }
    }
}

/// The local time of the machine's clock: chrono's `Local::now`, written by
/// `DateTime::format` for `%Y-%m-%d %H:%M:%S`. Trusted: that the text has the
/// shape of a time stamp. chrono writes each of the six numbers padded with
/// zeros, the year to four digits at least and with its sign outside 0 to
/// 9999, and the separators as they stand in the pattern. Which time the
/// text names is not stated. chrono panics where the clock stands before
/// 1970.
#[verifier::external_body]
fn local_timestamp() -> (stamp: String)
    ensures
        is_timestamp(stamp@),
{
    chrono::Local::now().format("%Y-%m-%d %H:%M:%S").to_string()
}

/// The audit-log line for `action`, stamped with the current local time.
/// The driver appends it to the log as a line of its own.
pub fn logAction(action: &str) -> (line: String)
    ensures
        exists|stamp: Seq<char>| #[trigger] is_timestamp(stamp) && line@ == log_line(stamp, action@),
        is_one_line(line@),
{
    let stamp = local_timestamp();
    proof {
        entry_is_one_line(stamp@, action@);
    }
    format_entry(stamp.as_str(), action)
}

} // verus!
