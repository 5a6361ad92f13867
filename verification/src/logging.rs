//! Log-line formatting: each diagnostic record is one line of the form
//! `[<local timestamp>]: <message>`, terminated by a newline. Writing the
//! line to the log file beside the executable is the caller's side effect.

use vstd::prelude::*;
use vstd::string::StringExecFns;

verus! {

/// The full text appended to the log for one message: the timestamp in
/// brackets, a separating `]: `, the message, and a terminating newline.
pub open spec fn log_line_spec(ts: Seq<char>, msg: Seq<char>) -> Seq<char> {
    "["@ + ts + "]: "@ + msg + "\n"@
}

/// Formats one log record from an already-rendered timestamp.
pub fn log_line(timestamp: &str, message: &str) -> (r: String)
    ensures
        r@ == log_line_spec(timestamp@, message@),
{
    let mut r: String = "[".to_owned();
    r.append(timestamp);
    r.append("]: ");
    r.append(message);
    r.append("\n");
    r
}

/// Relies on `chrono::Local::now`, rendered with chrono's format string
/// `"%Y-%m-%d %H:%M:%S"`: the current local wall-clock time as text. The
/// result depends on the clock, so only its shape is assumed: rendering that
/// format emits digits and the literal `-`, space and `:` alone, so the text
/// never contains a newline. Aborts if the system clock reads before the
/// Unix epoch (chrono expects a nonnegative timestamp there), a fatal
/// startup condition.
#[verifier::external_body]
fn local_time_text() -> (r: String)
    ensures
        !r@.contains('\n'),
{
    chrono::Local::now().format("%Y-%m-%d %H:%M:%S").to_string()
}

/// Formats one log record, stamped with the current local time: whatever the
/// clock read, the result is a log line of that newline-free timestamp and
/// this message — so for a newline-free message, one call contributes
/// exactly one line, its newline last.
pub fn timestamped_line(message: &str) -> (r: String)
    ensures
        exists|ts: Seq<char>| !ts.contains('\n') && r@ == log_line_spec(ts, message@),
        !message@.contains('\n') ==> r@.len() > 0 && r@.last() == '\n',
        !message@.contains('\n') ==> forall|i: int| 0 <= i < r@.len() - 1 ==> r@[i] != '\n',
{
    let ts = local_time_text();
    let r = log_line(ts.as_str(), message);
    proof {
        assert(!ts@.contains('\n') && r@ == log_line_spec(ts@, message@));
        if !message@.contains('\n') {
            lemma_log_line_is_single_line(ts@, message@);
        }
    }
    r
}

/// A log record is a single line: when neither the timestamp nor the message
/// contains a newline, the formatted record contains exactly one, as its last
/// character. Appending records one per call therefore appends one line each.
pub proof fn lemma_log_line_is_single_line(ts: Seq<char>, msg: Seq<char>)
    requires
        !ts.contains('\n'),
        !msg.contains('\n'),
    ensures
        log_line_spec(ts, msg).len() == ts.len() + msg.len() + 5,
        log_line_spec(ts, msg).last() == '\n',
        forall|i: int|
            0 <= i < log_line_spec(ts, msg).len() - 1 ==> log_line_spec(ts, msg)[i] != '\n',
{
    reveal_strlit("[");
    reveal_strlit("]: ");
    reveal_strlit("\n");
    let line = log_line_spec(ts, msg);
    assert(line.len() == ts.len() + msg.len() + 5);
    assert(line.last() == '\n');
    assert forall|i: int| 0 <= i < line.len() - 1 implies line[i] != '\n' by {
        if 1 <= i < 1 + ts.len() {
            assert(line[i] == ts[i - 1]);
            if ts[i - 1] == '\n' {
                assert(ts.contains('\n'));
            }
        } else if 4 + ts.len() <= i < 4 + ts.len() + msg.len() {
            assert(line[i] == msg[i - 4 - ts.len()]);
            if msg[i - 4 - ts.len()] == '\n' {
                assert(msg.contains('\n'));
            }
        }
    }
}

} // verus!
