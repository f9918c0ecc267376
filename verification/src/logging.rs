//! The lines of the log file.
use vstd::prelude::*;

verus! {

/// One line of the log: the timestamp, two spaces, the message.
pub open spec fn log_line_text(timestamp: Seq<char>, msg: Seq<char>) -> Seq<char> {
    timestamp + "  "@ + msg
}

/// The line that the log gets for `msg` written at `timestamp`.
pub fn log_line(timestamp: &str, msg: &str) -> (r: String)
    ensures
        r@ == log_line_text(timestamp@, msg@),
        r@ == timestamp@ + "  "@ + msg@,
        r@.len() == timestamp@.len() + 2 + msg@.len(),
        r@.subrange(r@.len() - msg@.len(), r@.len() as int) == msg@,
{
    let mut s = String::from_str(timestamp);
    s.append("  ");
    s.append(msg);
    proof {
        reveal_strlit("  ");
        assert(s@.subrange(s@.len() - msg@.len(), s@.len() as int) =~= msg@);
    }
    s
}

/// Whether two strings hold the same text.
pub fn same_text(a: &str, b: &str) -> (r: bool)
    ensures
        r == (a@ == b@),
{
    let n = a.unicode_len();
    let m = b.unicode_len();
    if n != m {
        return false;
    }
    let mut i: usize = 0;
    while i < n
        invariant
            n == a@.len(),
            m == b@.len(),
            n == m,
            i <= n,
            forall|k: int| 0 <= k < i ==> a@[k] == b@[k],
        decreases n - i,
    {
        if a.get_char(i) != b.get_char(i) {
            return false;
        }
        i = i + 1;
    }
    proof {
        assert(a@ =~= b@);
    }
    true
}

/// A log line keeps both its parts whole, whatever their length: it starts
/// with the timestamp, two spaces follow, and the rest is the message, every
/// character of it.
pub proof fn lemma_log_line_keeps_message(timestamp: Seq<char>, msg: Seq<char>)
    ensures
        log_line_text(timestamp, msg) == timestamp + "  "@ + msg,
        log_line_text(timestamp, msg).len() == timestamp.len() as int + 2 + msg.len(),
        log_line_text(timestamp, msg).subrange(0, timestamp.len() as int) == timestamp,
        log_line_text(timestamp, msg)[timestamp.len() as int] == ' ',
        log_line_text(timestamp, msg)[timestamp.len() as int + 1] == ' ',
        log_line_text(timestamp, msg).subrange(
            timestamp.len() as int + 2,
            timestamp.len() as int + 2 + msg.len(),
        ) == msg,
{
    reveal_strlit("  ");
    let l = log_line_text(timestamp, msg);
    assert(l.subrange(0, timestamp.len() as int) =~= timestamp);
    assert(l.subrange(timestamp.len() as int + 2, timestamp.len() as int + 2 + msg.len()) =~= msg);
}

} // verus!
