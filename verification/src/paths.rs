//! The program's directory layout, below a base directory:
//!
//! ```text
//! <base>\pm-win-shutdown.exe      the installed program
//! <base>\log\YYYYMMDD.txt         the log of one (local) day
//! <base>\script\<name>            the user's scripts
//! ```
//!
//! Paths are joined as `PathBuf::push` joins them on Windows, where both `\`
//! and `/` separate components:
//! - a name with a prefix (a drive such as `C:`, or a `\\server\share`
//!   prefix) replaces the base;
//! - a name that starts with a separator keeps only the prefix of the base;
//! - any other name is appended, after a `\` unless the base is empty, ends
//!   with a separator, or is a bare drive such as `C:`.
//!
//! Verbatim (`\\?\`) and device (`\\.\`) prefixes are read as `\\server\share`
//! prefixes whose server is `?` or `.`; and a base with a verbatim prefix is
//! joined without the removal of `.` and `..` components that `PathBuf::push`
//! then does.
use vstd::prelude::*;

use crate::clock::{compact_date_text, format_date_compact, DateTimeFields};

verus! {

/// `\` or `/`: the path separators of Windows.
pub open spec fn is_separator(c: char) -> bool {
    c == '\\' || c == '/'
}

/// An ASCII letter, the first character of a drive prefix.
pub open spec fn is_ascii_letter(c: char) -> bool {
    ('a' <= c <= 'z') || ('A' <= c <= 'Z')
}

/// Whether `s` begins with a drive such as `C:`.
pub open spec fn is_drive_prefix(s: Seq<char>) -> bool {
    s.len() >= 2 && s[1] == ':' && is_ascii_letter(s[0])
}

/// The index of the first separator of `s` at or after `k` (the length of
/// `s` when there is none).
pub open spec fn next_separator(s: Seq<char>, k: int) -> int
    decreases s.len() - k,
{
    if k < 0 || k >= s.len() {
        s.len() as int
    } else if is_separator(s[k]) {
        k
    } else {
        next_separator(s, k + 1)
    }
}

/// The length of a `\\server\share` prefix at the start of `s`: both the
/// server and the share must be non-empty; 0 when there is none.
pub open spec fn unc_prefix_len(s: Seq<char>) -> int {
    let i = next_separator(s, 2);
    if i <= 2 || i >= s.len() {
        0
    } else {
        let j = next_separator(s, i + 1);
        if j <= i + 1 {
            0
        } else {
            j
        }
    }
}

/// The length of the prefix of `s`: 2 for a drive, the length of a
/// `\\server\share` prefix, 0 when there is none.
pub open spec fn prefix_len(s: Seq<char>) -> int {
    if is_drive_prefix(s) {
        2
    } else if s.len() >= 2 && is_separator(s[0]) && is_separator(s[1]) {
        unc_prefix_len(s)
    } else {
        0
    }
}

/// Whether `name` is relative to whatever it is joined to: no prefix, and no
/// separator in front.
pub open spec fn is_relative(name: Seq<char>) -> bool {
    prefix_len(name) == 0 && !(name.len() > 0 && is_separator(name[0]))
}

/// Whether joining a relative name to `base` puts a `\` between them.
pub open spec fn needs_separator(base: Seq<char>) -> bool {
    base.len() > 0 && !is_separator(base.last()) && !(base.len() == 2 && is_drive_prefix(base))
}

/// `base` joined with `name`, as `PathBuf::push` joins them on Windows.
pub open spec fn joined(base: Seq<char>, name: Seq<char>) -> Seq<char> {
    if prefix_len(name) > 0 {
        name
    } else if name.len() > 0 && is_separator(name[0]) {
        base.subrange(0, prefix_len(base)) + name
    } else if needs_separator(base) {
        base + seq!['\\'] + name
    } else {
        base + name
    }
}

/// The name of the program's data directory.
pub open spec fn app_dir_name() -> Seq<char> {
    "pm-win-shutdown"@
}

/// The name of the installed program.
pub open spec fn exe_name() -> Seq<char> {
    "pm-win-shutdown.exe"@
}

/// The directory below the base that holds the logs.
pub open spec fn log_dir_name() -> Seq<char> {
    "log"@
}

/// The directory below the base that holds the user's scripts.
pub open spec fn script_dir_name() -> Seq<char> {
    "script"@
}

/// The root that `base_dir` chooses: the local application data directory,
/// else the directory of the running program, else `.`.
pub open spec fn base_root(local_app_data: Option<Seq<char>>, exe_dir: Option<Seq<char>>) -> Seq<
    char,
> {
    match local_app_data {
        Some(l) => l,
        None => match exe_dir {
            Some(e) => e,
            None => "."@,
        },
    }
}

/// The text of an optional string.
pub open spec fn opt_text(o: Option<&str>) -> Option<Seq<char>> {
    match o {
        Some(s) => Some(s@),
        None => None,
    }
}

/// The first separator at or after `k` lies between `k` and the length.
proof fn lemma_next_separator_bounds(s: Seq<char>, k: int)
    requires
        0 <= k,
    ensures
        next_separator(s, k) <= s.len(),
        k <= s.len() ==> k <= next_separator(s, k),
    decreases s.len() - k,
{
    if k < s.len() && !is_separator(s[k]) {
        lemma_next_separator_bounds(s, k + 1);
    }
}

/// A prefix is never longer than its path.
proof fn lemma_prefix_len_bounds(s: Seq<char>)
    ensures
        0 <= prefix_len(s) <= s.len(),
{
    lemma_next_separator_bounds(s, 2);
    let i = next_separator(s, 2);
    if 2 < i < s.len() {
        lemma_next_separator_bounds(s, i + 1);
    }
}

fn is_separator_char(c: char) -> (r: bool)
    ensures
        r == is_separator(c),
{
    c == '\\' || c == '/'
}

fn is_ascii_letter_char(c: char) -> (r: bool)
    ensures
        r == is_ascii_letter(c),
{
    ('a' <= c && c <= 'z') || ('A' <= c && c <= 'Z')
}

/// The characters of `s`.
fn chars_of(s: &str) -> (r: Vec<char>)
    ensures
        r@ == s@,
{
    let mut out: Vec<char> = Vec::new();
    for c in it: s.chars()
        invariant
            it.seq() == s@,
            out@ == s@.take(it.index() as int),
    {
        proof {
            assert(s@.take(it.index() + 1) =~= s@.take(it.index() as int).push(c));
        }
        out.push(c);
    }
    proof {
        assert(s@.take(s@.len() as int) =~= s@);
    }
    out
}

/// The index of the first separator of `s` at or after `k`.
fn find_separator(s: &Vec<char>, k: usize) -> (r: usize)
    ensures
        r == next_separator(s@, k as int),
{
    let mut i = k;
    while i < s.len()
        invariant
            k <= i,
            i <= s@.len() || i == k,
            next_separator(s@, k as int) == next_separator(s@, i as int),
        decreases s@.len() - i,
    {
        if is_separator_char(s[i]) {
            return i;
        }
        i = i + 1;
    }
    s.len()
}

/// The length of the prefix of `s` (see `prefix_len`).
fn prefix_length(s: &Vec<char>) -> (r: usize)
    ensures
        r == prefix_len(s@),
{
    let n = s.len();
    if n >= 2 && s[1] == ':' && is_ascii_letter_char(s[0]) {
        2
    } else if n >= 2 && is_separator_char(s[0]) && is_separator_char(s[1]) {
        let i = find_separator(s, 2);
        if i <= 2 || i >= n {
            0
        } else {
            let j = find_separator(s, i + 1);
            if j <= i + 1 {
                0
            } else {
                j
            }
        }
    } else {
        0
    }
}

/// `base` joined with `name`, as `PathBuf::join` does on Windows.
pub fn path_join(base: &str, name: &str) -> (r: String)
    ensures
        r@ == joined(base@, name@),
{
    let b = chars_of(base);
    let nm = chars_of(name);
    if prefix_length(&nm) > 0 {
        return String::from_str(name);
    }
    if nm.len() > 0 && is_separator_char(nm[0]) {
        let keep = prefix_length(&b);
        proof {
            lemma_prefix_len_bounds(base@);
        }
        let mut out = String::from_str(base.substring_char(0, keep));
        out.append(name);
        return out;
    }
    let n = b.len();
    let sep = n > 0 && !is_separator_char(b[n - 1]) && !(n == 2 && b[1] == ':'
        && is_ascii_letter_char(b[0]));
    let mut out = String::from_str(base);
    if sep {
        proof {
            reveal_strlit("\\");
        }
        out.append("\\");
    }
    out.append(name);
    proof {
        reveal_strlit("\\");
        assert(out@ =~= joined(base@, name@));
    }
    out
}

proof fn lemma_literal_names()
    ensures
        is_relative(app_dir_name()),
        is_relative(exe_name()),
        is_relative(log_dir_name()),
        is_relative(script_dir_name()),
        forall|i: int|
            0 <= i < app_dir_name().len() ==> !is_separator(#[trigger] app_dir_name()[i]),
{
    reveal_strlit("pm-win-shutdown");
    reveal_strlit("pm-win-shutdown.exe");
    reveal_strlit("log");
    reveal_strlit("script");
}

/// The program's data directory, `<root>\pm-win-shutdown`, where the root is
/// the value of `LOCALAPPDATA` when it is set, else the directory of the
/// running program when it is known, else `.`.
pub fn base_dir(local_app_data: Option<&str>, exe_dir: Option<&str>) -> (r: String)
    ensures
        r@ == joined(base_root(opt_text(local_app_data), opt_text(exe_dir)), app_dir_name()),
        r@ == joined(base_root(opt_text(local_app_data), opt_text(exe_dir)), "pm-win-shutdown"@),
{
    let root: &str = match local_app_data {
        Some(l) => l,
        None => match exe_dir {
            Some(e) => e,
            None => ".",
        },
    };
    path_join(root, "pm-win-shutdown")
}

/// `<base>\log`: the directory of the log files.
pub fn log_dir(base: &str) -> (r: String)
    ensures
        r@ == joined(base@, log_dir_name()),
        r@ == joined(base@, "log"@),
{
    path_join(base, "log")
}

/// `<base>\script`: the directory of the user's scripts.
pub fn script_dir(base: &str) -> (r: String)
    ensures
        r@ == joined(base@, script_dir_name()),
        r@ == joined(base@, "script"@),
{
    path_join(base, "script")
}

/// `<base>\pm-win-shutdown.exe`: where the program installs itself.
pub fn installed_exe(base: &str) -> (r: String)
    ensures
        r@ == joined(base@, exe_name()),
        r@ == joined(base@, "pm-win-shutdown.exe"@),
{
    path_join(base, "pm-win-shutdown.exe")
}

/// `<base>\script` joined with `name`: the path of one of the user's scripts.
pub fn script_path(base: &str, name: &str) -> (r: String)
    ensures
        r@ == joined(joined(base@, script_dir_name()), name@),
        r@ == joined(joined(base@, "script"@), name@),
{
    let dir = script_dir(base);
    path_join(dir.as_str(), name)
}

/// The log file of the (local) day `today`: `<base>\log\YYYYMMDD.txt`.
pub fn log_file(base: &str, today: &DateTimeFields) -> (r: String)
    requires
        today.wf(),
    ensures
        r@ == joined(joined(base@, log_dir_name()), compact_date_text(*today) + ".txt"@),
{
    let dir = log_dir(base);
    let mut file = format_date_compact(today);
    file.append(".txt");
    path_join(dir.as_str(), file.as_str())
}

/// Everything the program keeps lives below its base directory: a relative
/// name joined to a base is the base, at most one `\`, and the name; the `\`
/// is there exactly when the base needs one.
pub proof fn lemma_joined_stays_below(base: Seq<char>, name: Seq<char>)
    requires
        is_relative(name),
    ensures
        joined(base, name) == base + (if needs_separator(base) {
            seq!['\\']
        } else {
            seq![]
        }) + name,
        joined(base, name).subrange(0, base.len() as int) == base,
        joined(base, name).subrange(
            joined(base, name).len() - name.len(),
            joined(base, name).len() as int,
        ) == name,
{
    let j = joined(base, name);
    assert(j =~= base + (if needs_separator(base) {
        seq!['\\']
    } else {
        seq![]
    }) + name);
    assert(j.subrange(0, base.len() as int) =~= base);
    assert(j.subrange(j.len() - name.len(), j.len() as int) =~= name);
}

/// The data directory's last component is `pm-win-shutdown`, and its parent
/// is the chosen root: the directory is the root, a `\` when the root needs
/// one, and `pm-win-shutdown`, which holds no separator.
pub proof fn lemma_base_dir_parts(local_app_data: Option<Seq<char>>, exe_dir: Option<Seq<char>>)
    ensures
        ({
            let root = base_root(local_app_data, exe_dir);
            let dir = joined(root, app_dir_name());
            &&& dir == root + (if needs_separator(root) {
                seq!['\\']
            } else {
                seq![]
            }) + app_dir_name()
            &&& forall|i: int|
                0 <= i < app_dir_name().len() ==> !is_separator(#[trigger] app_dir_name()[i])
            &&& local_app_data matches Some(l) ==> root == l
        }),
{
    lemma_literal_names();
    lemma_joined_stays_below(base_root(local_app_data, exe_dir), app_dir_name());
}

/// A relative name is appended after exactly one `\`, whatever the base
/// holds, when the base is not empty, does not end with `\` or `/`, and is
/// not a bare drive such as `C:`; after no `\` when the base ends with a
/// separator or is empty. A name with a drive such as `D:` replaces the base.
pub proof fn lemma_join_separator(base: Seq<char>, name: Seq<char>)
    ensures
        is_relative(name) && base.len() > 0 && base.last() != '\\' && base.last() != '/' && !(
        base.len() == 2 && base[1] == ':') ==> joined(base, name) == base + "\\"@ + name,
        is_relative(name) && (base.len() == 0 || base.last() == '\\' || base.last() == '/')
            ==> joined(base, name) == base + name,
        name.len() >= 2 && name[1] == ':' && (('a' <= name[0] <= 'z') || ('A' <= name[0] <= 'Z'))
            ==> joined(base, name) == name,
{
    reveal_strlit("\\");
    assert(base + "\\"@ + name =~= base + seq!['\\'] + name);
}

} // verus!
