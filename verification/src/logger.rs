//! Log records of the user interface and the upkeep of log files.

use crate::text::str_eq;
use vstd::prelude::*;

verus! {

/// The severity of a log record.
#[derive(Clone, Copy, Debug, PartialEq, Eq, Structural)]
pub enum LogLevel {
    Error,
    Warn,
    Info,
    Debug,
    Trace,
}

/// A record to write to the log.
pub struct LogRecord {
    pub level: LogLevel,
    pub text: String,
}

/// The level that a level name stands for. A name that is not known stands
/// for `Info`.
pub open spec fn level_named(level: Seq<char>) -> LogLevel {
    if level == "debug"@ {
        LogLevel::Debug
    } else if level == "warn"@ {
        LogLevel::Warn
    } else if level == "error"@ {
        LogLevel::Error
    } else {
        LogLevel::Info
    }
}

/// Makes the record of a message that the user interface sent: the text is
/// marked as coming from there.
pub fn log(message: String, level: &str) -> (record: LogRecord)
    ensures
        record.level == level_named(level@),
        record.text@ == "UI: "@ + message@,
{
    let level = if str_eq(level, "debug") {
        LogLevel::Debug
    } else if str_eq(level, "warn") {
        LogLevel::Warn
    } else if str_eq(level, "error") {
        LogLevel::Error
    } else {
        LogLevel::Info
    };
    let mut text = String::new();
    text.append("UI: ");
    text.append(message.as_str());
    LogRecord { level, text }
}

/// The escape sequence that colours a record of the given level on a
/// terminal.
pub open spec fn colour_of(level: LogLevel) -> Seq<char> {
    match level {
        LogLevel::Error => "\x1b[31m"@,
        LogLevel::Warn => "\x1b[33m"@,
        LogLevel::Info => "\x1b[32m"@,
        LogLevel::Debug => "\x1b[34m"@,
        LogLevel::Trace => "\x1b[35m"@,
    }
}

/// The escape sequence that colours a record of the given level: red for
/// errors, yellow for warnings, green, blue and magenta below.
pub fn colour_code(level: LogLevel) -> (code: &'static str)
    ensures
        code@ == colour_of(level),
{
    match level {
        LogLevel::Error => "\x1b[31m",
        LogLevel::Warn => "\x1b[33m",
        LogLevel::Info => "\x1b[32m",
        LogLevel::Debug => "\x1b[34m",
        LogLevel::Trace => "\x1b[35m",
    }
}

/// Whether the file at `j` comes before the file at `i` when the files are
/// put newest first: it was modified later, or at the same time and stands
/// earlier in the list.
pub open spec fn comes_before(modified: Seq<u64>, j: int, i: int) -> bool {
    modified[j] > modified[i] || (modified[j] == modified[i] && j < i)
}

/// How many of the first `n` files come before the file at `i`.
pub open spec fn rank_upto(modified: Seq<u64>, i: int, n: int) -> nat
    decreases n,
{
    if n <= 0 {
        0
    } else {
        rank_upto(modified, i, n - 1) + if comes_before(modified, n - 1, i) {
            1nat
        } else {
            0nat
        }
    }
}

/// The place of the file at `i` when the files are put newest first,
/// counting from zero.
pub open spec fn rank(modified: Seq<u64>, i: int) -> nat {
    rank_upto(modified, i, modified.len() as int)
}

/// The positions among the first `n` files of those to delete, in rising
/// order: the files whose place, newest first, is `keep` or later.
pub open spec fn stale_upto(modified: Seq<u64>, keep: usize, n: int) -> Seq<usize>
    decreases n,
{
    if n <= 0 {
        Seq::<usize>::empty()
    } else {
        let init = stale_upto(modified, keep, n - 1);
        if rank(modified, n - 1) >= keep {
            init.push((n - 1) as usize)
        } else {
            init
        }
    }
}

/// Picks the log files to delete so that the `keep` newest stay, given when
/// each file was last modified. Returns the positions of the files to
/// delete, in rising order. Of files modified at the same time, those
/// earlier in the list count as newer.
pub fn delete_old_log_files(modified: &Vec<u64>, keep: usize) -> (stale: Vec<usize>)
    ensures
        stale@ == stale_upto(modified@, keep, modified@.len() as int),
{
    let n = modified.len();
    let mut stale: Vec<usize> = Vec::new();
    let mut i: usize = 0;
    while i < n
        invariant
            n == modified@.len(),
            i <= n,
            stale@ == stale_upto(modified@, keep, i as int),
        decreases n - i,
    {
        let mut before: usize = 0;
        let mut j: usize = 0;
        while j < n
            invariant
                n == modified@.len(),
                i < n,
                j <= n,
                before == rank_upto(modified@, i as int, j as int),
                before <= j,
            decreases n - j,
        {
            if modified[j] > modified[i] || (modified[j] == modified[i] && j < i) {
                before = before + 1;
            }
            j = j + 1;
        }
        if before >= keep {
            stale.push(i);
        }
        i = i + 1;
    }
    stale
}

/// A file is deleted exactly when at least `keep` files come before it,
/// newest first; so no file that stays is older than a file that goes.
pub proof fn law_newest_files_stay(modified: Seq<u64>, keep: usize, kept: int, gone: int)
    requires
        0 <= kept < modified.len(),
        0 <= gone < modified.len(),
        rank(modified, kept) < keep,
        rank(modified, gone) >= keep,
    ensures
        modified[kept] >= modified[gone],
{
    if modified[kept] < modified[gone] {
        lemma_rank_grows(modified, gone, kept, modified.len() as int);
    }
}

/// A file has at least as many files before it as any file that is newer.
proof fn lemma_rank_grows(modified: Seq<u64>, newer: int, older: int, n: int)
    requires
        0 <= newer < modified.len(),
        0 <= older < modified.len(),
        0 <= n <= modified.len(),
        modified[newer] > modified[older],
    ensures
        rank_upto(modified, newer, n) <= rank_upto(modified, older, n),
    decreases n,
{
    if n > 0 {
        lemma_rank_grows(modified, newer, older, n - 1);
    }
}

} // verus!
