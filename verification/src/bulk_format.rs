//! The decisions of the bulk formatter: where the walk starts, which
//! entries the default ignore list excludes, which rule formats a file,
//! when a worker may start, and how the outcomes add up.

use crate::config::model::{CommandWithControlFlow, Config, PureCommand};
use crate::daemon::interface::{BulkFormatReply, DaemonBulkFormatArgs, DaemonBulkFormatResponse};
use crate::json::{Json, JsonV};
use crate::leaf::key_formatted_content;
use crate::text::{
    decimal,
    lists_view,
    push_decimal,
    push_str,
    split_chars,
    split_on,
    str_chars,
    str_eq,
    string_from_chars,
    strings_view,
};
use vstd::prelude::*;

verus! {

/// What a bulk format works on.
#[derive(Debug)]
pub struct BulkFormatOption {
    /// The roots of the walk.
    pub paths: Vec<String>,
    /// The number of files formatted at a time.
    pub threads: usize,
    /// Whether the built-in ignore list applies on top of the ignore files.
    pub use_default_ignore: bool,
    /// The directory the request was made in.
    pub current_dir: String,
}

/// Why a bulk format cannot start.
#[derive(Clone, Copy, PartialEq, Eq, Structural, Debug)]
pub enum BulkError {
    /// The request names no path.
    NoPath,
}

/// The message of a bulk format that was given no path.
pub open spec fn no_path_message() -> Seq<char> {
    "No path given"@
}

impl BulkError {
    /// The message of the error.
    pub fn message(&self) -> (r: String)
        ensures
            r@ == no_path_message(),
    {
        "No path given".to_owned()
    }
}

/// The roots of the walk: the first path and the number of those that
/// follow it. A request without a path is refused.
pub fn bulk_roots(paths: &Vec<String>) -> (r: Result<(&String, usize), BulkError>)
    ensures
        match r {
            Ok((first, rest)) => paths.len() > 0 && *first == paths[0] && rest == paths.len() - 1,
            Err(e) => paths.len() == 0 && e == BulkError::NoPath,
        },
{
    if paths.len() == 0 {
        Err(BulkError::NoPath)
    } else {
        Ok((&paths[0], paths.len() - 1))
    }
}

/// A line without the carriage return that may end it.
pub open spec fn without_carriage_return(line: Seq<char>) -> Seq<char> {
    if line.len() > 0 && line.last() == '\r' {
        line.drop_last()
    } else {
        line
    }
}

/// Whether a line of an ignore list names nothing: it is empty or a
/// comment.
pub open spec fn is_blank_or_comment(line: Seq<char>) -> bool {
    line.len() == 0 || line[0] == '#'
}

/// The override globs for the first `n` lines of an ignore list: each line
/// that names something, with an exclamation mark in front.
pub open spec fn overrides_of(lines: Seq<Seq<char>>, n: nat) -> Seq<Seq<char>>
    decreases n,
{
    if n == 0 || n > lines.len() {
        Seq::empty()
    } else {
        let before = overrides_of(lines, (n - 1) as nat);
        let line = without_carriage_return(lines[n - 1]);
        if is_blank_or_comment(line) {
            before
        } else {
            before.push(seq!['!'] + line)
        }
    }
}

/// The override globs that exclude what an ignore list names.
pub open spec fn ignore_overrides_of(list: Seq<char>) -> Seq<Seq<char>> {
    overrides_of(split_on(list, '\n'), split_on(list, '\n').len())
}

/// The override globs that exclude what the ignore list `list` names, one
/// for each line that is neither empty nor a comment.
pub fn ignore_overrides(list: &str) -> (r: Vec<String>)
    ensures
        strings_view(r@) == ignore_overrides_of(list@),
{
    let chars = str_chars(list);
    let lines = split_chars(&chars, '\n');
    let ghost all = lists_view(lines@);
    let mut out: Vec<String> = Vec::new();
    let mut i: usize = 0;
    assert(strings_view(out@) =~= overrides_of(all, 0));
    while i < lines.len()
        invariant
            i <= lines.len(),
            all == lists_view(lines@),
            strings_view(out@) == overrides_of(all, i as nat),
        decreases lines.len() - i,
    {
        let line = &lines[i];
        let mut end = line.len();
        if end > 0 && line[end - 1] == '\r' {
            end = end - 1;
        }
        let ghost trimmed = without_carriage_return(all[i as int]);
        assert(trimmed =~= line@.take(end as int));
        if end > 0 && line[0] != '#' {
            let mut glob: Vec<char> = Vec::new();
            glob.push('!');
            let mut k: usize = 0;
            while k < end
                invariant
                    k <= end <= line.len(),
                    glob@ == seq!['!'] + line@.take(k as int),
                decreases end - k,
            {
                glob.push(line[k]);
                assert(line@.take(k + 1) =~= line@.take(k as int).push(line[k as int]));
                k += 1;
            }
            let ghost before = strings_view(out@);
            let text = string_from_chars(&glob);
            out.push(text);
            assert(strings_view(out@) =~= before.push(seq!['!'] + trimmed));
        }
        i += 1;
    }
    out
}

/// The pure tree that formats `path` in a bulk run, if there is one. Write
/// rules are never considered: a file that only a write rule matches is
/// passed over like a file that no rule matches.
pub fn bulk_rule<'a>(config: &'a Config, path: &str) -> (r: Option<&'a CommandWithControlFlow<PureCommand>>)
    ensures
        match r {
            Some(cmd) => config@.pure_tree(path@) == Some(cmd@),
            None => config@.matched_rule(path@, true) is None,
        },
{
    config.find_pure_tree(path)
}

/// How long a worker sleeps before it asks again whether it may start, in
/// microseconds.
pub const POOL_SPIN_MICROS: u64 = 100;

/// The name of the ignore files that the walk honours.
pub fn ignore_file_name() -> (r: &'static str)
    ensures
        r@ == ".foro-ignore"@,
{
    ".foro-ignore"
}

/// Whether a worker may start: fewer than `limit` are running.
pub fn pool_admits(running: usize, limit: usize) -> (r: bool)
    ensures
        r == (running < limit),
{
    running < limit
}

/// What became of one file of a bulk run.
#[derive(Clone, Copy, PartialEq, Eq, Structural, Debug)]
pub enum FileOutcome {
    /// The formatted content differs from what was read.
    Changed,
    /// The file was formatted and is as it was.
    Unchanged,
    /// The file was passed over: no pure rule matches it, or formatting it
    /// failed.
    Skipped,
}

/// Whether formatting changed a file: the result holds formatted content
/// and that differs from the content that was read.
pub open spec fn outcome_of(content: Seq<char>, result: JsonV) -> FileOutcome {
    match result.get_str(key_formatted_content()) {
        Some(formatted) => if formatted != content {
            FileOutcome::Changed
        } else {
            FileOutcome::Unchanged
        },
        None => FileOutcome::Unchanged,
    }
}

/// What became of a file whose content was `content` and whose run ended
/// with `result`.
pub fn file_outcome(content: &str, result: &Json) -> (r: FileOutcome)
    ensures
        r == outcome_of(content@, result@),
{
    match result.get_str("formatted-content") {
        Some(formatted) => {
            if str_eq(formatted.as_str(), content) {
                FileOutcome::Unchanged
            } else {
                FileOutcome::Changed
            }
        },
        None => FileOutcome::Unchanged,
    }
}

/// How many of the first `n` outcomes are `which`.
pub open spec fn count_of(outcomes: Seq<FileOutcome>, which: FileOutcome, n: nat) -> nat
    decreases n,
{
    if n == 0 || n > outcomes.len() {
        0
    } else {
        count_of(outcomes, which, (n - 1) as nat) + if outcomes[n - 1] == which {
            1nat
        } else {
            0nat
        }
    }
}

/// How many of `outcomes` are files that were formatted, changed or not.
pub open spec fn processed_of(outcomes: Seq<FileOutcome>) -> nat {
    count_of(outcomes, FileOutcome::Changed, outcomes.len()) + count_of(
        outcomes,
        FileOutcome::Unchanged,
        outcomes.len(),
    )
}

/// The result of a bulk run: how many files changed, and how many were
/// processed in all. Files that were passed over count as neither.
pub fn tally(outcomes: &Vec<FileOutcome>) -> (r: (usize, usize))
    ensures
        r.0 == count_of(outcomes@, FileOutcome::Changed, outcomes.len() as nat),
        r.1 == processed_of(outcomes@),
        r.0 <= r.1 <= outcomes.len(),
{
    let mut changed: usize = 0;
    let mut processed: usize = 0;
    let mut i: usize = 0;
    while i < outcomes.len()
        invariant
            i <= outcomes.len(),
            changed == count_of(outcomes@, FileOutcome::Changed, i as nat),
            processed == count_of(outcomes@, FileOutcome::Changed, i as nat) + count_of(
                outcomes@,
                FileOutcome::Unchanged,
                i as nat,
            ),
            changed <= processed <= i,
        decreases outcomes.len() - i,
    {
        match outcomes[i] {
            FileOutcome::Changed => {
                changed += 1;
                processed += 1;
            },
            FileOutcome::Unchanged => {
                processed += 1;
            },
            FileOutcome::Skipped => {},
        }
        i += 1;
    }
    (changed, processed)
}

/// The summary of a bulk run: how many files were processed and how many
/// of them changed.
pub open spec fn summary_of(changed: nat, processed: nat) -> Seq<char> {
    let total = decimal(processed) + " files processed. "@;
    if changed == 0 {
        total + "No files changed."@
    } else if changed == 1 {
        total + decimal(changed) + " file changed."@
    } else {
        total + decimal(changed) + " files changed."@
    }
}

/// The summary of a bulk run in which `changed` of the `processed` files
/// changed.
pub fn bulk_summary(changed: usize, processed: usize) -> (r: String)
    ensures
        r@ == summary_of(changed as nat, processed as nat),
{
    let mut out: Vec<char> = Vec::new();
    push_decimal(&mut out, processed as u64);
    push_str(&mut out, " files processed. ");
    if changed == 0 {
        push_str(&mut out, "No files changed.");
    } else {
        push_decimal(&mut out, changed as u64);
        if changed == 1 {
            push_str(&mut out, " file changed.");
        } else {
            push_str(&mut out, " files changed.");
        }
    }
    assert(out@ =~= summary_of(changed as nat, processed as nat));
    string_from_chars(&out)
}

/// The response to a bulk-format request: the error of a request without
/// a path, or the summary of the outcomes.
pub open spec fn bulk_reply(paths: nat, outcomes: Seq<FileOutcome>) -> BulkFormatReply {
    if paths == 0 {
        BulkFormatReply::Error(no_path_message())
    } else {
        BulkFormatReply::Success(
            summary_of(count_of(outcomes, FileOutcome::Changed, outcomes.len()), processed_of(outcomes)),
        )
    }
}

/// The response to the bulk-format request `args`, given what became of
/// each file that the walk found. A request without a path is answered
/// with an error.
pub fn daemon_bulk_format_execute_with_args(
    args: &DaemonBulkFormatArgs,
    outcomes: &Vec<FileOutcome>,
) -> (r: DaemonBulkFormatResponse)
    ensures
        r@ == bulk_reply(args.paths.len() as nat, outcomes@),
{
    match bulk_roots(&args.paths) {
        Err(e) => DaemonBulkFormatResponse::Error(e.message()),
        Ok(_) => {
            let (changed, processed) = tally(outcomes);
            DaemonBulkFormatResponse::Success(bulk_summary(changed, processed))
        },
    }
}

} // verus!
