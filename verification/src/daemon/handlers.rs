//! What the format handlers decide: which rule runs, what the initial
//! context holds, and which response a final context stands for.

use crate::config::model::{CommandWithControlFlow, Config, ConfigV, PureCommand, Rule};
use crate::daemon::interface::{
    DaemonFormatResponse,
    DaemonPureFormatResponse,
    FormatReply,
    PureFormatReply,
};
use crate::json::{entries_view, lemma_view_of_parts, Json, JsonV, MemberV};
use crate::text::str_eq;
use vstd::prelude::*;

verus! {

/// The paths and the content that a handler starts from.
pub struct Target<'a> {
    /// The request's working directory, in the host's form.
    pub os_current_dir: &'a str,
    /// The request's working directory, as a sandboxed plugin sees it.
    pub wasm_current_dir: &'a str,
    /// The target's absolute path, in the host's form.
    pub os_target: &'a str,
    /// The target's absolute path, as a sandboxed plugin sees it.
    pub wasm_target: &'a str,
    /// The target as the request named it.
    pub raw_target: &'a str,
    /// The content to format.
    pub content: &'a str,
}

/// A member whose value is a string.
pub open spec fn string_member(key: Seq<char>, value: Seq<char>) -> MemberV {
    MemberV { key, value: JsonV::Str(value) }
}

/// The context that an evaluation starts from: the working directory and
/// the target in both forms, the target as it was named, and the content.
pub open spec fn initial_context_of(target: Target) -> JsonV {
    JsonV::Object(
        seq![
            string_member("current-dir"@, target.os_current_dir@),
            string_member("wasm-current-dir"@, target.wasm_current_dir@),
            string_member("os-current-dir"@, target.os_current_dir@),
            string_member("wasm-target"@, target.wasm_target@),
            string_member("os-target"@, target.os_target@),
            string_member("raw-target"@, target.raw_target@),
            string_member("target-content"@, target.content@),
        ],
    )
}

/// The context that an evaluation of `target` starts from.
pub fn initial_context(target: &Target) -> (r: Json)
    ensures
        r@ == initial_context_of(*target),
{
    let mut members: Vec<(String, Json)> = Vec::new();
    members.push(("current-dir".to_owned(), Json::string(target.os_current_dir)));
    members.push(("wasm-current-dir".to_owned(), Json::string(target.wasm_current_dir)));
    members.push(("os-current-dir".to_owned(), Json::string(target.os_current_dir)));
    members.push(("wasm-target".to_owned(), Json::string(target.wasm_target)));
    members.push(("os-target".to_owned(), Json::string(target.os_target)));
    members.push(("raw-target".to_owned(), Json::string(target.raw_target)));
    members.push(("target-content".to_owned(), Json::string(target.content)));
    let r = Json::Object(members);
    proof {
        lemma_view_of_parts(r);
        assert(entries_view(members@) =~= initial_context_of(*target)->Object_0);
    }
    r
}

/// The reason given where no rule matches a path.
pub open spec fn no_rule_reason() -> Seq<char> {
    "No rule matched"@
}

/// The reason given where only a write rule matches a path that needs a
/// pure one.
pub open spec fn only_write_rule_reason() -> Seq<char> {
    "No rule matched (but found non-pure rule)"@
}

/// The rule that formats `target_path`, pure or write, or the response
/// that says that no rule matched.
pub fn format_rule<'a>(config: &'a Config, target_path: &str) -> (r: Result<
    &'a Rule,
    DaemonFormatResponse,
>)
    ensures
        match r {
            Ok(rule) => config@.matched_rule(target_path@, false) == Some(rule@),
            Err(response) => config@.matched_rule(target_path@, false) is None && response@
                == FormatReply::Ignored(no_rule_reason()),
        },
{
    match config.find_matched_rule(target_path, false) {
        Some(rule) => Ok(rule),
        None => Err(DaemonFormatResponse::Ignored("No rule matched".to_owned())),
    }
}

/// Why a path has no pure rule: no rule matches it at all, or the first
/// rule that does has a write bundle.
pub open spec fn pure_miss_reason(config: ConfigV, path: Seq<char>) -> Seq<char> {
    if config.matched_rule(path, false) is Some {
        only_write_rule_reason()
    } else {
        no_rule_reason()
    }
}

/// The pure tree that formats `target_path`, or the response that says why
/// there is none. Write rules are passed over.
pub fn pure_format_rule<'a>(config: &'a Config, target_path: &str) -> (r: Result<
    &'a CommandWithControlFlow<PureCommand>,
    DaemonPureFormatResponse,
>)
    ensures
        match r {
            Ok(cmd) => config@.pure_tree(target_path@) == Some(cmd@),
            Err(response) => config@.matched_rule(target_path@, true) is None && response@
                == PureFormatReply::Ignored(pure_miss_reason(config@, target_path@)),
        },
{
    match config.find_pure_tree(target_path) {
        Some(cmd) => Ok(cmd),
        None => {
            let reason = match config.find_matched_rule(target_path, false) {
                Some(_) => "No rule matched (but found non-pure rule)",
                None => "No rule matched",
            };
            Err(DaemonPureFormatResponse::Ignored(reason.to_owned()))
        },
    }
}

/// Why a final context stands for no response.
#[derive(Clone, Copy, PartialEq, Eq, Structural, Debug)]
pub enum VerdictError {
    /// The status is `error` and the context holds no `format-error`.
    MissingFormatError,
    /// The status is `success` and the context holds no `formatted-content`.
    MissingFormattedContent,
}

/// The reason given where a plugin ignored the file without saying why.
pub open spec fn default_ignored_reason() -> Seq<char> {
    "File ignored"@
}

/// The reason a context gives for having ignored the file.
pub open spec fn ignored_reason(result: JsonV) -> Seq<char> {
    match result.get_str("ignored-reason"@) {
        Some(reason) => reason,
        None => default_ignored_reason(),
    }
}

/// What the final context of a format run says explicitly: `ignored` and
/// `error` are reported as they are; anything else leaves the response to
/// the caller.
pub open spec fn format_verdict_of(result: JsonV) -> Result<Option<FormatReply>, VerdictError> {
    match result.get_str("format-status"@) {
        Some(status) => if status == "ignored"@ {
            Ok(Some(FormatReply::Ignored(ignored_reason(result))))
        } else if status == "error"@ {
            match result.get_str("format-error"@) {
                Some(message) => Ok(Some(FormatReply::Error(message))),
                None => Err(VerdictError::MissingFormatError),
            }
        } else {
            Ok(None)
        },
        None => Ok(None),
    }
}

/// The reason that `result` gives for having ignored the file.
fn read_ignored_reason(result: &Json) -> (r: String)
    ensures
        r@ == ignored_reason(result@),
{
    match result.get_str("ignored-reason") {
        Some(reason) => reason,
        None => "File ignored".to_owned(),
    }
}

/// The response that the final context of a format run asks for, if it
/// asks for one.
pub fn format_verdict(result: &Json) -> (r: Result<Option<DaemonFormatResponse>, VerdictError>)
    ensures
        match r {
            Ok(Some(response)) => format_verdict_of(result@) == Ok::<Option<FormatReply>, VerdictError>(
                Some(response@),
            ),
            Ok(None) => format_verdict_of(result@) == Ok::<Option<FormatReply>, VerdictError>(None),
            Err(e) => format_verdict_of(result@) == Err::<Option<FormatReply>, VerdictError>(e),
        },
{
    match result.get_str("format-status") {
        Some(status) => {
            if str_eq(status.as_str(), "ignored") {
                Ok(Some(DaemonFormatResponse::Ignored(read_ignored_reason(result))))
            } else if str_eq(status.as_str(), "error") {
                match result.get_str("format-error") {
                    Some(message) => Ok(Some(DaemonFormatResponse::Error(message))),
                    None => Err(VerdictError::MissingFormatError),
                }
            } else {
                Ok(None)
            }
        },
        None => Ok(None),
    }
}

/// The message of the response to a plugin that reported no valid status.
pub open spec fn invalid_status_message() -> Seq<char> {
    "Plugin does not return valid value"@
}

/// The response that the final context of a pure-format run stands for:
/// `success` with the formatted content, `ignored` with its reason, `error`
/// with its message; any other status, or none, is an error of the plugin.
pub open spec fn pure_format_verdict_of(result: JsonV) -> Result<PureFormatReply, VerdictError> {
    match result.get_str("format-status"@) {
        Some(status) => if status == "success"@ {
            match result.get_str("formatted-content"@) {
                Some(formatted) => Ok(PureFormatReply::Success(formatted)),
                None => Err(VerdictError::MissingFormattedContent),
            }
        } else if status == "ignored"@ {
            Ok(PureFormatReply::Ignored(ignored_reason(result)))
        } else if status == "error"@ {
            match result.get_str("format-error"@) {
                Some(message) => Ok(PureFormatReply::Error(message)),
                None => Err(VerdictError::MissingFormatError),
            }
        } else {
            Ok(PureFormatReply::Error(invalid_status_message()))
        },
        None => Ok(PureFormatReply::Error(invalid_status_message())),
    }
}

/// The response that the final context of a pure-format run stands for.
pub fn pure_format_verdict(result: &Json) -> (r: Result<DaemonPureFormatResponse, VerdictError>)
    ensures
        match r {
            Ok(response) => pure_format_verdict_of(result@) == Ok::<PureFormatReply, VerdictError>(
                response@,
            ),
            Err(e) => pure_format_verdict_of(result@) == Err::<PureFormatReply, VerdictError>(e),
        },
{
    let invalid = "Plugin does not return valid value";
    match result.get_str("format-status") {
        Some(status) => {
            if str_eq(status.as_str(), "success") {
                match result.get_str("formatted-content") {
                    Some(formatted) => Ok(DaemonPureFormatResponse::Success(formatted)),
                    None => Err(VerdictError::MissingFormattedContent),
                }
            } else if str_eq(status.as_str(), "ignored") {
                Ok(DaemonPureFormatResponse::Ignored(read_ignored_reason(result)))
            } else if str_eq(status.as_str(), "error") {
                match result.get_str("format-error") {
                    Some(message) => Ok(DaemonPureFormatResponse::Error(message)),
                    None => Err(VerdictError::MissingFormatError),
                }
            } else {
                Ok(DaemonPureFormatResponse::Error(invalid.to_owned()))
            }
        },
        None => Ok(DaemonPureFormatResponse::Error(invalid.to_owned())),
    }
}

/// The message that tells a plugin author what a context lacks.
pub open spec fn verdict_error_text(e: VerdictError) -> Seq<char> {
    match e {
        VerdictError::MissingFormatError =>
            "Failed to get format error. Did you forget to return `format-error` in your plugin?"@,
        VerdictError::MissingFormattedContent =>
            "Failed to get formatted content. Did you forget to return `formatted-content` in your plugin?"@,
    }
}

impl VerdictError {
    /// The message that tells a plugin author what the context lacks.
    pub fn message(&self) -> (r: String)
        ensures
            r@ == verdict_error_text(*self),
    {
        match self {
            VerdictError::MissingFormatError =>
                "Failed to get format error. Did you forget to return `format-error` in your plugin?".to_owned(),
            VerdictError::MissingFormattedContent =>
                "Failed to get formatted content. Did you forget to return `formatted-content` in your plugin?".to_owned(),
        }
    }
}

/// How long the handler of a format request sleeps between two looks at
/// the watcher and the worker, in microseconds.
pub const QUICK_TRICK_POLL_MICROS: u64 = 10;

/// The poll interval of the watcher on the target, in microseconds.
pub const WATCH_POLL_MICROS: u64 = 100;

/// Whether the handler of a format request stops waiting: the watcher saw
/// the target change, the worker signalled that it is through, or the
/// worker has ended.
pub fn quick_trick_poll(file_changed: bool, worker_signalled: bool, worker_finished: bool) -> (r: bool)
    ensures
        r == (file_changed || worker_signalled || worker_finished),
{
    file_changed || worker_signalled || worker_finished
}

/// What the worker of a format request ended with, as far as the response
/// depends on it.
pub enum WorkerEnd {
    /// The worker has not ended yet; the target was seen to change.
    StillRunning,
    /// The worker ended and asked for no response of its own.
    Plain,
    /// The worker ended and asked for this response.
    Verdict(DaemonFormatResponse),
    /// The worker failed with this message.
    Failed(String),
}

/// The response that a format request ends with: what the worker asked for
/// or failed with, where it has ended with one of the two, and `Success`
/// in every other case.
pub open spec fn quick_trick_reply(worker: WorkerEnd) -> Result<FormatReply, Seq<char>> {
    match worker {
        WorkerEnd::Verdict(response) => Ok(response@),
        WorkerEnd::Failed(message) => Err(message@),
        _ => Ok(FormatReply::Success),
    }
}

/// The response of a format request once the handler has stopped waiting.
pub fn quick_trick_response(worker: WorkerEnd) -> (r: Result<DaemonFormatResponse, String>)
    ensures
        match r {
            Ok(response) => quick_trick_reply(worker) == Ok::<FormatReply, Seq<char>>(response@),
            Err(message) => quick_trick_reply(worker) == Err::<FormatReply, Seq<char>>(message@),
        },
{
    match worker {
        WorkerEnd::Verdict(response) => Ok(response),
        WorkerEnd::Failed(message) => Err(message),
        _ => Ok(DaemonFormatResponse::Success()),
    }
}

} // verus!
