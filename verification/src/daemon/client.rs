//! The client's side of a request: whether a ping found a daemon, whether
//! a command may be sent, and what the user is shown of the response.

use crate::daemon::interface::{
    BulkFormatReply,
    DaemonBulkFormatResponse,
    DaemonFormatResponse,
    DaemonInfo,
    DaemonInfoV,
    DaemonPureFormatResponse,
    DaemonResponse,
    FormatReply,
    PureFormatReply,
    ResponseV,
};
use crate::text::{decimal, push_decimal, push_str, string_from_chars, strings_view};
use vstd::prelude::*;

verus! {

/// How long a ping waits for its answer, in milliseconds.
pub const PING_TIMEOUT_MILLIS: u64 = 1000;

/// What a ping ran into.
#[derive(Clone, Copy, PartialEq, Eq, Structural, Debug)]
pub enum PingObservation {
    /// The connection was refused.
    Refused,
    /// The socket file does not exist.
    NotFound,
    /// The connection failed in another way.
    ConnectFailed,
    /// The daemon answered with `Pong`.
    Pong,
    /// The daemon answered with another response.
    OtherResponse,
    /// No answer came within the time allowed.
    TimedOut,
    /// The exchange failed in another way.
    Failed,
}

/// Whether a ping found a daemon: `Some(true)` for a pong, `Some(false)`
/// where nobody listens, the wait ran out or the answer was no pong, and
/// `None` where the ping itself failed.
pub open spec fn ping_result(observed: PingObservation) -> Option<bool> {
    match observed {
        PingObservation::Pong => Some(true),
        PingObservation::Refused | PingObservation::NotFound | PingObservation::OtherResponse
        | PingObservation::TimedOut => Some(false),
        PingObservation::ConnectFailed | PingObservation::Failed => None,
    }
}

/// Whether the ping that ran into `observed` found a daemon.
pub fn ping(observed: PingObservation) -> (r: Option<bool>)
    ensures
        r == ping_result(observed),
{
    match observed {
        PingObservation::Pong => Some(true),
        PingObservation::Refused => Some(false),
        PingObservation::NotFound => Some(false),
        PingObservation::OtherResponse => Some(false),
        PingObservation::TimedOut => Some(false),
        PingObservation::ConnectFailed => None,
        PingObservation::Failed => None,
    }
}

/// Whether a command may be sent.
#[derive(Clone, Copy, PartialEq, Eq, Structural, Debug)]
pub enum Gate {
    /// Send the command.
    Proceed,
    /// The info file shows no daemon; ping before a stop is given up.
    PingFirst,
    /// No daemon is running: refuse the command.
    Refuse,
}

/// Whether a command may be sent. Without the check every command is
/// sent. With it a command is sent to a running daemon only, except that a
/// stop is tried on the strength of a ping where the info file shows none.
pub fn command_gate(check_alive: bool, running: bool, is_stop: bool) -> (r: Gate)
    ensures
        r == (if !check_alive || running {
            Gate::Proceed
        } else if is_stop {
            Gate::PingFirst
        } else {
            Gate::Refuse
        }),
{
    if !check_alive || running {
        Gate::Proceed
    } else if is_stop {
        Gate::PingFirst
    } else {
        Gate::Refuse
    }
}

/// The message of a command that found no daemon.
pub fn not_running_message() -> (r: String)
    ensures
        r@ == "Daemon is not running!"@,
{
    "Daemon is not running!".to_owned()
}

/// The value of a [`Rendered`].
pub struct RenderedV {
    pub log: Option<Seq<char>>,
    pub stdout: Seq<Seq<char>>,
    pub error: Option<Seq<char>>,
}

/// What the user is shown of a response: a line for the log, lines for the
/// standard output, and the error that the command ends with, if any.
#[derive(Debug)]
pub struct Rendered {
    pub log: Option<String>,
    pub stdout: Vec<String>,
    pub error: Option<String>,
}

impl View for Rendered {
    type V = RenderedV;

    open spec fn view(&self) -> RenderedV {
        RenderedV {
            log: match self.log {
                Some(s) => Some(s@),
                None => None,
            },
            stdout: strings_view(self.stdout@),
            error: match self.error {
                Some(s) => Some(s@),
                None => None,
            },
        }
    }
}

/// What is shown of a success or of an ignored file: a line in the log.
pub open spec fn logged(line: Seq<char>) -> RenderedV {
    RenderedV { log: Some(line), stdout: Seq::empty(), error: None }
}

/// What is shown of an error response: the command fails with its message.
pub open spec fn failed(message: Seq<char>) -> RenderedV {
    RenderedV { log: None, stdout: Seq::empty(), error: Some(message) }
}

/// The lines that describe a daemon.
pub open spec fn pong_lines(info: DaemonInfoV) -> Seq<Seq<char>> {
    seq![
        "pong!"@,
        "daemon pid: "@ + decimal(info.pid),
        "daemon start time: "@ + decimal(info.start_time),
        "daemon log file: "@ + info.stderr_path,
        "daemon build id: "@ + info.build_id,
    ]
}

/// What the user is shown of a response. A success and an ignored file are
/// reported in the log, the formatted text of a pure format and the
/// daemon's description are printed, and an error response fails the
/// command with its message.
pub open spec fn rendered_of(response: ResponseV) -> RenderedV {
    match response {
        ResponseV::Format(FormatReply::Success) => logged("Success to format"@),
        ResponseV::Format(FormatReply::Ignored(reason)) => logged("File ignored. reason: "@ + reason),
        ResponseV::Format(FormatReply::Error(message)) => failed(message),
        ResponseV::PureFormat(PureFormatReply::Success(formatted)) => RenderedV {
            log: Some("Success to format"@),
            stdout: seq![formatted],
            error: None,
        },
        ResponseV::PureFormat(PureFormatReply::Ignored(reason)) => logged(
            "File ignored. reason: "@ + reason,
        ),
        ResponseV::PureFormat(PureFormatReply::Error(message)) => failed(message),
        ResponseV::BulkFormat(BulkFormatReply::Success(summary)) => logged(
            "Success to format: "@ + summary,
        ),
        ResponseV::BulkFormat(BulkFormatReply::Error(message)) => failed(message),
        ResponseV::Stop => logged("Daemon stopped"@),
        ResponseV::Pong(info) => RenderedV { log: None, stdout: pong_lines(info), error: None },
    }
}

/// `label` followed by `text`.
fn labelled(label: &str, text: &str) -> (r: String)
    ensures
        r@ == label@ + text@,
{
    let mut out: Vec<char> = Vec::new();
    push_str(&mut out, label);
    push_str(&mut out, text);
    string_from_chars(&out)
}

/// `label` followed by the decimal notation of `n`.
fn labelled_number(label: &str, n: u64) -> (r: String)
    ensures
        r@ == label@ + decimal(n as nat),
{
    let mut out: Vec<char> = Vec::new();
    push_str(&mut out, label);
    push_decimal(&mut out, n);
    string_from_chars(&out)
}

/// What is shown of a line for the log.
fn log_only(line: String) -> (r: Rendered)
    ensures
        r@ == logged(line@),
{
    let r = Rendered { log: Some(line), stdout: Vec::new(), error: None };
    assert(strings_view(r.stdout@) =~= Seq::empty());
    r
}

/// What is shown of an error response.
fn error_only(message: String) -> (r: Rendered)
    ensures
        r@ == failed(message@),
{
    let r = Rendered { log: None, stdout: Vec::new(), error: Some(message) };
    assert(strings_view(r.stdout@) =~= Seq::empty());
    r
}

/// The lines that describe the daemon `info`.
fn render_pong(info: &DaemonInfo) -> (r: Rendered)
    ensures
        r@ == (RenderedV { log: None, stdout: pong_lines(info@), error: None }),
{
    let mut lines: Vec<String> = Vec::new();
    lines.push("pong!".to_owned());
    lines.push(labelled_number("daemon pid: ", info.pid as u64));
    lines.push(labelled_number("daemon start time: ", info.start_time));
    let log_file = info.stderr_path.to_text();
    lines.push(labelled("daemon log file: ", log_file.as_str()));
    lines.push(labelled("daemon build id: ", info.build_id.as_str()));
    let r = Rendered { log: None, stdout: lines, error: None };
    assert(strings_view(r.stdout@) =~= pong_lines(info@));
    r
}

/// What the user is shown of `response`.
pub fn render_response(response: &DaemonResponse) -> (r: Rendered)
    ensures
        r@ == rendered_of(response@),
{
    match response {
        DaemonResponse::Format(reply) => match reply {
            DaemonFormatResponse::Success() => log_only("Success to format".to_owned()),
            DaemonFormatResponse::Ignored(reason) => log_only(
                labelled("File ignored. reason: ", reason.as_str()),
            ),
            DaemonFormatResponse::Error(message) => error_only(message.clone()),
        },
        DaemonResponse::PureFormat(reply) => match reply {
            DaemonPureFormatResponse::Success(formatted) => {
                let mut lines: Vec<String> = Vec::new();
                lines.push(formatted.clone());
                let r = Rendered {
                    log: Some("Success to format".to_owned()),
                    stdout: lines,
                    error: None,
                };
                assert(strings_view(r.stdout@) =~= seq![formatted@]);
                r
            },
            DaemonPureFormatResponse::Ignored(reason) => log_only(
                labelled("File ignored. reason: ", reason.as_str()),
            ),
            DaemonPureFormatResponse::Error(message) => error_only(message.clone()),
        },
        DaemonResponse::BulkFormat(reply) => match reply {
            DaemonBulkFormatResponse::Success(summary) => log_only(
                labelled("Success to format: ", summary.as_str()),
            ),
            DaemonBulkFormatResponse::Error(message) => error_only(message.clone()),
        },
        DaemonResponse::Stop => log_only("Daemon stopped".to_owned()),
        DaemonResponse::Pong(info) => render_pong(info),
    }
}

/// The exit code of a command: zero unless it ended with an error.
pub fn exit_code(rendered: &Rendered) -> (r: u8)
    ensures
        r == 0 <==> rendered.error is None,
{
    match rendered.error {
        Some(_) => 1,
        None => 0,
    }
}

/// An error response and no other fails the command: a success and an
/// ignored file end it with exit code zero.
pub proof fn lemma_only_errors_fail(response: ResponseV)
    ensures
        rendered_of(response).error is Some <==> (response matches ResponseV::Format(
            FormatReply::Error(_),
        ) || response matches ResponseV::PureFormat(PureFormatReply::Error(_))
            || response matches ResponseV::BulkFormat(BulkFormatReply::Error(_))),
{
}

} // verus!
