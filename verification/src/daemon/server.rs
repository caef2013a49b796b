//! The daemon's side of a request: which work a command asks for, how the
//! work's result becomes a response, and what the listener does about its
//! socket.

use crate::daemon::interface::{
    BulkFormatReply,
    DaemonBulkFormatArgs,
    DaemonBulkFormatResponse,
    DaemonCommands,
    DaemonFormatArgs,
    DaemonFormatResponse,
    DaemonInfo,
    DaemonInfoV,
    DaemonPureFormatArgs,
    DaemonPureFormatResponse,
    DaemonResponse,
    FormatReply,
    OutputPath,
    PureFormatReply,
    ResponseV,
};
use crate::path_utils::{join_path, joined};
use crate::text::{push_str, str_chars, string_from_chars};
use vstd::prelude::*;

verus! {

/// How long the daemon sleeps before it reads again from a connection
/// whose request has not arrived in full, in microseconds.
pub const READ_RETRY_MICROS: u64 = 10;

/// How long the listener sleeps between two looks for a connection, in
/// microseconds.
pub const ACCEPT_POLL_MICROS: u64 = 10;

/// What a command asks of the daemon.
pub enum ServerJob<'a> {
    /// Format one file and write it.
    Format(&'a DaemonFormatArgs),
    /// Format the content given and return the text.
    PureFormat(&'a DaemonPureFormatArgs),
    /// Format what lies under the paths given.
    BulkFormat(&'a DaemonBulkFormatArgs),
    /// Answer at once.
    Reply(DaemonResponse),
}

/// What `command` asks of the daemon described by `info`: a stop request
/// and a ping are answered at once, with `Stop` and with the daemon's own
/// description; a format request of any kind is work for a handler.
pub fn serverside_exec_command<'a>(command: &'a DaemonCommands, info: &DaemonInfo) -> (r: ServerJob<'a>)
    ensures
        match command {
            DaemonCommands::Format(args) => r matches ServerJob::Format(job) && job == args,
            DaemonCommands::PureFormat(args) => r matches ServerJob::PureFormat(job) && job == args,
            DaemonCommands::BulkFormat(args) => r matches ServerJob::BulkFormat(job) && job == args,
            DaemonCommands::Stop => r matches ServerJob::Reply(response) && response@ == ResponseV::Stop,
            DaemonCommands::Ping => r matches ServerJob::Reply(response) && response@ == ResponseV::Pong(
                info@,
            ),
        },
{
    match command {
        DaemonCommands::Format(args) => ServerJob::Format(args),
        DaemonCommands::PureFormat(args) => ServerJob::PureFormat(args),
        DaemonCommands::BulkFormat(args) => ServerJob::BulkFormat(args),
        DaemonCommands::Stop => ServerJob::Reply(DaemonResponse::Stop),
        DaemonCommands::Ping => ServerJob::Reply(DaemonResponse::Pong(info.clone())),
    }
}

/// The response to a format request: what the handler returned, or its
/// failure as an error response. The daemon does not end on a request
/// that failed.
pub fn format_response(outcome: Result<DaemonFormatResponse, String>) -> (r: DaemonResponse)
    ensures
        r@ == ResponseV::Format(
            match outcome {
                Ok(response) => response@,
                Err(message) => FormatReply::Error(message@),
            },
        ),
{
    match outcome {
        Ok(response) => DaemonResponse::Format(response),
        Err(message) => DaemonResponse::Format(DaemonFormatResponse::Error(message)),
    }
}

/// The response to a pure-format request: what the handler returned, or
/// its failure as an error response.
pub fn pure_format_response(outcome: Result<DaemonPureFormatResponse, String>) -> (r: DaemonResponse)
    ensures
        r@ == ResponseV::PureFormat(
            match outcome {
                Ok(response) => response@,
                Err(message) => PureFormatReply::Error(message@),
            },
        ),
{
    match outcome {
        Ok(response) => DaemonResponse::PureFormat(response),
        Err(message) => DaemonResponse::PureFormat(DaemonPureFormatResponse::Error(message)),
    }
}

/// The response to a bulk-format request: what the handler returned, or
/// its failure as an error response.
pub fn bulk_format_response(outcome: Result<DaemonBulkFormatResponse, String>) -> (r: DaemonResponse)
    ensures
        r@ == ResponseV::BulkFormat(
            match outcome {
                Ok(response) => response@,
                Err(message) => BulkFormatReply::Error(message@),
            },
        ),
{
    match outcome {
        Ok(response) => DaemonResponse::BulkFormat(response),
        Err(message) => DaemonResponse::BulkFormat(DaemonBulkFormatResponse::Error(message)),
    }
}

/// Whether the listener ends once `response` is sent: only after `Stop`.
pub fn stops_listener(response: &DaemonResponse) -> (r: bool)
    ensures
        r == (response@ is Stop),
{
    match response {
        DaemonResponse::Stop => true,
        _ => false,
    }
}

/// What the daemon does where the socket's address is in use.
#[derive(Clone, Copy, PartialEq, Eq, Structural, Debug)]
pub enum BindCollision {
    /// A daemon answers on the socket: give up, it is already running.
    AlreadyRunning,
    /// Nobody answers: remove the socket file and the info file that a
    /// daemon left behind, and bind again.
    Reclaim,
}

/// What the daemon does where the socket's address is in use, given
/// whether a ping on the socket was answered.
pub fn bind_collision(peer_answers: bool) -> (r: BindCollision)
    ensures
        r == (if peer_answers {
            BindCollision::AlreadyRunning
        } else {
            BindCollision::Reclaim
        }),
{
    if peer_answers {
        BindCollision::AlreadyRunning
    } else {
        BindCollision::Reclaim
    }
}

/// The message of a daemon that found another one running.
pub fn already_running_message() -> (r: String)
    ensures
        r@ == "Daemon is already running"@,
{
    "Daemon is already running".to_owned()
}

/// The info file of the socket at `socket_path`: the socket's path with
/// `.info` appended.
pub fn info_path_of(socket_path: &str) -> (r: String)
    ensures
        r@ == socket_path@ + ".info"@,
{
    let mut out = str_chars(socket_path);
    push_str(&mut out, ".info");
    string_from_chars(&out)
}

/// How a daemon is started.
#[derive(Clone, Copy, PartialEq, Eq, Structural, Debug)]
pub enum Launch {
    /// The daemon runs in the calling process.
    Attached,
    /// The daemon runs in a process of its own, detached from the caller.
    Background,
}

/// The description of a daemon that runs attached or writes its output
/// into the log files under `log_dir`.
pub open spec fn daemon_info_of(
    attach: bool,
    pid: u32,
    start_time: u64,
    build_id: Seq<char>,
    log_dir: Seq<char>,
) -> DaemonInfoV {
    DaemonInfoV {
        pid: pid as nat,
        start_time: start_time as nat,
        stdout_attached: attach,
        stdout_path: if attach {
            "<attached>"@
        } else {
            joined(log_dir, "foro-stdout.log"@)
        },
        stderr_attached: attach,
        stderr_path: if attach {
            "<attached>"@
        } else {
            joined(log_dir, "foro.log"@)
        },
        build_id,
    }
}

/// How the daemon is started and how it describes itself: attached, it
/// runs in the calling process and its output stays on the terminal; in
/// the background, its standard output goes to `foro-stdout.log` and its
/// standard error to `foro.log` under `log_dir`.
pub fn start_daemon(attach: bool, pid: u32, start_time: u64, build_id: &str, log_dir: &str) -> (r: (
    Launch,
    DaemonInfo,
))
    ensures
        r.0 == (if attach {
            Launch::Attached
        } else {
            Launch::Background
        }),
        r.1@ == daemon_info_of(attach, pid, start_time, build_id@, log_dir@),
{
    if attach {
        (
            Launch::Attached,
            DaemonInfo {
                pid,
                start_time,
                stdout_path: OutputPath::Attached,
                stderr_path: OutputPath::Attached,
                build_id: build_id.to_owned(),
            },
        )
    } else {
        (
            Launch::Background,
            DaemonInfo {
                pid,
                start_time,
                stdout_path: OutputPath::Path(join_path(log_dir, "foro-stdout.log")),
                stderr_path: OutputPath::Path(join_path(log_dir, "foro.log")),
                build_id: build_id.to_owned(),
            },
        )
    }
}

} // verus!
