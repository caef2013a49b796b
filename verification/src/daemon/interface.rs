//! What travels between client and daemon: commands, responses, and the
//! places of the daemon's files.

use crate::path_utils::{join_path, joined};
use vstd::prelude::*;

verus! {

/// The options that every command takes.
#[derive(Clone, Debug)]
pub struct GlobalOptions {
    /// The configuration file to use.
    pub config_file: Option<String>,
    /// The directory to use for caching.
    pub cache_dir: Option<String>,
    /// The directory to use for the daemon socket.
    pub socket_dir: Option<String>,
    /// Avoid reading from or writing to the cache.
    pub no_cache: bool,
    /// Avoid logging long content.
    pub no_long_log: bool,
    /// Keep talking to a daemon of another build.
    pub ignore_build_id_mismatch: bool,
}

/// What a flag of [`GlobalOptions`] reads as where a request leaves it out.
pub fn true_() -> (r: bool)
    ensures
        r,
{
    true
}

/// The arguments of a format request.
#[derive(Clone, Debug)]
pub struct DaemonFormatArgs {
    /// Path to format.
    pub path: String,
}

/// The arguments of a pure-format request.
#[derive(Clone, Debug)]
pub struct DaemonPureFormatArgs {
    /// Path to format.
    pub path: String,
    /// The content to format in place of the file's.
    pub content: String,
}

/// The arguments of a bulk-format request.
#[derive(Clone, Debug)]
pub struct DaemonBulkFormatArgs {
    /// Paths to format.
    pub paths: Vec<String>,
    /// The number of files formatted at a time.
    pub threads: usize,
}

/// A request to the daemon.
#[derive(Clone, Debug)]
pub enum DaemonCommands {
    Format(DaemonFormatArgs),
    PureFormat(DaemonPureFormatArgs),
    BulkFormat(DaemonBulkFormatArgs),
    Stop,
    Ping,
}

/// A request with the directory it was made in and the client's options.
#[derive(Clone, Debug)]
pub struct DaemonCommandPayload {
    pub command: DaemonCommands,
    pub current_dir: String,
    pub global_options: GlobalOptions,
}

/// The value of a [`DaemonFormatResponse`].
pub enum FormatReply {
    Success,
    Ignored(Seq<char>),
    Error(Seq<char>),
}

/// The answer to a format request.
#[derive(Debug)]
pub enum DaemonFormatResponse {
    /// The write has begun and is durable.
    Success(),
    /// Nothing was done, for this reason.
    Ignored(String),
    Error(String),
}

impl View for DaemonFormatResponse {
    type V = FormatReply;

    open spec fn view(&self) -> FormatReply {
        match self {
            DaemonFormatResponse::Success() => FormatReply::Success,
            DaemonFormatResponse::Ignored(reason) => FormatReply::Ignored(reason@),
            DaemonFormatResponse::Error(message) => FormatReply::Error(message@),
        }
    }
}

/// The value of a [`DaemonPureFormatResponse`].
pub enum PureFormatReply {
    Success(Seq<char>),
    Ignored(Seq<char>),
    Error(Seq<char>),
}

/// The answer to a pure-format request.
#[derive(Debug)]
pub enum DaemonPureFormatResponse {
    /// The formatted text.
    Success(String),
    /// Nothing was done, for this reason.
    Ignored(String),
    Error(String),
}

impl View for DaemonPureFormatResponse {
    type V = PureFormatReply;

    open spec fn view(&self) -> PureFormatReply {
        match self {
            DaemonPureFormatResponse::Success(formatted) => PureFormatReply::Success(formatted@),
            DaemonPureFormatResponse::Ignored(reason) => PureFormatReply::Ignored(reason@),
            DaemonPureFormatResponse::Error(message) => PureFormatReply::Error(message@),
        }
    }
}

/// The value of a [`DaemonBulkFormatResponse`].
pub enum BulkFormatReply {
    Success(Seq<char>),
    Error(Seq<char>),
}

/// The answer to a bulk-format request.
#[derive(Debug)]
pub enum DaemonBulkFormatResponse {
    /// The summary of what was processed.
    Success(String),
    Error(String),
}

impl View for DaemonBulkFormatResponse {
    type V = BulkFormatReply;

    open spec fn view(&self) -> BulkFormatReply {
        match self {
            DaemonBulkFormatResponse::Success(summary) => BulkFormatReply::Success(summary@),
            DaemonBulkFormatResponse::Error(message) => BulkFormatReply::Error(message@),
        }
    }
}

/// Where a daemon's output goes.
#[derive(Debug)]
pub enum OutputPath {
    /// Into this file.
    Path(String),
    /// To the terminal the daemon is attached to.
    Attached,
}

/// How an output path is shown.
pub open spec fn output_path_text(path: OutputPath) -> Seq<char> {
    match path {
        OutputPath::Path(p) => p@,
        OutputPath::Attached => "<attached>"@,
    }
}

impl OutputPath {
    /// The text the path is shown as: the path itself, or `<attached>`.
    pub fn to_text(&self) -> (r: String)
        ensures
            r@ == output_path_text(*self),
    {
        match self {
            OutputPath::Path(p) => p.clone(),
            OutputPath::Attached => "<attached>".to_owned(),
        }
    }
}

impl Clone for OutputPath {
    fn clone(&self) -> (r: Self)
        ensures
            output_path_text(r) == output_path_text(*self),
            r is Attached == self is Attached,
    {
        match self {
            OutputPath::Path(p) => OutputPath::Path(p.clone()),
            OutputPath::Attached => OutputPath::Attached,
        }
    }
}

/// The value of a [`DaemonInfo`].
pub struct DaemonInfoV {
    pub pid: nat,
    pub start_time: nat,
    pub stdout_attached: bool,
    pub stdout_path: Seq<char>,
    pub stderr_attached: bool,
    pub stderr_path: Seq<char>,
    pub build_id: Seq<char>,
}

/// What a daemon says of itself in answer to a ping.
#[derive(Debug)]
pub struct DaemonInfo {
    pub pid: u32,
    pub start_time: u64,
    pub stdout_path: OutputPath,
    pub stderr_path: OutputPath,
    pub build_id: String,
}

impl View for DaemonInfo {
    type V = DaemonInfoV;

    open spec fn view(&self) -> DaemonInfoV {
        DaemonInfoV {
            pid: self.pid as nat,
            start_time: self.start_time as nat,
            stdout_attached: self.stdout_path is Attached,
            stdout_path: output_path_text(self.stdout_path),
            stderr_attached: self.stderr_path is Attached,
            stderr_path: output_path_text(self.stderr_path),
            build_id: self.build_id@,
        }
    }
}

impl Clone for DaemonInfo {
    fn clone(&self) -> (r: Self)
        ensures
            r@ == self@,
    {
        DaemonInfo {
            pid: self.pid,
            start_time: self.start_time,
            stdout_path: self.stdout_path.clone(),
            stderr_path: self.stderr_path.clone(),
            build_id: self.build_id.clone(),
        }
    }
}

/// The value of a [`DaemonResponse`].
pub enum ResponseV {
    Format(FormatReply),
    PureFormat(PureFormatReply),
    BulkFormat(BulkFormatReply),
    Stop,
    Pong(DaemonInfoV),
}

/// The answer to a request.
#[derive(Debug)]
pub enum DaemonResponse {
    Format(DaemonFormatResponse),
    PureFormat(DaemonPureFormatResponse),
    BulkFormat(DaemonBulkFormatResponse),
    Stop,
    Pong(DaemonInfo),
}

impl View for DaemonResponse {
    type V = ResponseV;

    open spec fn view(&self) -> ResponseV {
        match self {
            DaemonResponse::Format(r) => ResponseV::Format(r@),
            DaemonResponse::PureFormat(r) => ResponseV::PureFormat(r@),
            DaemonResponse::BulkFormat(r) => ResponseV::BulkFormat(r@),
            DaemonResponse::Stop => ResponseV::Stop,
            DaemonResponse::Pong(info) => ResponseV::Pong(info@),
        }
    }
}

/// The places of a daemon's files: its socket, the info file beside it and
/// the lock file that start-up is arbitrated with.
#[derive(Debug)]
pub struct DaemonSocketPath {
    pub socket_path: String,
    pub info_path: String,
    pub lock_path: String,
}

impl DaemonSocketPath {
    /// The places of the files of the daemon whose socket directory is
    /// `socket_dir`.
    pub fn from_socket_dir(socket_dir: &str) -> (r: Self)
        ensures
            r.socket_path@ == joined(socket_dir@, "daemon-cmd.sock"@),
            r.info_path@ == joined(socket_dir@, "daemon-cmd.sock.info"@),
            r.lock_path@ == joined(socket_dir@, "daemon.lock"@),
    {
        DaemonSocketPath {
            socket_path: join_path(socket_dir, "daemon-cmd.sock"),
            info_path: join_path(socket_dir, "daemon-cmd.sock.info"),
            lock_path: join_path(socket_dir, "daemon.lock"),
        }
    }

    /// The info file of a socket is named after it: `.info` is appended.
    pub proof fn lemma_info_beside_socket(socket_dir: Seq<char>)
        ensures
            joined(socket_dir, "daemon-cmd.sock.info"@) == joined(socket_dir, "daemon-cmd.sock"@)
                + ".info"@,
    {
        reveal_strlit("daemon-cmd.sock.info");
        reveal_strlit("daemon-cmd.sock");
        reveal_strlit(".info");
        assert("daemon-cmd.sock.info"@ =~= "daemon-cmd.sock"@ + ".info"@);
        assert(joined(socket_dir, "daemon-cmd.sock.info"@) =~= joined(socket_dir, "daemon-cmd.sock"@)
            + ".info"@);
    }
}

} // verus!
