//! The info file beside the socket and what a client concludes from it
//! about the daemon.

use crate::daemon::startup::Probe;
use crate::text::{
    decimal,
    free_of,
    lemma_decimal_round_trip,
    lemma_split_append,
    lemma_split_single,
    parse_decimal,
    parsed_decimal,
    push_decimal,
    push_str,
    split_chars,
    split_on,
    str_chars,
    str_eq,
    string_from_chars,
};
use vstd::prelude::*;

verus! {

/// The value of an [`InfoRecord`].
pub struct InfoV {
    pub pid: nat,
    pub start_time: nat,
    pub build_id: Seq<char>,
}

/// What the info file records of the daemon that wrote it.
#[derive(Debug)]
pub struct InfoRecord {
    pub pid: u32,
    pub start_time: u64,
    pub build_id: String,
}

impl View for InfoRecord {
    type V = InfoV;

    open spec fn view(&self) -> InfoV {
        InfoV { pid: self.pid as nat, start_time: self.start_time as nat, build_id: self.build_id@ }
    }
}

/// The line of the info file: pid, start time and build id with commas
/// between and a line feed at the end.
pub open spec fn info_text(info: InfoV) -> Seq<char> {
    decimal(info.pid) + seq![','] + decimal(info.start_time) + seq![','] + info.build_id + seq!['\n']
}

/// `text` without the one line feed that may end it.
pub open spec fn without_line_end(text: Seq<char>) -> Seq<char> {
    if text.len() > 0 && text.last() == '\n' {
        text.drop_last()
    } else {
        text
    }
}

/// What the info file records: its line must fall into exactly three
/// parts, of which the first is a pid and the second a start time.
pub open spec fn info_of(text: Seq<char>) -> Option<InfoV> {
    let parts = split_on(without_line_end(text), ',');
    if parts.len() != 3 {
        None
    } else {
        match (parsed_decimal(parts[0], u32::MAX as nat), parsed_decimal(parts[1], u64::MAX as nat)) {
            (Some(pid), Some(start_time)) => Some(InfoV { pid, start_time, build_id: parts[2] }),
            _ => None,
        }
    }
}

/// The line to write into the info file.
pub fn info_line(pid: u32, start_time: u64, build_id: &str) -> (r: String)
    ensures
        r@ == info_text(InfoV { pid: pid as nat, start_time: start_time as nat, build_id: build_id@ }),
{
    let mut out: Vec<char> = Vec::new();
    push_decimal(&mut out, pid as u64);
    out.push(',');
    push_decimal(&mut out, start_time);
    out.push(',');
    push_str(&mut out, build_id);
    out.push('\n');
    string_from_chars(&out)
}

/// Reads the line of the info file.
pub fn parse_info(info_str: &str) -> (r: Option<InfoRecord>)
    ensures
        match r {
            Some(record) => info_of(info_str@) == Some(record@),
            None => info_of(info_str@) is None,
        },
{
    let mut chars = str_chars(info_str);
    if chars.len() > 0 && chars[chars.len() - 1] == '\n' {
        chars.pop();
    }
    assert(chars@ =~= without_line_end(info_str@));
    let parts = split_chars(&chars, ',');
    if parts.len() != 3 {
        return None;
    }
    let pid = match parse_decimal(&parts[0], u32::MAX as u64) {
        Some(pid) => pid as u32,
        None => {
            return None;
        },
    };
    let start_time = match parse_decimal(&parts[1], u64::MAX) {
        Some(start_time) => start_time,
        None => {
            return None;
        },
    };
    let build_id = string_from_chars(&parts[2]);
    Some(InfoRecord { pid, start_time, build_id })
}

/// What a daemon writes into its info file reads back as what it wrote,
/// as long as its build id holds neither a comma nor a line feed.
pub proof fn lemma_info_round_trip(info: InfoV)
    requires
        info.pid <= u32::MAX,
        info.start_time <= u64::MAX,
        free_of(info.build_id, ','),
        free_of(info.build_id, '\n'),
    ensures
        info_of(info_text(info)) == Some(info),
{
    let a = decimal(info.pid);
    let b = decimal(info.start_time);
    let line = a + seq![','] + b + seq![','] + info.build_id;
    lemma_decimal_round_trip(info.pid);
    lemma_decimal_round_trip(info.start_time);
    assert(without_line_end(info_text(info)) =~= line);
    lemma_split_single(a, ',');
    lemma_split_append(a, b, ',');
    lemma_split_append(a + seq![','] + b, info.build_id, ',');
    assert(split_on(line, ',') =~= seq![a, b, info.build_id]);
}

/// The value of a [`DaemonStatus`].
pub enum StatusV {
    NotRunning,
    Running(Seq<char>),
}

/// Whether a daemon is running and, if so, of which build.
#[derive(Debug)]
pub enum DaemonStatus {
    NotRunning,
    /// A daemon is running; its build id.
    Running(String),
}

impl View for DaemonStatus {
    type V = StatusV;

    open spec fn view(&self) -> StatusV {
        match self {
            DaemonStatus::NotRunning => StatusV::NotRunning,
            DaemonStatus::Running(build_id) => StatusV::Running(build_id@),
        }
    }
}

/// What the info file and the process table together say: a daemon is
/// running exactly if there is an info file, its pid is alive and that
/// process started when the file says.
pub open spec fn liveness(record: Option<InfoV>, pid_alive: bool, observed_start: nat) -> StatusV {
    match record {
        None => StatusV::NotRunning,
        Some(info) => if pid_alive && observed_start == info.start_time {
            StatusV::Running(info.build_id)
        } else {
            StatusV::NotRunning
        },
    }
}

/// Whether the daemon of the info file is alive.
///
/// `record` is what the info file holds, if there is one; `pid_alive` says
/// whether the process with its pid exists, and `observed_start` when that
/// process started. A pid that was given to another process since the file
/// was written is told apart by its start time.
pub fn daemon_is_alive(record: Option<&InfoRecord>, pid_alive: bool, observed_start: u64) -> (r:
    DaemonStatus)
    ensures
        r@ == liveness(
            match record {
                Some(info) => Some(info@),
                None => None,
            },
            pid_alive,
            observed_start as nat,
        ),
        r is NotRunning <==> (record is None || !pid_alive || observed_start != record->0.start_time),
{
    match record {
        None => DaemonStatus::NotRunning,
        Some(info) => {
            if !pid_alive {
                return DaemonStatus::NotRunning;
            }
            if observed_start != info.start_time {
                return DaemonStatus::NotRunning;
            }
            DaemonStatus::Running(info.build_id.clone())
        },
    }
}

/// What a status means to a client of the build `client_build_id`.
pub open spec fn probe_of(status: StatusV, client_build_id: Seq<char>) -> Probe {
    match status {
        StatusV::NotRunning => Probe::NotRunning,
        StatusV::Running(build_id) => if build_id == client_build_id {
            Probe::RunningSame
        } else {
            Probe::RunningOther
        },
    }
}

/// Tells a daemon of the client's own build from one of another build.
pub fn classify_status(status: &DaemonStatus, client_build_id: &str) -> (r: Probe)
    ensures
        r == probe_of(status@, client_build_id@),
{
    match status {
        DaemonStatus::NotRunning => Probe::NotRunning,
        DaemonStatus::Running(build_id) => {
            if str_eq(build_id.as_str(), client_build_id) {
                Probe::RunningSame
            } else {
                Probe::RunningOther
            }
        },
    }
}

} // verus!
