//! What the Linux process table says about a process, read from the text
//! of `/proc/stat` and `/proc/<pid>/stat`.

use crate::text::{lists_view, parse_decimal, parsed_decimal, split_chars, split_on, starts_with, str_chars};
use vstd::prelude::*;

verus! {

/// Whether `c` is white space.
pub open spec fn is_space(c: char) -> bool {
    let n = c as u32;
    (0x09 <= n <= 0x0d) || n == 0x20 || n == 0x85 || n == 0xa0 || n == 0x1680 || (0x2000 <= n
        <= 0x200a) || n == 0x2028 || n == 0x2029 || n == 0x202f || n == 0x205f || n == 0x3000
}

/// The fields of `s` that are complete, and the field that its end is in.
pub open spec fn fields_scan(s: Seq<char>) -> (Seq<Seq<char>>, Seq<char>)
    decreases s.len(),
{
    if s.len() == 0 {
        (Seq::empty(), Seq::empty())
    } else {
        let (done, current) = fields_scan(s.drop_last());
        if is_space(s.last()) {
            if current.len() > 0 {
                (done.push(current), Seq::empty())
            } else {
                (done, current)
            }
        } else {
            (done, current.push(s.last()))
        }
    }
}

/// The fields of `s`: its maximal runs of characters that are no white
/// space, in order.
pub open spec fn fields_of(s: Seq<char>) -> Seq<Seq<char>> {
    let (done, current) = fields_scan(s);
    if current.len() > 0 {
        done.push(current)
    } else {
        done
    }
}

/// Whether `c` is white space.
fn is_space_char(c: char) -> (r: bool)
    ensures
        r == is_space(c),
{
    let n = c as u32;
    (0x09 <= n && n <= 0x0d) || n == 0x20 || n == 0x85 || n == 0xa0 || n == 0x1680 || (0x2000 <= n
        && n <= 0x200a) || n == 0x2028 || n == 0x2029 || n == 0x202f || n == 0x205f || n == 0x3000
}

/// The fields of `chars`.
pub fn split_fields(chars: &Vec<char>) -> (r: Vec<Vec<char>>)
    ensures
        lists_view(r@) == fields_of(chars@),
{
    let mut done: Vec<Vec<char>> = Vec::new();
    let mut current: Vec<char> = Vec::new();
    let mut i: usize = 0;
    assert(chars@.take(0) =~= Seq::<char>::empty());
    assert(lists_view(done@) =~= Seq::empty());
    while i < chars.len()
        invariant
            i <= chars.len(),
            (lists_view(done@), current@) == fields_scan(chars@.take(i as int)),
        decreases chars.len() - i,
    {
        let c = chars[i];
        proof {
            assert(chars@.take(i + 1).drop_last() =~= chars@.take(i as int));
        }
        if is_space_char(c) {
            if current.len() > 0 {
                let ghost before = lists_view(done@);
                let ghost field = current@;
                done.push(current);
                current = Vec::new();
                assert(lists_view(done@) =~= before.push(field));
            }
        } else {
            current.push(c);
        }
        i += 1;
    }
    assert(chars@.take(chars.len() as int) =~= chars@);
    if current.len() > 0 {
        let ghost before = lists_view(done@);
        let ghost field = current@;
        done.push(current);
        assert(lists_view(done@) =~= before.push(field));
    }
    done
}

/// Why the process table could not be read.
#[derive(Clone, Copy, PartialEq, Eq, Structural, Debug)]
pub enum ProcError {
    /// A `btime` line does not have two fields.
    BadBootTime,
    /// No `btime` line holds a number.
    NoBootTime,
    /// The process's line has fewer than twenty-two fields.
    NoStartTime,
    /// The twenty-second field is no number.
    BadStartTime,
    /// The clock does not tick.
    NoClockTicks,
    /// The start time does not fit into 64 bits.
    Overflow,
}

/// The boot time that the lines `lines[from..]` give: the number on the
/// first line that begins with `btime`, has two fields and a number as the
/// second. A `btime` line with another number of fields is a fault.
pub open spec fn boot_time_in(lines: Seq<Seq<char>>, from: nat) -> Result<nat, ProcError>
    decreases lines.len() - from,
{
    if from >= lines.len() {
        Err(ProcError::NoBootTime)
    } else {
        let line = lines[from as int];
        if "btime"@.len() <= line.len() && line.take("btime"@.len() as int) == "btime"@ {
            let parts = fields_of(line);
            if parts.len() == 2 {
                match parsed_decimal(parts[1], u64::MAX as nat) {
                    Some(n) => Ok(n),
                    None => boot_time_in(lines, from + 1),
                }
            } else {
                Err(ProcError::BadBootTime)
            }
        } else {
            boot_time_in(lines, from + 1)
        }
    }
}

/// The boot time that the text of `/proc/stat` gives, in seconds since the
/// epoch.
pub open spec fn boot_time_of(stat: Seq<char>) -> Result<nat, ProcError> {
    boot_time_in(split_on(stat, '\n'), 0)
}

/// Reads the boot time from the text of `/proc/stat`.
pub fn get_boot_time(proc_stat: &str) -> (r: Result<u64, ProcError>)
    ensures
        match r {
            Ok(n) => boot_time_of(proc_stat@) == Ok::<nat, ProcError>(n as nat),
            Err(e) => boot_time_of(proc_stat@) == Err::<nat, ProcError>(e),
        },
{
    let chars = str_chars(proc_stat);
    let lines = split_chars(&chars, '\n');
    let marker = str_chars("btime");
    let ghost all = lists_view(lines@);
    let mut i: usize = 0;
    while i < lines.len()
        invariant
            i <= lines.len(),
            all == lists_view(lines@),
            all == split_on(proc_stat@, '\n'),
            marker@ == "btime"@,
            boot_time_in(all, i as nat) == boot_time_in(all, 0),
        decreases lines.len() - i,
    {
        if starts_with(&lines[i], &marker) {
            let parts = split_fields(&lines[i]);
            if parts.len() == 2 {
                match parse_decimal(&parts[1], u64::MAX) {
                    Some(n) => {
                        return Ok(n);
                    },
                    None => {},
                }
            } else {
                return Err(ProcError::BadBootTime);
            }
        }
        i += 1;
    }
    Err(ProcError::NoBootTime)
}

/// The place of the start time among the fields of a process's line.
pub const START_TIME_FIELD: usize = 21;

/// When a process started, in clock ticks since boot: the twenty-second
/// field of its line in `/proc/<pid>/stat`.
pub open spec fn start_ticks_of(stat: Seq<char>) -> Result<nat, ProcError> {
    let parts = fields_of(stat);
    if parts.len() <= START_TIME_FIELD {
        Err(ProcError::NoStartTime)
    } else {
        match parsed_decimal(parts[START_TIME_FIELD as int], u64::MAX as nat) {
            Some(n) => Ok(n),
            None => Err(ProcError::BadStartTime),
        }
    }
}

/// Reads when a process started, in clock ticks since boot, from the text
/// of its `stat` file.
pub fn get_start_time_clock_tick(stat_content: &str) -> (r: Result<u64, ProcError>)
    ensures
        match r {
            Ok(n) => start_ticks_of(stat_content@) == Ok::<nat, ProcError>(n as nat),
            Err(e) => start_ticks_of(stat_content@) == Err::<nat, ProcError>(e),
        },
{
    let chars = str_chars(stat_content);
    let parts = split_fields(&chars);
    if parts.len() <= START_TIME_FIELD {
        return Err(ProcError::NoStartTime);
    }
    match parse_decimal(&parts[START_TIME_FIELD], u64::MAX) {
        Some(n) => Ok(n),
        None => Err(ProcError::BadStartTime),
    }
}

/// When a process started, in seconds since the epoch: the boot time plus
/// the whole seconds that its start ticks make.
pub open spec fn start_time_of(boot_time: nat, start_ticks: nat, ticks_per_second: nat) -> Result<
    nat,
    ProcError,
> {
    if ticks_per_second == 0 {
        Err(ProcError::NoClockTicks)
    } else if boot_time + start_ticks / ticks_per_second > u64::MAX {
        Err(ProcError::Overflow)
    } else {
        Ok(boot_time + start_ticks / ticks_per_second)
    }
}

/// When a process started, in seconds since the epoch.
pub fn get_start_time(boot_time: u64, start_ticks: u64, ticks_per_second: u64) -> (r: Result<
    u64,
    ProcError,
>)
    ensures
        match r {
            Ok(n) => start_time_of(boot_time as nat, start_ticks as nat, ticks_per_second as nat)
                == Ok::<nat, ProcError>(n as nat),
            Err(e) => start_time_of(boot_time as nat, start_ticks as nat, ticks_per_second as nat)
                == Err::<nat, ProcError>(e),
        },
{
    if ticks_per_second == 0 {
        return Err(ProcError::NoClockTicks);
    }
    let seconds = start_ticks / ticks_per_second;
    if seconds > u64::MAX - boot_time {
        return Err(ProcError::Overflow);
    }
    Ok(boot_time + seconds)
}

} // verus!
