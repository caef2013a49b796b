//! The stamp that the holder of the start-up lock writes into the lock
//! file: when it took the lock and who it is. A waiting client reads it to
//! tell a lock that is held from one that was left behind.

use crate::text::{
    all_digits,
    decimal,
    digit_char,
    digits_value,
    is_digit,
    lemma_decimal_round_trip,
    lemma_split_append,
    lemma_split_single,
    parse_decimal,
    parsed_decimal,
    push_decimal,
    split_chars,
    split_on,
    str_chars,
    string_from_chars,
};
use vstd::prelude::*;

verus! {

/// The value of a [`LockStamp`].
pub struct StampV {
    pub taken_ms: nat,
    pub pid: nat,
}

/// When the lock was taken, in milliseconds since the epoch, and by which
/// process.
#[derive(Clone, Copy, PartialEq, Eq, Structural, Debug)]
pub struct LockStamp {
    pub taken_ms: u64,
    pub pid: u32,
}

impl View for LockStamp {
    type V = StampV;

    open spec fn view(&self) -> StampV {
        StampV { taken_ms: self.taken_ms as nat, pid: self.pid as nat }
    }
}

/// The three digits of a count of milliseconds below a second.
pub open spec fn millis_text(millis: nat) -> Seq<char> {
    seq![
        digit_char((millis / 100) as int),
        digit_char((millis / 10 % 10) as int),
        digit_char((millis % 10) as int),
    ]
}

/// The text of a stamp: the seconds since the epoch with their
/// milliseconds as three decimals, a dot, and the pid.
pub open spec fn stamp_text(stamp: StampV) -> Seq<char> {
    decimal(stamp.taken_ms / 1000) + seq!['.'] + millis_text(stamp.taken_ms % 1000) + seq!['.']
        + decimal(stamp.pid)
}

/// What a stamp's text records: it must fall into exactly three parts at
/// its dots, whole seconds, three digits of milliseconds and a pid.
pub open spec fn stamp_of(text: Seq<char>) -> Option<StampV> {
    let parts = split_on(text, '.');
    if parts.len() != 3 {
        None
    } else {
        match (parsed_decimal(parts[0], (u64::MAX / 1000 - 1) as nat), parsed_decimal(parts[2], u32::MAX as nat)) {
            (Some(secs), Some(pid)) => if parts[1].len() == 3 && all_digits(parts[1]) {
                Some(StampV { taken_ms: secs * 1000 + digits_value(parts[1]), pid })
            } else {
                None
            },
            _ => None,
        }
    }
}

/// The text to stamp the lock file with.
pub fn write_lock_metadata(now_ms: u64, pid: u32) -> (r: String)
    ensures
        r@ == stamp_text(StampV { taken_ms: now_ms as nat, pid: pid as nat }),
{
    let mut out: Vec<char> = Vec::new();
    push_decimal(&mut out, now_ms / 1000);
    out.push('.');
    let millis = now_ms % 1000;
    let hundreds: u8 = (millis / 100) as u8;
    let tens: u8 = (millis / 10 % 10) as u8;
    let ones: u8 = (millis % 10) as u8;
    out.push((hundreds + 48) as char);
    out.push((tens + 48) as char);
    out.push((ones + 48) as char);
    out.push('.');
    push_decimal(&mut out, pid as u64);
    assert(out@ =~= stamp_text(StampV { taken_ms: now_ms as nat, pid: pid as nat }));
    string_from_chars(&out)
}

/// The number that three digits denote.
fn three_digits(part: &Vec<char>) -> (r: Option<u64>)
    ensures
        match r {
            Some(n) => part.len() == 3 && all_digits(part@) && n == digits_value(part@) && n < 1000,
            None => !(part.len() == 3 && all_digits(part@)),
        },
{
    if part.len() != 3 {
        return None;
    }
    let a = part[0] as u32;
    let b = part[1] as u32;
    let c = part[2] as u32;
    if a < 48 || a > 57 || b < 48 || b > 57 || c < 48 || c > 57 {
        assert(!is_digit(part@[0]) || !is_digit(part@[1]) || !is_digit(part@[2]));
        return None;
    }
    proof {
        let s = part@;
        assert(s.drop_last().drop_last().drop_last() =~= Seq::<char>::empty());
        assert(digits_value(s.drop_last().drop_last().drop_last()) == 0);
        assert(s.drop_last().drop_last().last() == s[0]);
        assert(s.drop_last().last() == s[1]);
        assert(digits_value(s.drop_last().drop_last()) == a - 48);
        assert(digits_value(s.drop_last()) == (a - 48) * 10 + (b - 48));
    }
    Some(((a - 48) * 100 + (b - 48) * 10 + (c - 48)) as u64)
}

/// Reads the stamp of a lock file.
pub fn read_lock_metadata(content: &str) -> (r: Option<LockStamp>)
    ensures
        match r {
            Some(stamp) => stamp_of(content@) == Some(stamp@),
            None => stamp_of(content@) is None,
        },
{
    let chars = str_chars(content);
    let parts = split_chars(&chars, '.');
    if parts.len() != 3 {
        return None;
    }
    let secs = match parse_decimal(&parts[0], u64::MAX / 1000 - 1) {
        Some(secs) => secs,
        None => {
            return None;
        },
    };
    let pid = match parse_decimal(&parts[2], u32::MAX as u64) {
        Some(pid) => pid as u32,
        None => {
            return None;
        },
    };
    let millis = match three_digits(&parts[1]) {
        Some(millis) => millis,
        None => {
            return None;
        },
    };
    Some(LockStamp { taken_ms: secs * 1000 + millis, pid })
}

/// Three digits of milliseconds denote the count they were written for.
proof fn lemma_millis_round_trip(millis: nat)
    requires
        millis < 1000,
    ensures
        all_digits(millis_text(millis)),
        digits_value(millis_text(millis)) == millis,
        forall|i: int| 0 <= i < 3 ==> millis_text(millis)[i] != '.',
{
    let s = millis_text(millis);
    assert(s.drop_last().drop_last().drop_last() =~= Seq::<char>::empty());
    assert(digits_value(s.drop_last().drop_last().drop_last()) == 0);
    assert(s.drop_last().drop_last().last() == s[0]);
    assert(s.drop_last().last() == s[1]);
    assert(digits_value(s.drop_last().drop_last()) == millis / 100);
    assert(digits_value(s.drop_last()) == (millis / 100) * 10 + millis / 10 % 10);
}

/// A stamp reads back as it was written.
pub proof fn lemma_stamp_round_trip(stamp: StampV)
    requires
        stamp.taken_ms <= u64::MAX - 2000,
        stamp.pid <= u32::MAX,
    ensures
        stamp_of(stamp_text(stamp)) == Some(stamp),
{
    let a = decimal(stamp.taken_ms / 1000);
    let b = millis_text(stamp.taken_ms % 1000);
    let c = decimal(stamp.pid);
    lemma_decimal_round_trip(stamp.taken_ms / 1000);
    lemma_decimal_round_trip(stamp.pid);
    lemma_millis_round_trip(stamp.taken_ms % 1000);
    lemma_split_single(a, '.');
    lemma_split_append(a, b, '.');
    lemma_split_append(a + seq!['.'] + b, c, '.');
    assert(split_on(stamp_text(stamp), '.') =~= seq![a, b, c]);
}

} // verus!
