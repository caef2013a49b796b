//! The layout of what a plugin returns: eight bytes that hold the length
//! of the payload, least significant byte first, and then the payload.
//!
//! The host is handed a pointer into the plugin's memory. Before it reads
//! the payload it makes sure that header and payload lie inside that
//! memory: a plugin that returns too little or claims too much is refused.

use vstd::prelude::*;

verus! {

/// The length of the header that holds the payload's length.
pub const HEADER_LEN: usize = 8;

/// Why what a plugin returned is no frame.
#[derive(Clone, Copy, PartialEq, Eq, Structural, Debug)]
pub enum FrameError {
    /// Fewer than eight bytes lie between the pointer and the end of memory.
    Truncated,
    /// The payload's claimed length reaches past the end of memory.
    Overrun,
}

/// The number that the eight bytes of `memory` from `at` on hold, least
/// significant byte first.
pub open spec fn le_u64_at(memory: Seq<u8>, at: int) -> nat {
    (memory[at] as nat + memory[at + 1] as nat * 0x100 + memory[at + 2] as nat * 0x1_0000 + memory[at
        + 3] as nat * 0x100_0000 + memory[at + 4] as nat * 0x1_0000_0000 + memory[at + 5] as nat
        * 0x100_0000_0000 + memory[at + 6] as nat * 0x1_0000_0000_0000 + memory[at + 7] as nat
        * 0x100_0000_0000_0000) as nat
}

/// Where the payload of the frame at `ptr` lies in `memory`: from the end
/// of the header to as far as the header says. There is no frame where
/// the header or the payload does not fit into `memory`.
pub open spec fn payload_range(memory: Seq<u8>, ptr: nat) -> Result<(int, int), FrameError> {
    if ptr + HEADER_LEN > memory.len() {
        Err(FrameError::Truncated)
    } else if ptr + HEADER_LEN + le_u64_at(memory, ptr as int) > memory.len() {
        Err(FrameError::Overrun)
    } else {
        Ok((ptr + HEADER_LEN, ptr + HEADER_LEN + le_u64_at(memory, ptr as int)))
    }
}

/// The number that the eight bytes of `memory` from `at` on hold.
pub fn read_le_u64(memory: &[u8], at: usize) -> (r: u64)
    requires
        at + HEADER_LEN <= memory.len(),
    ensures
        r == le_u64_at(memory@, at as int),
{
    let b7 = memory[at + 7] as u64;
    let h6 = memory[at + 6] as u64 + 256 * b7;
    let h5 = memory[at + 5] as u64 + 256 * h6;
    let h4 = memory[at + 4] as u64 + 256 * h5;
    let h3 = memory[at + 3] as u64 + 256 * h4;
    let h2 = memory[at + 2] as u64 + 256 * h3;
    let h1 = memory[at + 1] as u64 + 256 * h2;
    memory[at] as u64 + 256 * h1
}

/// Where the payload of the frame that a plugin returned at `ptr` lies in
/// its memory.
pub fn locate_payload(memory: &[u8], ptr: u64) -> (r: Result<(usize, usize), FrameError>)
    ensures
        match r {
            Ok((start, end)) => payload_range(memory@, ptr as nat) == Ok::<(int, int), FrameError>(
                (start as int, end as int),
            ) && start <= end <= memory.len(),
            Err(e) => payload_range(memory@, ptr as nat) == Err::<(int, int), FrameError>(e),
        },
{
    let size = memory.len();
    if size < HEADER_LEN || ptr > (size - HEADER_LEN) as u64 {
        return Err(FrameError::Truncated);
    }
    let at = ptr as usize;
    let claimed = read_le_u64(memory, at);
    let room = size - HEADER_LEN - at;
    if claimed > room as u64 {
        return Err(FrameError::Overrun);
    }
    let start = at + HEADER_LEN;
    Ok((start, start + claimed as usize))
}

/// The payload of the frame that a plugin returned at `ptr`.
pub fn frame_payload(memory: &[u8], ptr: u64) -> (r: Result<Vec<u8>, FrameError>)
    ensures
        match r {
            Ok(payload) => payload_range(memory@, ptr as nat) matches Ok((start, end)) && payload@
                == memory@.subrange(start as int, end as int),
            Err(e) => payload_range(memory@, ptr as nat) == Err::<(int, int), FrameError>(e),
        },
{
    let (start, end) = match locate_payload(memory, ptr) {
        Ok(range) => range,
        Err(e) => {
            return Err(e);
        },
    };
    let mut payload: Vec<u8> = Vec::new();
    let mut i: usize = start;
    while i < end
        invariant
            start <= i <= end <= memory.len(),
            payload@ == memory@.subrange(start as int, i as int),
        decreases end - i,
    {
        payload.push(memory[i]);
        assert(memory@.subrange(start as int, i + 1) =~= memory@.subrange(start as int, i as int).push(
            memory[i as int],
        ));
        i += 1;
    }
    Ok(payload)
}

/// The header for a payload of `len` bytes: the bytes of `len`, the least
/// significant first, each the remainder of what the bytes before it left.
pub open spec fn header_of(len: nat) -> Seq<u8> {
    let q1 = len / 0x100;
    let q2 = q1 / 0x100;
    let q3 = q2 / 0x100;
    let q4 = q3 / 0x100;
    let q5 = q4 / 0x100;
    let q6 = q5 / 0x100;
    let q7 = q6 / 0x100;
    seq![
        (len % 0x100) as u8,
        (q1 % 0x100) as u8,
        (q2 % 0x100) as u8,
        (q3 % 0x100) as u8,
        (q4 % 0x100) as u8,
        (q5 % 0x100) as u8,
        (q6 % 0x100) as u8,
        (q7 % 0x100) as u8,
    ]
}

/// The frame of a payload: its header and then the payload itself.
pub fn encode_frame(payload: &[u8]) -> (r: Vec<u8>)
    ensures
        r@ == header_of(payload.len() as nat) + payload@,
{
    let len = payload.len() as u64;
    let q1 = len / 0x100;
    let q2 = q1 / 0x100;
    let q3 = q2 / 0x100;
    let q4 = q3 / 0x100;
    let q5 = q4 / 0x100;
    let q6 = q5 / 0x100;
    let q7 = q6 / 0x100;
    let mut out: Vec<u8> = Vec::new();
    out.push((len % 0x100) as u8);
    out.push((q1 % 0x100) as u8);
    out.push((q2 % 0x100) as u8);
    out.push((q3 % 0x100) as u8);
    out.push((q4 % 0x100) as u8);
    out.push((q5 % 0x100) as u8);
    out.push((q6 % 0x100) as u8);
    out.push((q7 % 0x100) as u8);
    assert(out@ =~= header_of(payload.len() as nat));
    let mut i: usize = 0;
    while i < payload.len()
        invariant
            i <= payload.len(),
            out@ == header_of(payload.len() as nat) + payload@.take(i as int),
        decreases payload.len() - i,
    {
        out.push(payload[i]);
        assert(payload@.take(i + 1) =~= payload@.take(i as int).push(payload[i as int]));
        i += 1;
    }
    assert(payload@.take(payload.len() as int) =~= payload@);
    out
}

/// The bytes of a header hold the length they were written for.
proof fn lemma_header_value(len: nat)
    requires
        len <= u64::MAX,
    ensures
        le_u64_at(header_of(len), 0) == len,
{
    let q1 = len / 0x100;
    let q2 = q1 / 0x100;
    let q3 = q2 / 0x100;
    let q4 = q3 / 0x100;
    let q5 = q4 / 0x100;
    let q6 = q5 / 0x100;
    let q7 = q6 / 0x100;
    let h = header_of(len);
    assert(q7 < 0x100);
    assert(q6 == h[6] + 0x100 * q7);
    assert(q5 == h[5] + 0x100 * q6);
    assert(q4 == h[4] + 0x100 * q5);
    assert(q3 == h[3] + 0x100 * q4);
    assert(q2 == h[2] + 0x100 * q3);
    assert(q1 == h[1] + 0x100 * q2);
    assert(len == h[0] + 0x100 * q1);
}

/// A frame that stands anywhere in memory is found again: the header gives
/// back the payload's length, and the range located holds the payload.
pub proof fn lemma_frame_round_trip(before: Seq<u8>, payload: Seq<u8>, after: Seq<u8>)
    requires
        payload.len() <= u64::MAX,
    ensures
        payload_range(before + header_of(payload.len()) + payload + after, before.len()) == Ok::<
            (int, int),
            FrameError,
        >((before.len() + HEADER_LEN, before.len() + HEADER_LEN + payload.len())),
        (before + header_of(payload.len()) + payload + after).subrange(
            before.len() + HEADER_LEN,
            before.len() + HEADER_LEN + payload.len(),
        ) == payload,
{
    let len = payload.len();
    let header = header_of(len);
    let memory = before + header + payload + after;
    let at = before.len() as int;
    assert(memory[at] == header[0]);
    assert(memory[at + 1] == header[1]);
    assert(memory[at + 2] == header[2]);
    assert(memory[at + 3] == header[3]);
    assert(memory[at + 4] == header[4]);
    assert(memory[at + 5] == header[5]);
    assert(memory[at + 6] == header[6]);
    assert(memory[at + 7] == header[7]);
    lemma_header_value(len);
    assert(le_u64_at(memory, at) == le_u64_at(header, 0));
    assert(memory.subrange(at + HEADER_LEN, at + HEADER_LEN + len) =~= payload);
}

/// A pointer that leaves fewer than eight bytes, and a header that claims
/// more than memory holds, are both refused, whatever memory holds.
pub proof fn lemma_bad_frames_refused(memory: Seq<u8>, ptr: nat)
    ensures
        ptr + HEADER_LEN > memory.len() ==> payload_range(memory, ptr) == Err::<(int, int), FrameError>(
            FrameError::Truncated,
        ),
        ptr + HEADER_LEN <= memory.len() && le_u64_at(memory, ptr as int) > memory.len() - ptr
            - HEADER_LEN ==> payload_range(memory, ptr) == Err::<(int, int), FrameError>(
            FrameError::Overrun,
        ),
        payload_range(memory, ptr) matches Ok((start, end)) ==> start == ptr + HEADER_LEN && start
            <= end <= memory.len(),
{
}

} // verus!
