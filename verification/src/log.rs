//! What the logger decides: whether a long line is written, which colour
//! a thread's lines get, and how a line begins.

use crate::text::{decimal, push_decimal, push_str, string_from_chars};
use vstd::prelude::*;

verus! {

/// The line to log, unless it is long and long lines are switched off.
pub fn long_log(no_long_log: bool, line: &str) -> (r: Option<String>)
    ensures
        match r {
            Some(l) => !no_long_log && l@ == line@,
            None => no_long_log,
        },
{
    if no_long_log {
        None
    } else {
        Some(line.to_owned())
    }
}

/// The number of colours that threads are told apart by.
pub const COLOR_COUNT: usize = 32;

/// The red, green and blue of the colour with the number `n`.
pub open spec fn color_of(n: int) -> (u8, u8, u8) {
    if n == 0 {
        (156, 70, 103)
    } else if n == 1 {
        (65, 198, 93)
    } else if n == 2 {
        (176, 88, 208)
    } else if n == 3 {
        (107, 184, 56)
    } else if n == 4 {
        (92, 96, 206)
    } else if n == 5 {
        (200, 187, 57)
    } else if n == 6 {
        (158, 131, 232)
    } else if n == 7 {
        (148, 189, 74)
    } else if n == 8 {
        (205, 72, 162)
    } else if n == 9 {
        (58, 141, 51)
    } else if n == 10 {
        (213, 65, 107)
    } else if n == 11 {
        (77, 187, 120)
    } else if n == 12 {
        (208, 63, 55)
    } else if n == 13 {
        (68, 199, 174)
    } else if n == 14 {
        (216, 104, 47)
    } else if n == 15 {
        (78, 127, 195)
    } else if n == 16 {
        (222, 153, 54)
    } else if n == 17 {
        (132, 84, 156)
    } else if n == 18 {
        (168, 155, 51)
    } else if n == 19 {
        (165, 153, 221)
    } else if n == 20 {
        (97, 119, 25)
    } else if n == 21 {
        (219, 133, 188)
    } else if n == 22 {
        (100, 137, 66)
    } else if n == 23 {
        (219, 121, 119)
    } else if n == 24 {
        (75, 182, 211)
    } else if n == 25 {
        (160, 79, 49)
    } else if n == 26 {
        (124, 190, 138)
    } else if n == 27 {
        (218, 152, 106)
    } else if n == 28 {
        (52, 130, 92)
    } else if n == 29 {
        (154, 110, 45)
    } else if n == 30 {
        (176, 177, 107)
    } else {
        (109, 106, 44)
    }
}

/// The colours, in order.
fn palette() -> (r: Vec<(u8, u8, u8)>)
    ensures
        r.len() == COLOR_COUNT,
        forall|n: int| 0 <= n < COLOR_COUNT ==> r[n] == color_of(n),
{
    let r = vec![
        (156u8, 70u8, 103u8),
        (65u8, 198u8, 93u8),
        (176u8, 88u8, 208u8),
        (107u8, 184u8, 56u8),
        (92u8, 96u8, 206u8),
        (200u8, 187u8, 57u8),
        (158u8, 131u8, 232u8),
        (148u8, 189u8, 74u8),
        (205u8, 72u8, 162u8),
        (58u8, 141u8, 51u8),
        (213u8, 65u8, 107u8),
        (77u8, 187u8, 120u8),
        (208u8, 63u8, 55u8),
        (68u8, 199u8, 174u8),
        (216u8, 104u8, 47u8),
        (78u8, 127u8, 195u8),
        (222u8, 153u8, 54u8),
        (132u8, 84u8, 156u8),
        (168u8, 155u8, 51u8),
        (165u8, 153u8, 221u8),
        (97u8, 119u8, 25u8),
        (219u8, 133u8, 188u8),
        (100u8, 137u8, 66u8),
        (219u8, 121u8, 119u8),
        (75u8, 182u8, 211u8),
        (160u8, 79u8, 49u8),
        (124u8, 190u8, 138u8),
        (218u8, 152u8, 106u8),
        (52u8, 130u8, 92u8),
        (154u8, 110u8, 45u8),
        (176u8, 177u8, 107u8),
        (109u8, 106u8, 44u8),
    ];
    r
}

/// The colour of the lines of the thread with the id `thread_id`: the
/// colours are handed out in turn.
pub fn thread_color(thread_id: u64) -> (r: (u8, u8, u8))
    ensures
        r == color_of(thread_id as int % COLOR_COUNT as int),
{
    let colors = palette();
    let n = (thread_id % COLOR_COUNT as u64) as usize;
    colors[n]
}

/// `text` with blanks in front so that it is at least `width` long.
pub open spec fn right_aligned(text: Seq<char>, width: nat) -> Seq<char>
    decreases width,
{
    if text.len() >= width {
        text
    } else {
        seq![' '] + right_aligned(text, (width - 1) as nat)
    }
}

/// Appends `n` in decimal, with blanks in front up to `width`.
fn push_aligned(out: &mut Vec<char>, n: u64, width: usize)
    ensures
        final(out)@ == old(out)@ + right_aligned(decimal(n as nat), width as nat),
{
    let mut digits: Vec<char> = Vec::new();
    push_decimal(&mut digits, n);
    let mut w = width;
    while w > digits.len()
        invariant
            out@ + right_aligned(digits@, w as nat) == old(out)@ + right_aligned(
                digits@,
                width as nat,
            ),
        decreases w,
    {
        let ghost before = out@;
        out.push(' ');
        assert(before + right_aligned(digits@, w as nat) =~= out@ + right_aligned(
            digits@,
            (w - 1) as nat,
        ));
        w -= 1;
    }
    crate::text::push_all(out, &digits);
}

/// `text` with blanks behind it so that it is at least `width` long.
pub open spec fn left_aligned(text: Seq<char>, width: nat) -> Seq<char> {
    if text.len() >= width {
        text
    } else {
        text + Seq::new((width - text.len()) as nat, |i: int| ' ')
    }
}

/// The width of the level in a line of the log.
pub const LEVEL_WIDTH: usize = 5;

/// The level of a line as it stands in the log: at least five wide, with
/// blanks behind it.
pub fn level_field(level: &str) -> (r: String)
    ensures
        r@ == left_aligned(level@, LEVEL_WIDTH as nat),
{
    let mut out = crate::text::str_chars(level);
    let ghost text = out@;
    while out.len() < LEVEL_WIDTH
        invariant
            text.len() <= out.len(),
            out.len() <= LEVEL_WIDTH || out.len() == text.len(),
            out@.take(text.len() as int) == text,
            forall|k: int| text.len() <= k < out.len() ==> out[k] == ' ',
        decreases LEVEL_WIDTH - out.len(),
    {
        let ghost before = out@;
        out.push(' ');
        assert(out@.take(text.len() as int) =~= before.take(text.len() as int));
    }
    assert(out@ =~= left_aligned(text, LEVEL_WIDTH as nat));
    string_from_chars(&out)
}

/// How a line of the client's log begins: the time since the start in
/// microseconds, at least five wide.
pub open spec fn elapsed_text(elapsed_micros: u64) -> Seq<char> {
    seq!['['] + right_aligned(decimal(elapsed_micros as nat), 5) + " \u{3bc}s "@
}

/// How a line of the client's log begins.
pub fn elapsed_prefix(elapsed_micros: u64) -> (r: String)
    ensures
        r@ == elapsed_text(elapsed_micros),
{
    let mut out: Vec<char> = Vec::new();
    out.push('[');
    push_aligned(&mut out, elapsed_micros, 5);
    push_str(&mut out, " \u{3bc}s ");
    string_from_chars(&out)
}

} // verus!
