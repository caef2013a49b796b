//! Character-level helpers on strings.

use vstd::prelude::*;

verus! {

/// Builds a string from its characters with `String::from_iter`: the result
/// holds exactly the characters of `chars`, in order.
#[verifier::external_body]
pub(crate) fn string_from_chars(chars: &Vec<char>) -> (s: String)
    ensures
        s@ == chars@,
{
    String::from_iter(chars.iter())
}

/// The characters of `s`, in order.
pub fn str_chars(s: &str) -> (v: Vec<char>)
    ensures
        v@ == s@,
{
    let mut v: Vec<char> = Vec::new();
    for c in it: s.chars()
        invariant
            v@ == it.seq().take(it.index() as int),
    {
        v.push(c);
    }
    v
}

/// Whether two strings hold the same characters.
pub fn str_eq(a: &str, b: &str) -> (r: bool)
    ensures
        r == (a@ == b@),
{
    let x = a.to_owned();
    let y = b.to_owned();
    x == y
}

/// `s` with every occurrence of `from` replaced by `to`.
pub open spec fn replaced(s: Seq<char>, from: char, to: char) -> Seq<char> {
    Seq::new(s.len(), |i: int| if s[i] == from { to } else { s[i] })
}

/// Replaces every occurrence of `from` in `chars` by `to`.
pub fn replace_char(chars: &Vec<char>, from: char, to: char) -> (out: Vec<char>)
    ensures
        out@ == replaced(chars@, from, to),
{
    let mut out: Vec<char> = Vec::new();
    let mut i: usize = 0;
    while i < chars.len()
        invariant
            i <= chars.len(),
            out.len() == i,
            forall|k: int| 0 <= k < i ==> out[k] == (if chars[k] == from { to } else { chars[k] }),
        decreases chars.len() - i,
    {
        let c = chars[i];
        if c == from {
            out.push(to);
        } else {
            out.push(c);
        }
        i += 1;
    }
    assert(out@ =~= replaced(chars@, from, to));
    out
}

/// Appends the characters of `tail` to `out`.
pub fn push_all(out: &mut Vec<char>, tail: &Vec<char>)
    ensures
        final(out)@ == old(out)@ + tail@,
{
    let mut i: usize = 0;
    while i < tail.len()
        invariant
            i <= tail.len(),
            out@ == old(out)@ + tail@.take(i as int),
        decreases tail.len() - i,
    {
        out.push(tail[i]);
        assert(tail@.take(i + 1) =~= tail@.take(i as int).push(tail[i as int]));
        i += 1;
    }
    assert(tail@.take(tail.len() as int) =~= tail@);
}

/// Appends the characters of the string `tail` to `out`.
pub fn push_str(out: &mut Vec<char>, tail: &str)
    ensures
        final(out)@ == old(out)@ + tail@,
{
    let t = str_chars(tail);
    push_all(out, &t);
}

/// The decimal digit for `d`.
pub open spec fn digit_char(d: int) -> char {
    ((d + 48) as u8) as char
}

/// Whether `c` is a decimal digit.
pub open spec fn is_digit(c: char) -> bool {
    48 <= c as u32 <= 57
}

/// The decimal notation of `n`, without leading zeros.
pub open spec fn decimal(n: nat) -> Seq<char>
    decreases n,
{
    if n < 10 {
        seq![digit_char(n as int)]
    } else {
        decimal(n / 10).push(digit_char((n % 10) as int))
    }
}

/// Whether `s` holds decimal digits only.
pub open spec fn all_digits(s: Seq<char>) -> bool {
    forall|i: int| 0 <= i < s.len() ==> is_digit(#[trigger] s[i])
}

/// The number that the digits of `s` denote; the empty sequence denotes 0.
pub open spec fn digits_value(s: Seq<char>) -> nat
    decreases s.len(),
{
    if s.len() == 0 {
        0
    } else {
        (digits_value(s.drop_last()) * 10 + (s.last() as u32 - 48)) as nat
    }
}

/// The number that `s` denotes as an unsigned decimal of at most `max`:
/// an optional plus sign and then one digit or more, nothing else.
pub open spec fn parsed_decimal(s: Seq<char>, max: nat) -> Option<nat> {
    let body = if s.len() > 0 && s[0] == '+' {
        s.skip(1)
    } else {
        s
    };
    if body.len() == 0 || !all_digits(body) || digits_value(body) > max {
        None
    } else {
        Some(digits_value(body))
    }
}

/// The decimal notation of a number holds digits only, at least one, and
/// denotes that number.
pub proof fn lemma_decimal_round_trip(n: nat)
    ensures
        decimal(n).len() > 0,
        all_digits(decimal(n)),
        digits_value(decimal(n)) == n,
        decimal(n)[0] != '+',
        forall|i: int| 0 <= i < decimal(n).len() ==> decimal(n)[i] != ',' && decimal(n)[i] != '.' && decimal(
            n,
        )[i] != '\n',
    decreases n,
{
    if n < 10 {
        assert(decimal(n).drop_last() =~= Seq::<char>::empty());
        assert(digits_value(decimal(n).drop_last()) == 0);
    } else {
        lemma_decimal_round_trip(n / 10);
        assert(decimal(n).drop_last() =~= decimal(n / 10));
    }
}

/// A number written in decimal reads back as itself.
pub proof fn lemma_parse_decimal(n: nat, max: nat)
    requires
        n <= max,
    ensures
        parsed_decimal(decimal(n), max) == Some(n),
{
    lemma_decimal_round_trip(n);
}

/// Longer digit strings denote larger numbers: a value never shrinks when a
/// digit is appended.
proof fn lemma_digits_value_grows(s: Seq<char>, k: int)
    requires
        0 <= k <= s.len(),
        all_digits(s),
    ensures
        digits_value(s.take(k)) <= digits_value(s),
    decreases s.len() - k,
{
    if k < s.len() {
        lemma_digits_value_grows(s, k + 1);
        assert(s.take(k + 1).drop_last() =~= s.take(k));
        assert(is_digit(s[k]));
    } else {
        assert(s.take(k) =~= s);
    }
}

/// Appends the decimal notation of `n` to `out`.
pub fn push_decimal(out: &mut Vec<char>, n: u64)
    ensures
        final(out)@ == old(out)@ + decimal(n as nat),
    decreases n,
{
    if n >= 10 {
        push_decimal(out, n / 10);
    }
    let d: u8 = (n % 10) as u8;
    let c: char = (d + 48) as char;
    out.push(c);
    assert(out@ =~= old(out)@ + decimal(n as nat));
}

/// The decimal notation of `n`.
pub fn decimal_string(n: u64) -> (r: String)
    ensures
        r@ == decimal(n as nat),
{
    let mut out: Vec<char> = Vec::new();
    push_decimal(&mut out, n);
    string_from_chars(&out)
}

/// Reads `chars` as an unsigned decimal of at most `max`.
pub fn parse_decimal(chars: &Vec<char>, max: u64) -> (r: Option<u64>)
    ensures
        match r {
            Some(n) => parsed_decimal(chars@, max as nat) == Some(n as nat),
            None => parsed_decimal(chars@, max as nat) is None,
        },
{
    let start: usize = if chars.len() > 0 && chars[0] == '+' {
        1
    } else {
        0
    };
    let ghost body = chars@.skip(start as int);
    assert(chars@.skip(0) =~= chars@);
    if start >= chars.len() {
        return None;
    }
    let mut value: u64 = 0;
    let mut i: usize = start;
    assert(body.take(0) =~= Seq::<char>::empty());
    while i < chars.len()
        invariant
            start <= i <= chars.len(),
            start == (if chars.len() > 0 && chars[0] == '+' {
                1usize
            } else {
                0usize
            }),
            body == chars@.skip(start as int),
            chars@.skip(0) == chars@,
            all_digits(body.take(i - start)),
            value == digits_value(body.take(i - start)),
            value <= max,
        decreases chars.len() - i,
    {
        let c = chars[i];
        let code = c as u32;
        proof {
            assert(body[i - start] == c);
            assert(body.take(i - start + 1).drop_last() =~= body.take(i - start));
        }
        if code < 48 || code > 57 {
            assert(!is_digit(body[i - start]));
            return None;
        }
        let d: u64 = (code - 48) as u64;
        assert(all_digits(body.take(i - start + 1))) by {
            assert forall|k: int| 0 <= k < i - start + 1 implies is_digit(
                #[trigger] body.take(i - start + 1)[k],
            ) by {
                if k < i - start {
                    assert(body.take(i - start)[k] == body[k]);
                }
            }
        }
        let ghost longer = body.take(i - start + 1);
        assert(digits_value(longer) == value * 10 + d) by {
            assert(longer.last() == c);
            assert(longer.drop_last() =~= body.take(i - start));
        }
        if d > max || value > (max - d) / 10 {
            proof {
                assert(body.take(body.len() as int) =~= body);
                if all_digits(body) {
                    lemma_digits_value_grows(body, i - start + 1);
                }
                assert(value * 10 + d > max) by (nonlinear_arith)
                    requires
                        d > max || value > (max - d) / 10,
                        d < 10,
                        value >= 0,
                ;
            }
            return None;
        }
        assert(value * 10 + d <= max) by (nonlinear_arith)
            requires
                value <= (max - d) / 10,
                d <= max,
        ;
        value = value * 10 + d;
        i += 1;
    }
    assert(body.take(chars.len() - start) =~= body);
    Some(value)
}

/// The parts of `s` between occurrences of `sep`: one part more than there
/// are separators, an empty part where two separators meet or one stands
/// at an end.
pub open spec fn split_on(s: Seq<char>, sep: char) -> Seq<Seq<char>>
    decreases s.len(),
{
    if s.len() == 0 {
        seq![Seq::empty()]
    } else {
        let before = split_on(s.drop_last(), sep);
        if s.last() == sep {
            before.push(Seq::empty())
        } else {
            before.drop_last().push(before.last().push(s.last()))
        }
    }
}

/// Whether `s` holds no `c`.
pub open spec fn free_of(s: Seq<char>, c: char) -> bool {
    forall|i: int| 0 <= i < s.len() ==> s[i] != c
}

/// A split has at least one part.
pub proof fn lemma_split_nonempty(s: Seq<char>, sep: char)
    ensures
        split_on(s, sep).len() >= 1,
    decreases s.len(),
{
    if s.len() > 0 {
        lemma_split_nonempty(s.drop_last(), sep);
    }
}

/// Text appended without a separator in it extends the last part.
pub proof fn lemma_split_extend(a: Seq<char>, b: Seq<char>, sep: char)
    requires
        free_of(b, sep),
    ensures
        split_on(a + b, sep) == split_on(a, sep).drop_last().push(split_on(a, sep).last() + b),
    decreases b.len(),
{
    lemma_split_nonempty(a, sep);
    if b.len() == 0 {
        assert(a + b =~= a);
        assert(split_on(a, sep).last() + b =~= split_on(a, sep).last());
        assert(split_on(a, sep).drop_last().push(split_on(a, sep).last()) =~= split_on(a, sep));
    } else {
        let shorter = b.drop_last();
        lemma_split_extend(a, shorter, sep);
        assert((a + b).drop_last() =~= a + shorter);
        assert((a + b).last() == b.last());
        let before = split_on(a + shorter, sep);
        assert(before.last().push(b.last()) =~= split_on(a, sep).last() + b);
        assert(before.drop_last() =~= split_on(a, sep).drop_last());
    }
}

/// A separator and text without one append a part.
pub proof fn lemma_split_append(a: Seq<char>, b: Seq<char>, sep: char)
    requires
        free_of(b, sep),
    ensures
        split_on(a + seq![sep] + b, sep) == split_on(a, sep).push(b),
{
    let cut = a + seq![sep];
    assert(cut.drop_last() =~= a);
    assert(split_on(cut, sep) == split_on(a, sep).push(Seq::empty()));
    lemma_split_extend(cut, b, sep);
    assert(split_on(cut, sep).last() + b =~= b);
    assert(split_on(cut, sep).drop_last() =~= split_on(a, sep));
}

/// Text without a separator is its own single part.
pub proof fn lemma_split_single(s: Seq<char>, sep: char)
    requires
        free_of(s, sep),
    ensures
        split_on(s, sep) == seq![s],
{
    let empty = Seq::<char>::empty();
    lemma_split_extend(empty, s, sep);
    assert(empty + s =~= s);
    assert(split_on(empty, sep).drop_last().push(split_on(empty, sep).last() + s) =~= seq![s]);
}

/// The strings of a list, each by its characters.
pub open spec fn strings_view(list: Seq<String>) -> Seq<Seq<char>> {
    Seq::new(list.len(), |i: int| list[i]@)
}

/// The lists of a list, each by its characters.
pub open spec fn lists_view(lists: Seq<Vec<char>>) -> Seq<Seq<char>> {
    Seq::new(lists.len(), |i: int| lists[i]@)
}

/// The parts of `chars` between occurrences of `sep`.
pub fn split_chars(chars: &Vec<char>, sep: char) -> (parts: Vec<Vec<char>>)
    ensures
        lists_view(parts@) == split_on(chars@, sep),
        parts.len() >= 1,
{
    let mut parts: Vec<Vec<char>> = Vec::new();
    let mut current: Vec<char> = Vec::new();
    let mut i: usize = 0;
    assert(chars@.take(0) =~= Seq::<char>::empty());
    assert(lists_view(parts@).push(current@) =~= seq![Seq::<char>::empty()]);
    while i < chars.len()
        invariant
            i <= chars.len(),
            lists_view(parts@).push(current@) == split_on(chars@.take(i as int), sep),
        decreases chars.len() - i,
    {
        let c = chars[i];
        let ghost before = lists_view(parts@).push(current@);
        proof {
            assert(chars@.take(i + 1).drop_last() =~= chars@.take(i as int));
            assert(before.drop_last() =~= lists_view(parts@));
        }
        if c == sep {
            parts.push(current);
            current = Vec::new();
            assert(lists_view(parts@) =~= before);
        } else {
            current.push(c);
        }
        i += 1;
    }
    assert(chars@.take(chars.len() as int) =~= chars@);
    let ghost done = lists_view(parts@);
    parts.push(current);
    assert(lists_view(parts@) =~= done.push(current@));
    parts
}

/// Whether `chars` begins with the characters of `prefix`.
pub fn starts_with(chars: &Vec<char>, prefix: &Vec<char>) -> (r: bool)
    ensures
        r == (prefix.len() <= chars.len() && chars@.take(prefix.len() as int) == prefix@),
{
    if prefix.len() > chars.len() {
        return false;
    }
    let mut i: usize = 0;
    while i < prefix.len()
        invariant
            i <= prefix.len() <= chars.len(),
            forall|k: int| 0 <= k < i ==> chars[k] == prefix[k],
        decreases prefix.len() - i,
    {
        if chars[i] != prefix[i] {
            assert(chars@.take(prefix.len() as int)[i as int] != prefix@[i as int]);
            return false;
        }
        i += 1;
    }
    assert(chars@.take(prefix.len() as int) =~= prefix@);
    true
}

} // verus!
