//! Small text routines that the readers of cells and the writers of labels
//! share: characters of a string, trimming, decimal numbers in and out.

use vstd::prelude::*;
use vstd::string::StringExecFns;

verus! {

/// The characters of `text`, in order.
pub fn chars_of(text: &str) -> (chars: Vec<char>)
    ensures
        chars@ == text@,
{
    let mut chars: Vec<char> = Vec::new();
    for c in it: text.chars()
        invariant
            it.seq() == text@,
            chars@ == it.seq().take(it.index()),
    {
        chars.push(c);
    }
    chars
}

/// Whether two strings hold the same characters.
pub fn same_text(left: &str, right: &str) -> (same: bool)
    ensures
        same == (left@ == right@),
{
    let a = chars_of(left);
    let b = chars_of(right);
    if a.len() != b.len() {
        return false;
    }
    let mut i: usize = 0;
    while i < a.len()
        invariant
            i <= a.len(),
            a.len() == b.len(),
            a@ == left@,
            b@ == right@,
            forall|k: int| 0 <= k < i ==> a@[k] == b@[k],
        decreases a.len() - i,
    {
        if a[i] != b[i] {
            return false;
        }
        i += 1;
    }
    assert(left@ =~= right@);
    true
}

/// White space in the sense of Unicode's `White_Space` property.
pub open spec fn is_space(c: char) -> bool {
    let u = c as u32;
    ||| 0x09 <= u <= 0x0D
    ||| u == 0x20
    ||| u == 0x85
    ||| u == 0xA0
    ||| u == 0x1680
    ||| 0x2000 <= u <= 0x200A
    ||| u == 0x2028
    ||| u == 0x2029
    ||| u == 0x202F
    ||| u == 0x205F
    ||| u == 0x3000
}

/// Tells whether `c` is white space.
pub fn is_whitespace(c: char) -> (space: bool)
    ensures
        space == is_space(c),
{
    let u: u32 = c as u32;
    (0x09 <= u && u <= 0x0D) || u == 0x20 || u == 0x85 || u == 0xA0 || u == 0x1680 || (0x2000 <= u
        && u <= 0x200A) || u == 0x2028 || u == 0x2029 || u == 0x202F || u == 0x205F || u == 0x3000
}

/// `text` without the white space at its start.
pub open spec fn trim_start(text: Seq<char>) -> Seq<char>
    decreases text.len(),
{
    if text.len() > 0 && is_space(text[0]) {
        trim_start(text.drop_first())
    } else {
        text
    }
}

/// `text` without the white space at its end.
pub open spec fn trim_end(text: Seq<char>) -> Seq<char>
    decreases text.len(),
{
    if text.len() > 0 && is_space(text.last()) {
        trim_end(text.drop_last())
    } else {
        text
    }
}

/// `text` without the white space at either end.
pub open spec fn trimmed(text: Seq<char>) -> Seq<char> {
    trim_end(trim_start(text))
}

proof fn lemma_trim_start_skips(text: Seq<char>, from: int)
    requires
        0 <= from <= text.len(),
        forall|k: int| 0 <= k < from ==> is_space(#[trigger] text[k]),
        from == text.len() || !is_space(text[from]),
    ensures
        trim_start(text) == text.skip(from),
    decreases from,
{
    if from == 0 {
        assert(text.skip(0) =~= text);
    } else {
        let rest = text.drop_first();
        assert forall|k: int| 0 <= k < from - 1 implies is_space(#[trigger] rest[k]) by {
            assert(rest[k] == text[k + 1]);
        }
        lemma_trim_start_skips(rest, from - 1);
        assert(rest.skip(from - 1) =~= text.skip(from));
    }
}

proof fn lemma_trim_end_takes(text: Seq<char>, to: int)
    requires
        0 <= to <= text.len(),
        forall|k: int| to <= k < text.len() ==> is_space(#[trigger] text[k]),
        to == 0 || !is_space(text[to - 1]),
    ensures
        trim_end(text) == text.take(to),
    decreases text.len() - to,
{
    if to == text.len() {
        assert(text.take(to) =~= text);
    } else {
        let rest = text.drop_last();
        lemma_trim_end_takes(rest, to);
        assert(rest.take(to) =~= text.take(to));
    }
}

/// A copy of `text` without the white space at either end.
pub fn trim(text: &str) -> (out: String)
    ensures
        out@ == trimmed(text@),
{
    let chars = chars_of(text);
    let mut from: usize = 0;
    while from < chars.len() && is_whitespace(chars[from])
        invariant
            from <= chars.len(),
            forall|k: int| 0 <= k < from ==> is_space(#[trigger] chars@[k]),
        decreases chars.len() - from,
    {
        from += 1;
    }
    let mut to: usize = chars.len();
    while to > from && is_whitespace(chars[to - 1])
        invariant
            from <= to <= chars.len(),
            forall|k: int| to <= k < chars.len() ==> is_space(#[trigger] chars@[k]),
        decreases to,
    {
        to -= 1;
    }
    proof {
        let head = text@.skip(from as int);
        lemma_trim_start_skips(text@, from as int);
        assert forall|k: int| to - from <= k < head.len() implies is_space(#[trigger] head[k]) by {
            assert(head[k] == text@[k + from]);
        }
        lemma_trim_end_takes(head, to - from);
        assert(head.take(to - from) =~= text@.subrange(from as int, to as int));
    }
    String::from_str(text.substring_char(from, to))
}

/// Why a text is no decimal number of 32 bits.
#[derive(Debug, Clone, Copy, PartialEq, Eq, Structural)]
pub enum IntErrorKind {
    /// The text is empty.
    Empty,
    /// A character is no decimal digit, or a sign stands alone.
    InvalidDigit,
    /// The number is too large.
    PosOverflow,
    /// The number is too small.
    NegOverflow,
}

/// The value of a decimal digit.
pub open spec fn digit_value(c: char) -> Option<int> {
    if '0' <= c <= '9' {
        Some(c as u32 - '0' as u32)
    } else {
        None
    }
}

/// The number that `digits` extend `so_far` to, read from the left: each
/// digit multiplies what was read by ten and moves it away from zero by the
/// digit's value. The first character that is no digit, or the first step
/// that leaves the range of 32 bits, decides the error.
pub open spec fn read_digits(digits: Seq<char>, so_far: int, negative: bool) -> Result<
    int,
    IntErrorKind,
>
    decreases digits.len(),
{
    if digits.len() == 0 {
        Ok(so_far)
    } else {
        match digit_value(digits[0]) {
            None => Err(IntErrorKind::InvalidDigit),
            Some(d) => {
                let next = if negative {
                    so_far * 10 - d
                } else {
                    so_far * 10 + d
                };
                if next > i32::MAX {
                    Err(IntErrorKind::PosOverflow)
                } else if next < i32::MIN {
                    Err(IntErrorKind::NegOverflow)
                } else {
                    read_digits(digits.drop_first(), next, negative)
                }
            },
        }
    }
}

/// The number that `text` writes in decimal: an optional `+` or `-`, then at
/// least one digit, nothing else, and a value that fits in 32 bits.
pub open spec fn parse_int(text: Seq<char>) -> Result<int, IntErrorKind> {
    if text.len() == 0 {
        Err(IntErrorKind::Empty)
    } else if text.len() == 1 && (text[0] == '+' || text[0] == '-') {
        Err(IntErrorKind::InvalidDigit)
    } else if text[0] == '+' {
        read_digits(text.drop_first(), 0, false)
    } else if text[0] == '-' {
        read_digits(text.drop_first(), 0, true)
    } else {
        read_digits(text, 0, false)
    }
}

/// A number read by `read_digits` lies in the range of 32 bits if its start
/// does.
proof fn lemma_read_digits_in_range(digits: Seq<char>, so_far: int, negative: bool)
    requires
        i32::MIN <= so_far <= i32::MAX,
    ensures
        read_digits(digits, so_far, negative) matches Ok(v) ==> i32::MIN <= v <= i32::MAX,
    decreases digits.len(),
{
    if digits.len() > 0 {
        if let Some(d) = digit_value(digits[0]) {
            let next = if negative {
                so_far * 10 - d
            } else {
                so_far * 10 + d
            };
            if i32::MIN <= next <= i32::MAX {
                lemma_read_digits_in_range(digits.drop_first(), next, negative);
            }
        }
    }
}

/// Every number that `parse_int` reads fits in 32 bits.
pub proof fn lemma_parse_int_in_range(text: Seq<char>)
    ensures
        parse_int(text) matches Ok(v) ==> i32::MIN <= v <= i32::MAX,
{
    if text.len() > 0 {
        lemma_read_digits_in_range(text, 0, false);
        lemma_read_digits_in_range(text.drop_first(), 0, false);
        lemma_read_digits_in_range(text.drop_first(), 0, true);
    }
}

/// Reads the digits of `chars` from position `from` on.
fn read_digits_from(chars: &Vec<char>, from: usize, negative: bool) -> (out: Result<
    i32,
    IntErrorKind,
>)
    requires
        from <= chars.len(),
    ensures
        match out {
            Ok(v) => read_digits(chars@.skip(from as int), 0, negative) == Ok::<int, IntErrorKind>(
                v as int,
            ),
            Err(kind) => read_digits(chars@.skip(from as int), 0, negative) == Err::<
                int,
                IntErrorKind,
            >(kind),
        },
{
    let mut i: usize = from;
    let mut so_far: i32 = 0;
    while i < chars.len()
        invariant
            from <= i <= chars.len(),
            negative ==> so_far <= 0,
            !negative ==> so_far >= 0,
            read_digits(chars@.skip(from as int), 0, negative) == read_digits(
                chars@.skip(i as int),
                so_far as int,
                negative,
            ),
        decreases chars.len() - i,
    {
        let c = chars[i];
        let ghost rest = chars@.skip(i as int);
        assert(rest[0] == c);
        assert(rest.drop_first() =~= chars@.skip(i + 1));
        if !('0' <= c && c <= '9') {
            return Err(IntErrorKind::InvalidDigit);
        }
        let d: i64 = (c as u32 - '0' as u32) as i64;
        let next: i64 = if negative {
            so_far as i64 * 10 - d
        } else {
            so_far as i64 * 10 + d
        };
        if next > i32::MAX as i64 {
            return Err(IntErrorKind::PosOverflow);
        }
        if next < i32::MIN as i64 {
            return Err(IntErrorKind::NegOverflow);
        }
        so_far = next as i32;
        i += 1;
    }
    assert(chars@.skip(i as int).len() == 0);
    Ok(so_far)
}

/// Reads `text` as a decimal number of 32 bits.
pub fn parse_i32(text: &str) -> (out: Result<i32, IntErrorKind>)
    ensures
        match out {
            Ok(v) => parse_int(text@) == Ok::<int, IntErrorKind>(v as int),
            Err(kind) => parse_int(text@) == Err::<int, IntErrorKind>(kind),
        },
{
    let chars = chars_of(text);
    assert(chars@.skip(0) =~= chars@);
    if chars.len() == 0 {
        Err(IntErrorKind::Empty)
    } else if chars.len() == 1 && (chars[0] == '+' || chars[0] == '-') {
        Err(IntErrorKind::InvalidDigit)
    } else if chars[0] == '+' {
        read_digits_from(&chars, 1, false)
    } else if chars[0] == '-' {
        read_digits_from(&chars, 1, true)
    } else {
        read_digits_from(&chars, 0, false)
    }
}

/// The character of a decimal digit.
pub open spec fn digit_char(d: int) -> char
    recommends
        0 <= d <= 9,
{
    ('0' as u32 + d) as char
}

/// `n` in decimal, without leading zeros (`0` is "0").
pub open spec fn decimal(n: nat) -> Seq<char>
    decreases n,
{
    if n < 10 {
        seq![digit_char(n as int)]
    } else {
        decimal(n / 10).push(digit_char((n % 10) as int))
    }
}

/// `n` in decimal, filled with zeros on the left to at least two characters.
pub open spec fn two_digits(n: nat) -> Seq<char> {
    if n < 10 {
        seq!['0'] + decimal(n)
    } else {
        decimal(n)
    }
}

/// The text of one decimal digit.
fn digit_str(d: u32) -> (out: &'static str)
    requires
        d <= 9,
    ensures
        out@ == seq![digit_char(d as int)],
{
    proof {
        reveal_strlit("0");
        reveal_strlit("1");
        reveal_strlit("2");
        reveal_strlit("3");
        reveal_strlit("4");
        reveal_strlit("5");
        reveal_strlit("6");
        reveal_strlit("7");
        reveal_strlit("8");
        reveal_strlit("9");
    }
    let out = match d {
        0 => "0",
        1 => "1",
        2 => "2",
        3 => "3",
        4 => "4",
        5 => "5",
        6 => "6",
        7 => "7",
        8 => "8",
        _ => "9",
    };
    assert(out@ =~= seq![digit_char(d as int)]);
    out
}

/// Writes `n` in decimal behind what `out` holds.
pub fn push_decimal(out: &mut String, n: u32)
    ensures
        final(out)@ == old(out)@ + decimal(n as nat),
    decreases n,
{
    if n >= 10 {
        push_decimal(out, n / 10);
    }
    out.append(digit_str(n % 10));
    proof {
        if n >= 10 {
            assert(old(out)@ + decimal((n / 10) as nat) + seq![digit_char((n % 10) as int)]
                =~= old(out)@ + decimal(n as nat));
        }
    }
}

/// Writes `n` behind what `out` holds, in at least two decimal digits.
pub fn push_two_digits(out: &mut String, n: u32)
    ensures
        final(out)@ == old(out)@ + two_digits(n as nat),
{
    if n < 10 {
        out.append("0");
        proof {
            reveal_strlit("0");
            assert("0"@ =~= seq!['0']);
        }
    }
    push_decimal(out, n);
    proof {
        if n < 10 {
            assert(old(out)@ + "0"@ + decimal(n as nat) =~= old(out)@ + two_digits(n as nat));
        }
    }
}

/// `text` with every `from` replaced by `to`.
pub open spec fn replaced(text: Seq<char>, from: char, to: Seq<char>) -> Seq<char>
    decreases text.len(),
{
    if text.len() == 0 {
        Seq::empty()
    } else if text.last() == from {
        replaced(text.drop_last(), from, to) + to
    } else {
        replaced(text.drop_last(), from, to).push(text.last())
    }
}

/// A copy of `text` in which `to` stands for every `from`.
pub fn replace_char(text: &str, from: char, to: &str) -> (out: String)
    ensures
        out@ == replaced(text@, from, to@),
{
    let chars = chars_of(text);
    let mut out = String::new();
    let mut i: usize = 0;
    assert(text@.take(0) =~= Seq::empty());
    while i < chars.len()
        invariant
            i <= chars.len(),
            chars@ == text@,
            out@ == replaced(text@.take(i as int), from, to@),
        decreases chars.len() - i,
    {
        let ghost next = text@.take(i + 1);
        assert(next.drop_last() =~= text@.take(i as int));
        assert(next.last() == chars@[i as int]);
        if chars[i] == from {
            out.append(to);
        } else {
            assert(text@.subrange(i as int, i + 1) =~= seq![chars@[i as int]]);
            out.append(text.substring_char(i, i + 1));
            assert(replaced(text@.take(i as int), from, to@) + seq![chars@[i as int]]
                =~= replaced(text@.take(i as int), from, to@).push(chars@[i as int]));
        }
        i += 1;
    }
    assert(text@.take(i as int) =~= text@);
    out
}

/// `n` in decimal, filled with zeros on the left to at least four
/// characters.
pub open spec fn four_digits(n: nat) -> Seq<char> {
    if n < 10 {
        seq!['0', '0', '0'] + decimal(n)
    } else if n < 100 {
        seq!['0', '0'] + decimal(n)
    } else if n < 1000 {
        seq!['0'] + decimal(n)
    } else {
        decimal(n)
    }
}

/// Writes `n` behind what `out` holds, in at least four decimal digits.
pub fn push_four_digits(out: &mut String, n: u32)
    ensures
        final(out)@ == old(out)@ + four_digits(n as nat),
{
    proof {
        reveal_strlit("0");
        reveal_strlit("00");
        reveal_strlit("000");
        assert("0"@ =~= seq!['0']);
        assert("00"@ =~= seq!['0', '0']);
        assert("000"@ =~= seq!['0', '0', '0']);
    }
    let ghost before = out@;
    if n < 10 {
        out.append("000");
    } else if n < 100 {
        out.append("00");
    } else if n < 1000 {
        out.append("0");
    }
    let ghost padded = out@;
    push_decimal(out, n);
    assert(out@ =~= before + four_digits(n as nat));
}

} // verus!
