//! Building text: decimal numbers, joined lists, quoted tokens.
//!
//! Every function here states its result as a sequence of characters, so
//! that the callers' contracts can speak of the exact text they emit.

use vstd::prelude::*;
use vstd::string::{StrSliceExecFns, StringExecFns};

verus! {

/// The character that stands for one decimal digit.
pub open spec fn digit_char(d: int) -> char {
    if d == 0 {
        '0'
    } else if d == 1 {
        '1'
    } else if d == 2 {
        '2'
    } else if d == 3 {
        '3'
    } else if d == 4 {
        '4'
    } else if d == 5 {
        '5'
    } else if d == 6 {
        '6'
    } else if d == 7 {
        '7'
    } else if d == 8 {
        '8'
    } else {
        '9'
    }
}

/// The decimal notation of a natural number: no sign, no leading zero.
pub open spec fn decimal(n: nat) -> Seq<char>
    decreases n,
{
    if n < 10 {
        seq![digit_char(n as int)]
    } else {
        decimal(n / 10).push(digit_char((n % 10) as int))
    }
}

/// The decimal notation of an integer: a minus sign before a negative one.
pub open spec fn signed_decimal(n: int) -> Seq<char> {
    if n < 0 {
        seq!['-'] + decimal((-n) as nat)
    } else {
        decimal(n as nat)
    }
}

/// How a flag is written for the game: `1` when set, `0` when not.
pub open spec fn flag_text(b: bool) -> Seq<char> {
    if b {
        seq!['1']
    } else {
        seq!['0']
    }
}

/// The parts written one after the other, with `sep` between neighbours.
pub open spec fn join(parts: Seq<Seq<char>>, sep: Seq<char>) -> Seq<char>
    decreases parts.len(),
{
    if parts.len() == 0 {
        Seq::<char>::empty()
    } else if parts.len() == 1 {
        parts[0]
    } else {
        join(parts.drop_last(), sep) + sep + parts.last()
    }
}

/// A token between double quotes.
pub open spec fn quoted(token: Seq<char>) -> Seq<char> {
    seq!['"'] + token + seq!['"']
}

/// Each token between double quotes.
pub open spec fn quoted_all(tokens: Seq<Seq<char>>) -> Seq<Seq<char>> {
    Seq::new(tokens.len(), |i: int| quoted(tokens[i]))
}

/// The texts that a vector of strings holds.
pub open spec fn texts(v: Seq<String>) -> Seq<Seq<char>> {
    Seq::new(v.len(), |i: int| v[i]@)
}

fn digit_str(d: u64) -> (s: &'static str)
    requires
        d < 10,
    ensures
        s@ == seq![digit_char(d as int)],
{
    proof {
        reveal_strlit("0");
        reveal_strlit("1");
        reveal_strlit("2");
        reveal_strlit("3");
        reveal_strlit("4");
        reveal_strlit("5");
        reveal_strlit("6");
        reveal_strlit("7");
        reveal_strlit("8");
        reveal_strlit("9");
    }
    let s = if d == 0 {
        "0"
    } else if d == 1 {
        "1"
    } else if d == 2 {
        "2"
    } else if d == 3 {
        "3"
    } else if d == 4 {
        "4"
    } else if d == 5 {
        "5"
    } else if d == 6 {
        "6"
    } else if d == 7 {
        "7"
    } else if d == 8 {
        "8"
    } else {
        "9"
    };
    assert(s@ =~= seq![digit_char(d as int)]);
    s
}

/// Writes a number in decimal notation.
pub fn decimal_text(n: u64) -> (s: String)
    ensures
        s@ == decimal(n as nat),
{
    let mut rest: u64 = n;
    let mut tail: String = String::new();
    while rest >= 10
        invariant
            decimal(n as nat) == decimal(rest as nat) + tail@,
        decreases rest,
    {
        let d: u64 = rest % 10;
        let head = String::from_str(digit_str(d));
        proof {
            assert(decimal(rest as nat) == decimal((rest / 10) as nat).push(
                digit_char((rest % 10) as int),
            ));
            assert(decimal(rest as nat) + tail@ =~= decimal((rest / 10) as nat) + (head@
                + tail@));
        }
        tail = head.concat(tail.as_str());
        rest = rest / 10;
    }
    let head = String::from_str(digit_str(rest));
    head.concat(tail.as_str())
}

/// Writes an integer in decimal notation, with a minus sign where it is negative.
pub fn signed_decimal_text(n: i64) -> (s: String)
    ensures
        s@ == signed_decimal(n as int),
{
    if n < 0 {
        // -(i64::MIN) does not fit in an i64; its magnitude does fit in a u64
        let magnitude: u64 = if n == i64::MIN {
            9223372036854775808u64
        } else {
            (-n) as u64
        };
        proof {
            reveal_strlit("-");
            assert("-"@ =~= seq!['-']);
        }
        let digits = decimal_text(magnitude);
        String::from_str("-").concat(digits.as_str())
    } else {
        decimal_text(n as u64)
    }
}

/// Writes a flag as the game reads it.
pub fn flag_string(b: bool) -> (s: String)
    ensures
        s@ == flag_text(b),
{
    proof {
        reveal_strlit("0");
        reveal_strlit("1");
        assert("0"@ =~= seq!['0']);
        assert("1"@ =~= seq!['1']);
    }
    if b {
        String::from_str("1")
    } else {
        String::from_str("0")
    }
}

/// Joins the strings with `sep` between neighbours.
pub fn join_strings(parts: &Vec<String>, sep: &str) -> (s: String)
    ensures
        s@ == join(texts(parts@), sep@),
{
    let mut out = String::new();
    let mut i: usize = 0;
    while i < parts.len()
        invariant
            i <= parts.len(),
            out@ == join(texts(parts@).take(i as int), sep@),
        decreases parts.len() - i,
    {
        proof {
            let all = texts(parts@);
            let next = all.take(i + 1);
            assert(next.drop_last() =~= all.take(i as int));
            assert(next.last() == parts@[i as int]@);
            if i == 0 {
                assert(out@ =~= Seq::<char>::empty());
                assert(join(next, sep@) =~= out@ + parts@[i as int]@);
            }
        }
        if i > 0 {
            out.append(sep);
        }
        out.append(parts[i].as_str());
        i = i + 1;
    }
    proof {
        assert(texts(parts@).take(parts.len() as int) =~= texts(parts@));
    }
    out
}

/// The characters of a text, one by one.
pub fn chars_of(text: &str) -> (chars: Vec<char>)
    ensures
        chars@ == text@,
{
    let n = text.unicode_len();
    let mut chars: Vec<char> = Vec::new();
    let mut i: usize = 0;
    while i < n
        invariant
            i <= n,
            n == text@.len(),
            chars@ == text@.take(i as int),
        decreases n - i,
    {
        chars.push(text.get_char(i));
        assert(text@.take(i + 1) =~= text@.take(i as int).push(text@[i as int]));
        i = i + 1;
    }
    assert(text@.take(n as int) =~= text@);
    chars
}

/// White space, as Unicode defines it.
pub open spec fn is_white_space(c: char) -> bool {
    let n = c as u32;
    ||| 0x09 <= n <= 0x0d
    ||| n == 0x20
    ||| n == 0x85
    ||| n == 0xa0
    ||| n == 0x1680
    ||| 0x2000 <= n <= 0x200a
    ||| n == 0x2028
    ||| n == 0x2029
    ||| n == 0x202f
    ||| n == 0x205f
    ||| n == 0x3000
}

/// The first place at or after `from` that holds no white space.
pub open spec fn skip_white_space(s: Seq<char>, from: int) -> int
    decreases s.len() - from,
{
    if 0 <= from < s.len() && is_white_space(s[from]) {
        skip_white_space(s, from + 1)
    } else {
        from
    }
}

/// The place behind the last character before `to` that is no white space.
pub open spec fn drop_white_space(s: Seq<char>, to: int) -> int
    decreases to,
{
    if 0 < to <= s.len() && is_white_space(s[to - 1]) {
        drop_white_space(s, to - 1)
    } else {
        to
    }
}

/// The text without the white space at its ends.
pub open spec fn trimmed(s: Seq<char>) -> Seq<char> {
    let start = skip_white_space(s, 0);
    let end = drop_white_space(s, s.len() as int);
    if start < end {
        s.subrange(start, end)
    } else {
        Seq::<char>::empty()
    }
}

/// Whether the character is white space.
pub fn white_space(c: char) -> (white: bool)
    ensures
        white == is_white_space(c),
{
    let n: u32 = c as u32;
    (0x09 <= n && n <= 0x0d) || n == 0x20 || n == 0x85 || n == 0xa0 || n == 0x1680 || (0x2000
        <= n && n <= 0x200a) || n == 0x2028 || n == 0x2029 || n == 0x202f || n == 0x205f || n
        == 0x3000
}

/// The text without the white space at its ends.
pub fn trim(text: &str) -> (inner: &str)
    ensures
        inner@ == trimmed(text@),
{
    let chars = chars_of(text);
    let mut start: usize = 0;
    while start < chars.len() && white_space(chars[start])
        invariant
            start <= chars.len(),
            skip_white_space(chars@, 0) == skip_white_space(chars@, start as int),
        decreases chars.len() - start,
    {
        start = start + 1;
    }
    let mut end: usize = chars.len();
    while end > 0 && white_space(chars[end - 1])
        invariant
            end <= chars.len(),
            drop_white_space(chars@, chars@.len() as int) == drop_white_space(chars@, end as int),
        decreases end,
    {
        end = end - 1;
    }
    if start < end {
        text.substring_char(start, end)
    } else {
        let empty = text.substring_char(0, 0);
        assert(empty@ =~= Seq::<char>::empty());
        empty
    }
}

/// Whether two texts are the same.
pub fn same_text(a: &str, b: &str) -> (same: bool)
    ensures
        same == (a@ == b@),
{
    String::from_str(a) == String::from_str(b)
}

/// Puts a token between double quotes.
pub fn quote(token: &str) -> (s: String)
    ensures
        s@ == quoted(token@),
{
    proof {
        reveal_strlit("\"");
        assert("\""@ =~= seq!['"']);
    }
    let mut out = String::from_str("\"");
    out.append(token);
    out.append("\"");
    out
}

/// Writes two texts one after the other.
pub fn concat2(a: &str, b: &str) -> (s: String)
    ensures
        s@ == a@ + b@,
{
    let mut out = String::from_str(a);
    out.append(b);
    out
}

/// Writes three texts one after the other.
pub fn concat3(a: &str, b: &str, c: &str) -> (s: String)
    ensures
        s@ == a@ + b@ + c@,
{
    let mut out = String::from_str(a);
    out.append(b);
    out.append(c);
    out
}

} // verus!
