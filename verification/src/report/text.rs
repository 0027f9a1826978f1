//! The building blocks of report lines: marks, decimal and binary numbers,
//! padding.

use vstd::prelude::*;

verus! {

/// The indent of a first-level report line.
pub const L1: &'static str = "  ";

/// The indent of a second-level report line.
pub const L2: &'static str = "     ";

/// The indent of a third-level report line.
pub const L3: &'static str = "        ";

/// The mark of an active (`[*]`) or inactive (`[ ]`) item.
pub open spec fn active_mark(active: bool) -> &'static str {
    if active {
        "[*]"
    } else {
        "[ ]"
    }
}

/// The mark of a supported (`+`) or unsupported (`-`) capability.
pub open spec fn supported_mark(supported: bool) -> &'static str {
    if supported {
        "+"
    } else {
        "-"
    }
}

/// The mark of an active (`[*]`) or inactive (`[ ]`) item.
pub fn to_char(active: bool) -> (r: &'static str)
    ensures
        r == active_mark(active),
{
    if active {
        "[*]"
    } else {
        "[ ]"
    }
}

/// The mark of a supported (`+`) or unsupported (`-`) capability.
pub fn to_char1(supported: bool) -> (r: &'static str)
    ensures
        r == supported_mark(supported),
{
    if supported {
        "+"
    } else {
        "-"
    }
}

/// A marked report line: the indent, a space, the mark, a space, then the
/// text.
pub open spec fn marked_line(indent: &str, mark: &str, text: Seq<char>) -> Seq<char> {
    indent@ + " "@ + mark@ + " "@ + text
}

/// A marked report line: the indent, a space, the mark, a space, then the
/// text.
pub fn marked_line_text(indent: &str, mark: &str, text: &str) -> (r: String)
    ensures
        r@ == marked_line(indent, mark, text@),
{
    let mut s = String::from_str(indent);
    s.append(" ");
    s.append(mark);
    s.append(" ");
    s.append(text);
    s
}

/// The decimal digit character of `d`, for `d` below ten.
pub open spec fn digit_char(d: nat) -> char {
    (d + 48) as char
}

/// The decimal digits of `n`, most significant first, without leading
/// zeros (one `0` for zero).
pub open spec fn decimal_chars(n: nat) -> Seq<char>
    decreases n,
{
    if n < 10 {
        seq![digit_char(n)]
    } else {
        decimal_chars(n / 10).push(digit_char(n % 10))
    }
}

/// The decimal text of a signed number: a minus sign before the digits of
/// its magnitude where it is negative.
pub open spec fn signed_decimal_chars(n: int) -> Seq<char> {
    if n < 0 {
        seq!['-'] + decimal_chars((-n) as nat)
    } else {
        decimal_chars(n as nat)
    }
}

/// `s` right-aligned in a field of `width` characters: `fill` characters
/// before it up to the width; `s` unchanged where it is not shorter.
pub open spec fn pad_left(s: Seq<char>, width: nat, fill: char) -> Seq<char> {
    if s.len() < width {
        Seq::new((width - s.len()) as nat, |i: int| fill) + s
    } else {
        s
    }
}

/// The text of one decimal digit.
fn digit_text(d: u64) -> (r: &'static str)
    requires
        d < 10,
    ensures
        r@ == seq![digit_char(d as nat)],
{
    proof {
        reveal_strlit("0");
        reveal_strlit("1");
        reveal_strlit("2");
        reveal_strlit("3");
        reveal_strlit("4");
        reveal_strlit("5");
        reveal_strlit("6");
        reveal_strlit("7");
        reveal_strlit("8");
        reveal_strlit("9");
    }
    if d == 0 {
        "0"
    } else if d == 1 {
        "1"
    } else if d == 2 {
        "2"
    } else if d == 3 {
        "3"
    } else if d == 4 {
        "4"
    } else if d == 5 {
        "5"
    } else if d == 6 {
        "6"
    } else if d == 7 {
        "7"
    } else if d == 8 {
        "8"
    } else {
        "9"
    }
}

/// The decimal text of `n`.
pub fn decimal_text(n: u64) -> (r: String)
    ensures
        r@ == decimal_chars(n as nat),
    decreases n,
{
    if n < 10 {
        String::from_str(digit_text(n))
    } else {
        let mut s = decimal_text(n / 10);
        s.append(digit_text(n % 10));
        s
    }
}

/// The binary digits of `n`, most significant first, without leading
/// zeros (one `0` for zero).
pub open spec fn binary_chars(n: nat) -> Seq<char>
    decreases n,
{
    if n < 2 {
        seq![digit_char(n)]
    } else {
        binary_chars(n / 2).push(digit_char(n % 2))
    }
}

/// The binary text of `n`.
pub fn binary_text(n: u64) -> (r: String)
    ensures
        r@ == binary_chars(n as nat),
    decreases n,
{
    if n < 2 {
        String::from_str(digit_text(n))
    } else {
        let mut s = binary_text(n / 2);
        s.append(digit_text(n % 2));
        s
    }
}

/// The decimal text of a signed number.
pub fn signed_decimal_text(n: i64) -> (r: String)
    ensures
        r@ == signed_decimal_chars(n as int),
{
    if n < 0 {
        let m: u64 = (0i128 - (n as i128)) as u64;
        let mut s = String::from_str("-");
        proof {
            reveal_strlit("-");
        }
        let d = decimal_text(m);
        s.append(d.as_str());
        s
    } else {
        decimal_text(n as u64)
    }
}

/// `s` right-aligned with spaces in a field of `width` characters.
pub fn pad_left_text(s: &str, width: usize) -> (r: String)
    ensures
        r@ == pad_left(s@, width as nat, ' '),
{
    let len = s.unicode_len();
    let mut r = String::new();
    proof {
        reveal_strlit(" ");
    }
    if len < width {
        let mut i: usize = 0;
        while i < width - len
            invariant
                len == s@.len(),
                len < width,
                i <= width - len,
                r@ == Seq::new(i as nat, |k: int| ' '),
                " "@ == seq![' '],
            decreases width - len - i,
        {
            r.append(" ");
            assert(r@ =~= Seq::new((i + 1) as nat, |k: int| ' '));
            i = i + 1;
        }
    }
    r.append(s);
    assert(r@ =~= pad_left(s@, width as nat, ' '));
    r
}

/// The decimal text of `n`, right-aligned with spaces in a field of
/// `width` characters, as `{:width}` writes a number.
pub fn padded_decimal_text(n: u64, width: usize) -> (r: String)
    ensures
        r@ == pad_left(decimal_chars(n as nat), width as nat, ' '),
{
    let d = decimal_text(n);
    pad_left_text(d.as_str(), width)
}

/// The decimal text of a signed `n`, right-aligned with spaces in a field
/// of `width` characters.
pub fn padded_signed_decimal_text(n: i64, width: usize) -> (r: String)
    ensures
        r@ == pad_left(signed_decimal_chars(n as int), width as nat, ' '),
{
    let d = signed_decimal_text(n);
    pad_left_text(d.as_str(), width)
}

/// The decimal text of `n`, at least two digits, with a leading zero
/// below ten, as `{:02}` writes a number.
pub fn two_digit_text(n: u64) -> (r: String)
    ensures
        r@ == pad_left(decimal_chars(n as nat), 2, '0'),
{
    let d = decimal_text(n);
    if n < 10 {
        let mut s = String::from_str("0");
        proof {
            reveal_strlit("0");
        }
        s.append(d.as_str());
        assert(s@ =~= pad_left(decimal_chars(n as nat), 2, '0'));
        s
    } else {
        proof {
            lemma_decimal_len_at_least_two(n as nat);
        }
        d
    }
}

/// Numbers from ten on have at least two digits.
proof fn lemma_decimal_len_at_least_two(n: nat)
    requires
        n >= 10,
    ensures
        decimal_chars(n).len() >= 2,
{
    assert(decimal_chars(n / 10).len() >= 1) by {
        reveal_with_fuel(decimal_chars, 2);
    }
}

/// The number that a sequence of decimal digits denotes.
pub open spec fn digits_value(s: Seq<char>) -> int
    decreases s.len(),
{
    if s.len() == 0 {
        0
    } else {
        digits_value(s.drop_last()) * 10 + (s.last() as int - 48)
    }
}

/// The decimal text of a number denotes that number, and starts with a
/// zero only where the number is zero.
pub proof fn lemma_decimal_denotes(n: nat)
    ensures
        decimal_chars(n).len() > 0,
        digits_value(decimal_chars(n)) == n,
        decimal_chars(n)[0] == '0' ==> n == 0,
    decreases n,
{
    if n < 10 {
        assert(decimal_chars(n).drop_last() =~= Seq::<char>::empty());
        assert(digit_char(n) as int == n + 48);
        assert(decimal_chars(n).last() == digit_char(n));
        assert(digits_value(Seq::<char>::empty()) == 0);
        assert(digits_value(decimal_chars(n)) == digits_value(decimal_chars(n).drop_last()) * 10 + (
        decimal_chars(n).last() as int - 48));
    } else {
        lemma_decimal_denotes(n / 10);
        assert(decimal_chars(n).drop_last() =~= decimal_chars(n / 10));
        assert(digit_char(n % 10) as int == n % 10 + 48);
        assert((n / 10) * 10 + n % 10 == n);
        assert(decimal_chars(n).last() == digit_char(n % 10));
        assert(digits_value(decimal_chars(n)) == digits_value(decimal_chars(n).drop_last()) * 10 + (
        decimal_chars(n).last() as int - 48));
    }
}

} // verus!
