//! Decimal text of integers, as the tool prints element ids and positions and
//! as it reads element ids back from the command line.
//!
//! `format_integer` writes what `Display` writes for an integer, and
//! `parse_i32` accepts what `i32::from_str` accepts: an optional `+` or `-`
//! followed by one or more ASCII digits whose value fits in an `i32`.

use vstd::prelude::*;

verus! {

/// The character of a decimal digit `d` (`0 <= d < 10`).
pub open spec fn digit_char(d: int) -> char {
    ((48 + d) as u32) as char
}

/// Whether `c` is an ASCII decimal digit.
pub open spec fn is_digit(c: char) -> bool {
    48 <= (c as int) && (c as int) <= 57
}

/// The value of the ASCII decimal digit `c`.
pub open spec fn digit_value(c: char) -> int {
    (c as int) - 48
}

/// The decimal digits of a natural number, most significant first, with no
/// leading zero (zero itself is the single digit `0`).
pub open spec fn digits_of(m: nat) -> Seq<char>
    decreases m,
{
    if m < 10 {
        seq![digit_char(m as int)]
    } else {
        digits_of(m / 10).push(digit_char((m % 10) as int))
    }
}

/// The decimal text of an integer: a `-` before the digits of a negative one.
pub open spec fn decimal_text(n: int) -> Seq<char> {
    if n < 0 {
        seq!['-'] + digits_of((-n) as nat)
    } else {
        digits_of(n as nat)
    }
}

/// Whether every character of `s` is an ASCII decimal digit.
pub open spec fn all_digits(s: Seq<char>) -> bool {
    forall|i: int| 0 <= i < s.len() ==> #[trigger] is_digit(s[i])
}

/// The value of a sequence of decimal digits, most significant first.
pub open spec fn digits_value(s: Seq<char>) -> int
    decreases s.len(),
{
    if s.len() == 0 {
        0
    } else {
        digits_value(s.drop_last()) * 10 + digit_value(s.last())
    }
}

/// Splits an optional leading sign off `s`: whether it was `-`, and the rest.
pub open spec fn split_sign(s: Seq<char>) -> (bool, Seq<char>) {
    if s.len() > 0 && s[0] == '-' {
        (true, s.drop_first())
    } else if s.len() > 0 && s[0] == '+' {
        (false, s.drop_first())
    } else {
        (false, s)
    }
}

/// The `i32` that the text `s` denotes, if it denotes one: an optional sign,
/// then at least one digit and nothing else, with a value in range.
pub open spec fn spec_parse_i32(s: Seq<char>) -> Option<i32> {
    let (negative, body) = split_sign(s);
    if body.len() > 0 && all_digits(body) {
        let v = if negative { -digits_value(body) } else { digits_value(body) };
        if i32::MIN <= v && v <= i32::MAX {
            Some(v as i32)
        } else {
            None
        }
    } else {
        None
    }
}

/// The one-character text of the digit `d`.
fn digit_str(d: u64) -> (r: &'static str)
    requires
        d < 10,
    ensures
        r@ == seq![digit_char(d as int)],
{
    proof {
        reveal_strlit("0");
        reveal_strlit("1");
        reveal_strlit("2");
        reveal_strlit("3");
        reveal_strlit("4");
        reveal_strlit("5");
        reveal_strlit("6");
        reveal_strlit("7");
        reveal_strlit("8");
        reveal_strlit("9");
    }
    match d {
        0 => "0",
        1 => "1",
        2 => "2",
        3 => "3",
        4 => "4",
        5 => "5",
        6 => "6",
        7 => "7",
        8 => "8",
        _ => "9",
    }
}

/// Appends the decimal digits of `m` to `s`.
fn push_digits(s: &mut String, m: u64)
    ensures
        final(s)@ == old(s)@ + digits_of(m as nat),
    decreases m,
{
    if m >= 10 {
        push_digits(s, m / 10);
    }
    s.append(digit_str(m % 10));
    proof {
        if m >= 10 {
            assert(final(s)@ =~= old(s)@ + digits_of(m as nat));
        } else {
            assert(final(s)@ =~= old(s)@ + digits_of(m as nat));
        }
    }
}

/// The decimal text of `n`, as `Display` writes it.
pub fn format_integer(n: i64) -> (r: String)
    ensures
        r@ == decimal_text(n as int),
{
    let mut s = String::new();
    if n < 0 {
        proof {
            reveal_strlit("-");
        }
        s.append("-");
        let magnitude: u64 = ((-(n + 1)) as u64) + 1;
        push_digits(&mut s, magnitude);
        assert(s@ =~= decimal_text(n as int));
    } else {
        push_digits(&mut s, n as u64);
        assert(s@ =~= decimal_text(n as int));
    }
    s
}

/// The value kept while reading digits: the value so far, held at
/// `PARSE_CAP` once it reaches it, since every larger value is out of range.
pub open spec fn capped(v: int) -> int {
    if v < PARSE_CAP as int { v } else { PARSE_CAP as int }
}

/// One more than the magnitude of `i32::MIN`.
pub const PARSE_CAP: i64 = 2147483649;

/// Reads an `i32` from its decimal text, as `i32::from_str` does: `None`
/// where that gives an error.
pub fn parse_i32(s: &str) -> (r: Option<i32>)
    ensures
        r == spec_parse_i32(s@),
{
    let len = s.unicode_len();
    let mut start: usize = 0;
    let mut negative = false;
    if len > 0 {
        let c = s.get_char(0);
        if c == '-' {
            negative = true;
            start = 1;
        } else if c == '+' {
            start = 1;
        }
    }
    let ghost body = s@.subrange(start as int, len as int);
    assert(body =~= split_sign(s@).1);
    assert(negative == split_sign(s@).0);
    if start >= len {
        return None;
    }
    let mut acc: i64 = 0;
    let mut i: usize = start;
    while i < len
        invariant
            start <= i <= len,
            len == s@.len(),
            body == s@.subrange(start as int, len as int),
            body == split_sign(s@).1,
            all_digits(body.take(i - start)),
            acc == capped(digits_value(body.take(i - start))),
            0 <= acc <= PARSE_CAP,
        decreases len - i,
    {
        let c = s.get_char(i);
        let code = c as u32;
        if code < 48 || code > 57 {
            assert(body[i - start] == c);
            assert(!is_digit(body[i - start]));
            assert(!all_digits(body));
            return None;
        }
        let ghost prev = body.take(i - start);
        let ghost next = body.take(i - start + 1);
        assert(next.drop_last() =~= prev);
        assert(next.last() == c);
        let d: i64 = (code - 48) as i64;
        assert(digits_value(next) == digits_value(prev) * 10 + d);
        acc = acc * 10 + d;
        if acc > PARSE_CAP {
            acc = PARSE_CAP;
        }
        proof {
            let v = digits_value(prev);
            if v >= PARSE_CAP {
                assert(v * 10 + d >= PARSE_CAP) by (nonlinear_arith)
                    requires v >= PARSE_CAP, d >= 0;
            }
            assert forall|j: int| 0 <= j < next.len() implies #[trigger] is_digit(next[j]) by {
                if j < prev.len() {
                    assert(next[j] == prev[j]);
                }
            }
        }
        i = i + 1;
    }
    assert(body.take(len - start) =~= body);
    if negative {
        if acc <= 2147483648 {
            Some((0 - acc) as i32)
        } else {
            None
        }
    } else {
        if acc <= 2147483647 {
            Some(acc as i32)
        } else {
            None
        }
    }
}

/// The character of a digit is an ASCII digit of that value.
pub proof fn lemma_digit_char(d: int)
    requires
        0 <= d < 10,
    ensures
        is_digit(digit_char(d)),
        digit_value(digit_char(d)) == d,
{
    assert(digit_char(d) as int == 48 + d);
}

/// The decimal digits of a natural number are ASCII digits, there is at
/// least one, and together they denote the number.
pub proof fn lemma_digits_of(m: nat)
    ensures
        digits_of(m).len() > 0,
        all_digits(digits_of(m)),
        digits_value(digits_of(m)) == m,
    decreases m,
{
    lemma_digit_char((m % 10) as int);
    if m < 10 {
        let s = digits_of(m);
        assert(s.drop_last() =~= Seq::<char>::empty());
        assert(digits_value(s.drop_last()) == 0);
        assert(s.last() == digit_char((m % 10) as int));
    } else {
        lemma_digits_of(m / 10);
        let s = digits_of(m);
        assert(s.drop_last() =~= digits_of(m / 10));
        assert((m / 10) * 10 + m % 10 == m) by (nonlinear_arith);
        assert forall|j: int| 0 <= j < s.len() implies #[trigger] is_digit(s[j]) by {
            if j < s.len() - 1 {
                assert(s[j] == digits_of(m / 10)[j]);
            }
        }
    }
}

/// The text that `format_integer` writes for an `i32` is read back by
/// `parse_i32` as that same `i32`: an element id the tool prints is the id
/// that the tool's commands accept for that element.
pub proof fn lemma_decimal_text_parses_back(n: i32)
    ensures
        spec_parse_i32(decimal_text(n as int)) == Some(n),
{
    if n < 0 {
        let m = (-n) as nat;
        lemma_digits_of(m);
        let t = decimal_text(n as int);
        assert(t[0] == '-');
        assert(t.drop_first() =~= digits_of(m));
    } else {
        let m = n as nat;
        lemma_digits_of(m);
        let t = decimal_text(n as int);
        assert(is_digit(t[0]));
    }
}

} // verus!
