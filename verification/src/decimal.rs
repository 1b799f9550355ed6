//! Decimal text of integers: what is written into a request path and what is
//! read out of a JSON number.

use vstd::prelude::*;
use vstd::string::*;

verus! {

/// The byte of the minus sign.
pub const MINUS: u8 = 45;

/// The byte of the digit zero.
pub const ZERO: u8 = 48;

/// The byte of the digit nine.
pub const NINE: u8 = 57;

/// The character that writes the digit `d`.
pub open spec fn digit_char(d: int) -> char {
    if d == 0 {
        '0'
    } else if d == 1 {
        '1'
    } else if d == 2 {
        '2'
    } else if d == 3 {
        '3'
    } else if d == 4 {
        '4'
    } else if d == 5 {
        '5'
    } else if d == 6 {
        '6'
    } else if d == 7 {
        '7'
    } else if d == 8 {
        '8'
    } else {
        '9'
    }
}

/// Whether `c` is one of `0` to `9`.
pub open spec fn is_digit(c: char) -> bool {
    '0' <= c <= '9'
}

/// The digit that `c` writes.
pub open spec fn digit_value(c: char) -> int {
    c as int - '0' as int
}

/// The decimal text of a natural number, without leading zeros.
pub open spec fn natural_text(n: nat) -> Seq<char>
    decreases n,
{
    if n < 10 {
        seq![digit_char(n as int)]
    } else {
        natural_text(n / 10).push(digit_char((n % 10) as int))
    }
}

/// The decimal text of an integer: a minus sign for a negative one, then its magnitude.
pub open spec fn integer_text(i: int) -> Seq<char> {
    if i < 0 {
        seq!['-'] + natural_text((-i) as nat)
    } else {
        natural_text(i as nat)
    }
}

/// Whether `s` is one or more digits.
pub open spec fn is_digits(s: Seq<char>) -> bool {
    s.len() > 0 && forall|i: int| 0 <= i < s.len() ==> is_digit(#[trigger] s[i])
}

/// The number that a run of digits writes.
pub open spec fn digits_value(s: Seq<char>) -> nat
    decreases s.len(),
{
    if s.len() == 0 {
        0
    } else {
        (digits_value(s.drop_last()) * 10 + digit_value(s.last())) as nat
    }
}

/// The integer that `s` writes, if `s` is an optional minus sign followed by digits.
pub open spec fn integer_value(s: Seq<char>) -> Option<int> {
    if s.len() > 0 && s[0] == '-' {
        if is_digits(s.skip(1)) {
            Some(-(digits_value(s.skip(1)) as int))
        } else {
            None
        }
    } else if is_digits(s) {
        Some(digits_value(s) as int)
    } else {
        None
    }
}

/// The `i32` that `s` writes, if it writes an integer in that range.
pub open spec fn i32_value(s: Seq<char>) -> Option<i32> {
    match integer_value(s) {
        Some(v) => if i32::MIN <= v <= i32::MAX {
            Some(v as i32)
        } else {
            None
        },
        None => None,
    }
}

/// The text of a natural number is a run of digits that writes that number.
pub proof fn lemma_natural_text_value(n: nat)
    ensures
        is_digits(natural_text(n)),
        digits_value(natural_text(n)) == n,
    decreases n,
{
    if n < 10 {
        let s = natural_text(n);
        assert(s.drop_last() =~= Seq::<char>::empty());
        assert(digits_value(s.drop_last()) == 0);
    } else {
        lemma_natural_text_value(n / 10);
        let head = natural_text(n / 10);
        let s = natural_text(n);
        assert(s.drop_last() =~= head);
        assert(s.last() == digit_char((n % 10) as int));
        assert forall|i: int| 0 <= i < s.len() implies is_digit(#[trigger] s[i]) by {
            if i < head.len() {
                assert(s[i] == head[i]);
            }
        }
    }
}

/// Reading back the text of an integer gives that integer.
pub proof fn lemma_integer_text_round_trip(i: int)
    ensures
        integer_value(integer_text(i)) == Some(i),
{
    if i < 0 {
        let n = (-i) as nat;
        lemma_natural_text_value(n);
        let s = integer_text(i);
        assert(s[0] == '-');
        assert(s.skip(1) =~= natural_text(n));
    } else {
        lemma_natural_text_value(i as nat);
        let s = integer_text(i);
        assert(is_digit(s[0]));
    }
}

/// A run of digits writes at least what any of its prefixes writes.
pub proof fn lemma_digits_value_prefix(s: Seq<char>, k: int)
    requires
        0 <= k <= s.len(),
        forall|i: int| 0 <= i < s.len() ==> is_digit(#[trigger] s[i]),
    ensures
        digits_value(s.take(k)) <= digits_value(s),
    decreases s.len() - k,
{
    if k == s.len() {
        assert(s.take(k) =~= s);
    } else {
        lemma_digits_value_prefix(s, k + 1);
        let longer = s.take(k + 1);
        assert(longer.drop_last() =~= s.take(k));
        assert(is_digit(s[k]));
        assert(longer.last() == s[k]);
    }
}

/// The one-character text of a digit.
fn digit_text(d: u32) -> (r: &'static str)
    requires
        d < 10,
    ensures
        r@ == seq![digit_char(d as int)],
{
    proof {
        reveal_strlit("0");
        reveal_strlit("1");
        reveal_strlit("2");
        reveal_strlit("3");
        reveal_strlit("4");
        reveal_strlit("5");
        reveal_strlit("6");
        reveal_strlit("7");
        reveal_strlit("8");
        reveal_strlit("9");
    }
    let r = if d == 0 {
        "0"
    } else if d == 1 {
        "1"
    } else if d == 2 {
        "2"
    } else if d == 3 {
        "3"
    } else if d == 4 {
        "4"
    } else if d == 5 {
        "5"
    } else if d == 6 {
        "6"
    } else if d == 7 {
        "7"
    } else if d == 8 {
        "8"
    } else {
        "9"
    };
    assert(r@ =~= seq![digit_char(d as int)]);
    r
}

/// Appends the decimal text of `n` to `out`.
fn push_natural(out: &mut String, n: u32)
    ensures
        final(out)@ == old(out)@ + natural_text(n as nat),
    decreases n,
{
    if n >= 10 {
        push_natural(out, n / 10);
    }
    out.append(digit_text(n % 10));
    assert(out@ =~= old(out)@ + natural_text(n as nat));
}

/// Writes `value` in decimal.
pub fn format_i32(value: i32) -> (r: String)
    ensures
        r@ == integer_text(value as int),
{
    let mut out = String::new();
    if value < 0 {
        out.append("-");
        proof {
            reveal_strlit("-");
        }
        let magnitude: u32 = if value == i32::MIN {
            2147483648u32
        } else {
            (-value) as u32
        };
        push_natural(&mut out, magnitude);
        assert(out@ =~= integer_text(value as int));
    } else {
        push_natural(&mut out, value as u32);
        assert(out@ =~= integer_text(value as int));
    }
    out
}

/// Text that writes an integer holds ASCII characters only.
proof fn lemma_integer_text_has_ascii_only(s: Seq<char>)
    requires
        !vstd::utf8::is_ascii_chars(s),
    ensures
        integer_value(s) is None,
{
    let j = choose|j: int| 0 <= j < s.len() && !('\0' <= #[trigger] s[j] <= '\u{7f}');
    assert(!is_digit(s[j]));
    if s[0] == '-' {
        assert(j >= 1);
        assert(s.skip(1)[j - 1] == s[j]);
    }
}

/// An ASCII character is a digit exactly when its byte lies between those of
/// zero and nine, and the minus sign exactly when its byte is that of the sign.
proof fn lemma_ascii_digit(c: char, b: u8)
    requires
        (c as nat) < 128,
        c as u8 == b,
    ensures
        is_digit(c) <==> ZERO <= b <= NINE,
        digit_value(c) == b - ZERO,
        c == '-' <==> b == MINUS,
{
}

/// Reads a decimal integer that fits in an `i32`.
///
/// The text is an optional minus sign followed by one or more digits; anything
/// else, and any value outside the range of `i32`, gives `None`.
pub fn parse_i32(text: &str) -> (r: Option<i32>)
    ensures
        r == i32_value(text@),
{
    if !text.is_ascii() {
        proof {
            lemma_integer_text_has_ascii_only(text@);
        }
        return None;
    }
    let bytes = text.as_bytes();
    let n = bytes.len();
    proof {
        is_ascii_spec_bytes(text);
        vstd::utf8::is_ascii_chars_nat_bound(text@);
    }
    if n == 0 {
        return None;
    }
    let negative = bytes[0] == MINUS;
    proof {
        lemma_ascii_digit(text@[0], bytes[0]);
    }
    let start: usize = if negative {
        1
    } else {
        0
    };
    assert(negative <==> text@[0] == '-');
    let ghost digits = text@.skip(start as int);
    if start == n {
        return None;
    }
    let mut acc: i64 = 0;
    let mut i: usize = start;
    assert(digits.take(0) =~= Seq::<char>::empty());
    assert(!negative ==> digits =~= text@);
    while i < n
        invariant
            start <= i <= n,
            n == text@.len(),
            bytes@.len() == n,
            digits == text@.skip(start as int),
            negative <==> text@[0] == '-',
            start == if negative { 1int } else { 0int },
            !negative ==> digits == text@,
            forall|k: int|
                0 <= k < n ==> bytes@[k] == #[trigger] text@[k] as u8 && (text@[k] as nat) < 128,
            forall|k: int| 0 <= k < i - start ==> is_digit(#[trigger] digits[k]),
            acc == digits_value(digits.take(i - start)),
            0 <= acc <= 2147483648,
        decreases n - i,
    {
        let b = bytes[i];
        proof {
            assert(digits[i - start] == text@[i as int]);
            lemma_ascii_digit(text@[i as int], b);
        }
        if b < ZERO || b > NINE {
            assert(!is_digit(digits[i - start]));
            return None;
        }
        let d: i64 = (b - ZERO) as i64;
        acc = acc * 10 + d;
        proof {
            let longer = digits.take(i + 1 - start);
            assert(longer.drop_last() =~= digits.take(i - start));
            assert(longer.last() == digits[i - start]);
            assert(d == digit_value(digits[i - start]));
        }
        if acc > 2147483648 {
            proof {
                if is_digits(digits) {
                    lemma_digits_value_prefix(digits, i + 1 - start);
                }
            }
            return None;
        }
        i += 1;
    }
    assert(digits.take(n - start) =~= digits);
    assert(is_digits(digits));
    if negative {
        Some((-acc) as i32)
    } else if acc > 2147483647 {
        None
    } else {
        Some(acc as i32)
    }
}

} // verus!
