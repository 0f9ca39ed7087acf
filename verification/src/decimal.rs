//! Signed decimal numerals: reading one as an `i32`, and writing an `i32` as one.

use crate::text::chars_of;
use vstd::prelude::*;
use vstd::string::StringExecFns;

verus! {

/// Whether `c` is one of `0` to `9`.
pub open spec fn is_digit(c: char) -> bool {
    0x30 <= c as u32 <= 0x39
}

/// The number that the digit `c` stands for.
pub open spec fn digit_value(c: char) -> int {
    c as u32 - 0x30
}

/// Whether `s` holds digits only.
pub open spec fn all_digits(s: Seq<char>) -> bool {
    forall|i: int| 0 <= i < s.len() ==> is_digit(#[trigger] s[i])
}

/// The number that the digits `s` write in base ten; 0 for no digits.
pub open spec fn digits_value(s: Seq<char>) -> int
    decreases s.len(),
{
    if s.len() == 0 {
        0
    } else {
        digits_value(s.drop_last()) * 10 + digit_value(s.last())
    }
}

/// The number that `s` writes: an optional `+` or `-`, then one digit or
/// more, and nothing else. `None` for any other text.
pub open spec fn numeral_value(s: Seq<char>) -> Option<int> {
    let signed = s.len() > 0 && (s[0] == '-' || s[0] == '+');
    let digits = if signed {
        s.skip(1)
    } else {
        s
    };
    if digits.len() > 0 && all_digits(digits) {
        if signed && s[0] == '-' {
            Some(-digits_value(digits))
        } else {
            Some(digits_value(digits))
        }
    } else {
        None
    }
}

/// The `i32` that `s` writes; `None` where `s` is no numeral or its number
/// does not fit.
pub open spec fn numeral_i32(s: Seq<char>) -> Option<i32> {
    match numeral_value(s) {
        Some(v) => if i32::MIN <= v <= i32::MAX {
            Some(v as i32)
        } else {
            None
        },
        None => None,
    }
}

/// The digit that stands for `d`, for `d` from 0 to 9.
pub open spec fn digit_char(d: int) -> char {
    ((0x30 + d) as u8) as char
}

/// The digits of `n` in base ten, without leading zeros.
pub open spec fn digits_text(n: nat) -> Seq<char>
    decreases n,
{
    if n < 10 {
        seq![digit_char(n as int)]
    } else {
        digits_text(n / 10).push(digit_char((n % 10) as int))
    }
}

/// The numeral of `v`: its digits, after a `-` where `v` is negative.
pub open spec fn numeral_text(v: int) -> Seq<char> {
    if v < 0 {
        seq!['-'] + digits_text((-v) as nat)
    } else {
        digits_text(v as nat)
    }
}

/// Reads `s` as an `i32`, as `str::parse::<i32>` does.
pub fn parse_i32(s: &str) -> (r: Option<i32>)
    ensures
        r == numeral_i32(s@),
{
    let v = chars_of(s);
    let n = v.len();
    let signed = n > 0 && (v[0] == '-' || v[0] == '+');
    let start: usize = if signed {
        1
    } else {
        0
    };
    let ghost digits = if signed {
        s@.skip(1)
    } else {
        s@
    };
    if start == n {
        return None;
    }
    let limit: u64 = 2147483648;
    let mut acc: u64 = 0;
    let mut over = false;
    let mut i: usize = start;
    while i < n
        invariant
            v@ == s@,
            n == v.len(),
            start <= i <= n,
            signed == (s@.len() > 0 && (s@[0] == '-' || s@[0] == '+')),
            digits == if signed {
                s@.skip(1)
            } else {
                s@
            },
            digits.len() == n - start,
            limit == 2147483648,
            all_digits(digits.take(i - start)),
            !over ==> acc == digits_value(digits.take(i - start)) && acc <= limit,
            over ==> digits_value(digits.take(i - start)) > limit,
        decreases n - i,
    {
        let c = v[i];
        let u: u32 = c as u32;
        proof {
            let next = digits.take(i - start + 1);
            assert(next.drop_last() == digits.take(i - start));
            assert(next.last() == c);
        }
        if u < 0x30 || u > 0x39 {
            proof {
                assert(digits[i - start] == c);
                assert(!is_digit(digits[i - start]));
            }
            return None;
        }
        let d: u64 = (u - 0x30) as u64;
        if !over {
            acc = acc * 10 + d;
            if acc > limit {
                over = true;
            }
        }
        i += 1;
    }
    proof {
        assert(digits.take(n - start) == digits);
    }
    if over {
        None
    } else if signed && v[0] == '-' {
        if acc == limit {
            Some(i32::MIN)
        } else {
            Some(-(acc as i32))
        }
    } else if acc == limit {
        None
    } else {
        Some(acc as i32)
    }
}

/// The one-character text of the digit for `d`.
fn digit_str(d: u32) -> (t: &'static str)
    requires
        d < 10,
    ensures
        t@ == seq![digit_char(d as int)],
{
    proof {
        reveal_strlit("0");
        reveal_strlit("1");
        reveal_strlit("2");
        reveal_strlit("3");
        reveal_strlit("4");
        reveal_strlit("5");
        reveal_strlit("6");
        reveal_strlit("7");
        reveal_strlit("8");
        reveal_strlit("9");
    }
    let t = if d == 0 {
        "0"
    } else if d == 1 {
        "1"
    } else if d == 2 {
        "2"
    } else if d == 3 {
        "3"
    } else if d == 4 {
        "4"
    } else if d == 5 {
        "5"
    } else if d == 6 {
        "6"
    } else if d == 7 {
        "7"
    } else if d == 8 {
        "8"
    } else {
        "9"
    };
    assert(t@ =~= seq![digit_char(d as int)]);
    t
}

/// Appends the digits of `n` to `out`.
fn push_digits(out: &mut String, n: u32)
    ensures
        final(out)@ == old(out)@ + digits_text(n as nat),
    decreases n,
{
    if n >= 10 {
        push_digits(out, n / 10);
    }
    out.append(digit_str(n % 10));
    proof {
        if n >= 10 {
            assert(old(out)@ + digits_text((n / 10) as nat) + seq![digit_char((n % 10) as int)]
                =~= old(out)@ + digits_text(n as nat));
        }
    }
}

/// Writes `v` in base ten, as `i32::to_string` does.
pub fn format_i32(v: i32) -> (t: String)
    ensures
        t@ == numeral_text(v as int),
{
    let mut out = String::new();
    if v < 0 {
        proof {
            reveal_strlit("-");
        }
        out.append("-");
        let m: u32 = if v == i32::MIN {
            2147483648
        } else {
            (-v) as u32
        };
        push_digits(&mut out, m);
        assert(out@ =~= numeral_text(v as int));
    } else {
        push_digits(&mut out, v as u32);
        assert(out@ =~= numeral_text(v as int));
    }
    out
}

/// The digits of a number are digits, there is at least one, and they
/// write that number.
pub proof fn digits_text_is_read_back(n: nat)
    ensures
        digits_text(n).len() > 0,
        all_digits(digits_text(n)),
        digits_value(digits_text(n)) == n,
    decreases n,
{
    if n < 10 {
        let s = digits_text(n);
        assert(s.drop_last() =~= Seq::<char>::empty());
        assert(digits_value(s.drop_last()) == 0);
    } else {
        digits_text_is_read_back(n / 10);
        let s = digits_text(n / 10);
        let t = digits_text(n);
        assert(t.drop_last() =~= s);
        assert forall|i: int| 0 <= i < t.len() implies is_digit(#[trigger] t[i]) by {
            if i < s.len() {
                assert(is_digit(s[i]));
            }
        }
    }
}

/// Writing, then reading: the numeral of an `i32` is read as that `i32`.
pub proof fn numeral_text_is_read_back(v: i32)
    ensures
        numeral_i32(numeral_text(v as int)) == Some(v),
{
    let s = numeral_text(v as int);
    if v < 0 {
        let d = digits_text((-v) as nat);
        digits_text_is_read_back((-v) as nat);
        assert(s[0] == '-');
        assert(s.skip(1) =~= d);
    } else {
        digits_text_is_read_back(v as nat);
        assert(is_digit(s[0]));
    }
}

/// A numeral is one word: it is not empty and holds nothing but digits and,
/// in front, the sign.
pub proof fn numeral_text_is_one_word(v: int)
    ensures
        numeral_text(v).len() > 0,
        forall|i: int|
            0 <= i < numeral_text(v).len() ==> is_digit(#[trigger] numeral_text(v)[i]) || (i == 0
                && numeral_text(v)[i] == '-'),
{
    let s = numeral_text(v);
    if v < 0 {
        let d = digits_text((-v) as nat);
        digits_text_is_read_back((-v) as nat);
        assert forall|i: int| 0 <= i < s.len() implies is_digit(#[trigger] s[i]) || (i == 0 && s[i]
            == '-') by {
            if i > 0 {
                assert(s[i] == d[i - 1]);
                assert(is_digit(d[i - 1]));
            }
        }
    } else {
        digits_text_is_read_back(v as nat);
    }
}

} // verus!
