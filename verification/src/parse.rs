//! Verified parsing of decimal integers and calendar dates from text.
//!
//! Deletion notices for numeric-keyed entity kinds carry their identifier as
//! a string; these parsers read it back exactly as Rust's integer parser
//! would: an optional sign, then one or more ASCII digits, rejected on
//! overflow. Dates are read from the `YYYY-MM-DD` form.

use vstd::prelude::*;
use vstd::string::StrSliceExecFns;

use crate::models::Date;

verus! {

/// Whether `c` is an ASCII decimal digit.
pub open spec fn is_digit(c: char) -> bool {
    48 <= c as int <= 57
}

/// The numeric value of a digit character.
pub open spec fn digit_val(c: char) -> int {
    c as int - 48
}

/// Every character of `s` is an ASCII decimal digit.
pub open spec fn all_digits(s: Seq<char>) -> bool {
    forall|i: int| 0 <= i < s.len() ==> is_digit(#[trigger] s[i])
}

/// The unbounded value of a digit string read in base 10.
pub open spec fn digits_val(s: Seq<char>) -> int
    decreases s.len(),
{
    if s.len() == 0 {
        0
    } else {
        digits_val(s.drop_last()) * 10 + digit_val(s.last())
    }
}

/// Ten to the `n`th power.
pub open spec fn pow10(n: nat) -> int
    decreases n,
{
    if n == 0 {
        1
    } else {
        10 * pow10((n - 1) as nat)
    }
}

/// A digit string's value is non-negative and below ten to its length.
pub proof fn lemma_digits_val_bound(s: Seq<char>)
    requires
        all_digits(s),
    ensures
        0 <= digits_val(s) < pow10(s.len()),
    decreases s.len(),
{
    if s.len() == 0 {
    } else {
        assert(all_digits(s.drop_last())) by {
            assert(forall|i: int| 0 <= i < s.len() - 1 ==> s.drop_last()[i] == #[trigger] s[i]);
        }
        lemma_digits_val_bound(s.drop_last());
        assert(is_digit(s.last()));
    }
}

/// A digit string's value only grows as more digits are read.
pub proof fn lemma_digits_val_prefix(s: Seq<char>, k: int)
    requires
        all_digits(s),
        0 <= k <= s.len(),
    ensures
        digits_val(s) >= digits_val(s.take(k)),
    decreases s.len(),
{
    if k == s.len() {
        assert(s.take(k) =~= s);
    } else {
        assert(all_digits(s.drop_last())) by {
            assert(forall|i: int| 0 <= i < s.len() - 1 ==> s.drop_last()[i] == #[trigger] s[i]);
        }
        lemma_digits_val_prefix(s.drop_last(), k);
        assert(s.drop_last().take(k) =~= s.take(k));
        lemma_digits_val_bound(s.drop_last());
        assert(is_digit(s.last()));
    }
}

/// The unbounded value of `s` read as a signed decimal integer: an optional
/// `+` or `-` sign followed by one or more ASCII digits, and nothing else.
pub open spec fn spec_parse_int(s: Seq<char>) -> Option<int> {
    let digits = if s.len() > 0 && (s[0] == '+' || s[0] == '-') {
        s.subrange(1, s.len() as int)
    } else {
        s
    };
    if digits.len() == 0 || !all_digits(digits) {
        None
    } else if s.len() > 0 && s[0] == '-' {
        Some(-digits_val(digits))
    } else {
        Some(digits_val(digits))
    }
}

/// `s` read as an `i64`, or `None` when it is malformed or out of range.
pub open spec fn spec_parse_i64(s: Seq<char>) -> Option<i64> {
    match spec_parse_int(s) {
        Some(v) => if i64::MIN <= v <= i64::MAX {
            Some(v as i64)
        } else {
            None
        },
        None => None,
    }
}

/// `s` read as an `i32`, or `None` when it is malformed or out of range.
pub open spec fn spec_parse_i32(s: Seq<char>) -> Option<i32> {
    match spec_parse_int(s) {
        Some(v) => if i32::MIN <= v <= i32::MAX {
            Some(v as i32)
        } else {
            None
        },
        None => None,
    }
}

/// Reads `s` as a signed 64-bit decimal integer; mirrors [`spec_parse_i64`].
pub fn parse_i64(s: &str) -> (r: Option<i64>)
    ensures
        r == spec_parse_i64(s@),
{
    let len = s.unicode_len();
    if len == 0 {
        return None;
    }
    let first = s.get_char(0);
    let neg = first == '-';
    let has_sign = neg || first == '+';
    let start: usize = if has_sign {
        1
    } else {
        0
    };
    let ghost digits = if has_sign {
        s@.subrange(1, len as int)
    } else {
        s@
    };
    proof {
        assert(digits =~= s@.subrange(start as int, len as int));
        if !has_sign {
            assert(s@.subrange(0, len as int) =~= s@);
        }
    }
    if start == len {
        return None;
    }
    let mut acc: u64 = 0;
    let mut i = start;
    while i < len
        invariant
            len == s@.len(),
            start <= i <= len,
            start < len,
            has_sign == (s@[0] == '+' || s@[0] == '-'),
            neg == (s@[0] == '-'),
            start == if has_sign {
                1int
            } else {
                0int
            },
            digits == s@.subrange(start as int, len as int),
            digits == if s@.len() > 0 && (s@[0] == '+' || s@[0] == '-') {
                s@.subrange(1, s@.len() as int)
            } else {
                s@
            },
            all_digits(s@.subrange(start as int, i as int)),
            acc == digits_val(s@.subrange(start as int, i as int)),
        decreases len - i,
    {
        let c = s.get_char(i);
        let cv = c as u32;
        if cv < 48 || cv > 57 {
            proof {
                assert(digits[i - start] == s@[i as int]);
                assert(!all_digits(digits));
            }
            return None;
        }
        let d: u64 = (c as u64) - 48;
        let ghost pre = s@.subrange(start as int, i as int);
        let ghost cur = s@.subrange(start as int, i as int + 1);
        proof {
            assert(cur.drop_last() =~= pre);
            assert(cur.last() == s@[i as int]);
            assert(all_digits(cur)) by {
                assert(forall|k: int| 0 <= k < cur.len() - 1 ==> cur[k] == pre[k]);
            }
            assert(digits_val(cur) == acc * 10 + d);
        }
        if acc > 1844674407370955161u64 || (acc == 1844674407370955161u64 && d > 5) {
            proof {
                assert(digits_val(cur) > u64::MAX as int);
                if all_digits(digits) {
                    assert(cur =~= digits.take(i + 1 - start));
                    lemma_digits_val_prefix(digits, i + 1 - start);
                    assert(digits_val(digits) > u64::MAX as int);
                    assert(digits_val(digits) > i64::MAX);
                    assert(-digits_val(digits) < i64::MIN);
                }
            }
            return None;
        }
        acc = acc * 10 + d;
        i += 1;
    }
    proof {
        assert(s@.subrange(start as int, i as int) == digits);
        assert(digits.len() > 0);
    }
    if neg {
        if acc > 9223372036854775808u64 {
            return None;
        }
        if acc == 9223372036854775808u64 {
            return Some(i64::MIN);
        }
        Some(-(acc as i64))
    } else {
        if acc > i64::MAX as u64 {
            return None;
        }
        Some(acc as i64)
    }
}

/// Reads `s` as a signed 32-bit decimal integer; mirrors [`spec_parse_i32`].
pub fn parse_i32(s: &str) -> (r: Option<i32>)
    ensures
        r == spec_parse_i32(s@),
{
    match parse_i64(s) {
        Some(v) => if -2147483648i64 <= v && v <= 2147483647i64 {
            Some(v as i32)
        } else {
            None
        },
        None => {
            proof {
                if spec_parse_int(s@) is Some {
                    let v = spec_parse_int(s@)->Some_0;
                    assert(!(i64::MIN <= v <= i64::MAX));
                }
            }
            None
        },
    }
}

/// The value of the digit window `s[from..to]`, or `None` when it holds a
/// non-digit. Limited to four digits, so the value needs no overflow check.
fn small_digits_value(s: &str, from: usize, to: usize) -> (r: Option<u32>)
    requires
        from <= to <= s@.len(),
        to - from <= 4,
    ensures
        match r {
            Some(v) => all_digits(s@.subrange(from as int, to as int)) && v == digits_val(
                s@.subrange(from as int, to as int),
            ),
            None => !all_digits(s@.subrange(from as int, to as int)),
        },
{
    let mut acc: u32 = 0;
    let mut i = from;
    while i < to
        invariant
            from <= i <= to,
            to <= s@.len(),
            to - from <= 4,
            all_digits(s@.subrange(from as int, i as int)),
            acc == digits_val(s@.subrange(from as int, i as int)),
            acc < pow10((i - from) as nat),
        decreases to - i,
    {
        let c = s.get_char(i);
        let cv = c as u32;
        if cv < 48 || cv > 57 {
            proof {
                assert(s@.subrange(from as int, to as int)[i - from] == s@[i as int]);
                assert(!all_digits(s@.subrange(from as int, to as int)));
            }
            return None;
        }
        let ghost pre = s@.subrange(from as int, i as int);
        let ghost cur = s@.subrange(from as int, i as int + 1);
        proof {
            assert(cur.drop_last() =~= pre);
            assert(cur.last() == s@[i as int]);
            assert(all_digits(cur)) by {
                assert(forall|k: int| 0 <= k < cur.len() - 1 ==> cur[k] == pre[k]);
            }
            assert(acc < 10000) by {
                lemma_pow10_le(((i - from)) as nat, 4);
                reveal_with_fuel(pow10, 5);
            }
            assert(digits_val(cur) == acc * 10 + (cv - 48));
        }
        acc = acc * 10 + (cv - 48);
        i += 1;
    }
    Some(acc)
}

/// `pow10` grows with its argument.
proof fn lemma_pow10_le(a: nat, b: nat)
    requires
        a <= b,
    ensures
        pow10(a) <= pow10(b),
    decreases b,
{
    if a < b {
        lemma_pow10_le(a, (b - 1) as nat);
        assert(pow10(b) == 10 * pow10((b - 1) as nat));
        assert(pow10((b - 1) as nat) >= 1) by {
            lemma_pow10_pos((b - 1) as nat);
        }
    }
}

/// `pow10` is positive.
proof fn lemma_pow10_pos(n: nat)
    ensures
        pow10(n) >= 1,
    decreases n,
{
    if n > 0 {
        lemma_pow10_pos((n - 1) as nat);
    }
}

/// `s` read as a calendar date in the `YYYY-MM-DD` form: four digits of
/// year, two of month and two of day, or `None` when the text is malformed
/// or does not name a real calendar day.
pub open spec fn spec_parse_date(s: Seq<char>) -> Option<Date> {
    if s.len() == 10 && s[4] == '-' && s[7] == '-' && all_digits(s.subrange(0, 4)) && all_digits(
        s.subrange(5, 7),
    ) && all_digits(s.subrange(8, 10)) {
        let date = Date {
            year: digits_val(s.subrange(0, 4)) as i32,
            month: digits_val(s.subrange(5, 7)) as u8,
            day: digits_val(s.subrange(8, 10)) as u8,
        };
        if date.valid() {
            Some(date)
        } else {
            None
        }
    } else {
        None
    }
}

/// Reads a date in the `YYYY-MM-DD` form; mirrors [`spec_parse_date`].
pub fn parse_date(s: &str) -> (r: Option<Date>)
    ensures
        r == spec_parse_date(s@),
{
    let len = s.unicode_len();
    if len != 10 {
        return None;
    }
    if s.get_char(4) != '-' || s.get_char(7) != '-' {
        return None;
    }
    let y = match small_digits_value(s, 0, 4) {
        Some(v) => v,
        None => {
            return None;
        },
    };
    let m = match small_digits_value(s, 5, 7) {
        Some(v) => v,
        None => {
            return None;
        },
    };
    let d = match small_digits_value(s, 8, 10) {
        Some(v) => v,
        None => {
            return None;
        },
    };
    proof {
        reveal_with_fuel(pow10, 5);
        lemma_digits_val_bound(s@.subrange(0, 4));
        lemma_digits_val_bound(s@.subrange(5, 7));
        lemma_digits_val_bound(s@.subrange(8, 10));
    }
    let date = Date { year: y as i32, month: m as u8, day: d as u8 };
    if date.is_valid() {
        Some(date)
    } else {
        None
    }
}

} // verus!
