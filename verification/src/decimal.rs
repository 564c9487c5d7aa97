//! Decimal numbers in text: what counts as one, and its value.

use vstd::prelude::*;

verus! {

/// Whether `c` is one of the digits `0` to `9`.
pub open spec fn is_digit(c: char) -> bool {
    '0' <= c <= '9'
}

/// The value of the digit `c`.
pub open spec fn digit_value(c: char) -> int {
    c as int - '0' as int
}

/// Whether `s` holds digits only.
pub open spec fn all_digits(s: Seq<char>) -> bool {
    forall|i: int| 0 <= i < s.len() ==> is_digit(#[trigger] s[i])
}

/// The number that the digits of `s` write in base ten.
pub open spec fn digits_value(s: Seq<char>) -> int
    decreases s.len(),
{
    if s.len() == 0 {
        0
    } else {
        10 * digits_value(s.drop_last()) + digit_value(s.last())
    }
}

/// The number that `s` writes without a sign or with `+`: one digit at
/// least, and nothing but digits after the sign.
pub open spec fn unsigned_value(s: Seq<char>) -> Option<int> {
    let body = if s.len() > 0 && s[0] == '+' {
        s.drop_first()
    } else {
        s
    };
    if body.len() > 0 && all_digits(body) {
        Some(digits_value(body))
    } else {
        None
    }
}

/// The number that `s` writes with an optional sign, `+` or `-`.
pub open spec fn signed_value(s: Seq<char>) -> Option<int> {
    if s.len() > 0 && s[0] == '-' {
        let body = s.drop_first();
        if body.len() > 0 && all_digits(body) {
            Some(-digits_value(body))
        } else {
            None
        }
    } else {
        unsigned_value(s)
    }
}

/// The `u8` that `s` writes, if it writes one.
pub open spec fn u8_value(s: Seq<char>) -> Option<u8> {
    match unsigned_value(s) {
        Some(v) if v <= u8::MAX => Some(v as u8),
        _ => None,
    }
}

/// The `u32` that `s` writes, if it writes one.
pub open spec fn u32_value(s: Seq<char>) -> Option<u32> {
    match unsigned_value(s) {
        Some(v) if v <= u32::MAX => Some(v as u32),
        _ => None,
    }
}

/// The `i32` that `s` writes, if it writes one.
pub open spec fn i32_value(s: Seq<char>) -> Option<i32> {
    match signed_value(s) {
        Some(v) if i32::MIN <= v <= i32::MAX => Some(v as i32),
        _ => None,
    }
}

/// The value of digits is never negative.
pub proof fn lemma_digits_value_nonnegative(s: Seq<char>)
    requires
        all_digits(s),
    ensures
        digits_value(s) >= 0,
    decreases s.len(),
{
    if s.len() > 0 {
        assert(is_digit(s[s.len() - 1]));
        assert forall|i: int| 0 <= i < s.drop_last().len() implies is_digit(
            #[trigger] s.drop_last()[i],
        ) by {
            assert(s.drop_last()[i] == s[i]);
        }
        lemma_digits_value_nonnegative(s.drop_last());
    }
}

/// The largest value that [`read_digits`] tells apart from larger ones.
const DIGITS_CAP: u64 = 0xffff_ffff_ffff;

/// Reads `s` from index `from` on as digits. Returns `None` unless there is
/// at least one character and all are digits; otherwise their value, or
/// [`DIGITS_CAP`] where the value is larger.
fn read_digits(s: &[char], from: usize) -> (r: Option<u64>)
    requires
        from <= s.len(),
    ensures
        r is Some <==> (from < s.len() && all_digits(s@.skip(from as int))),
        r matches Some(v) ==> v as int == (if digits_value(s@.skip(from as int)) < DIGITS_CAP {
            digits_value(s@.skip(from as int))
        } else {
            DIGITS_CAP as int
        }),
{
    if from == s.len() {
        return None;
    }
    let ghost body = s@.skip(from as int);
    let mut acc: u64 = 0;
    let mut i: usize = from;
    assert(body.take(0) == Seq::<char>::empty());
    while i < s.len()
        invariant
            from <= i <= s.len(),
            body == s@.skip(from as int),
            all_digits(body.take(i - from)),
            acc <= DIGITS_CAP,
            acc as int == (if digits_value(body.take(i - from)) < DIGITS_CAP {
                digits_value(body.take(i - from))
            } else {
                DIGITS_CAP as int
            }),
        decreases s.len() - i,
    {
        let c = s[i];
        let ghost seen = body.take(i - from);
        let ghost more = body.take(i - from + 1);
        proof {
            assert(more.drop_last() == seen);
            assert(more.last() == c);
            lemma_digits_value_nonnegative(seen);
        }
        if !(c >= '0' && c <= '9') {
            assert(!is_digit(body[i - from]));
            return None;
        }
        let d: u64 = (c as u32 - '0' as u32) as u64;
        assert forall|j: int| 0 <= j < more.len() implies is_digit(#[trigger] more[j]) by {
            if j < seen.len() {
                assert(seen[j] == more[j]);
            }
        }
        let next: u64 = acc * 10 + d;
        acc = if next >= DIGITS_CAP {
            DIGITS_CAP
        } else {
            next
        };
        i += 1;
    }
    assert(body.take(body.len() as int) == body);
    Some(acc)
}

/// Reads an unsigned number with [`read_digits`], after an optional `+`.
fn read_unsigned(s: &[char]) -> (r: Option<u64>)
    ensures
        r is Some <==> unsigned_value(s@) is Some,
        r matches Some(v) ==> v as int == (if unsigned_value(s@).unwrap() < DIGITS_CAP {
            unsigned_value(s@).unwrap()
        } else {
            DIGITS_CAP as int
        }),
{
    assert(s@.skip(0) == s@);
    if s.len() > 0 && s[0] == '+' {
        assert(s@.skip(1) == s@.drop_first());
        read_digits(s, 1)
    } else {
        read_digits(s, 0)
    }
}

/// Computes [`u8_value`].
pub fn parse_u8(s: &[char]) -> (r: Option<u8>)
    ensures
        r == u8_value(s@),
{
    match read_unsigned(s) {
        Some(v) => if v <= u8::MAX as u64 {
            Some(v as u8)
        } else {
            None
        },
        None => None,
    }
}

/// Computes [`u32_value`].
pub fn parse_u32(s: &[char]) -> (r: Option<u32>)
    ensures
        r == u32_value(s@),
{
    match read_unsigned(s) {
        Some(v) => if v <= u32::MAX as u64 {
            Some(v as u32)
        } else {
            None
        },
        None => None,
    }
}

/// Computes [`i32_value`].
pub fn parse_i32(s: &[char]) -> (r: Option<i32>)
    ensures
        r == i32_value(s@),
{
    if s.len() > 0 && s[0] == '-' {
        assert(s@.skip(1) == s@.drop_first());
        match read_digits(s, 1) {
            Some(v) => {
                proof {
                    lemma_digits_value_nonnegative(s@.drop_first());
                }
                if v <= 0x8000_0000 {
                    Some((-(v as i64)) as i32)
                } else {
                    None
                }
            },
            None => None,
        }
    } else {
        match read_unsigned(s) {
            Some(v) => if v <= i32::MAX as u64 {
                Some(v as i32)
            } else {
                None
            },
            None => None,
        }
    }
}

/// The digit that writes `d`, for `d` from 0 to 9.
pub open spec fn digit_char(d: int) -> char {
    seq!['0', '1', '2', '3', '4', '5', '6', '7', '8', '9'][d]
}

/// `n` written in base ten, without leading zeros.
pub open spec fn decimal_text(n: nat) -> Seq<char>
    decreases n,
{
    if n < 10 {
        seq![digit_char(n as int)]
    } else {
        decimal_text(n / 10).push(digit_char((n % 10) as int))
    }
}

/// Appends [`decimal_text`] of `n` to `out`.
pub fn push_decimal(n: u64, out: &mut Vec<char>)
    ensures
        final(out)@ == old(out)@ + decimal_text(n as nat),
    decreases n,
{
    let digits: [char; 10] = ['0', '1', '2', '3', '4', '5', '6', '7', '8', '9'];
    if n >= 10 {
        push_decimal(n / 10, out);
    }
    let ghost before = out@;
    let d: usize = (n % 10) as usize;
    let c = digits[d];
    assert(c == digit_char(d as int));
    out.push(c);
    assert(old(out)@ + decimal_text(n as nat) == out@);
}

/// What is written is read back: the text of a number writes that number.
pub proof fn lemma_decimal_text_reads_back(n: nat)
    ensures
        decimal_text(n).len() > 0,
        all_digits(decimal_text(n)),
        digits_value(decimal_text(n)) == n,
        unsigned_value(decimal_text(n)) == Some(n as int),
    decreases n,
{
    let t = decimal_text(n);
    if n < 10 {
        assert(t.drop_last() == Seq::<char>::empty());
        assert(digits_value(t.drop_last()) == 0);
        assert(digit_value(digit_char(n as int)) == n);
    } else {
        lemma_decimal_text_reads_back(n / 10);
        let head = decimal_text(n / 10);
        assert(t.drop_last() == head);
        assert(digit_value(digit_char((n % 10) as int)) == n % 10);
        assert forall|i: int| 0 <= i < t.len() implies is_digit(#[trigger] t[i]) by {
            if i < head.len() {
                assert(t[i] == head[i]);
            }
        }
    }
    assert(is_digit(t[0]));
}

} // verus!
