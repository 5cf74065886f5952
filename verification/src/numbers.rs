//! Decimal notation of integers.

use crate::text::chars_of;
use vstd::prelude::*;

verus! {

/// The decimal digit for `d < 10`.
pub open spec fn digit_char(d: nat) -> char {
    ('0' as u8 + d) as char
}

/// `c` is one of `0..=9`.
pub open spec fn is_digit(c: char) -> bool {
    '0' <= c <= '9'
}

/// The value of a decimal digit.
pub open spec fn digit_value(c: char) -> nat {
    (c as u8 - '0' as u8) as nat
}

/// Decimal notation of `n`, without leading zeros.
pub open spec fn decimal(n: nat) -> Seq<char>
    decreases n,
{
    if n < 10 {
        seq![digit_char(n)]
    } else {
        decimal(n / 10).push(digit_char(n % 10))
    }
}

/// Decimal notation of an integer, with a leading `-` when negative.
pub open spec fn decimal_int(n: int) -> Seq<char> {
    if n < 0 {
        seq!['-'] + decimal((-n) as nat)
    } else {
        decimal(n as nat)
    }
}

/// Every character of `s` is a decimal digit.
pub open spec fn all_digits(s: Seq<char>) -> bool {
    forall|i: int| 0 <= i < s.len() ==> is_digit(#[trigger] s[i])
}

/// The number that a sequence of digits denotes.
pub open spec fn digits_value(s: Seq<char>) -> nat
    decreases s.len(),
{
    if s.len() == 0 {
        0
    } else {
        digits_value(s.drop_last()) * 10 + digit_value(s.last())
    }
}

/// The integer that `s` denotes: an optional sign and at least one digit.
pub open spec fn parsed_int(s: Seq<char>) -> Option<int> {
    if s.len() > 1 && s[0] == '-' && all_digits(s.skip(1)) {
        Some(-(digits_value(s.skip(1)) as int))
    } else if s.len() > 1 && s[0] == '+' && all_digits(s.skip(1)) {
        Some(digits_value(s.skip(1)) as int)
    } else if s.len() > 0 && all_digits(s) {
        Some(digits_value(s) as int)
    } else {
        None
    }
}

/// `parsed_int` where the integer fits an `i64`.
pub open spec fn parsed_i64(s: Seq<char>) -> Option<i64> {
    match parsed_int(s) {
        Some(n) => if i64::MIN <= n <= i64::MAX {
            Some(n as i64)
        } else {
            None
        },
        None => None,
    }
}

/// `parsed_int` where the integer fits an `i32`.
pub open spec fn parsed_i32(s: Seq<char>) -> Option<i32> {
    match parsed_int(s) {
        Some(n) => if i32::MIN <= n <= i32::MAX {
            Some(n as i32)
        } else {
            None
        },
        None => None,
    }
}

/// `parsed_int` where the integer fits a `u32`; a minus sign is never accepted.
pub open spec fn parsed_u32(s: Seq<char>) -> Option<u32> {
    match parsed_int(s) {
        Some(n) => if s[0] != '-' && 0 <= n <= u32::MAX {
            Some(n as u32)
        } else {
            None
        },
        None => None,
    }
}

/// `parsed_int` where the integer fits a `u64`; a minus sign is never accepted.
pub open spec fn parsed_u64(s: Seq<char>) -> Option<u64> {
    match parsed_int(s) {
        Some(n) => if s[0] != '-' && 0 <= n <= u64::MAX {
            Some(n as u64)
        } else {
            None
        },
        None => None,
    }
}

/// Decimal notation of an unsigned integer.
pub fn show_u64(n: u64) -> (r: String)
    ensures
        r@ == decimal(n as nat),
    decreases n,
{
    let mut s = if n < 10 {
        String::new()
    } else {
        show_u64(n / 10)
    };
    let d: u8 = 48 + (n % 10) as u8;
    s.push(d as char);
    proof {
        if n < 10 {
            assert(s@ =~= decimal(n as nat));
        }
    }
    s
}

/// Decimal notation of a length.
pub fn show_usize(n: usize) -> (r: String)
    ensures
        r@ == decimal(n as nat),
{
    show_u64(n as u64)
}

/// Decimal notation of a signed integer.
pub fn show_i64(n: i64) -> (r: String)
    ensures
        r@ == decimal_int(n as int),
{
    if n < 0 {
        let mut s = String::new();
        s.push('-');
        let m: u64 = if n == i64::MIN {
            0x8000_0000_0000_0000
        } else {
            (-n) as u64
        };
        s.append(show_u64(m).as_str());
        assert(Seq::<char>::empty().push('-') =~= seq!['-']);
        s
    } else {
        show_u64(n as u64)
    }
}

proof fn lemma_digits_value_prefix(s: Seq<char>, i: int)
    requires
        0 <= i <= s.len(),
    ensures
        digits_value(s.take(i)) <= digits_value(s),
    decreases s.len() - i,
{
    if i < s.len() {
        lemma_digits_value_prefix(s, i + 1);
        assert(s.take(i + 1).drop_last() =~= s.take(i));
    } else {
        assert(s.take(i) =~= s);
    }
}

/// The digits `v[from..]` as a number, if they are digits and it fits a `u64`.
fn magnitude(v: &Vec<char>, from: usize) -> (r: Option<u64>)
    requires
        from <= v.len(),
    ensures
        match r {
            Some(m) => all_digits(v@.skip(from as int)) && m == digits_value(v@.skip(from as int)),
            None => !all_digits(v@.skip(from as int)) || digits_value(v@.skip(from as int))
                > u64::MAX,
        },
{
    let ghost s = v@.skip(from as int);
    let mut acc: u64 = 0;
    let mut over = false;
    let mut i: usize = from;
    assert(s.take(0) =~= Seq::<char>::empty());
    while i < v.len()
        invariant
            from <= i <= v.len(),
            s == v@.skip(from as int),
            forall|j: int| 0 <= j < i - from ==> is_digit(#[trigger] s[j]),
            !over ==> acc == digits_value(s.take(i - from)),
            over ==> digits_value(s.take(i - from)) > u64::MAX,
        decreases v.len() - i,
    {
        let c = v[i];
        proof {
            assert(c == s[i - from]);
            assert(s.take(i - from + 1).drop_last() =~= s.take(i - from));
            lemma_digits_value_prefix(s.take(i - from + 1), i - from);
            assert(s.take(i - from + 1).take(i - from) =~= s.take(i - from));
        }
        if !('0' <= c && c <= '9') {
            return None;
        }
        let d: u128 = (c as u8 - 48) as u128;
        if !over {
            let next: u128 = acc as u128 * 10 + d;
            if next > 0xffff_ffff_ffff_ffff {
                over = true;
            } else {
                acc = next as u64;
            }
        }
        i += 1;
    }
    assert(s.take(v.len() - from) =~= s);
    if over {
        None
    } else {
        Some(acc)
    }
}

/// Parse an `i64` in decimal notation.
pub fn parse_i64(s: &str) -> (r: Option<i64>)
    ensures
        r == parsed_i64(s@),
{
    let v = chars_of(s);
    if v.len() == 0 {
        return None;
    }
    let neg = v[0] == '-';
    let signed = neg || v[0] == '+';
    if signed && v.len() == 1 {
        assert(!is_digit(s@[0]));
        return None;
    }
    let from: usize = if signed {
        1
    } else {
        0
    };
    proof {
        assert(s@.skip(0) =~= s@);
        if signed {
            assert(!is_digit(s@[0]));
        }
    }
    match magnitude(&v, from) {
        None => None,
        Some(m) => if neg {
            if m == 0x8000_0000_0000_0000 {
                Some(i64::MIN)
            } else if m < 0x8000_0000_0000_0000 {
                Some(-(m as i64))
            } else {
                None
            }
        } else if m <= 0x7fff_ffff_ffff_ffff {
            Some(m as i64)
        } else {
            None
        },
    }
}

/// Parse an `i32` in decimal notation.
pub fn parse_i32(s: &str) -> (r: Option<i32>)
    ensures
        r == parsed_i32(s@),
{
    match parse_i64(s) {
        Some(n) => if -0x8000_0000 <= n && n <= 0x7fff_ffff {
            Some(n as i32)
        } else {
            None
        },
        None => None,
    }
}

/// Parse a `u32` in decimal notation.
pub fn parse_u32(s: &str) -> (r: Option<u32>)
    ensures
        r == parsed_u32(s@),
{
    if s.unicode_len() == 0 || s.get_char(0) == '-' {
        return None;
    }
    match parse_i64(s) {
        Some(n) => if 0 <= n && n <= 0xffff_ffff {
            Some(n as u32)
        } else {
            None
        },
        None => None,
    }
}

/// Parse a `u64` in decimal notation.
pub fn parse_u64(s: &str) -> (r: Option<u64>)
    ensures
        r == parsed_u64(s@),
{
    let v = chars_of(s);
    if v.len() == 0 {
        return None;
    }
    let plus = v[0] == '+';
    if plus && v.len() == 1 {
        assert(!is_digit(s@[0]));
        return None;
    }
    proof {
        assert(s@.skip(0) =~= s@);
        if plus || v@[0] == '-' {
            assert(!is_digit(s@[0]));
        }
    }
    magnitude(
        &v,
        if plus {
            1
        } else {
            0
        },
    )
}

proof fn lemma_decimal(n: nat)
    ensures
        all_digits(decimal(n)),
        digits_value(decimal(n)) == n,
        decimal(n).len() > 0,
    decreases n,
{
    if n < 10 {
        assert(decimal(n).drop_last() =~= Seq::<char>::empty());
        assert(digits_value(Seq::<char>::empty()) == 0);
    } else {
        lemma_decimal(n / 10);
        let d = decimal(n);
        assert(d.drop_last() =~= decimal(n / 10));
        assert(d.last() == digit_char(n % 10));
        assert forall|i: int| 0 <= i < d.len() implies is_digit(#[trigger] d[i]) by {
            if i < d.len() - 1 {
                assert(d[i] == decimal(n / 10)[i]);
            }
        }
    }
}

/// Reading back the decimal notation of an integer gives the integer.
pub proof fn law_decimal_roundtrip(n: int)
    ensures
        parsed_int(decimal_int(n)) == Some(n),
{
    if n < 0 {
        lemma_decimal((-n) as nat);
        assert(decimal_int(n).skip(1) =~= decimal((-n) as nat));
    } else {
        lemma_decimal(n as nat);
        assert(is_digit(decimal(n as nat)[0]));
    }
}

} // verus!
