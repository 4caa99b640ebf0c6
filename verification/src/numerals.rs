//! Numbers in text: decimal output, and input in a given radix.

use vstd::prelude::*;

use crate::text::{cat2, chars_of};

verus! {

// ----- output ---------------------------------------------------------------------

/// The character of a decimal digit.
pub open spec fn digit_char(d: nat) -> char {
    (48 + d) as u8 as char
}

/// A number in decimal, without leading zeros.
pub open spec fn decimal(n: nat) -> Seq<char>
    decreases n,
{
    if n < 10 {
        seq![digit_char(n)]
    } else {
        decimal(n / 10).push(digit_char(n % 10))
    }
}

/// A signed number in decimal.
pub open spec fn signed_decimal(n: int) -> Seq<char> {
    if n < 0 {
        seq!['-'] + decimal((-n) as nat)
    } else {
        decimal(n as nat)
    }
}

pub fn to_decimal(n: u64) -> (r: String)
    ensures
        r@ == decimal(n as nat),
    decreases n,
{
    let d: u8 = (n % 10) as u8;
    let c: char = (48 + d) as char;
    let mut r: String = if n < 10 {
        String::new()
    } else {
        to_decimal(n / 10)
    };
    r.push(c);
    r
}

pub fn to_signed_decimal(n: i64) -> (r: String)
    ensures
        r@ == signed_decimal(n as int),
{
    if n < 0 {
        let digits = if n == i64::MIN {
            to_decimal(9223372036854775808u64)
        } else {
            to_decimal((-n) as u64)
        };
        proof {
            reveal_strlit("-");
        }
        let r = cat2("-", digits.as_str());
        r
    } else {
        to_decimal(n as u64)
    }
}

pub fn bool_text(b: bool) -> (r: &'static str)
    ensures
        r@ == (if b { "true"@ } else { "false"@ }),
{
    if b {
        "true"
    } else {
        "false"
    }
}

// ----- input ----------------------------------------------------------------------

/// What a character is worth as a digit, letters of either case after the figures.
pub open spec fn digit_value(c: char) -> Option<nat> {
    if '0' <= c <= '9' {
        Some((c as u32 - '0' as u32) as nat)
    } else if 'a' <= c <= 'z' {
        Some((c as u32 - 'a' as u32 + 10) as nat)
    } else if 'A' <= c <= 'Z' {
        Some((c as u32 - 'A' as u32 + 10) as nat)
    } else {
        None
    }
}

/// A digit of the radix.
pub open spec fn is_digit(c: char, radix: nat) -> bool {
    digit_value(c) matches Some(d) && d < radix
}

/// Every character is a digit of the radix.
pub open spec fn all_digits(s: Seq<char>, radix: nat) -> bool {
    forall|i: int| 0 <= i < s.len() ==> is_digit(#[trigger] s[i], radix)
}

/// What a row of digits is worth.
pub open spec fn digits_value(s: Seq<char>, radix: nat) -> nat
    decreases s.len(),
{
    if s.len() == 0 {
        0
    } else {
        digits_value(s.drop_last(), radix) * radix + digit_value(s.last()).unwrap_or(0)
    }
}

/// The digits of a number: what follows a leading plus sign.
pub open spec fn unsigned_digits(s: Seq<char>) -> Seq<char> {
    if s.len() > 0 && s[0] == '+' {
        s.drop_first()
    } else {
        s
    }
}

/// The number that a text spells: at least one digit of the radix and nothing
/// else, after an optional plus sign, worth no more than `max`.
pub open spec fn parse_number(s: Seq<char>, radix: nat, max: nat) -> Option<nat> {
    let digits = unsigned_digits(s);
    if digits.len() > 0 && all_digits(digits, radix) && digits_value(digits, radix) <= max {
        Some(digits_value(digits, radix))
    } else {
        None
    }
}

proof fn lemma_prefix_is_smaller(s: Seq<char>, radix: nat, i: int)
    requires
        0 <= i <= s.len(),
        radix >= 1,
    ensures
        digits_value(s.take(i), radix) <= digits_value(s, radix),
    decreases s.len(),
{
    if i == s.len() {
        assert(s.take(i) =~= s);
    } else {
        lemma_prefix_is_smaller(s.drop_last(), radix, i);
        assert(s.drop_last().take(i) =~= s.take(i));
        let v = digits_value(s.drop_last(), radix);
        assert(v <= v * radix) by (nonlinear_arith)
            requires
                radix >= 1,
        ;
    }
}

pub fn parse_u64(s: &str, radix: u32, max: u64) -> (r: Option<u64>)
    requires
        2 <= radix <= 36,
    ensures
        match r {
            Some(n) => parse_number(s@, radix as nat, max as nat) == Some(n as nat),
            None => parse_number(s@, radix as nat, max as nat) is None,
        },
{
    let v = chars_of(s);
    let start: usize = if v.len() > 0 && v[0] == '+' {
        1
    } else {
        0
    };
    let ghost digits = unsigned_digits(s@);
    if start == v.len() {
        return None;
    }
    let mut n: u64 = 0;
    let mut i: usize = start;
    while i < v.len()
        invariant
            start <= i <= v@.len(),
            v@ == s@,
            digits == s@.skip(start as int),
            digits == unsigned_digits(s@),
            2 <= radix <= 36,
            n <= max,
            n == digits_value(digits.take(i - start), radix as nat),
            forall|k: int| 0 <= k < i - start ==> is_digit(#[trigger] digits[k], radix as nat),
        decreases v.len() - i,
    {
        let c = v[i];
        assert(digits[i - start] == c);
        let d: u32 = if '0' <= c && c <= '9' {
            c as u32 - '0' as u32
        } else if 'a' <= c && c <= 'z' {
            c as u32 - 'a' as u32 + 10
        } else if 'A' <= c && c <= 'Z' {
            c as u32 - 'A' as u32 + 10
        } else {
            return None;
        };
        if d >= radix {
            return None;
        }
        let ghost next = digits.take(i - start + 1);
        proof {
            assert(next.drop_last() =~= digits.take(i - start));
            lemma_prefix_is_smaller(digits, radix as nat, i - start + 1);
        }
        let wide: u128 = {
            assert(n * radix <= 0xffff_ffff_ffff_ffff * 36) by (nonlinear_arith)
                requires
                    n <= 0xffff_ffff_ffff_ffff,
                    radix <= 36,
            ;
            (n as u128) * (radix as u128) + d as u128
        };
        if wide > max as u128 {
            return None;
        }
        n = wide as u64;
        i += 1;
    }
    assert(digits.take(digits.len() as int) =~= digits);
    Some(n)
}

/// What is written in decimal reads back as the same number.
pub proof fn law_decimal_reads_back(n: nat, max: nat)
    requires
        n <= max,
    ensures
        parse_number(decimal(n), 10, max) == Some(n),
{
    lemma_decimal_digits(n);
}

proof fn lemma_decimal_digits(n: nat)
    ensures
        decimal(n).len() > 0,
        all_digits(decimal(n), 10),
        digits_value(decimal(n), 10) == n,
        decimal(n)[0] != '+',
    decreases n,
{
    if n < 10 {
        assert(digits_value(decimal(n).drop_last(), 10) == 0);
    } else {
        lemma_decimal_digits(n / 10);
        assert(decimal(n).drop_last() =~= decimal(n / 10));
    }
}

/// A sign stands before a negative number and no other.
pub proof fn law_signed_decimal(n: nat)
    ensures
        signed_decimal(n as int) == decimal(n),
        n > 0 ==> signed_decimal(-(n as int)) == seq!['-'] + decimal(n),
{
}

/// One more digit makes a number ten times as large, or as many times as the
/// radix says, and adds its own value.
pub proof fn law_digits_have_their_places(s: Seq<char>, c: char, radix: nat)
    ensures
        digits_value(Seq::empty(), radix) == 0,
        '0' <= c <= '9' ==> digits_value(s.push(c), radix) == digits_value(s, radix) * radix + (
        c as u32 - '0' as u32),
        'a' <= c <= 'z' ==> digits_value(s.push(c), radix) == digits_value(s, radix) * radix + (
        c as u32 - 'a' as u32 + 10),
        'A' <= c <= 'Z' ==> digits_value(s.push(c), radix) == digits_value(s, radix) * radix + (
        c as u32 - 'A' as u32 + 10),
{
    assert(s.push(c).drop_last() =~= s);
}

/// A number is digits and nothing else, after a plus sign at most, and within
/// the limit; whatever is such a number is read.
pub proof fn law_parse_number(s: Seq<char>, radix: nat, max: nat)
    ensures
        s.len() > 0 && s[0] != '+' && (forall|i: int|
            0 <= i < s.len() ==> digit_value(#[trigger] s[i]) is Some && digit_value(s[i])->0
                < radix) && digits_value(s, radix) <= max ==> parse_number(s, radix, max) == Some(
            digits_value(s, radix),
        ),
        s.len() == 0 ==> parse_number(s, radix, max) is None,
        s.len() > 0 && s[0] != '+' ==> (parse_number(s, radix, max) is Some ==> forall|i: int|
            0 <= i < s.len() ==> digit_value(#[trigger] s[i]) is Some),
        parse_number(s, radix, max) matches Some(n) ==> n <= max,
        s.len() > 0 && s[0] != '+' ==> parse_number(seq!['+'] + s, radix, max) == parse_number(
            s,
            radix,
            max,
        ),
{
    assert((seq!['+'] + s).drop_first() =~= s);
    if s.len() > 0 && s[0] != '+' && parse_number(s, radix, max) is Some {
        assert forall|i: int| 0 <= i < s.len() implies digit_value(#[trigger] s[i]) is Some by {
            assert(is_digit(s[i], radix));
        }
    }
    if forall|i: int|
        0 <= i < s.len() ==> digit_value(#[trigger] s[i]) is Some && digit_value(s[i])->0 < radix {
        assert(all_digits(s, radix));
    }
}

} // verus!
