//! Text in sixteen-bit units, as Windows hands it out.

use vstd::prelude::*;
use vstd::utf8::{char_is_scalar, char_u32_cast};

use crate::text::{equal_to, lemma_span_is, span};

verus! {

/// `char::from_u32` gives the character with that number, or `None` where the
/// number is a surrogate's or above the last character's.
pub assume_specification[ char::from_u32 ](i: u32) -> (r: Option<char>)
    ensures
        r == (if i < 0xd800 || 0xdfff < i <= 0x10ffff {
            Some(i as char)
        } else {
            None
        }),
;

/// The first unit of a pair.
pub open spec fn high_surrogate(u: u16) -> bool {
    0xd800 <= u <= 0xdbff
}

/// The second unit of a pair.
pub open spec fn low_surrogate(u: u16) -> bool {
    0xdc00 <= u <= 0xdfff
}

/// The number of the character that a pair spells.
pub open spec fn pair_number(high: u16, low: u16) -> u32 {
    (0x10000 + (high - 0xd800) * 0x400 + (low - 0xdc00)) as u32
}

/// What the units spell; a surrogate without its other half becomes U+FFFD.
pub open spec fn decoded(units: Seq<u16>) -> Seq<char>
    decreases units.len(),
{
    if units.len() == 0 {
        Seq::empty()
    } else if !high_surrogate(units[0]) && !low_surrogate(units[0]) {
        seq![units[0] as u32 as char] + decoded(units.drop_first())
    } else if high_surrogate(units[0]) && units.len() > 1 && low_surrogate(units[1]) {
        seq![pair_number(units[0], units[1]) as char] + decoded(units.skip(2))
    } else {
        seq!['\u{fffd}'] + decoded(units.drop_first())
    }
}

/// No surrogate is without its other half.
pub open spec fn well_formed(units: Seq<u16>) -> bool
    decreases units.len(),
{
    if units.len() == 0 {
        true
    } else if !high_surrogate(units[0]) && !low_surrogate(units[0]) {
        well_formed(units.drop_first())
    } else if high_surrogate(units[0]) && units.len() > 1 && low_surrogate(units[1]) {
        well_formed(units.skip(2))
    } else {
        false
    }
}

fn char_of(n: u32) -> (r: char)
    requires
        n < 0xd800 || 0xdfff < n <= 0x10ffff,
    ensures
        r == n as char,
{
    match char::from_u32(n) {
        Some(c) => c,
        None => '\u{fffd}',
    }
}

/// What the units spell, and whether every surrogate had its other half.
pub fn decode(units: &[u16]) -> (r: (String, bool))
    ensures
        r.0@ == decoded(units@),
        r.1 == well_formed(units@),
{
    let mut s: String = String::new();
    let mut whole: bool = true;
    let mut i: usize = 0;
    assert(units@.skip(0) =~= units@);
    while i < units.len()
        invariant
            i <= units@.len(),
            decoded(units@) == s@ + decoded(units@.skip(i as int)),
            well_formed(units@) == (whole && well_formed(units@.skip(i as int))),
        decreases units.len() - i,
    {
        let ghost rest = units@.skip(i as int);
        let u: u16 = units[i];
        assert(rest.drop_first() =~= units@.skip(i + 1));
        if u < 0xd800 || u > 0xdfff {
            s.push(char_of(u as u32));
            i += 1;
        } else if u <= 0xdbff && i + 1 < units.len() && 0xdc00 <= units[i + 1] && units[i + 1]
            <= 0xdfff {
            let v: u16 = units[i + 1];
            let n: u32 = 0x10000 + (u as u32 - 0xd800) * 0x400 + (v as u32 - 0xdc00);
            s.push(char_of(n));
            assert(rest.skip(2) =~= units@.skip(i + 2));
            i += 2;
        } else {
            s.push('\u{fffd}');
            whole = false;
            i += 1;
        }
    }
    (s, whole)
}

/// The units that spell a character.
pub open spec fn encoded_char(c: char) -> Seq<u16> {
    let n = c as u32;
    if n < 0x10000 {
        seq![n as u16]
    } else {
        seq![
            (0xd800 + (n - 0x10000) / 0x400) as u16,
            (0xdc00 + (n - 0x10000) % 0x400) as u16,
        ]
    }
}

/// The units that spell a text.
pub open spec fn encoded(s: Seq<char>) -> Seq<u16>
    decreases s.len(),
{
    if s.len() == 0 {
        Seq::empty()
    } else {
        encoded_char(s[0]) + encoded(s.drop_first())
    }
}

/// Decoding undoes encoding.
pub proof fn law_decoding_undoes_encoding(s: Seq<char>)
    ensures
        decoded(encoded(s)) == s,
        well_formed(encoded(s)),
    decreases s.len(),
{
    if s.len() > 0 {
        let c = s[0];
        let units = encoded(s);
        let rest = encoded(s.drop_first());
        char_is_scalar(c);
        char_u32_cast(c, c as u32);
        law_decoding_undoes_encoding(s.drop_first());
        if (c as u32) < 0x10000 {
            assert(units.drop_first() =~= rest);
        } else {
            assert(units.skip(2) =~= rest);
            assert(pair_number(units[0], units[1]) == c as u32);
        }
        assert(seq![c] + s.drop_first() =~= s);
    }
}

/// Only a zero character has a zero among its units.
pub proof fn lemma_encoded_zero(s: Seq<char>)
    requires
        !s.contains('\0'),
    ensures
        forall|i: int| 0 <= i < encoded(s).len() ==> #[trigger] encoded(s)[i] != 0,
        s.len() > 0 ==> encoded(s).len() > 0,
    decreases s.len(),
{
    if s.len() > 0 {
        assert forall|i: int| 0 <= i < s.drop_first().len() implies s.drop_first()[i] != '\0' by {
            assert(s.contains(s[i + 1]));
        }
        lemma_encoded_zero(s.drop_first());
        assert(s.contains(s[0]));
        let c = s[0];
        char_is_scalar(c);
        char_u32_cast(c, c as u32);
        assert(c as u32 != 0) by {
            assert(0u32 as char == '\0');
        }
        assert forall|i: int| 0 <= i < encoded(s).len() implies #[trigger] encoded(s)[i] != 0 by {
            let n = encoded_char(c).len();
            if i >= n {
                assert(encoded(s)[i] == encoded(s.drop_first())[i - n]);
            }
        }
    }
}

/// The units before the first zero.
pub open spec fn before_zero(units: Seq<u16>) -> Seq<u16> {
    units.take(span(units, equal_to(0u16)) as int)
}

/// The index of the first zero from `from` on, or the end.
pub fn zero_index(units: &[u16], from: usize) -> (r: usize)
    requires
        from <= units@.len(),
    ensures
        from <= r <= units@.len(),
        r - from == span(units@.skip(from as int), equal_to(0u16)),
{
    let mut r: usize = from;
    while r < units.len() && units[r] != 0
        invariant
            from <= r <= units@.len(),
            forall|k: int| from <= k < r ==> units@[k] != 0,
        decreases units.len() - r,
    {
        r += 1;
    }
    proof {
        let rest = units@.skip(from as int);
        assert forall|k: int| 0 <= k < r - from implies !equal_to(0u16)(#[trigger] rest[k]) by {}
        lemma_span_is(rest, equal_to(0u16), r - from);
    }
    r
}

/// What an array that a zero ends spells.
pub fn wide_array_to_string(value: &[u16]) -> (r: String)
    ensures
        r@ == decoded(before_zero(value@)),
{
    let len = zero_index(value, 0);
    assert(value@.skip(0) =~= value@);
    let used = vstd::slice::slice_subrange(value, 0, len);
    decode(used).0
}

/// Half of a pair without its other half becomes U+FFFD, and what follows it is
/// read on from the next unit.
pub proof fn law_lone_surrogate(unit: u16, rest: Seq<u16>)
    requires
        0xd800 <= unit <= 0xdfff,
        unit <= 0xdbff && rest.len() > 0 ==> !(0xdc00 <= rest[0] <= 0xdfff),
    ensures
        decoded(seq![unit] + rest) == seq!['\u{fffd}'] + decoded(rest),
        !well_formed(seq![unit] + rest),
{
    assert((seq![unit] + rest).drop_first() =~= rest);
}

/// A text ends at its first zero.
pub proof fn law_text_ends_at_a_zero(units: Seq<u16>, rest: Seq<u16>)
    requires
        !units.contains(0u16),
    ensures
        before_zero(units + seq![0u16] + rest) == units,
        before_zero(units) == units,
{
    let s = units + seq![0u16] + rest;
    assert forall|i: int| 0 <= i < units.len() implies !equal_to(0u16)(#[trigger] s[i]) by {
        assert(units.contains(units[i]));
    }
    lemma_span_is(s, equal_to(0u16), units.len() as int);
    assert(s.take(units.len() as int) =~= units);
    assert forall|i: int| 0 <= i < units.len() implies !equal_to(0u16)(#[trigger] units[i]) by {
        assert(units.contains(units[i]));
    }
    lemma_span_is(units, equal_to(0u16), units.len() as int);
    assert(units.take(units.len() as int) =~= units);
}

} // verus!
