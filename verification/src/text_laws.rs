//! What the text functions are for: laws that tie what they give to what they
//! were given.

use vstd::prelude::*;

use crate::text::{
    ascii_alphanumeric, contains, equal_to, has_at, join, lemma_find_from, lemma_span,
    lemma_span_is, lines, lower, lower_char, replace_all, replaced, separator, span, split, trim,
    trim_by, trim_end_by, trim_start_by, trim_symbols, white_space, without_suffix, words,
};

verus! {

// ----- characters -----------------------------------------------------------------

/// Within ASCII, white space is the space and the five controls from tab to
/// carriage return; beyond it, there are the no-break and the ideographic space
/// and others; no letter, digit or sign of ASCII is any.
pub proof fn law_white_space(c: char)
    ensures
        (c as u32) < 0x80 ==> (white_space(c) <==> c == ' ' || c == '\t' || c == '\n' || c
            == '\r' || c as u32 == 0x0b || c as u32 == 0x0c),
        c as u32 == 0x85 || c as u32 == 0xa0 || c as u32 == 0x1680 || c as u32 == 0x2028 || c as u32
            == 0x2029 || c as u32 == 0x202f || c as u32 == 0x205f || c as u32 == 0x3000 || (0x2000
            <= c as u32 && c as u32 <= 0x200a) ==> white_space(c),
        c as u32 > 0x3000 ==> !white_space(c),
{
}

/// A path is split at slashes and backslashes and nowhere else.
pub proof fn law_separators(c: char)
    ensures
        separator(c) <==> c == '/' || c == '\\',
{
}

/// Lower case changes the 26 capital letters of ASCII, each to the small letter
/// 32 places on, and nothing else.
pub proof fn law_lower(s: Seq<char>, i: int)
    requires
        0 <= i < s.len(),
    ensures
        lower(s).len() == s.len(),
        'A' <= s[i] <= 'Z' ==> lower(s)[i] as u32 == s[i] as u32 + 32,
        !('A' <= s[i] <= 'Z') ==> lower(s)[i] == s[i],
        !('A' <= lower(s)[i] <= 'Z'),
{
    assert(lower(s)[i] == lower_char(s[i]));
}

/// Lower case twice is lower case once.
pub proof fn law_lower_is_idempotent(s: Seq<char>)
    ensures
        lower(lower(s)) == lower(s),
{
    assert forall|i: int| 0 <= i < s.len() implies lower(lower(s))[i] == lower(s)[i] by {
        law_lower(s, i);
        law_lower(lower(s), i);
    }
    assert(lower(lower(s)) =~= lower(s));
}

/// Every `from` becomes `to`, in its place, and everything else stays.
pub proof fn law_replaced(s: Seq<char>, from: char, to: char, i: int)
    requires
        0 <= i < s.len(),
    ensures
        replaced(s, from, to).len() == s.len(),
        replaced(s, from, to)[i] == if s[i] == from {
            to
        } else {
            s[i]
        },
{
}

// ----- trimming -------------------------------------------------------------------

proof fn lemma_trim_start(s: Seq<char>, drop: spec_fn(char) -> bool)
    ensures
        ({
            let r = trim_start_by(s, drop);
            let n = s.len() - r.len();
            &&& 0 <= n
            &&& r == s.skip(n)
            &&& forall|i: int| 0 <= i < n ==> drop(#[trigger] s[i])
            &&& r.len() > 0 ==> !drop(r[0])
        }),
    decreases s.len(),
{
    if s.len() > 0 && drop(s[0]) {
        let rest = s.drop_first();
        lemma_trim_start(rest, drop);
        let r = trim_start_by(rest, drop);
        let n = s.len() - r.len();
        assert(rest.skip(n - 1) =~= s.skip(n));
        assert forall|i: int| 0 <= i < n implies drop(#[trigger] s[i]) by {
            if i > 0 {
                assert(drop(rest[i - 1]));
            }
        }
    } else {
        assert(s.skip(0) =~= s);
    }
}

proof fn lemma_trim_end(s: Seq<char>, drop: spec_fn(char) -> bool)
    ensures
        ({
            let r = trim_end_by(s, drop);
            &&& r.len() <= s.len()
            &&& r == s.take(r.len() as int)
            &&& forall|i: int| r.len() <= i < s.len() ==> drop(#[trigger] s[i])
            &&& r.len() > 0 ==> !drop(r.last())
        }),
    decreases s.len(),
{
    if s.len() > 0 && drop(s.last()) {
        let rest = s.drop_last();
        lemma_trim_end(rest, drop);
        let r = trim_end_by(rest, drop);
        assert(rest.take(r.len() as int) =~= s.take(r.len() as int));
        assert forall|i: int| r.len() <= i < s.len() implies drop(#[trigger] s[i]) by {
            if i < rest.len() {
                assert(drop(rest[i]));
            }
        }
    } else {
        assert(s.take(s.len() as int) =~= s);
    }
}

/// What is trimmed off is dropped characters only, and what is left has none at
/// its ends.
proof fn lemma_trim_by(s: Seq<char>, drop: spec_fn(char) -> bool) -> (at: int)
    ensures
        ({
            let r = trim_by(s, drop);
            &&& 0 <= at && at + r.len() <= s.len()
            &&& r == s.subrange(at, at + r.len())
            &&& forall|i: int| 0 <= i < at || at + r.len() <= i < s.len() ==> drop(#[trigger] s[i])
            &&& r.len() > 0 ==> !drop(r[0]) && !drop(r.last())
        }),
{
    let first = trim_start_by(s, drop);
    lemma_trim_start(s, drop);
    lemma_trim_end(first, drop);
    let at = s.len() - first.len();
    let r = trim_end_by(first, drop);
    assert(first.take(r.len() as int) =~= s.subrange(at, at + r.len()));
    assert forall|i: int| 0 <= i < at || at + r.len() <= i < s.len() implies drop(
        #[trigger] s[i],
    ) by {
        if i >= at {
            assert(drop(first[i - at]));
        }
    }
    at
}

/// Where what is left by trimming begins in the text. A part of the text without
/// white space at its ends lies within it.
pub proof fn lemma_trim_keeps(s: Seq<char>, from: int, to: int) -> (at: int)
    requires
        0 <= from < to <= s.len(),
        !white_space(s[from]) && !white_space(s[to - 1]),
    ensures
        0 <= at <= from,
        to <= at + trim(s).len() <= s.len(),
        trim(s) == s.subrange(at, at + trim(s).len()),
{
    let drop = |c: char| white_space(c);
    let at = lemma_trim_by(s, drop);
    assert(!drop(s[from]) && !drop(s[to - 1]));
    at
}

/// Trimming takes white space off both ends, all of it and nothing else.
pub proof fn law_trim(s: Seq<char>)
    ensures
        exists|at: int|
            0 <= at && at + trim(s).len() <= s.len() && trim(s) == #[trigger] s.subrange(
                at,
                at + trim(s).len(),
            ) && forall|i: int|
                0 <= i < at || at + trim(s).len() <= i < s.len() ==> white_space(#[trigger] s[i]),
        trim(s).len() > 0 ==> !white_space(trim(s)[0]) && !white_space(trim(s).last()),
{
    let at = lemma_trim_by(s, |c: char| white_space(c));
    assert(trim(s) == s.subrange(at, at + trim(s).len()));
}

/// A text is left as it is between white space, whatever that is.
pub proof fn law_trim_finds_the_text(a: Seq<char>, text: Seq<char>, b: Seq<char>)
    requires
        forall|i: int| 0 <= i < a.len() ==> white_space(#[trigger] a[i]),
        forall|i: int| 0 <= i < b.len() ==> white_space(#[trigger] b[i]),
        text.len() > 0 ==> !white_space(text[0]) && !white_space(text.last()),
    ensures
        trim(a + text + b) == text,
{
    let s = a + text + b;
    let drop = |c: char| white_space(c);
    let at = lemma_trim_by(s, drop);
    let r = trim(s);
    lemma_between(a, text, b, r, at, drop);
}

/// Symbols are trimmed off a text that begins and ends with a letter or digit.
pub proof fn law_trim_symbols_finds_the_text(a: Seq<char>, text: Seq<char>, b: Seq<char>)
    requires
        forall|i: int| 0 <= i < a.len() ==> !ascii_alphanumeric(#[trigger] a[i]),
        forall|i: int| 0 <= i < b.len() ==> !ascii_alphanumeric(#[trigger] b[i]),
        text.len() > 0 ==> ascii_alphanumeric(text[0]) && ascii_alphanumeric(text.last()),
    ensures
        trim_symbols(a + text + b) == text,
{
    let s = a + text + b;
    let drop = |c: char| !ascii_alphanumeric(c);
    let at = lemma_trim_by(s, drop);
    let r = trim_symbols(s);
    lemma_between(a, text, b, r, at, drop);
}

/// Nothing but symbols is trimmed off.
pub proof fn law_trim_symbols(s: Seq<char>)
    ensures
        exists|at: int|
            0 <= at && at + trim_symbols(s).len() <= s.len() && trim_symbols(s)
                == #[trigger] s.subrange(at, at + trim_symbols(s).len()) && forall|i: int|
                0 <= i < at || at + trim_symbols(s).len() <= i < s.len() ==> !ascii_alphanumeric(
                    #[trigger] s[i],
                ),
{
    let at = lemma_trim_by(s, |c: char| !ascii_alphanumeric(c));
    assert(trim_symbols(s) == s.subrange(at, at + trim_symbols(s).len()));
}

proof fn lemma_between(
    a: Seq<char>,
    text: Seq<char>,
    b: Seq<char>,
    r: Seq<char>,
    at: int,
    drop: spec_fn(char) -> bool,
)
    requires
        forall|i: int| 0 <= i < a.len() ==> drop(#[trigger] a[i]),
        forall|i: int| 0 <= i < b.len() ==> drop(#[trigger] b[i]),
        text.len() > 0 ==> !drop(text[0]) && !drop(text.last()),
        0 <= at,
        at + r.len() <= (a + text + b).len(),
        r == (a + text + b).subrange(at, at + r.len()),
        forall|i: int|
            0 <= i < at || at + r.len() <= i < (a + text + b).len() ==> drop(
                #[trigger] (a + text + b)[i],
            ),
        r.len() > 0 ==> !drop(r[0]) && !drop(r.last()),
    ensures
        r == text,
{
    let s = a + text + b;
    assert forall|i: int| 0 <= i < s.len() && (i < a.len() || i >= a.len() + text.len()) implies drop(
        #[trigger] s[i],
    ) by {
        if i < a.len() {
            assert(s[i] == a[i]);
        } else {
            assert(s[i] == b[i - a.len() - text.len()]);
        }
    }
    if text.len() > 0 {
        assert(s[a.len() as int] == text[0]);
        assert(s[a.len() + text.len() - 1] == text.last());
    }
    if r.len() > 0 {
        assert(s[at] == r[0]);
        assert(s[at + r.len() - 1] == r.last());
    }
    assert(r =~= text);
}

// ----- splitting and joining ------------------------------------------------------

/// Splitting takes a text apart at each separator: what is joined again is the
/// text, and no piece holds a separator.
pub proof fn law_split_and_join(s: Seq<char>, sep: char)
    ensures
        split(s, sep).len() > 0,
        join(split(s, sep), seq![sep]) == s,
        forall|i: int|
            0 <= i < split(s, sep).len() ==> !(#[trigger] split(s, sep)[i]).contains(sep),
    decreases s.len(),
{
    let n = span(s, equal_to(sep));
    lemma_span(s, equal_to(sep));
    let pieces = split(s, sep);
    if n >= s.len() {
        assert(!s.contains(sep));
        assert(pieces =~= seq![s]);
    } else {
        let first = s.take(n as int);
        let rest = s.skip(n as int + 1);
        law_split_and_join(rest, sep);
        assert(!first.contains(sep));
        assert(pieces.drop_first() =~= split(rest, sep));
        assert forall|i: int| 0 <= i < pieces.len() implies !(#[trigger] pieces[i]).contains(sep) by {
            if i > 0 {
                assert(pieces[i] == split(rest, sep)[i - 1]);
            }
        }
        assert(first + seq![sep] + rest =~= s);
    }
}

/// A piece in front of a separator is the first of the pieces.
pub proof fn law_split_first<T>(first: Seq<T>, sep: T, rest: Seq<T>)
    requires
        !first.contains(sep),
    ensures
        split(first + seq![sep] + rest, sep) == seq![first] + split(rest, sep),
        split(first, sep) == seq![first],
{
    let s = first + seq![sep] + rest;
    assert forall|i: int| 0 <= i < first.len() implies !equal_to(sep)(#[trigger] s[i]) by {
        assert(first.contains(first[i]));
    }
    lemma_span_is(s, equal_to(sep), first.len() as int);
    assert(s.take(first.len() as int) =~= first);
    assert(s.skip(first.len() as int + 1) =~= rest);
    assert forall|i: int| 0 <= i < first.len() implies !equal_to(sep)(#[trigger] first[i]) by {
        assert(first.contains(first[i]));
    }
    lemma_span_is(first, equal_to(sep), first.len() as int);
}

/// One more part goes behind the others, with the separator before it.
pub proof fn law_join_appends(parts: Seq<Seq<char>>, part: Seq<char>, sep: Seq<char>)
    ensures
        parts.len() > 0 ==> join(parts.push(part), sep) == join(parts, sep) + sep + part,
        parts.len() == 0 ==> join(parts.push(part), sep) == part,
        join(Seq::empty(), sep) == Seq::<char>::empty(),
    decreases parts.len(),
{
    let all = parts.push(part);
    if parts.len() > 0 {
        let rest = parts.drop_first();
        assert(all.drop_first() =~= rest.push(part));
        law_join_appends(rest, part, sep);
        if parts.len() == 1 {
            assert(rest.push(part) =~= seq![part]);
            assert(join(seq![part], sep) == part);
        }
        assert(join(all, sep) =~= join(parts, sep) + sep + part);
    }
}

/// A line ends at a line feed, with or without a carriage return before it.
pub proof fn law_lines(line: Seq<char>, rest: Seq<char>)
    requires
        !line.contains('\n'),
    ensures
        line.len() == 0 || line.last() != '\r' ==> lines(line + seq!['\n'] + rest) == seq![line]
            + lines(rest),
        lines(line + seq!['\r', '\n'] + rest) == seq![line] + lines(rest),
        line.len() > 0 ==> lines(line) == seq![line],
        lines(Seq::empty()) == Seq::<Seq<char>>::empty(),
{
    lemma_first_line(line, rest);
    let returned = line.push('\r');
    assert(!returned.contains('\n'));
    lemma_first_line(returned, rest);
    assert(returned + seq!['\n'] + rest =~= line + seq!['\r', '\n'] + rest);
    assert(returned.drop_last() =~= line);
    law_split_first(line, '\n', Seq::empty());
    assert(lines(line) =~= if line.len() > 0 {
        seq![line]
    } else {
        Seq::empty()
    });
    let none = Seq::<char>::empty();
    assert(!none.contains('\n'));
    law_split_first(none, '\n', none);
    assert(lines(none) =~= Seq::<Seq<char>>::empty());
}

proof fn lemma_first_line(line: Seq<char>, rest: Seq<char>)
    requires
        !line.contains('\n'),
    ensures
        lines(line + seq!['\n'] + rest) == seq![crate::text::without_return(line)] + lines(rest),
{
    law_split_first(line, '\n', rest);
    law_split_and_join(rest, '\n');
    let s = line + seq!['\n'] + rest;
    let pieces = split(s, '\n');
    let others = split(rest, '\n');
    assert(pieces.last() == others.last());
    assert(lines(s) =~= seq![crate::text::without_return(line)] + lines(rest));
}

/// Words are what stands between white space, each whole and none empty.
pub proof fn law_words(word: Seq<char>, space: char, rest: Seq<char>)
    requires
        word.len() > 0,
        forall|i: int| 0 <= i < word.len() ==> !white_space(#[trigger] word[i]),
        white_space(space),
    ensures
        words(word) == seq![word],
        words(word + seq![space] + rest) == seq![word] + words(rest),
        words(seq![space] + rest) == words(rest),
        words(Seq::empty()) == Seq::<Seq<char>>::empty(),
{
    let stop = crate::text::is_space();
    let s = word + seq![space] + rest;
    assert(s[0] == word[0]);
    assert forall|i: int| 0 <= i < word.len() implies !stop(#[trigger] s[i]) by {
        assert(s[i] == word[i]);
    }
    lemma_span_is(s, stop, word.len() as int);
    assert(s.take(word.len() as int) =~= word);
    assert(s.skip(word.len() as int) =~= seq![space] + rest);
    let tail = seq![space] + rest;
    assert(tail.drop_first() =~= rest);
    assert(words(tail) == words(rest));
    assert(words(s) == seq![s.take(word.len() as int)] + words(s.skip(word.len() as int)));
    lemma_span_is(word, stop, word.len() as int);
    assert(word.take(word.len() as int) =~= word);
    assert(word.skip(word.len() as int) =~= Seq::<char>::empty());
    assert(words(Seq::<char>::empty()) == Seq::<Seq<char>>::empty());
    assert(words(word) =~= seq![word]);
}

// ----- searching ------------------------------------------------------------------

/// A text is found in whatever surrounds it, and nothing is found that is not
/// there.
pub proof fn law_contains(s: Seq<char>, p: Seq<char>)
    ensures
        contains(s, p) <==> exists|a: Seq<char>, b: Seq<char>| s == #[trigger] (a + p + b),
{
    if contains(s, p) {
        let i = choose|i: int| has_at(s, p, i);
        assert(s =~= s.take(i) + p + s.skip(i + p.len())) by {
            assert(s.subrange(i, i + p.len()) == p);
            assert forall|k: int| 0 <= k < p.len() implies s[i + k] == p[k] by {
                assert(s.subrange(i, i + p.len())[k] == p[k]);
            }
        }
    }
    if exists|a: Seq<char>, b: Seq<char>| s == #[trigger] (a + p + b) {
        let (a, b) = choose|a: Seq<char>, b: Seq<char>| s == #[trigger] (a + p + b);
        assert(s.subrange(a.len() as int, (a.len() + p.len()) as int) =~= p);
        assert(has_at(s, p, a.len() as int));
    }
}

/// A text begins with another exactly where the other and some rest make it up.
pub proof fn law_begins_with(s: Seq<char>, p: Seq<char>)
    ensures
        has_at(s, p, 0) <==> exists|rest: Seq<char>| s == #[trigger] (p + rest),
{
    if has_at(s, p, 0) {
        assert(s =~= p + s.skip(p.len() as int)) by {
            assert forall|k: int| 0 <= k < p.len() implies s[k] == p[k] by {
                assert(s.subrange(0, p.len() as int)[k] == p[k]);
            }
        }
    }
    if exists|rest: Seq<char>| s == #[trigger] (p + rest) {
        assert(s.subrange(0, p.len() as int) =~= p);
    }
}

/// A suffix is taken off where it is there, once, and nothing else is.
pub proof fn law_without_suffix(s: Seq<char>, suffix: Seq<char>)
    ensures
        without_suffix(s + suffix, suffix) == s,
        without_suffix(s, suffix) == s || without_suffix(s, suffix) + suffix == s,
{
    let whole = s + suffix;
    assert(whole.subrange(s.len() as int, whole.len() as int) =~= suffix);
    assert(whole.take(s.len() as int) =~= s);
    if has_at(s, suffix, s.len() - suffix.len()) {
        let n = s.len() - suffix.len();
        assert(s.take(n) + suffix =~= s) by {
            assert forall|k: int| 0 <= k < suffix.len() implies s[n + k] == suffix[k] by {
                assert(s.subrange(n, n + suffix.len())[k] == suffix[k]);
            }
        }
    }
}

/// The first occurrence is replaced, what stands before it stays, and the rest
/// is gone through in the same way; a text without any stays as it is.
pub proof fn law_replace_all(a: Seq<char>, p: Seq<char>, b: Seq<char>, v: Seq<char>)
    requires
        p.len() > 0,
    ensures
        (forall|i: int| 0 <= i < a.len() ==> !has_at(a + p + b, p, i)) ==> replace_all(
            a + p + b,
            p,
            v,
        ) == a + v + replace_all(b, p, v),
        !contains(a, p) ==> replace_all(a, p, v) == a,
{
    let s = a + p + b;
    lemma_find_from(s, p, 0);
    lemma_find_from(a, p, 0);
    assert(s.subrange(a.len() as int, (a.len() + p.len()) as int) =~= p);
    assert(has_at(s, p, a.len() as int));
    if forall|i: int| 0 <= i < a.len() ==> !has_at(s, p, i) {
        assert(s.take(a.len() as int) =~= a);
        assert(s.skip((a.len() + p.len()) as int) =~= b);
    }
}

} // verus!
