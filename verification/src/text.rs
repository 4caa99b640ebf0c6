//! Text as sequences of characters: the searches, trims and splits that the
//! rest of the library is stated over.

use vstd::prelude::*;

verus! {

/// `std::string::String::push` appends one character and keeps what was there.
pub assume_specification[ String::push ](s: &mut String, ch: char)
    ensures
        final(s)@ == old(s)@.push(ch),
;

// ----- characters -----------------------------------------------------------------

/// The characters that Unicode counts as white space.
pub open spec fn white_space(c: char) -> bool {
    let n = c as u32;
    ||| 0x9 <= n <= 0xd
    ||| n == 0x20
    ||| n == 0x85
    ||| n == 0xa0
    ||| n == 0x1680
    ||| 0x2000 <= n <= 0x200a
    ||| n == 0x2028
    ||| n == 0x2029
    ||| n == 0x202f
    ||| n == 0x205f
    ||| n == 0x3000
}

/// Whether `c` is Unicode white space.
pub fn is_white_space(c: char) -> (r: bool)
    ensures
        r == white_space(c),
{
    let n: u32 = c as u32;
    (0x9 <= n && n <= 0xd) || n == 0x20 || n == 0x85 || n == 0xa0 || n == 0x1680 || (0x2000 <= n
        && n <= 0x200a) || n == 0x2028 || n == 0x2029 || n == 0x202f || n == 0x205f || n == 0x3000
}

pub open spec fn ascii_digit(c: char) -> bool {
    '0' <= c <= '9'
}

pub open spec fn ascii_alphanumeric(c: char) -> bool {
    ||| ascii_digit(c)
    ||| 'a' <= c <= 'z'
    ||| 'A' <= c <= 'Z'
}

pub fn is_ascii_digit(c: char) -> (r: bool)
    ensures
        r == ascii_digit(c),
{
    '0' <= c && c <= '9'
}

pub fn is_ascii_alphanumeric(c: char) -> (r: bool)
    ensures
        r == ascii_alphanumeric(c),
{
    is_ascii_digit(c) || ('a' <= c && c <= 'z') || ('A' <= c && c <= 'Z')
}

/// `A`..=`Z` become `a`..=`z`; every other character stays.
pub open spec fn lower_char(c: char) -> char {
    if 'A' <= c <= 'Z' {
        ((c as u8) + 32) as char
    } else {
        c
    }
}

pub fn to_lower_char(c: char) -> (r: char)
    ensures
        r == lower_char(c),
{
    if 'A' <= c && c <= 'Z' {
        let n: u8 = c as u8;
        (n + 32) as char
    } else {
        c
    }
}

/// A path separator of either style.
pub open spec fn separator(c: char) -> bool {
    c == '\\' || c == '/'
}

/// Holds of path separators.
pub open spec fn is_separator() -> spec_fn(char) -> bool {
    |c: char| separator(c)
}

pub fn is_separator_char(c: char) -> (r: bool)
    ensures
        r == separator(c),
{
    c == '\\' || c == '/'
}

// ----- conversions ----------------------------------------------------------------

/// The characters of a string, in order.
pub fn chars_of(s: &str) -> (v: Vec<char>)
    ensures
        v@ == s@,
{
    let mut v: Vec<char> = Vec::new();
    for c in it: s.chars()
        invariant
            it.seq() == s@,
            v@ == s@.take(it.index() as int),
    {
        v.push(c);
    }
    v
}

/// The string that the characters spell.
pub fn string_of(chars: &[char]) -> (s: String)
    ensures
        s@ == chars@,
{
    let mut s: String = String::new();
    let mut i: usize = 0;
    while i < chars.len()
        invariant
            i <= chars.len(),
            s@ == chars@.take(i as int),
        decreases chars.len() - i,
    {
        s.push(chars[i]);
        i += 1;
    }
    s
}

/// Whether two strings hold the same characters.
pub fn str_eq(a: &str, b: &str) -> (r: bool)
    ensures
        r == (a@ == b@),
{
    a.to_owned() == b.to_owned()
}

// ----- case, replacement ----------------------------------------------------------

/// ASCII letters in lower case.
pub open spec fn lower(s: Seq<char>) -> Seq<char> {
    s.map_values(|c: char| lower_char(c))
}

pub fn to_lower(s: &str) -> (r: String)
    ensures
        r@ == lower(s@),
{
    let v = chars_of(s);
    let mut r: String = String::new();
    let mut i: usize = 0;
    while i < v.len()
        invariant
            i <= v.len(),
            v@ == s@,
            r@ == lower(s@).take(i as int),
        decreases v.len() - i,
    {
        r.push(to_lower_char(v[i]));
        i += 1;
    }
    r
}

/// Equality up to the case of ASCII letters.
pub fn eq_ignore_ascii_case(a: &str, b: &str) -> (r: bool)
    ensures
        r == (lower(a@) == lower(b@)),
{
    to_lower(a) == to_lower(b)
}

/// Every `from` turned into `to`.
pub open spec fn replaced(s: Seq<char>, from: char, to: char) -> Seq<char> {
    s.map_values(|c: char| if c == from { to } else { c })
}

pub fn replace_char(s: &str, from: char, to: char) -> (r: String)
    ensures
        r@ == replaced(s@, from, to),
{
    let v = chars_of(s);
    let mut r: String = String::new();
    let mut i: usize = 0;
    while i < v.len()
        invariant
            i <= v.len(),
            v@ == s@,
            r@ == replaced(s@, from, to).take(i as int),
        decreases v.len() - i,
    {
        let c = v[i];
        r.push(if c == from { to } else { c });
        assert(replaced(s@, from, to).take(i as int).push(replaced(s@, from, to)[i as int])
            =~= replaced(s@, from, to).take(i + 1));
        i += 1;
    }
    r
}

// ----- trimming -------------------------------------------------------------------

/// What is left once the leading characters that `drop` holds of are gone.
pub open spec fn trim_start_by(s: Seq<char>, drop: spec_fn(char) -> bool) -> Seq<char>
    decreases s.len(),
{
    if s.len() > 0 && drop(s[0]) {
        trim_start_by(s.drop_first(), drop)
    } else {
        s
    }
}

/// What is left once the trailing characters that `drop` holds of are gone.
pub open spec fn trim_end_by(s: Seq<char>, drop: spec_fn(char) -> bool) -> Seq<char>
    decreases s.len(),
{
    if s.len() > 0 && drop(s.last()) {
        trim_end_by(s.drop_last(), drop)
    } else {
        s
    }
}

/// The text without the characters at either end that `drop` holds of.
pub open spec fn trim_by(s: Seq<char>, drop: spec_fn(char) -> bool) -> Seq<char> {
    trim_end_by(trim_start_by(s, drop), drop)
}

/// The text without white space at either end.
pub open spec fn trim(s: Seq<char>) -> Seq<char> {
    trim_by(s, |c: char| white_space(c))
}

/// The text without the characters at either end that are no ASCII letter or digit.
pub open spec fn trim_symbols(s: Seq<char>) -> Seq<char> {
    trim_by(s, |c: char| !ascii_alphanumeric(c))
}

pub fn trimmed(s: &str) -> (r: String)
    ensures
        r@ == trim(s@),
{
    let v = chars_of(s);
    let ghost drop = |c: char| white_space(c);
    let mut from: usize = 0;
    assert(s@.skip(0) =~= s@);
    while from < v.len() && is_white_space(v[from])
        invariant
            from <= v.len(),
            v@ == s@,
            drop == (|c: char| white_space(c)),
            trim_start_by(s@, drop) == trim_start_by(s@.skip(from as int), drop),
        decreases v.len() - from,
    {
        assert(s@.skip(from as int).drop_first() =~= s@.skip(from + 1));
        from += 1;
    }
    let ghost rest = s@.skip(from as int);
    let mut to: usize = v.len();
    assert(rest.take(rest.len() as int) =~= rest);
    while from < to && is_white_space(v[to - 1])
        invariant
            from <= to <= v.len(),
            v@ == s@,
            rest == s@.skip(from as int),
            drop == (|c: char| white_space(c)),
            trim_end_by(rest, drop) == trim_end_by(rest.take(to - from), drop),
        decreases to - from,
    {
        assert(rest.take(to - from).drop_last() =~= rest.take(to - from - 1));
        to -= 1;
    }
    let out = vstd::slice::slice_subrange(v.as_slice(), from, to);
    string_of(out)
}

pub fn trimmed_symbols(s: &str) -> (r: String)
    ensures
        r@ == trim_symbols(s@),
{
    let v = chars_of(s);
    let ghost drop = |c: char| !ascii_alphanumeric(c);
    let mut from: usize = 0;
    assert(s@.skip(0) =~= s@);
    while from < v.len() && !is_ascii_alphanumeric(v[from])
        invariant
            from <= v.len(),
            v@ == s@,
            drop == (|c: char| !ascii_alphanumeric(c)),
            trim_start_by(s@, drop) == trim_start_by(s@.skip(from as int), drop),
        decreases v.len() - from,
    {
        assert(s@.skip(from as int).drop_first() =~= s@.skip(from + 1));
        from += 1;
    }
    let ghost rest = s@.skip(from as int);
    let mut to: usize = v.len();
    assert(rest.take(rest.len() as int) =~= rest);
    while from < to && !is_ascii_alphanumeric(v[to - 1])
        invariant
            from <= to <= v.len(),
            v@ == s@,
            rest == s@.skip(from as int),
            drop == (|c: char| !ascii_alphanumeric(c)),
            trim_end_by(rest, drop) == trim_end_by(rest.take(to - from), drop),
        decreases to - from,
    {
        assert(rest.take(to - from).drop_last() =~= rest.take(to - from - 1));
        to -= 1;
    }
    let out = vstd::slice::slice_subrange(v.as_slice(), from, to);
    string_of(out)
}

// ----- searching ------------------------------------------------------------------

/// `p` stands in `s` at index `i`.
pub open spec fn has_at<T>(s: Seq<T>, p: Seq<T>, i: int) -> bool {
    0 <= i && i + p.len() <= s.len() && s.subrange(i, i + p.len()) == p
}

/// `p` stands somewhere in `s`.
pub open spec fn contains<T>(s: Seq<T>, p: Seq<T>) -> bool {
    exists|i: int| has_at(s, p, i)
}

/// The first index, from `i` on, at which `p` stands in `s`.
pub open spec fn find_from<T>(s: Seq<T>, p: Seq<T>, i: int) -> Option<int>
    decreases s.len() + 1 - i,
{
    if i < 0 || i + p.len() > s.len() {
        None
    } else if has_at(s, p, i) {
        Some(i)
    } else {
        find_from(s, p, i + 1)
    }
}

pub proof fn lemma_find_from<T>(s: Seq<T>, p: Seq<T>, i: int)
    requires
        0 <= i,
    ensures
        find_from(s, p, i) matches Some(k) ==> i <= k && has_at(s, p, k) && (forall|j: int|
            i <= j < k ==> !has_at(s, p, j)),
        find_from(s, p, i) is None ==> (forall|j: int| i <= j ==> !has_at(s, p, j)),
    decreases s.len() + 1 - i,
{
    if i + p.len() <= s.len() && !has_at(s, p, i) {
        lemma_find_from(s, p, i + 1);
    }
}

/// Whether `p` stands in `s` at index `i`.
pub fn matches_at(s: &[char], p: &[char], i: usize) -> (r: bool)
    requires
        i <= s@.len(),
    ensures
        r == has_at(s@, p@, i as int),
{
    if s.len() - i < p.len() {
        return false;
    }
    let mut j: usize = 0;
    while j < p.len()
        invariant
            j <= p.len(),
            i + p.len() <= s.len(),
            forall|k: int| 0 <= k < j ==> s@[i + k] == p@[k],
        decreases p.len() - j,
    {
        if s[i + j] != p[j] {
            return false;
        }
        j += 1;
    }
    assert(s@.subrange(i as int, i + p@.len()) =~= p@);
    true
}

/// The first index, from `from` on, at which `p` stands in `s`.
pub fn find_chars(s: &[char], p: &[char], from: usize) -> (r: Option<usize>)
    requires
        from <= s@.len(),
    ensures
        match r {
            Some(k) => find_from(s@, p@, from as int) == Some(k as int),
            None => find_from(s@, p@, from as int) is None,
        },
{
    let mut i: usize = from;
    while i < s.len()
        invariant
            from <= i <= s@.len(),
            find_from(s@, p@, from as int) == find_from(s@, p@, i as int),
        decreases s.len() - i,
    {
        if matches_at(s, p, i) {
            return Some(i);
        }
        if s.len() - i < p.len() {
            return None;
        }
        i += 1;
    }
    if p.len() == 0 {
        assert(s@.subrange(i as int, i as int) =~= p@);
        return Some(i);
    }
    None
}

/// Whether `needle` stands somewhere in `s`.
pub fn contains_str(s: &str, needle: &str) -> (r: bool)
    ensures
        r == contains(s@, needle@),
{
    let v = chars_of(s);
    let p = chars_of(needle);
    proof {
        lemma_find_from(s@, needle@, 0);
    }
    find_chars(v.as_slice(), p.as_slice(), 0).is_some()
}

/// Whether `s` begins with `prefix`.
pub fn starts_with(s: &str, prefix: &str) -> (r: bool)
    ensures
        r == has_at(s@, prefix@, 0),
{
    let v = chars_of(s);
    let p = chars_of(prefix);
    matches_at(v.as_slice(), p.as_slice(), 0)
}

/// What follows `prefix`, if `s` begins with it.
pub fn strip_prefix(s: &str, prefix: &str) -> (r: Option<String>)
    ensures
        match r {
            Some(rest) => has_at(s@, prefix@, 0) && rest@ == s@.skip(prefix@.len() as int),
            None => !has_at(s@, prefix@, 0),
        },
{
    let v = chars_of(s);
    let p = chars_of(prefix);
    if matches_at(v.as_slice(), p.as_slice(), 0) {
        let rest = vstd::slice::slice_subrange(v.as_slice(), p.len(), v.len());
        Some(string_of(rest))
    } else {
        None
    }
}

/// `s` without `suffix`, where it ends with it; `s` itself elsewhere.
pub open spec fn without_suffix(s: Seq<char>, suffix: Seq<char>) -> Seq<char> {
    if has_at(s, suffix, s.len() - suffix.len()) {
        s.take(s.len() - suffix.len())
    } else {
        s
    }
}

pub fn strip_suffix_or_same(s: &str, suffix: &str) -> (r: String)
    ensures
        r@ == without_suffix(s@, suffix@),
{
    let v = chars_of(s);
    let p = chars_of(suffix);
    if p.len() <= v.len() && matches_at(v.as_slice(), p.as_slice(), v.len() - p.len()) {
        let rest = vstd::slice::slice_subrange(v.as_slice(), 0, v.len() - p.len());
        string_of(rest)
    } else {
        s.to_owned()
    }
}

// ----- runs and splits ------------------------------------------------------------

/// How many items stand before the first that `stop` holds of.
pub open spec fn span<T>(s: Seq<T>, stop: spec_fn(T) -> bool) -> nat
    decreases s.len(),
{
    if s.len() == 0 || stop(s[0]) {
        0
    } else {
        1 + span(s.drop_first(), stop)
    }
}

pub proof fn lemma_span<T>(s: Seq<T>, stop: spec_fn(T) -> bool)
    ensures
        span(s, stop) <= s.len(),
        forall|i: int| 0 <= i < span(s, stop) ==> !stop(#[trigger] s[i]),
        span(s, stop) < s.len() ==> stop(s[span(s, stop) as int]),
    decreases s.len(),
{
    if s.len() > 0 && !stop(s[0]) {
        lemma_span(s.drop_first(), stop);
        assert forall|i: int| 0 <= i < span(s, stop) implies !stop(#[trigger] s[i]) by {
            if i > 0 {
                assert(s[i] == s.drop_first()[i - 1]);
            }
        }
    }
}

/// A run that is free of stops and ends at a stop or at the end is the span.
pub proof fn lemma_span_is<T>(s: Seq<T>, stop: spec_fn(T) -> bool, n: int)
    requires
        0 <= n <= s.len(),
        forall|i: int| 0 <= i < n ==> !stop(#[trigger] s[i]),
        n < s.len() ==> stop(s[n]),
    ensures
        span(s, stop) == n,
{
    lemma_span(s, stop);
}

/// Holds of the items equal to `sep`.
pub open spec fn equal_to<T>(sep: T) -> spec_fn(T) -> bool {
    |x: T| x == sep
}

/// The pieces of `s` between the items equal to `sep`.
pub open spec fn split<T>(s: Seq<T>, sep: T) -> Seq<Seq<T>>
    decreases s.len(),
{
    let n = span(s, equal_to(sep));
    if n >= s.len() {
        seq![s]
    } else {
        seq![s.take(n as int)] + split(s.skip(n as int + 1), sep)
    }
}

/// What each string of a sequence spells.
pub open spec fn views(v: Seq<String>) -> Seq<Seq<char>> {
    v.map_values(|s: String| s@)
}

/// What each slice of a sequence spells.
pub open spec fn str_views(v: Seq<&str>) -> Seq<Seq<char>> {
    v.map_values(|s: &str| s@)
}

/// What an optional string spells.
pub open spec fn opt_view(o: Option<String>) -> Option<Seq<char>> {
    match o {
        Some(s) => Some(s@),
        None => None,
    }
}

/// What an optional slice spells.
pub open spec fn opt_str_view(o: Option<&str>) -> Option<Seq<char>> {
    match o {
        Some(s) => Some(s@),
        None => None,
    }
}

/// The pieces of `s` between the characters equal to `sep`.
pub fn split_on(s: &str, sep: char) -> (r: Vec<String>)
    ensures
        views(r@) == split(s@, sep),
        r@.len() > 0,
{
    let v = chars_of(s);
    let ghost stop = equal_to(sep);
    let mut r: Vec<String> = Vec::new();
    let mut start: usize = 0;
    let mut i: usize = 0;
    assert(s@.skip(0) =~= s@);
    while i < v.len()
        invariant
            start <= i <= v.len(),
            v@ == s@,
            stop == equal_to(sep),
            split(s@, sep) == views(r@) + split(s@.skip(start as int), sep),
            forall|k: int| start <= k < i ==> s@[k] != sep,
        decreases v.len() - i,
    {
        if v[i] == sep {
            let piece = vstd::slice::slice_subrange(v.as_slice(), start, i);
            proof {
                let rest = s@.skip(start as int);
                assert forall|k: int| 0 <= k < i - start implies !stop(#[trigger] rest[k]) by {}
                lemma_span_is(rest, stop, i - start);
                assert(piece@ =~= rest.take(i - start));
                assert(rest.skip(i - start + 1) =~= s@.skip(i + 1));
            }
            r.push(string_of(piece));
            start = i + 1;
        }
        i += 1;
    }
    let piece = vstd::slice::slice_subrange(v.as_slice(), start, i);
    proof {
        let rest = s@.skip(start as int);
        assert forall|k: int| 0 <= k < rest.len() implies !stop(#[trigger] rest[k]) by {}
        lemma_span_is(rest, stop, rest.len() as int);
    }
    r.push(string_of(piece));
    r
}

// ----- lines and words ------------------------------------------------------------

/// A line without the carriage return that stands before its line feed.
pub open spec fn without_return(line: Seq<char>) -> Seq<char> {
    if line.len() > 0 && line.last() == '\r' {
        line.drop_last()
    } else {
        line
    }
}

/// The lines of a text. A line feed ends a line, together with a carriage
/// return before it; what follows the last line feed is a line of its own
/// unless it is empty.
pub open spec fn lines(s: Seq<char>) -> Seq<Seq<char>> {
    let pieces = split(s, '\n');
    let ended = pieces.drop_last().map_values(|line: Seq<char>| without_return(line));
    if pieces.last().len() == 0 {
        ended
    } else {
        ended.push(pieces.last())
    }
}

pub fn lines_of(s: &str) -> (r: Vec<String>)
    ensures
        views(r@) == lines(s@),
{
    let pieces = split_on(s, '\n');
    let ghost all = split(s@, '\n');
    let ghost ended = all.drop_last().map_values(|line: Seq<char>| without_return(line));
    let mut r: Vec<String> = Vec::new();
    let mut i: usize = 0;
    while i < pieces.len() - 1
        invariant
            i <= pieces.len() - 1,
            views(pieces@) == all,
            ended == all.drop_last().map_values(|line: Seq<char>| without_return(line)),
            views(r@) == ended.take(i as int),
        decreases pieces.len() - i,
    {
        let line = chars_of(pieces[i].as_str());
        let n: usize = line.len();
        let ghost before = r@;
        if n > 0 && line[n - 1] == '\r' {
            let kept = vstd::slice::slice_subrange(line.as_slice(), 0, n - 1);
            r.push(string_of(kept));
        } else {
            r.push(pieces[i].clone());
        }
        assert(views(r@) =~= views(before).push(without_return(all[i as int])));
        i += 1;
    }
    assert(ended.take(i as int) =~= ended);
    if !pieces[i].as_str().is_empty() {
        r.push(pieces[i].clone());
    }
    r
}

/// Holds of white space.
pub open spec fn is_space() -> spec_fn(char) -> bool {
    |c: char| white_space(c)
}

/// The runs of characters between white space.
pub open spec fn words(s: Seq<char>) -> Seq<Seq<char>>
    decreases s.len(),
{
    if s.len() == 0 {
        Seq::empty()
    } else if white_space(s[0]) {
        words(s.drop_first())
    } else {
        let n = span(s, is_space());
        if 0 < n <= s.len() {
            seq![s.take(n as int)] + words(s.skip(n as int))
        } else {
            Seq::empty()
        }
    }
}

/// The number of characters from `from` up to the next white space.
pub fn word_end(v: &Vec<char>, from: usize) -> (to: usize)
    requires
        from <= v@.len(),
    ensures
        from <= to <= v@.len(),
        to - from == span(v@.skip(from as int), is_space()),
{
    let mut to: usize = from;
    while to < v.len() && !is_white_space(v[to])
        invariant
            from <= to <= v@.len(),
            forall|k: int| from <= k < to ==> !white_space(v@[k]),
        decreases v.len() - to,
    {
        to += 1;
    }
    proof {
        let rest = v@.skip(from as int);
        assert forall|k: int| 0 <= k < to - from implies !is_space()(#[trigger] rest[k]) by {}
        lemma_span_is(rest, is_space(), to - from);
    }
    to
}

/// The words of a text.
pub fn words_of(s: &str) -> (r: Vec<String>)
    ensures
        views(r@) == words(s@),
{
    let v = chars_of(s);
    let mut r: Vec<String> = Vec::new();
    let mut i: usize = 0;
    assert(s@.skip(0) =~= s@);
    while i < v.len()
        invariant
            i <= v@.len(),
            v@ == s@,
            words(s@) == views(r@) + words(s@.skip(i as int)),
        decreases v.len() - i,
    {
        let ghost rest = s@.skip(i as int);
        if is_white_space(v[i]) {
            assert(rest.drop_first() =~= s@.skip(i + 1));
            i += 1;
        } else {
            let to = word_end(&v, i);
            let piece = vstd::slice::slice_subrange(v.as_slice(), i, to);
            assert(piece@ =~= rest.take(to - i));
            assert(rest.skip(to - i) =~= s@.skip(to as int));
            r.push(string_of(piece));
            i = to;
        }
    }
    r
}

// ----- joining, substitution ------------------------------------------------------

/// The texts one after the other, with `sep` between neighbours.
pub open spec fn join(parts: Seq<Seq<char>>, sep: Seq<char>) -> Seq<char>
    decreases parts.len(),
{
    if parts.len() == 0 {
        Seq::empty()
    } else if parts.len() == 1 {
        parts[0]
    } else {
        parts[0] + sep + join(parts.drop_first(), sep)
    }
}

pub fn joined(parts: &Vec<String>, sep: &str) -> (r: String)
    ensures
        r@ == join(views(parts@), sep@),
{
    let ghost all = views(parts@);
    let mut r: String = String::new();
    let mut i: usize = 0;
    assert(all.skip(0) =~= all);
    while i < parts.len()
        invariant
            i <= parts@.len(),
            all == views(parts@),
            join(all, sep@) == r@ + join(all.skip(i as int), sep@),
        decreases parts.len() - i,
    {
        let ghost rest = all.skip(i as int);
        r.append(parts[i].as_str());
        assert(rest.drop_first() =~= all.skip(i + 1));
        if i + 1 < parts.len() {
            r.append(sep);
        }
        i += 1;
    }
    r
}

/// Every occurrence of `p`, from the left and without overlap, turned into `v`.
pub open spec fn replace_all(s: Seq<char>, p: Seq<char>, v: Seq<char>) -> Seq<char>
    decreases s.len(),
{
    match find_from(s, p, 0) {
        Some(k) => if p.len() > 0 && 0 <= k <= s.len() - p.len() {
            s.take(k) + v + replace_all(s.skip(k + p.len()), p, v)
        } else {
            s
        },
        None => s,
    }
}

pub fn replaced_all(s: &str, pattern: &str, value: &str) -> (r: String)
    requires
        pattern@.len() > 0,
    ensures
        r@ == replace_all(s@, pattern@, value@),
{
    let v = chars_of(s);
    let p = chars_of(pattern);
    let mut r: String = String::new();
    let mut i: usize = 0;
    assert(s@.skip(0) =~= s@);
    loop
        invariant
            i <= v@.len(),
            v@ == s@,
            p@ == pattern@,
            p@.len() > 0,
            replace_all(s@, p@, value@) == r@ + replace_all(s@.skip(i as int), p@, value@),
        decreases v.len() - i,
    {
        let rest = vstd::slice::slice_subrange(v.as_slice(), i, v.len());
        let ghost before = r@;
        proof {
            lemma_find_from(rest@, p@, 0);
        }
        match find_chars(rest, p.as_slice(), 0) {
            Some(k) => {
                let head = string_of(vstd::slice::slice_subrange(rest, 0, k));
                r.append(head.as_str());
                r.append(value);
                assert(rest@.skip(k + p@.len()) =~= s@.skip(i + k + p@.len()));
                assert(before + replace_all(rest@, p@, value@) =~= r@ + replace_all(
                    s@.skip(i + k + p@.len()),
                    p@,
                    value@,
                ));
                i = i + k + p.len();
            },
            None => {
                let tail = string_of(rest);
                r.append(tail.as_str());
                return r;
            },
        }
    }
}

/// Two texts in a row.
pub fn cat2(a: &str, b: &str) -> (r: String)
    ensures
        r@ == a@ + b@,
{
    let mut r: String = a.to_owned();
    r.append(b);
    r
}

/// Three texts in a row.
pub fn cat3(a: &str, b: &str, c: &str) -> (r: String)
    ensures
        r@ == a@ + b@ + c@,
{
    let mut r: String = a.to_owned();
    r.append(b);
    r.append(c);
    r
}

/// Four texts in a row.
pub fn cat4(a: &str, b: &str, c: &str, d: &str) -> (r: String)
    ensures
        r@ == a@ + b@ + c@ + d@,
{
    let mut r: String = a.to_owned();
    r.append(b);
    r.append(c);
    r.append(d);
    r
}

/// Five texts in a row.
pub fn cat5(a: &str, b: &str, c: &str, d: &str, e: &str) -> (r: String)
    ensures
        r@ == a@ + b@ + c@ + d@ + e@,
{
    let mut r: String = cat4(a, b, c, d);
    r.append(e);
    r
}

/// An optional string that spells the same.
pub fn copy_opt(o: &Option<String>) -> (r: Option<String>)
    ensures
        opt_view(r) == opt_view(*o),
{
    match o {
        Some(s) => Some(s.clone()),
        None => None,
    }
}

/// Whether two optional strings spell the same.
pub fn opt_eq(a: &Option<String>, b: &Option<String>) -> (r: bool)
    ensures
        r == (opt_view(*a) == opt_view(*b)),
{
    match (a, b) {
        (Some(x), Some(y)) => str_eq(x.as_str(), y.as_str()),
        (None, None) => true,
        _ => false,
    }
}

} // verus!
