//! What the activity log keeps and what it shows: user names in paths and
//! access-token values are taken out, everything else stays as it was.

use vstd::prelude::*;

use crate::app::ArcTrackerSyncApp;
use crate::text::{
    chars_of, eq_ignore_ascii_case, is_ascii_alphanumeric, is_separator_char, is_white_space,
    split_on, string_of, to_lower_char, trimmed_symbols, word_end,
};
use crate::text::{
    ascii_alphanumeric, is_separator, is_space, lemma_span, lemma_span_is, lower, lower_char,
    separator, span, split, trim_symbols, white_space, words,
};

verus! {

// ----- user names in paths --------------------------------------------------------

/// A `Users` directory stands at index `i`, with a separator on either side:
/// what follows is a user name.
pub open spec fn user_dir_at(s: Seq<char>, i: int) -> bool {
    &&& 0 <= i && i + 7 <= s.len()
    &&& separator(s[i])
    &&& lower_char(s[i + 1]) == 'u'
    &&& lower_char(s[i + 2]) == 's'
    &&& lower_char(s[i + 3]) == 'e'
    &&& lower_char(s[i + 4]) == 'r'
    &&& lower_char(s[i + 5]) == 's'
    &&& separator(s[i + 6])
}

/// The first `Users` directory from index `i` on.
pub open spec fn find_user_dir(s: Seq<char>, i: int) -> Option<int>
    decreases s.len() - i,
{
    if i < 0 || i + 7 > s.len() {
        None
    } else if user_dir_at(s, i) {
        Some(i)
    } else {
        find_user_dir(s, i + 1)
    }
}

/// What stands for a user name of `n` characters.
pub open spec fn user_mark(n: nat) -> Seq<char> {
    if n > 0 {
        "<user>"@
    } else {
        Seq::empty()
    }
}

/// The text with the component after each `Users` directory turned into `<user>`.
#[verifier::opaque]
pub open spec fn scrub(s: Seq<char>) -> Seq<char>
    decreases s.len(),
{
    match find_user_dir(s, 0) {
        Some(k) => if 0 <= k && k + 7 <= s.len() {
            let rest = s.skip(k + 7);
            let n = span(rest, is_separator());
            if n <= rest.len() {
                s.take(k + 7) + user_mark(n) + scrub(rest.skip(n as int))
            } else {
                s
            }
        } else {
            s
        },
        None => s,
    }
}

proof fn lemma_find_user_dir(s: Seq<char>, i: int)
    requires
        0 <= i,
    ensures
        find_user_dir(s, i) matches Some(k) ==> i <= k && user_dir_at(s, k) && (forall|j: int|
            i <= j < k ==> !user_dir_at(s, j)),
        find_user_dir(s, i) is None ==> (forall|j: int| i <= j ==> !user_dir_at(s, j)),
    decreases s.len() - i,
{
    if i + 7 <= s.len() && !user_dir_at(s, i) {
        lemma_find_user_dir(s, i + 1);
    }
}

/// The first `Users` directory is at `k`.
proof fn lemma_find_user_dir_is(s: Seq<char>, i: int, k: int)
    requires
        0 <= i <= k,
        user_dir_at(s, k),
        forall|j: int| i <= j < k ==> !user_dir_at(s, j),
    ensures
        find_user_dir(s, i) == Some(k),
    decreases k - i,
{
    if i < k {
        lemma_find_user_dir_is(s, i + 1, k);
    }
}

fn is_user_dir_at(v: &Vec<char>, i: usize) -> (r: bool)
    requires
        i <= v@.len(),
    ensures
        r == user_dir_at(v@, i as int),
{
    v.len() - i >= 7 && is_separator_char(v[i]) && to_lower_char(v[i + 1]) == 'u' && to_lower_char(
        v[i + 2],
    ) == 's' && to_lower_char(v[i + 3]) == 'e' && to_lower_char(v[i + 4]) == 'r' && to_lower_char(
        v[i + 5],
    ) == 's' && is_separator_char(v[i + 6])
}

/// Where the `Users` directories of a scrubbed text stand: those of the text's
/// own beginning, and those of the scrubbed rest.
proof fn lemma_scrub_dirs(a: Seq<char>, k: int, u: Seq<char>, t: Seq<char>, i: int)
    requires
        user_dir_at(a, k),
        a.len() == k + 7,
        forall|j: int| 0 <= j < k ==> !user_dir_at(a, j),
        u == user_mark(0) || u == user_mark(1),
        t.len() > 0 ==> separator(t[0]),
        user_dir_at(a + u + t, i),
    ensures
        i == k || (i >= a.len() + u.len() && user_dir_at(t, i - a.len() - u.len())),
{
    reveal_strlit("<user>");
    if i < k {
        assert(user_dir_at(a, i));
    }
}

/// The length of the component that follows the mark.
proof fn lemma_marked_component(u: Seq<char>, t: Seq<char>)
    requires
        u == user_mark(0) || u == user_mark(1),
        t.len() > 0 ==> separator(t[0]),
    ensures
        span(u + t, is_separator()) == u.len(),
{
    reveal_strlit("<user>");
    lemma_span_is(u + t, is_separator(), u.len() as int);
}

/// No user name is left in a scrubbed text: the component after a `Users`
/// directory is `<user>` or nothing at all.
pub proof fn law_scrub_hides_user_names(s: Seq<char>, i: int)
    requires
        user_dir_at(scrub(s), i),
    ensures
        ({
            let rest = scrub(s).skip(i + 7);
            let component = rest.take(span(rest, is_separator()) as int);
            component == "<user>"@ || component.len() == 0
        }),
    decreases s.len(),
{
    reveal(scrub);
    lemma_find_user_dir(s, 0);
    if find_user_dir(s, 0) is Some {
        let k = find_user_dir(s, 0)->0;
        let rest = s.skip(k + 7);
        let n = span(rest, is_separator());
        lemma_span(rest, is_separator());
        let a = s.take(k + 7);
        let u = user_mark(n);
        let t = scrub(rest.skip(n as int));
        assert forall|j: int| 0 <= j < k implies !user_dir_at(a, j) by {
            if user_dir_at(a, j) {
                assert(user_dir_at(s, j));
            }
        }
        lemma_scrub_dirs(a, k, u, t, i);
        let out = a + u + t;
        if i == k {
            assert(out.skip(k + 7) =~= u + t);
            lemma_marked_component(u, t);
        } else {
            let d = (a.len() + u.len()) as int;
            law_scrub_hides_user_names(rest.skip(n as int), i - d);
            assert(out.skip(i + 7) =~= t.skip(i - d + 7));
        }
    }
}

/// Scrubbing twice is scrubbing once.
pub proof fn law_scrub_is_idempotent(s: Seq<char>)
    ensures
        scrub(scrub(s)) == scrub(s),
    decreases s.len(),
{
    reveal(scrub);
    lemma_find_user_dir(s, 0);
    if find_user_dir(s, 0) is Some {
        let k = find_user_dir(s, 0)->0;
        let rest = s.skip(k + 7);
        let n = span(rest, is_separator());
        lemma_span(rest, is_separator());
        let a = s.take(k + 7);
        let u = user_mark(n);
        let t = scrub(rest.skip(n as int));
        assert forall|j: int| 0 <= j < k implies !user_dir_at(a, j) by {
            if user_dir_at(a, j) {
                assert(user_dir_at(s, j));
            }
        }
        let out = a + u + t;
        assert forall|j: int| 0 <= j < k implies !user_dir_at(out, j) by {
            if user_dir_at(out, j) {
                lemma_scrub_dirs(a, k, u, t, j);
            }
        }
        lemma_find_user_dir_is(out, 0, k);
        assert(out.skip(k + 7) =~= u + t);
        lemma_marked_component(u, t);
        assert((u + t).skip(u.len() as int) =~= t);
        law_scrub_is_idempotent(rest.skip(n as int));
    }
}

/// A text without a `Users` directory is left as it is.
pub proof fn law_scrub_keeps_other_text(s: Seq<char>)
    requires
        forall|i: int| !user_dir_at(s, i),
    ensures
        scrub(s) == s,
{
    reveal(scrub);
    lemma_find_user_dir(s, 0);
}

// ----- access-token values --------------------------------------------------------

/// A character of a base64url segment.
pub open spec fn token_char(c: char) -> bool {
    ascii_alphanumeric(c) || c == '_' || c == '-'
}

/// A long base64url segment.
pub open spec fn token_segment(s: Seq<char>) -> bool {
    s.len() >= 10 && forall|i: int| 0 <= i < s.len() ==> token_char(#[trigger] s[i])
}

/// Three long base64url segments between dots.
pub open spec fn jwt_like(word: Seq<char>) -> bool {
    let parts = split(word, '.');
    parts.len() == 3 && token_segment(parts[0]) && token_segment(parts[1]) && token_segment(
        parts[2],
    )
}

/// The word `bearer`, whatever its case and the punctuation around it: the
/// next word is a token.
pub open spec fn bearer_marker(word: Seq<char>) -> bool {
    lower(trim_symbols(word)) == lower("bearer"@)
}

/// What is shown of a word; `marked` says that the word before it was a marker.
pub open spec fn shown_word(word: Seq<char>, marked: bool) -> Seq<char> {
    if marked || jwt_like(word) {
        "<redacted>"@
    } else {
        word
    }
}

/// The text with each token value turned into `<redacted>`.
pub open spec fn redact(s: Seq<char>, marked: bool) -> Seq<char>
    decreases s.len(),
{
    if s.len() == 0 {
        Seq::empty()
    } else if white_space(s[0]) {
        seq![s[0]] + redact(s.drop_first(), marked)
    } else {
        let n = span(s, is_space());
        if 0 < n <= s.len() {
            let word = s.take(n as int);
            shown_word(word, marked) + redact(s.skip(n as int), bearer_marker(word))
        } else {
            Seq::empty()
        }
    }
}

fn is_token_segment(s: &str) -> (r: bool)
    ensures
        r == token_segment(s@),
{
    let v = chars_of(s);
    if v.len() < 10 {
        return false;
    }
    let mut i: usize = 0;
    while i < v.len()
        invariant
            i <= v@.len(),
            v@ == s@,
            v@.len() >= 10,
            forall|k: int| 0 <= k < i ==> token_char(#[trigger] s@[k]),
        decreases v.len() - i,
    {
        let c = v[i];
        if !(is_ascii_alphanumeric(c) || c == '_' || c == '-') {
            return false;
        }
        i += 1;
    }
    true
}

fn is_jwt_like(word: &str) -> (r: bool)
    ensures
        r == jwt_like(word@),
{
    let parts = split_on(word, '.');
    if parts.len() != 3 {
        return false;
    }
    is_token_segment(parts[0].as_str()) && is_token_segment(parts[1].as_str()) && is_token_segment(
        parts[2].as_str(),
    )
}

fn is_bearer_marker(word: &str) -> (r: bool)
    ensures
        r == bearer_marker(word@),
{
    eq_ignore_ascii_case(trimmed_symbols(word).as_str(), "bearer")
}

proof fn lemma_first_word(w: Seq<char>, t: Seq<char>)
    requires
        w.len() > 0,
        forall|i: int| 0 <= i < w.len() ==> !white_space(#[trigger] w[i]),
        t.len() > 0 ==> white_space(t[0]),
    ensures
        words(w + t) == seq![w] + words(t),
{
    let s = w + t;
    assert forall|i: int| 0 <= i < w.len() implies !is_space()(#[trigger] s[i]) by {}
    lemma_span_is(s, is_space(), w.len() as int);
    assert(s.take(w.len() as int) =~= w);
    assert(s.skip(w.len() as int) =~= t);
}

/// What redaction shows, word by word: a word after a `Bearer` marker and a
/// word that looks like a token become `<redacted>`, every other word stays,
/// and no word appears or goes away.
pub proof fn law_redact_word_by_word(s: Seq<char>, marked: bool)
    ensures
        words(redact(s, marked)).len() == words(s).len(),
        forall|i: int|
            0 <= i < words(s).len() ==> #[trigger] words(redact(s, marked))[i] == shown_word(
                words(s)[i],
                if i == 0 {
                    marked
                } else {
                    bearer_marker(words(s)[i - 1])
                },
            ),
        s.len() > 0 ==> redact(s, marked).len() > 0,
        s.len() > 0 && white_space(s[0]) ==> white_space(redact(s, marked)[0]),
    decreases s.len(),
{
    reveal_strlit("<redacted>");
    if s.len() > 0 && white_space(s[0]) {
        law_redact_word_by_word(s.drop_first(), marked);
        assert(redact(s, marked).drop_first() =~= redact(s.drop_first(), marked));
    } else if s.len() > 0 {
        lemma_span(s, is_space());
        let n = span(s, is_space());
        let word = s.take(n as int);
        let rest = s.skip(n as int);
        let next = bearer_marker(word);
        law_redact_word_by_word(rest, next);
        assert forall|i: int| 0 <= i < word.len() implies !white_space(#[trigger] word[i]) by {}
        let shown = shown_word(word, marked);
        lemma_first_word(shown, redact(rest, next));
        let all = words(s);
        let out = words(redact(s, marked));
        assert forall|i: int| 0 <= i < all.len() implies #[trigger] out[i] == shown_word(
            all[i],
            if i == 0 {
                marked
            } else {
                bearer_marker(all[i - 1])
            },
        ) by {}
    }
}

// ----- the two operations of the log ----------------------------------------------

impl ArcTrackerSyncApp {
    /// Replaces the user name in any `…\Users\<name>\…` path with `<user>`, so
    /// that what is shared does not name the account. Both slash styles count;
    /// the case of `Users` does not.
    pub fn scrub_paths(text: &str) -> (r: String)
        ensures
            r@ == scrub(text@),
    {
        reveal(scrub);
        let v = chars_of(text);
        let mut out: Vec<char> = Vec::new();
        let mut i: usize = 0;
        let mut j: usize = 0;
        assert(text@.skip(0) =~= text@);
        let mark = chars_of("<user>");
        while j < v.len()
            invariant
                i <= j <= v@.len(),
                v@ == text@,
                mark@ == "<user>"@,
                scrub(text@) == out@ + scrub(text@.skip(i as int)),
                forall|k: int| 0 <= k < j - i ==> !user_dir_at(text@.skip(i as int), k),
            decreases v.len() - j,
        {
            let ghost here = text@.skip(i as int);
            proof {
                reveal(scrub);
            }
            if is_user_dir_at(&v, j) {
                let after: usize = j + 7;
                let mut end: usize = after;
                while end < v.len() && !is_separator_char(v[end])
                    invariant
                        after <= end <= v@.len(),
                        forall|k: int| after <= k < end ==> !separator(v@[k]),
                    decreases v.len() - end,
                {
                    end += 1;
                }
                proof {
                    lemma_find_user_dir_is(here, 0, j - i);
                    let rest = here.skip(j - i + 7);
                    assert forall|k: int| 0 <= k < end - after implies !is_separator()(
                        #[trigger] rest[k],
                    ) by {
                        assert(rest[k] == v@[after + k]);
                    }
                    lemma_span_is(rest, is_separator(), end - after);
                    assert(rest.skip(end - after) =~= text@.skip(end as int));
                }
                out.extend_from_slice(vstd::slice::slice_subrange(v.as_slice(), i, after));
                if end > after {
                    out.extend_from_slice(mark.as_slice());
                }
                i = end;
                j = end;
            } else {
                j += 1;
            }
        }
        proof {
            let here = text@.skip(i as int);
            lemma_find_user_dir(here, 0);
        }
        out.extend_from_slice(vstd::slice::slice_subrange(v.as_slice(), i, v.len()));
        string_of(out.as_slice())
    }

    /// Replaces each access-token value with `<redacted>`: the word after a
    /// `Bearer` marker, and a bare word of three long base64url segments.
    pub fn redact_token_values(message: &str) -> (r: String)
        ensures
            r@ == redact(message@, false),
    {
        let v = chars_of(message);
        let mut out: String = String::new();
        let mut marked: bool = false;
        let mut i: usize = 0;
        assert(message@.skip(0) =~= message@);
        while i < v.len()
            invariant
                i <= v@.len(),
                v@ == message@,
                redact(message@, false) == out@ + redact(message@.skip(i as int), marked),
            decreases v.len() - i,
        {
            let ghost rest = message@.skip(i as int);
            let ghost before = out@;
            if is_white_space(v[i]) {
                out.push(v[i]);
                assert(rest.drop_first() =~= message@.skip(i + 1));
                assert(before + redact(rest, marked) =~= out@ + redact(
                    message@.skip(i + 1),
                    marked,
                ));
                i += 1;
            } else {
                let to = word_end(&v, i);
                let word = string_of(vstd::slice::slice_subrange(v.as_slice(), i, to));
                assert(word@ =~= rest.take(to - i));
                assert(rest.skip(to - i) =~= message@.skip(to as int));
                let ghost was = marked;
                if marked || is_jwt_like(word.as_str()) {
                    out.append("<redacted>");
                } else {
                    out.append(word.as_str());
                }
                marked = is_bearer_marker(word.as_str());
                assert(before + redact(rest, was) =~= out@ + redact(
                    message@.skip(to as int),
                    marked,
                ));
                i = to;
            }
        }
        out
    }

    /// What the activity log stores: the message with user names scrubbed.
    pub fn stored_event_message(message: &str) -> (r: String)
        ensures
            r@ == scrub(message@),
    {
        Self::scrub_paths(message)
    }

    /// What the activity log shows: token values redacted, then user names scrubbed.
    pub fn support_event_message(message: &str) -> (r: String)
        ensures
            r@ == scrub(redact(message@, false)),
    {
        let redacted = Self::redact_token_values(message);
        Self::scrub_paths(redacted.as_str())
    }
}

} // verus!
