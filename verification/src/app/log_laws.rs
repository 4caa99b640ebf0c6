//! What the log and its redaction are for: laws on what stays, what goes, and
//! what stands in its place.

use vstd::prelude::*;

use crate::app::redaction::{
    bearer_marker, find_user_dir, jwt_like, law_redact_word_by_word, redact, scrub, shown_word,
    token_char, user_dir_at,
};
use crate::app::{pushed, requested, AppModel};
use crate::app::data::EffectModel;
use crate::text::{
    is_separator, is_space, join, lemma_span_is, lower, lower_char, split, trim_symbols,
    white_space, words,
};
use crate::text_laws::{
    law_lower, law_split_and_join, law_split_first, law_trim_symbols,
    law_trim_symbols_finds_the_text,
};

verus! {

// ----- the log --------------------------------------------------------------------

/// The log keeps the twenty newest events, and an event changes nothing but the
/// log.
pub proof fn law_log_keeps_twenty(m: AppModel, text: Seq<char>)
    requires
        m.messages.len() <= 20,
    ensures
        ({
            let after = pushed(m, text);
            &&& after.messages.len() == if m.messages.len() < 20 {
                m.messages.len() + 1
            } else {
                20
            }
            &&& after.messages[0] == scrub(text)
            &&& forall|i: int|
                1 <= i < after.messages.len() ==> #[trigger] after.messages[i] == m.messages[i - 1]
            &&& after == (AppModel { messages: after.messages, ..m })
        }),
{
    reveal(crate::app::logged);
}

/// A request is carried out after those before it, and changes nothing else.
pub proof fn law_requests_keep_their_order(m: AppModel, effect: EffectModel)
    ensures
        requested(m, effect).effects.len() == m.effects.len() + 1,
        requested(m, effect).effects.last() == effect,
        forall|i: int|
            0 <= i < m.effects.len() ==> #[trigger] requested(m, effect).effects[i] == m.effects[i],
        requested(m, effect) == (AppModel { effects: requested(m, effect).effects, ..m }),
{
}

// ----- user names -----------------------------------------------------------------

/// The letter in either case.
pub open spec fn either_case(c: char, small: char, capital: char) -> bool {
    c == small || c == capital
}

/// A slash or a backslash, `Users` in any case, and a slash or a backslash.
pub open spec fn users_between_separators(s: Seq<char>, i: int) -> bool {
    &&& 0 <= i && i + 7 <= s.len()
    &&& s[i] == '/' || s[i] == '\\'
    &&& either_case(s[i + 1], 'u', 'U')
    &&& either_case(s[i + 2], 's', 'S')
    &&& either_case(s[i + 3], 'e', 'E')
    &&& either_case(s[i + 4], 'r', 'R')
    &&& either_case(s[i + 5], 's', 'S')
    &&& s[i + 6] == '/' || s[i + 6] == '\\'
}

proof fn lemma_either_case(c: char, small: char, capital: char)
    requires
        'a' <= small <= 'z',
        capital as u32 + 32 == small as u32,
    ensures
        lower_char(c) == small <==> either_case(c, small, capital),
{
    let s = seq![c];
    law_lower(s, 0);
    assert(lower(s)[0] == lower_char(c));
    if 'A' <= c <= 'Z' {
        assert(lower_char(c) == small <==> lower_char(c) as u32 == small as u32);
    }
}

/// A user's directory is told by `Users` between separators of either style,
/// whatever the case.
pub proof fn law_user_directory(s: Seq<char>, i: int)
    ensures
        user_dir_at(s, i) <==> users_between_separators(s, i),
{
    if 0 <= i && i + 7 <= s.len() {
        lemma_either_case(s[i + 1], 'u', 'U');
        lemma_either_case(s[i + 2], 's', 'S');
        lemma_either_case(s[i + 3], 'e', 'E');
        lemma_either_case(s[i + 4], 'r', 'R');
        lemma_either_case(s[i + 5], 's', 'S');
    }
}

proof fn lemma_first_user_dir(s: Seq<char>, i: int, k: int)
    requires
        0 <= i <= k,
        user_dir_at(s, k),
        forall|j: int| i <= j < k ==> !user_dir_at(s, j),
    ensures
        find_user_dir(s, i) == Some(k),
    decreases k - i,
{
    if i < k {
        lemma_first_user_dir(s, i + 1, k);
    }
}

/// The name behind the first `Users` becomes `<user>`; the path up to it stays
/// letter by letter, and the text behind the name is gone through in the same
/// way. Where there is no name, nothing stands for it.
pub proof fn law_scrub_replaces_the_name(
    path: Seq<char>,
    users: Seq<char>,
    name: Seq<char>,
    rest: Seq<char>,
)
    requires
        users.len() == 7,
        users_between_separators(users, 0),
        forall|j: int| 0 <= j < path.len() ==> !users_between_separators(path + users, j),
        !name.contains('/') && !name.contains('\\'),
        rest.len() > 0 ==> rest[0] == '/' || rest[0] == '\\',
    ensures
        name.len() > 0 ==> scrub(path + users + name + rest) == path + users + "<user>"@ + scrub(
            rest,
        ),
        name.len() == 0 ==> scrub(path + users + name + rest) == path + users + scrub(rest),
{
    reveal(scrub);
    let s = path + users + name + rest;
    let k = path.len() as int;
    assert forall|j: int| 0 <= j < k implies !user_dir_at(s, j) by {
        law_user_directory(s, j);
        let head = path + users;
        assert(!users_between_separators(head, j));
        assert(forall|x: int| 0 <= x < head.len() ==> s[x] == head[x]);
    }
    assert(user_dir_at(s, k)) by {
        law_user_directory(s, k);
        assert(forall|x: int| 0 <= x < 7 ==> s[k + x] == users[x]);
    }
    lemma_first_user_dir(s, 0, k);
    let tail = s.skip(k + 7);
    assert(tail =~= name + rest);
    assert forall|j: int| 0 <= j < name.len() implies !is_separator()(#[trigger] tail[j]) by {
        assert(name.contains(name[j]));
    }
    lemma_span_is(tail, is_separator(), name.len() as int);
    assert(tail.skip(name.len() as int) =~= rest);
    assert(s.take(k + 7) =~= path + users);
    assert(path + users + Seq::<char>::empty() =~= path + users);
}

// ----- token values ---------------------------------------------------------------

/// A letter, a digit, `_` or `-`.
pub open spec fn base64url(c: char) -> bool {
    'a' <= c <= 'z' || 'A' <= c <= 'Z' || '0' <= c <= '9' || c == '_' || c == '-'
}

/// Ten or more such characters, and nothing else.
pub open spec fn long_segment(s: Seq<char>) -> bool {
    s.len() >= 10 && forall|i: int| 0 <= i < s.len() ==> base64url(#[trigger] s[i])
}

/// Three long segments with dots between them.
pub open spec fn three_segments(word: Seq<char>, a: Seq<char>, b: Seq<char>, c: Seq<char>) -> bool {
    word == a + seq!['.'] + b + seq!['.'] + c && long_segment(a) && long_segment(b)
        && long_segment(c)
}

proof fn lemma_no_dot(s: Seq<char>)
    requires
        long_segment(s),
    ensures
        !s.contains('.'),
        crate::app::redaction::token_segment(s),
{
    assert forall|i: int| 0 <= i < s.len() implies token_char(#[trigger] s[i]) by {
        assert(base64url(s[i]));
    }
    assert forall|i: int| 0 <= i < s.len() implies s[i] != '.' by {
        assert(base64url(s[i]));
    }
}

/// Any three segments of ten characters or more, however long, make a token.
proof fn lemma_segments_make_a_token(word: Seq<char>, a: Seq<char>, b: Seq<char>, c: Seq<char>)
    requires
        three_segments(word, a, b, c),
    ensures
        jwt_like(word),
{
    lemma_no_dot(a);
    lemma_no_dot(b);
    lemma_no_dot(c);
    let rest = b + seq!['.'] + c;
    assert(word =~= a + seq!['.'] + rest);
    law_split_first(a, '.', rest);
    law_split_first(b, '.', c);
    law_split_first(c, '.', Seq::empty());
    let parts = split(word, '.');
    assert(parts =~= seq![a, b, c]);
}

/// Nothing else makes a token.
proof fn lemma_tokens_have_segments(word: Seq<char>)
    requires
        jwt_like(word),
    ensures
        exists|a: Seq<char>, b: Seq<char>, c: Seq<char>| #[trigger] three_segments(word, a, b, c),
{
    law_split_and_join(word, '.');
    let parts = split(word, '.');
    let dot = seq!['.'];
    let (a, b, c) = (parts[0], parts[1], parts[2]);
    let others = parts.drop_first();
    let last = others.drop_first();
    assert(last.len() == 1 && join(last, dot) == last[0]);
    assert(join(others, dot) == others[0] + dot + join(last, dot));
    assert(join(parts, dot) == parts[0] + dot + join(others, dot));
    assert(word =~= a + dot + b + dot + c);
    assert forall|i: int| 0 <= i < a.len() implies base64url(#[trigger] a[i]) by {
        assert(token_char(a[i]));
    }
    assert forall|i: int| 0 <= i < b.len() implies base64url(#[trigger] b[i]) by {
        assert(token_char(b[i]));
    }
    assert forall|i: int| 0 <= i < c.len() implies base64url(#[trigger] c[i]) by {
        assert(token_char(c[i]));
    }
    assert(three_segments(word, a, b, c));
}

/// A token is never shown: a word of three segments of ten or more characters,
/// of whatever length, becomes `<redacted>`, wherever it stands in a text.
pub proof fn law_token_is_redacted(
    s: Seq<char>,
    i: int,
    a: Seq<char>,
    b: Seq<char>,
    c: Seq<char>,
    marked: bool,
)
    requires
        0 <= i < words(s).len(),
        three_segments(words(s)[i], a, b, c),
    ensures
        words(redact(s, marked))[i] == "<redacted>"@,
{
    lemma_segments_make_a_token(words(s)[i], a, b, c);
    law_redact_word_by_word(s, marked);
}

/// `bearer` in any case, with no letter or digit before or behind it.
pub open spec fn bearer_word(
    word: Seq<char>,
    before: Seq<char>,
    marker: Seq<char>,
    after: Seq<char>,
) -> bool {
    &&& word == before + marker + after
    &&& forall|i: int| 0 <= i < before.len() ==> !letter_or_digit(#[trigger] before[i])
    &&& forall|i: int| 0 <= i < after.len() ==> !letter_or_digit(#[trigger] after[i])
    &&& marker.len() == 6
    &&& either_case(marker[0], 'b', 'B') && either_case(marker[1], 'e', 'E')
    &&& either_case(marker[2], 'a', 'A') && either_case(marker[3], 'r', 'R')
    &&& either_case(marker[4], 'e', 'E') && either_case(marker[5], 'r', 'R')
}

pub open spec fn letter_or_digit(c: char) -> bool {
    'a' <= c <= 'z' || 'A' <= c <= 'Z' || '0' <= c <= '9'
}

proof fn lemma_bearer_letters(marker: Seq<char>)
    ensures
        lower(marker) == lower("bearer"@) <==> marker.len() == 6 && either_case(marker[0], 'b', 'B')
            && either_case(marker[1], 'e', 'E') && either_case(marker[2], 'a', 'A')
            && either_case(marker[3], 'r', 'R') && either_case(marker[4], 'e', 'E')
            && either_case(marker[5], 'r', 'R'),
{
    reveal_strlit("bearer");
    assert("bearer"@ =~= seq!['b', 'e', 'a', 'r', 'e', 'r']);
    assert(lower("bearer"@) =~= "bearer"@);
    assert(lower(marker).len() == marker.len());
    if marker.len() == 6 {
        lemma_either_case(marker[0], 'b', 'B');
        lemma_either_case(marker[1], 'e', 'E');
        lemma_either_case(marker[2], 'a', 'A');
        lemma_either_case(marker[3], 'r', 'R');
        lemma_either_case(marker[4], 'e', 'E');
        lemma_either_case(marker[5], 'r', 'R');
        assert(forall|i: int| 0 <= i < 6 ==> lower(marker)[i] == lower_char(marker[i]));
        if lower(marker) == "bearer"@ {
            assert(lower(marker)[0] == 'b' && lower(marker)[1] == 'e' && lower(marker)[2] == 'a'
                && lower(marker)[3] == 'r' && lower(marker)[4] == 'e' && lower(marker)[5] == 'r');
        } else {
            assert(!(lower(marker) =~= "bearer"@));
        }
    }
}

/// What follows `Bearer` is never shown, whatever it is.
pub proof fn law_word_after_bearer_is_redacted(
    s: Seq<char>,
    i: int,
    before: Seq<char>,
    marker: Seq<char>,
    after: Seq<char>,
    marked: bool,
)
    requires
        1 <= i < words(s).len(),
        bearer_word(words(s)[i - 1], before, marker, after),
    ensures
        words(redact(s, marked))[i] == "<redacted>"@,
{
    lemma_bearer_letters(marker);
    law_trim_symbols_finds_the_text(before, marker, after);
    law_redact_word_by_word(s, marked);
}

/// Every other word is shown as it is: one that is no token, and that no
/// `bearer` stands before. No word is lost, and none is added.
pub proof fn law_other_words_are_shown(s: Seq<char>, i: int)
    requires
        0 <= i < words(s).len(),
        forall|a: Seq<char>, b: Seq<char>, c: Seq<char>|
            !#[trigger] three_segments(words(s)[i], a, b, c),
        i > 0 ==> forall|before: Seq<char>, marker: Seq<char>, after: Seq<char>|
            !#[trigger] bearer_word(words(s)[i - 1], before, marker, after),
    ensures
        words(redact(s, false)).len() == words(s).len(),
        words(redact(s, false))[i] == words(s)[i],
{
    law_redact_word_by_word(s, false);
    if jwt_like(words(s)[i]) {
        lemma_tokens_have_segments(words(s)[i]);
    }
    if i > 0 && bearer_marker(words(s)[i - 1]) {
        let word = words(s)[i - 1];
        let marker = trim_symbols(word);
        law_trim_symbols(word);
        lemma_bearer_letters(marker);
        let at = choose|at: int|
            0 <= at && at + marker.len() <= word.len() && marker == #[trigger] word.subrange(
                at,
                at + marker.len(),
            ) && forall|k: int|
                0 <= k < at || at + marker.len() <= k < word.len()
                    ==> !crate::text::ascii_alphanumeric(#[trigger] word[k]);
        let before = word.take(at);
        let after = word.skip(at + marker.len());
        assert(word =~= before + marker + after);
        assert forall|k: int| 0 <= k < before.len() implies !letter_or_digit(
            #[trigger] before[k],
        ) by {
            assert(!crate::text::ascii_alphanumeric(word[k]));
        }
        assert forall|k: int| 0 <= k < after.len() implies !letter_or_digit(#[trigger] after[k]) by {
            assert(!crate::text::ascii_alphanumeric(word[at + marker.len() + k]));
        }
        assert(bearer_word(word, before, marker, after));
    }
}

/// The space between words is shown as it is.
pub proof fn law_redaction_keeps_the_spacing(
    word: Seq<char>,
    space: char,
    rest: Seq<char>,
    marked: bool,
)
    requires
        forall|i: int| 0 <= i < word.len() ==> !white_space(#[trigger] word[i]),
        white_space(space),
    ensures
        redact(seq![space] + rest, marked) == seq![space] + redact(rest, marked),
        word.len() > 0 ==> redact(word + seq![space] + rest, marked) == redact(word, marked)
            + seq![space] + redact(rest, bearer_marker(word)),
        redact(Seq::empty(), marked) == Seq::<char>::empty(),
        word.len() > 0 ==> redact(word, marked) == word || redact(word, marked) == "<redacted>"@,
{
    let tail = seq![space] + rest;
    assert(tail.drop_first() =~= rest);
    if word.len() > 0 {
        let s = word + seq![space] + rest;
        assert(s[0] == word[0]);
        assert forall|i: int| 0 <= i < word.len() implies !is_space()(#[trigger] s[i]) by {
            assert(s[i] == word[i]);
        }
        lemma_span_is(s, is_space(), word.len() as int);
        assert(s.take(word.len() as int) =~= word);
        assert(s.skip(word.len() as int) =~= tail);
        lemma_span_is(word, is_space(), word.len() as int);
        assert(word.take(word.len() as int) =~= word);
        assert(word.skip(word.len() as int) =~= Seq::<char>::empty());
        assert(redact(Seq::empty(), bearer_marker(word)) == Seq::<char>::empty());
        assert(redact(word, marked) =~= shown_word(word, marked));
        let marker = bearer_marker(word);
        assert(redact(tail, marker) == seq![space] + redact(rest, marker));
        assert(redact(s, marked) == shown_word(word, marked) + redact(tail, marker));
        assert(shown_word(word, marked) + (seq![space] + redact(rest, marker)) =~= shown_word(
            word,
            marked,
        ) + seq![space] + redact(rest, marker));
    }
}

} // verus!
