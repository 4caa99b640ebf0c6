//! What the choice of the language is for: laws on what a tag, a preference and
//! a placeholder lead to.

use vstd::prelude::*;

use crate::i18n::{
    active_for, filled, first_where, language_of, language_tag, law_match_is_supported,
    law_ui_locales_match_themselves, locale_units, matched_locale, native_name_of, normalized_tag, of_language,
    placeholder, reads_as, resolved_locale, ui_locales, Argument,
};
use crate::text::{contains, has_at, lower, replace_all, replaced, trim};
use crate::text_laws::{law_begins_with, law_lower, law_replace_all, law_split_first};

verus! {

/// A preference that is matched is used; else the language of the system, where
/// that is matched; else English.
pub proof fn law_preference_comes_first(
    preferred: Option<Seq<char>>,
    system: Option<Seq<char>>,
    locale: Seq<char>,
)
    ensures
        preferred matches Some(tag) ==> (matched_locale(tag) == Some(locale) ==> resolved_locale(
            preferred,
            system,
        ) == locale),
        (preferred is None || matched_locale(preferred->0) is None) && (system matches Some(tag)
            && matched_locale(tag) == Some(locale)) ==> resolved_locale(preferred, system)
            == locale,
        (preferred is None || matched_locale(preferred->0) is None) && (system is None
            || matched_locale(system->0) is None) ==> resolved_locale(preferred, system) == "en"@,
{
}

/// A language of the interface that is preferred is used, whatever the system's.
pub proof fn law_interface_language_is_used(i: int, system: Option<Seq<char>>)
    requires
        0 <= i < ui_locales().len(),
    ensures
        resolved_locale(Some(ui_locales()[i]), system) == ui_locales()[i],
        active_for(ui_locales()[i]) == ui_locales()[i],
{
    law_ui_locales_match_themselves(i);
}

/// There are twenty languages, English first.
pub proof fn law_twenty_languages()
    ensures
        ui_locales().len() == 20,
        ui_locales()[0] == "en"@,
{
}

/// Two characters are the same in a tag: the same letter in whatever case, a
/// hyphen or an underscore.
pub open spec fn same_in_tag(a: char, b: char) -> bool {
    ||| a == b
    ||| (a == '-' || a == '_') && (b == '-' || b == '_')
    ||| 'A' <= a <= 'Z' && b as u32 == a as u32 + 32
    ||| 'A' <= b <= 'Z' && a as u32 == b as u32 + 32
}

/// Case, and hyphen or underscore, make no difference, nor does white space
/// around a tag.
pub proof fn law_form_of_a_tag_does_not_count(a: Seq<char>, b: Seq<char>)
    requires
        trim(a).len() == trim(b).len(),
        forall|i: int| 0 <= i < trim(a).len() ==> same_in_tag(#[trigger] trim(a)[i], trim(b)[i]),
    ensures
        matched_locale(a) == matched_locale(b),
{
    let (x, y) = (trim(a), trim(b));
    let (u, v) = (replaced(x, '_', '-'), replaced(y, '_', '-'));
    assert forall|i: int| 0 <= i < x.len() implies lower(u)[i] == lower(v)[i] by {
        assert(same_in_tag(x[i], y[i]));
        law_lower(u, i);
        law_lower(v, i);
        vstd::utf8::char_u32_cast(lower(u)[i], lower(u)[i] as u32);
        vstd::utf8::char_u32_cast(lower(v)[i], lower(v)[i] as u32);
    }
    assert(normalized_tag(a) =~= normalized_tag(b));
}

/// What reads as a language of the interface is that language.
pub proof fn law_exact_match_comes_first(tag: Seq<char>)
    ensures
        matched_locale(tag) matches Some(found) ==> ui_locales().contains(found),
        first_where(ui_locales(), reads_as(normalized_tag(tag))) matches Some(found)
            ==> matched_locale(tag) == Some(found),
{
    law_match_is_supported(tag);
}

/// Chinese goes by script or region: traditional for Taiwan, Hong Kong and
/// Macau, simplified for all else. Portuguese goes by region.
pub proof fn law_chinese_and_portuguese(tag: Seq<char>, rest: Seq<char>)
    requires
        first_where(ui_locales(), reads_as(normalized_tag(tag))) is None,
    ensures
        normalized_tag(tag) == "zh"@ + rest ==> matched_locale(tag) == Some(
            if contains(normalized_tag(tag), "hant"@) || contains(normalized_tag(tag), "tw"@)
                || contains(normalized_tag(tag), "hk"@) || contains(normalized_tag(tag), "mo"@) {
                "zh-TW"@
            } else {
                "zh-CN"@
            },
        ),
        normalized_tag(tag) == "pt"@ + rest ==> matched_locale(tag) == Some(
            if contains(normalized_tag(tag), "br"@) {
                "pt-BR"@
            } else {
                "pt"@
            },
        ),
{
    reveal_strlit("zh");
    reveal_strlit("pt");
    let n = normalized_tag(tag);
    law_begins_with(n, "zh"@);
    law_begins_with(n, "pt"@);
    if n == "pt"@ + rest {
        assert(n[0] == 'p');
        if has_at(n, "zh"@, 0) {
            assert(n.subrange(0, 2)[0] == 'z');
        }
    }
}

/// Any other tag leads to its language, whatever region it names.
pub proof fn law_region_is_passed_over(tag: Seq<char>, language: Seq<char>, rest: Seq<char>, i: int)
    requires
        first_where(ui_locales(), reads_as(normalized_tag(tag))) is None,
        normalized_tag(tag) == language + seq!['-'] + rest,
        !language.contains('-'),
        !has_at(normalized_tag(tag), "zh"@, 0),
        !has_at(normalized_tag(tag), "pt"@, 0),
        0 <= i < ui_locales().len(),
        ui_locales()[i] == language,
        forall|j: int| 0 <= j < i ==> language_of(#[trigger] ui_locales()[j]) != language,
    ensures
        matched_locale(tag) == Some(language),
{
    law_split_first(language, '-', rest);
    assert(language_of(normalized_tag(tag)) == language);
    law_split_first(language, '-', Seq::empty());
    assert(language_of(language) == language);
    lemma_first_where(ui_locales(), of_language(language), i);
}

proof fn lemma_first_where(list: Seq<Seq<char>>, p: spec_fn(Seq<char>) -> bool, i: int)
    requires
        0 <= i < list.len(),
        p(list[i]),
        forall|j: int| 0 <= j < i ==> !p(#[trigger] list[j]),
    ensures
        first_where(list, p) == Some(list[i]),
    decreases i,
{
    if i > 0 {
        let rest = list.drop_first();
        assert(!p(list[0]));
        assert forall|j: int| 0 <= j < i - 1 implies !p(#[trigger] rest[j]) by {
            assert(rest[j] == list[j + 1]);
        }
        lemma_first_where(rest, p, i - 1);
    }
}

/// The language of the system is what stands before the encoding.
pub proof fn law_encoding_is_left_off(tag: Seq<char>, encoding: Seq<char>)
    requires
        tag.len() > 0,
        !tag.contains('.'),
    ensures
        language_tag(Some(tag + seq!['.'] + encoding)) == Some(tag),
        language_tag(Some(tag)) == Some(tag),
        language_tag(None) is None,
        language_tag(Some(Seq::empty())) is None,
{
    law_split_first(tag, '.', encoding);
    let none = Seq::<char>::empty();
    law_split_first(none, '.', none);
}

/// Of what Windows wrote, the closing zero is left off.
pub proof fn law_closing_zero_is_left_off(name: Seq<u16>, rest: Seq<u16>)
    requires
        name.len() > 0,
    ensures
        locale_units(name + seq![0u16] + rest, name.len() as int + 1) == Some(name),
        locale_units(name, 0) is None,
        locale_units(name, 1) is None,
{
    assert((name + seq![0u16] + rest).take(name.len() as int) =~= name);
}

/// A placeholder that is named gets its value, and the text around it stays.
pub proof fn law_placeholder_is_filled(a: Seq<char>, b: Seq<char>, args: Seq<Argument>)
    requires
        args.len() == 1,
        ({
            let mark = "%{"@ + args[0].name@ + "}"@;
            &&& forall|i: int| 0 <= i < a.len() ==> !has_at(a + mark + b, mark, i)
            &&& !contains(b, mark)
        }),
    ensures
        filled(a + ("%{"@ + args[0].name@ + "}"@) + b, args, 1) == a + args[0].value@ + b,
{
    let mark = "%{"@ + args[0].name@ + "}"@;
    reveal_strlit("%{");
    let s = a + mark + b;
    assert(filled(s, args, 0) == s);
    assert(placeholder(args[0].name@) == mark);
    assert(mark.len() > 0) by {
        assert(mark[0] == '%');
    }
    law_replace_all(a, mark, b, args[0].value@);
    law_replace_all(b, mark, b, args[0].value@);
}

/// Each argument is filled in after those before it, and without any the text
/// stays.
pub proof fn law_arguments_in_order(text: Seq<char>, args: Seq<Argument>, n: nat)
    requires
        n < args.len(),
    ensures
        filled(text, args, 0) == text,
        filled(text, args, n + 1) == replace_all(
            filled(text, args, n),
            "%{"@ + args[n as int].name@ + "}"@,
            args[n as int].value@,
        ),
{
}

/// What the languages of the interface call themselves, in the order of the
/// picker.
pub open spec fn own_names() -> Seq<Seq<char>> {
    seq![
        "English"@,
        "Deutsch"@,
        "Français"@,
        "Español"@,
        "Português"@,
        "Português (Brasil)"@,
        "Polski"@,
        "Norsk"@,
        "Dansk"@,
        "Italiano"@,
        "日本語"@,
        "한국어"@,
        "简体中文"@,
        "繁體中文"@,
        "Русский"@,
        "Türkçe"@,
        "Українська"@,
        "Hrvatski"@,
        "Srpski"@,
        "עברית"@,
    ]
}

/// Each language of the picker is shown by the name that it calls itself, and
/// what is none of them by the English one.
pub proof fn law_languages_name_themselves(i: int, locale: Seq<char>)
    requires
        0 <= i < ui_locales().len(),
    ensures
        native_name_of(ui_locales()[i]) == own_names()[i],
        !ui_locales().contains(locale) ==> native_name_of(locale) == "English"@,
{
    reveal_strlit("en");
    reveal_strlit("de");
    reveal_strlit("fr");
    reveal_strlit("es");
    reveal_strlit("pt");
    reveal_strlit("pt-BR");
    reveal_strlit("pl");
    reveal_strlit("no");
    reveal_strlit("da");
    reveal_strlit("it");
    reveal_strlit("ja");
    reveal_strlit("ko");
    reveal_strlit("zh-CN");
    reveal_strlit("zh-TW");
    reveal_strlit("ru");
    reveal_strlit("tr");
    reveal_strlit("uk");
    reveal_strlit("hr");
    reveal_strlit("sr");
    reveal_strlit("he");
    let list = ui_locales();
    assert(list[0] == "en"@);
    assert(list[1] == "de"@);
    assert(list[2] == "fr"@);
    assert(list[3] == "es"@);
    assert(list[4] == "pt"@);
    assert(list[5] == "pt-BR"@);
    assert(list[6] == "pl"@);
    assert(list[7] == "no"@);
    assert(list[8] == "da"@);
    assert(list[9] == "it"@);
    assert(list[10] == "ja"@);
    assert(list[11] == "ko"@);
    assert(list[12] == "zh-CN"@);
    assert(list[13] == "zh-TW"@);
    assert(list[14] == "ru"@);
    assert(list[15] == "tr"@);
    assert(list[16] == "uk"@);
    assert(list[17] == "hr"@);
    assert(list[18] == "sr"@);
    assert(list[19] == "he"@);
    assert("en"@.len() == 2 && "en"@[0] == 'e' && "en"@[1] == 'n');
    assert("de"@.len() == 2 && "de"@[0] == 'd' && "de"@[1] == 'e');
    assert("fr"@.len() == 2 && "fr"@[0] == 'f' && "fr"@[1] == 'r');
    assert("es"@.len() == 2 && "es"@[0] == 'e' && "es"@[1] == 's');
    assert("pt"@.len() == 2 && "pt"@[0] == 'p' && "pt"@[1] == 't');
    assert("pt-BR"@.len() == 5 && "pt-BR"@[0] == 'p' && "pt-BR"@[1] == 't');
    assert("pl"@.len() == 2 && "pl"@[0] == 'p' && "pl"@[1] == 'l');
    assert("no"@.len() == 2 && "no"@[0] == 'n' && "no"@[1] == 'o');
    assert("da"@.len() == 2 && "da"@[0] == 'd' && "da"@[1] == 'a');
    assert("it"@.len() == 2 && "it"@[0] == 'i' && "it"@[1] == 't');
    assert("ja"@.len() == 2 && "ja"@[0] == 'j' && "ja"@[1] == 'a');
    assert("ko"@.len() == 2 && "ko"@[0] == 'k' && "ko"@[1] == 'o');
    assert("zh-CN"@.len() == 5 && "zh-CN"@[0] == 'z' && "zh-CN"@[1] == 'h');
    assert("zh-TW"@.len() == 5 && "zh-TW"@[0] == 'z' && "zh-TW"@[1] == 'h');
    assert("ru"@.len() == 2 && "ru"@[0] == 'r' && "ru"@[1] == 'u');
    assert("tr"@.len() == 2 && "tr"@[0] == 't' && "tr"@[1] == 'r');
    assert("uk"@.len() == 2 && "uk"@[0] == 'u' && "uk"@[1] == 'k');
    assert("hr"@.len() == 2 && "hr"@[0] == 'h' && "hr"@[1] == 'r');
    assert("sr"@.len() == 2 && "sr"@[0] == 's' && "sr"@[1] == 'r');
    assert("he"@.len() == 2 && "he"@[0] == 'h' && "he"@[1] == 'e');
    assert("zh-CN"@[3] == 'C' && "zh-TW"@[3] == 'T');
}

} // verus!
