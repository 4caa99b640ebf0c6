//! Which of the interface languages is active, and how catalog text is filled in.
//!
//! The catalogs themselves are looked up by the surrounding program: the
//! library names a text by its key (see [`Message`]) and fills the named
//! placeholders of what was found.

use vstd::prelude::*;

use crate::text::{
    cat3, contains_str, replace_char, replaced_all, split_on, starts_with, str_eq, to_lower,
    trimmed,
};
use crate::utf16::decode;
use crate::text::{
    contains, has_at, lower, opt_str_view, opt_view, replace_all, replaced, split, str_views, trim,
};
use crate::utf16::{decoded, well_formed};

verus! {

// ----- the interface languages ----------------------------------------------------

/// The interface languages, in the order in which a picker lists them.
pub open spec fn ui_locales() -> Seq<Seq<char>> {
    seq![
        "en"@,
        "de"@,
        "fr"@,
        "es"@,
        "pt"@,
        "pt-BR"@,
        "pl"@,
        "no"@,
        "da"@,
        "it"@,
        "ja"@,
        "ko"@,
        "zh-CN"@,
        "zh-TW"@,
        "ru"@,
        "tr"@,
        "uk"@,
        "hr"@,
        "sr"@,
        "he"@,
    ]
}

/// The interface languages, in the order in which a picker lists them.
pub fn ui_locale_list() -> (r: Vec<&'static str>)
    ensures
        str_views(r@) == ui_locales(),
{
    let r: Vec<&'static str> = vec![
        "en", "de", "fr", "es", "pt", "pt-BR", "pl", "no", "da", "it", "ja", "ko", "zh-CN",
        "zh-TW", "ru", "tr", "uk", "hr", "sr", "he",
    ];
    r
}

/// What a language calls itself; the English name where the language is none
/// of the interface's.
pub open spec fn native_name_of(locale: Seq<char>) -> Seq<char> {
    if locale == "de"@ {
        "Deutsch"@
    } else if locale == "fr"@ {
        "Français"@
    } else if locale == "es"@ {
        "Español"@
    } else if locale == "pt"@ {
        "Português"@
    } else if locale == "pt-BR"@ {
        "Português (Brasil)"@
    } else if locale == "pl"@ {
        "Polski"@
    } else if locale == "no"@ {
        "Norsk"@
    } else if locale == "da"@ {
        "Dansk"@
    } else if locale == "it"@ {
        "Italiano"@
    } else if locale == "ja"@ {
        "日本語"@
    } else if locale == "ko"@ {
        "한국어"@
    } else if locale == "zh-CN"@ {
        "简体中文"@
    } else if locale == "zh-TW"@ {
        "繁體中文"@
    } else if locale == "ru"@ {
        "Русский"@
    } else if locale == "tr"@ {
        "Türkçe"@
    } else if locale == "uk"@ {
        "Українська"@
    } else if locale == "hr"@ {
        "Hrvatski"@
    } else if locale == "sr"@ {
        "Srpski"@
    } else if locale == "he"@ {
        "עברית"@
    } else {
        "English"@
    }
}

/// Native display name for each supported locale.
pub fn native_name(locale: &str) -> (r: &'static str)
    ensures
        r@ == native_name_of(locale@),
{
    if str_eq(locale, "de") {
        "Deutsch"
    } else if str_eq(locale, "fr") {
        "Français"
    } else if str_eq(locale, "es") {
        "Español"
    } else if str_eq(locale, "pt") {
        "Português"
    } else if str_eq(locale, "pt-BR") {
        "Português (Brasil)"
    } else if str_eq(locale, "pl") {
        "Polski"
    } else if str_eq(locale, "no") {
        "Norsk"
    } else if str_eq(locale, "da") {
        "Dansk"
    } else if str_eq(locale, "it") {
        "Italiano"
    } else if str_eq(locale, "ja") {
        "日本語"
    } else if str_eq(locale, "ko") {
        "한국어"
    } else if str_eq(locale, "zh-CN") {
        "简体中文"
    } else if str_eq(locale, "zh-TW") {
        "繁體中文"
    } else if str_eq(locale, "ru") {
        "Русский"
    } else if str_eq(locale, "tr") {
        "Türkçe"
    } else if str_eq(locale, "uk") {
        "Українська"
    } else if str_eq(locale, "hr") {
        "Hrvatski"
    } else if str_eq(locale, "sr") {
        "Srpski"
    } else if str_eq(locale, "he") {
        "עברית"
    } else {
        "English"
    }
}

// ----- from a language tag to an interface language -------------------------------

/// A tag without white space around it, with hyphens, in lower case.
pub open spec fn normalized_tag(tag: Seq<char>) -> Seq<char> {
    lower(replaced(trim(tag), '_', '-'))
}

pub fn normalize_tag(tag: &str) -> (r: String)
    ensures
        r@ == normalized_tag(tag@),
{
    let bare = trimmed(tag);
    let hyphens = replace_char(bare.as_str(), '_', '-');
    to_lower(hyphens.as_str())
}

/// The first of a list that `p` holds of.
pub open spec fn first_where(
    list: Seq<Seq<char>>,
    p: spec_fn(Seq<char>) -> bool,
) -> Option<Seq<char>>
    decreases list.len(),
{
    if list.len() == 0 {
        None
    } else if p(list[0]) {
        Some(list[0])
    } else {
        first_where(list.drop_first(), p)
    }
}

/// The language subtag: what stands before the first hyphen.
pub open spec fn language_of(tag: Seq<char>) -> Seq<char> {
    split(tag, '-')[0]
}

/// Holds of the locales that read as the normalized tag does.
pub open spec fn reads_as(tag: Seq<char>) -> spec_fn(Seq<char>) -> bool {
    |locale: Seq<char>| normalized_tag(locale) == tag
}

/// Holds of the locales of a language.
pub open spec fn of_language(language: Seq<char>) -> spec_fn(Seq<char>) -> bool {
    |locale: Seq<char>| language_of(locale) == language
}

/// The interface language nearest to a language tag: the exact one; for
/// Chinese the one of the script or region, for Portuguese the one of the
/// region; else the first of the tag's language.
pub open spec fn matched_locale(tag: Seq<char>) -> Option<Seq<char>> {
    let n = normalized_tag(tag);
    let exact = first_where(ui_locales(), reads_as(n));
    if exact is Some {
        exact
    } else if has_at(n, "zh"@, 0) {
        if contains(n, "hant"@) || contains(n, "tw"@) || contains(n, "hk"@) || contains(n, "mo"@) {
            Some("zh-TW"@)
        } else {
            Some("zh-CN"@)
        }
    } else if has_at(n, "pt"@, 0) {
        if contains(n, "br"@) {
            Some("pt-BR"@)
        } else {
            Some("pt"@)
        }
    } else {
        first_where(ui_locales(), of_language(language_of(n)))
    }
}

fn language_subtag(tag: &str) -> (r: String)
    ensures
        r@ == language_of(tag@),
{
    let parts = split_on(tag, '-');
    parts[0].clone()
}

/// The locale that reads as the normalized tag does.
fn exact_locale(normalized: &String) -> (r: Option<&'static str>)
    ensures
        opt_str_view(r) == first_where(ui_locales(), reads_as(normalized@)),
{
    let locales = ui_locale_list();
    let ghost all = ui_locales();
    let ghost exact = reads_as(normalized@);
    let mut i: usize = 0;
    assert(all.skip(0) =~= all);
    while i < locales.len()
        invariant
            i <= locales@.len(),
            str_views(locales@) == all,
            all == ui_locales(),
            exact == reads_as(normalized@),
            first_where(all, exact) == first_where(all.skip(i as int), exact),
        decreases locales.len() - i,
    {
        assert(all.skip(i as int).drop_first() =~= all.skip(i + 1));
        if normalize_tag(locales[i]) == *normalized {
            return Some(locales[i]);
        }
        i += 1;
    }
    None
}

/// The first locale of a language.
fn locale_of_language(language: &String) -> (r: Option<&'static str>)
    ensures
        opt_str_view(r) == first_where(ui_locales(), of_language(language@)),
{
    let locales = ui_locale_list();
    let ghost all = ui_locales();
    let ghost near = of_language(language@);
    let mut i: usize = 0;
    assert(all.skip(0) =~= all);
    while i < locales.len()
        invariant
            i <= locales@.len(),
            str_views(locales@) == all,
            all == ui_locales(),
            near == of_language(language@),
            first_where(all, near) == first_where(all.skip(i as int), near),
        decreases locales.len() - i,
    {
        assert(all.skip(i as int).drop_first() =~= all.skip(i + 1));
        if language_subtag(locales[i]) == *language {
            return Some(locales[i]);
        }
        i += 1;
    }
    None
}

/// Maps a language tag to the nearest supported locale.
pub fn match_supported(tag: &str) -> (r: Option<&'static str>)
    ensures
        opt_str_view(r) == matched_locale(tag@),
{
    let normalized = normalize_tag(tag);
    if let Some(found) = exact_locale(&normalized) {
        return Some(found);
    }
    if starts_with(normalized.as_str(), "zh") {
        if contains_str(normalized.as_str(), "hant") || contains_str(normalized.as_str(), "tw")
            || contains_str(normalized.as_str(), "hk") || contains_str(normalized.as_str(), "mo") {
            return Some("zh-TW");
        }
        return Some("zh-CN");
    }
    if starts_with(normalized.as_str(), "pt") {
        if contains_str(normalized.as_str(), "br") {
            return Some("pt-BR");
        }
        return Some("pt");
    }
    let language = language_subtag(normalized.as_str());
    locale_of_language(&language)
}

/// The interface language for a preference and a system language: the match of
/// the preference, else that of the system, else English.
pub open spec fn resolved_locale(
    preferred: Option<Seq<char>>,
    system: Option<Seq<char>>,
) -> Seq<char> {
    if preferred is Some && matched_locale(preferred->0) is Some {
        matched_locale(preferred->0)->0
    } else if system is Some && matched_locale(system->0) is Some {
        matched_locale(system->0)->0
    } else {
        "en"@
    }
}

/// Resolves the locale from a persisted preference and the system language.
pub fn resolve_locale_from(preferred: Option<&str>, system: Option<&str>) -> (r: &'static str)
    ensures
        r@ == resolved_locale(opt_str_view(preferred), opt_str_view(system)),
{
    if let Some(tag) = preferred {
        if let Some(found) = match_supported(tag) {
            return found;
        }
    }
    if let Some(tag) = system {
        if let Some(found) = match_supported(tag) {
            return found;
        }
    }
    "en"
}

/// The language tag in a `LANG` value: what stands before the first dot, if anything.
pub open spec fn language_tag(lang: Option<Seq<char>>) -> Option<Seq<char>> {
    match lang {
        Some(value) => if split(value, '.')[0].len() > 0 {
            Some(split(value, '.')[0])
        } else {
            None
        },
        None => None,
    }
}

/// The system language that a `LANG` value names.
pub fn system_ui_language(lang: Option<&str>) -> (r: Option<String>)
    ensures
        opt_view(r) == language_tag(opt_str_view(lang)),
{
    match lang {
        Some(value) => {
            let parts = split_on(value, '.');
            if parts[0].as_str().is_empty() {
                None
            } else {
                Some(parts[0].clone())
            }
        },
        None => None,
    }
}

/// The longest locale name of Windows, in sixteen-bit units.
pub const LOCALE_NAME_MAX_LENGTH: usize = 85;

/// The units of a locale name in a buffer, of which `written` were written,
/// the closing zero among them; `None` where there is no name.
pub open spec fn locale_units(buffer: Seq<u16>, written: int) -> Option<Seq<u16>> {
    if written <= 1 {
        None
    } else if written - 1 <= buffer.len() {
        Some(buffer.take(written - 1))
    } else {
        Some(buffer)
    }
}

/// The system language in a buffer that Windows filled; `None` where it is
/// empty or no text.
pub fn windows_ui_language(buffer: &[u16], written: i32) -> (r: Option<String>)
    ensures
        opt_view(r) == (match locale_units(buffer@, written as int) {
            Some(units) => if well_formed(units) && decoded(units).len() > 0 {
                Some(decoded(units))
            } else {
                None
            },
            None => None,
        }),
{
    if written <= 1 {
        return None;
    }
    let wanted: usize = written as usize - 1;
    let len: usize = if wanted < buffer.len() {
        wanted
    } else {
        buffer.len()
    };
    let units = vstd::slice::slice_subrange(buffer, 0, len);
    assert(units@ =~= locale_units(buffer@, written as int)->0);
    let (tag, whole) = decode(units);
    if whole && !tag.as_str().is_empty() {
        Some(tag)
    } else {
        None
    }
}

/// Resolves the active locale from (1) a persisted preference, otherwise (2)
/// the system language, given as the value of `LANG`, otherwise (3) English.
pub fn resolve_locale(preferred: Option<&str>, lang: Option<&str>) -> (r: &'static str)
    ensures
        r@ == resolved_locale(opt_str_view(preferred), language_tag(opt_str_view(lang))),
{
    match system_ui_language(lang) {
        Some(tag) => resolve_locale_from(preferred, Some(tag.as_str())),
        None => resolve_locale_from(preferred, None),
    }
}

proof fn lemma_first_where(list: Seq<Seq<char>>, p: spec_fn(Seq<char>) -> bool)
    ensures
        first_where(list, p) matches Some(found) ==> list.contains(found) && p(found),
        first_where(list, p) is None ==> forall|i: int| 0 <= i < list.len() ==> !p(#[trigger] list[i]),
    decreases list.len(),
{
    if list.len() > 0 {
        let rest = list.drop_first();
        if !p(list[0]) {
            lemma_first_where(rest, p);
            if first_where(rest, p) is None {
                assert forall|i: int| 0 <= i < list.len() implies !p(#[trigger] list[i]) by {
                    if i > 0 {
                        assert(list[i] == rest[i - 1]);
                    }
                }
            }
        }
    }
}

/// A tag is matched by one of the interface languages or by none.
pub proof fn law_match_is_supported(tag: Seq<char>)
    ensures
        matched_locale(tag) matches Some(found) ==> ui_locales().contains(found),
{
    let n = normalized_tag(tag);
    lemma_first_where(ui_locales(), reads_as(n));
    lemma_first_where(ui_locales(), of_language(language_of(n)));
}

/// A number that tells the interface languages apart.
spec fn tag_code(tag: Seq<char>) -> int {
    (tag[0] as int) * 0x1000000 + (tag[1] as int) * 0x1000 + (if tag.len() > 3 {
        tag[3] as int
    } else {
        0
    })
}

proof fn lemma_plain_tag(s: Seq<char>)
    requires
        s.len() == 2,
        'a' <= s[0] <= 'z',
        'a' <= s[1] <= 'z',
    ensures
        normalized_tag(s).len() == 2,
        normalized_tag(s)[0] == s[0],
        normalized_tag(s)[1] == s[1],
{
}

proof fn lemma_region_tag(s: Seq<char>)
    requires
        s.len() == 5,
        'a' <= s[0] <= 'z',
        'a' <= s[1] <= 'z',
        'A' <= s[3] <= 'Z',
        'A' <= s[4] <= 'Z',
    ensures
        normalized_tag(s).len() == 5,
        normalized_tag(s)[0] == s[0],
        normalized_tag(s)[1] == s[1],
        normalized_tag(s)[3] == crate::text::lower_char(s[3]),
{
}

proof fn lemma_tag_codes()
    ensures
        forall|i: int, j: int|
            0 <= i < j < 20 ==> tag_code(normalized_tag(#[trigger] ui_locales()[i])) != tag_code(
                normalized_tag(#[trigger] ui_locales()[j]),
            ),
{
    reveal_strlit("en");
    reveal_strlit("de");
    reveal_strlit("fr");
    reveal_strlit("es");
    reveal_strlit("pt");
    reveal_strlit("pt-BR");
    reveal_strlit("pl");
    reveal_strlit("no");
    reveal_strlit("da");
    reveal_strlit("it");
    reveal_strlit("ja");
    reveal_strlit("ko");
    reveal_strlit("zh-CN");
    reveal_strlit("zh-TW");
    reveal_strlit("ru");
    reveal_strlit("tr");
    reveal_strlit("uk");
    reveal_strlit("hr");
    reveal_strlit("sr");
    reveal_strlit("he");
    let all = ui_locales();
    assert forall|i: int| 0 <= i < 20 && i != 5 && i != 12 && i != 13 implies normalized_tag(
        #[trigger] all[i],
    ).len() == 2 && tag_code(normalized_tag(all[i])) == tag_code(all[i]) by {
        lemma_plain_tag(all[i]);
    }
    lemma_region_tag(all[5]);
    lemma_region_tag(all[12]);
    lemma_region_tag(all[13]);
}

proof fn lemma_first_where_is(list: Seq<Seq<char>>, p: spec_fn(Seq<char>) -> bool, i: int)
    requires
        0 <= i < list.len(),
        p(list[i]),
        forall|j: int| 0 <= j < i ==> !p(#[trigger] list[j]),
    ensures
        first_where(list, p) == Some(list[i]),
    decreases i,
{
    if i > 0 {
        let rest = list.drop_first();
        assert forall|j: int| 0 <= j < i - 1 implies !p(#[trigger] rest[j]) by {}
        lemma_first_where_is(rest, p, i - 1);
    }
}

/// Each interface language is matched by itself.
pub proof fn law_ui_locales_match_themselves(i: int)
    requires
        0 <= i < ui_locales().len(),
    ensures
        matched_locale(ui_locales()[i]) == Some(ui_locales()[i]),
{
    lemma_tag_codes();
    let n = normalized_tag(ui_locales()[i]);
    assert forall|j: int| 0 <= j < i implies !reads_as(n)(#[trigger] ui_locales()[j]) by {}
    lemma_first_where_is(ui_locales(), reads_as(n), i);
}

/// Whatever is preferred, the resolved language is one of the interface's.
pub proof fn law_resolved_locale_is_supported(
    preferred: Option<Seq<char>>,
    system: Option<Seq<char>>,
)
    ensures
        ui_locales().contains(resolved_locale(preferred, system)),
{
    if preferred is Some {
        law_match_is_supported(preferred->0);
    }
    if system is Some {
        law_match_is_supported(system->0);
    }
}

// ----- the active language --------------------------------------------------------

/// The language that a request for `locale` makes active.
pub open spec fn active_for(locale: Seq<char>) -> Seq<char> {
    match matched_locale(locale) {
        Some(found) => found,
        None => "en"@,
    }
}

/// `rust_i18n::set_locale` stores the locale that catalog lookups of the whole
/// process use from then on. It returns nothing; which of several concurrent
/// calls wins is left unsaid. What it is given is a language of the interface.
#[verifier::external_body]
fn store_locale(locale: &str)
    requires
        ui_locales().contains(locale@),
{
    rust_i18n::set_locale(locale);
}

/// Makes the nearest supported locale active, English if there is none, and
/// returns it.
pub fn set_active_locale(locale: &str) -> (r: &'static str)
    ensures
        r@ == active_for(locale@),
{
    let resolved = match match_supported(locale) {
        Some(found) => found,
        None => "en",
    };
    proof {
        law_match_is_supported(locale@);
        assert(ui_locales()[0] == "en"@);
    }
    store_locale(resolved);
    resolved
}

/// `rust_i18n::locale` reads the locale that was stored last; it is process
/// state, so nothing is claimed of it.
#[verifier::external_body]
pub fn active_locale() -> (r: String) {
    rust_i18n::locale().to_string()
}

// ----- catalog text ---------------------------------------------------------------

/// A value for a named placeholder.
pub struct Argument {
    pub name: &'static str,
    pub value: String,
}

/// A text of the catalog: its key, and the values of its placeholders.
pub struct Message {
    pub key: &'static str,
    pub args: Vec<Argument>,
}

/// What a catalog text is asked for with: its key, and the values of its
/// placeholders by name.
pub struct MessageModel {
    pub key: Seq<char>,
    pub args: Seq<(Seq<char>, Seq<char>)>,
}

impl View for Message {
    type V = MessageModel;

    open spec fn view(&self) -> MessageModel {
        MessageModel {
            key: self.key@,
            args: self.args@.map_values(|a: Argument| (a.name@, a.value@)),
        }
    }
}

/// A text without placeholders.
pub open spec fn say(key: Seq<char>) -> MessageModel {
    MessageModel { key, args: Seq::empty() }
}

/// A text with one placeholder.
pub open spec fn say_with(key: Seq<char>, name: Seq<char>, value: Seq<char>) -> MessageModel {
    MessageModel { key, args: seq![(name, value)] }
}

impl Message {
    /// A text without placeholders.
    pub fn plain(key: &'static str) -> (r: Message)
        ensures
            r@ == say(key@),
    {
        let r = Message { key, args: Vec::new() };
        assert(r@.args =~= Seq::<(Seq<char>, Seq<char>)>::empty());
        r
    }

    /// A text with one placeholder.
    pub fn with(key: &'static str, name: &'static str, value: &str) -> (r: Message)
        ensures
            r@ == say_with(key@, name@, value@),
    {
        let mut args: Vec<Argument> = Vec::new();
        args.push(Argument { name, value: value.to_owned() });
        let r = Message { key, args };
        assert(r@.args =~= seq![(name@, value@)]);
        r
    }
}

/// The placeholder `%{name}`.
pub open spec fn placeholder(name: Seq<char>) -> Seq<char> {
    "%{"@ + name + "}"@
}

/// The catalog text with the placeholders of the first `n` arguments filled
/// in, one argument after the other.
pub open spec fn filled(text: Seq<char>, args: Seq<Argument>, n: nat) -> Seq<char>
    decreases n,
{
    if n == 0 {
        text
    } else {
        let i = n as int - 1;
        replace_all(filled(text, args, (n - 1) as nat), placeholder(args[i].name@), args[i].value@)
    }
}

/// Fills the named placeholders of a catalog text.
pub fn fill_placeholders(text: &str, args: &Vec<Argument>) -> (r: String)
    ensures
        r@ == filled(text@, args@, args@.len()),
{
    let mut r: String = text.to_owned();
    let mut i: usize = 0;
    while i < args.len()
        invariant
            i <= args@.len(),
            r@ == filled(text@, args@, i as nat),
        decreases args.len() - i,
    {
        let pattern = cat3("%{", args[i].name, "}");
        proof {
            reveal_strlit("%{");
        }
        r = replaced_all(r.as_str(), pattern.as_str(), args[i].value.as_str());
        i += 1;
    }
    r
}

} // verus!
