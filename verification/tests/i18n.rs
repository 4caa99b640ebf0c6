use arctracker_sync::i18n::{
    active_locale, fill_placeholders, match_supported, native_name, normalize_tag, resolve_locale,
    resolve_locale_from, set_active_locale, system_ui_language, ui_locale_list,
    windows_ui_language, Argument, Message,
};

#[test]
fn exact_locale_matches() {
    assert_eq!(match_supported("de"), Some("de"));
    assert_eq!(match_supported("pt-BR"), Some("pt-BR"));
    assert_eq!(match_supported("zh-CN"), Some("zh-CN"));
}

#[test]
fn region_variants_fall_back_to_language() {
    assert_eq!(match_supported("de-AT"), Some("de"));
    assert_eq!(match_supported("en-US"), Some("en"));
    assert_eq!(match_supported("fr-CA"), Some("fr"));
}

#[test]
fn chinese_scripts_resolve_to_catalogs() {
    assert_eq!(match_supported("zh-Hant"), Some("zh-TW"));
    assert_eq!(match_supported("zh-Hant-TW"), Some("zh-TW"));
    assert_eq!(match_supported("zh-Hans"), Some("zh-CN"));
    assert_eq!(match_supported("zh"), Some("zh-CN"));
}

#[test]
fn portuguese_variants_split_brazil() {
    assert_eq!(match_supported("pt-PT"), Some("pt"));
    assert_eq!(match_supported("pt-br"), Some("pt-BR"));
}

#[test]
fn unknown_tag_resolves_to_english() {
    assert_eq!(resolve_locale_from(Some("xx"), None), "en");
    assert_eq!(resolve_locale_from(Some("de"), None), "de");
}

#[test]
fn system_language_is_the_fallback_for_an_unknown_preference() {
    assert_eq!(resolve_locale_from(Some("xx"), Some("fr-CA")), "fr");
    assert_eq!(resolve_locale_from(None, Some("de")), "de");
    assert_eq!(resolve_locale_from(Some("xx"), Some("xx")), "en");
}

#[test]
fn every_locale_matches_itself_and_has_a_name() {
    let locales = ui_locale_list();
    assert_eq!(locales.len(), 20);
    for locale in locales {
        assert_eq!(match_supported(locale), Some(locale));
        assert_eq!(native_name(locale) == "English", locale == "en");
    }
    assert_eq!(native_name("ja"), "日本語");
    assert_eq!(native_name("xx"), "English");
}

#[test]
fn tags_are_normalized() {
    assert_eq!(normalize_tag("  PT_br "), "pt-br");
    assert_eq!(match_supported(" DE_at "), Some("de"));
    assert_eq!(match_supported("zh_HK"), Some("zh-TW"));
    assert_eq!(match_supported("zh_MO"), Some("zh-TW"));
    assert_eq!(match_supported(""), None);
    assert_eq!(match_supported("xx-YY"), None);
}

#[test]
fn system_language_comes_from_lang() {
    assert_eq!(system_ui_language(Some("de_AT.UTF-8")).as_deref(), Some("de_AT"));
    assert_eq!(system_ui_language(Some("C")).as_deref(), Some("C"));
    assert_eq!(system_ui_language(Some(".UTF-8")), None);
    assert_eq!(system_ui_language(Some("")), None);
    assert_eq!(system_ui_language(None), None);
    assert_eq!(resolve_locale(None, Some("fr_FR.UTF-8")), "fr");
    assert_eq!(resolve_locale(Some("it"), Some("fr_FR.UTF-8")), "it");
    assert_eq!(resolve_locale(None, None), "en");
}

#[test]
fn windows_language_comes_from_a_buffer() {
    let mut buffer = vec![0u16; 85];
    for (i, unit) in "de-AT".encode_utf16().enumerate() {
        buffer[i] = unit;
    }
    assert_eq!(windows_ui_language(&buffer, 6).as_deref(), Some("de-AT"));
    assert_eq!(windows_ui_language(&buffer, 1), None);
    assert_eq!(windows_ui_language(&buffer, 0), None);
    assert_eq!(windows_ui_language(&buffer, -1), None);
    buffer[0] = 0xd800;
    assert_eq!(windows_ui_language(&buffer, 6), None);
    let short: Vec<u16> = "fr".encode_utf16().collect();
    assert_eq!(windows_ui_language(&short, 40).as_deref(), Some("fr"));
}

#[test]
fn the_active_locale_is_the_nearest_supported_one() {
    assert_eq!(set_active_locale("pt_br"), "pt-BR");
    assert_eq!(active_locale(), "pt-BR");
    assert_eq!(set_active_locale("xx"), "en");
    assert_eq!(active_locale(), "en");
}

#[test]
fn placeholders_are_filled_by_name() {
    let args = vec![Argument { name: "account", value: "Matt".to_string() }];
    assert_eq!(fill_placeholders("Signed in as %{account}", &args), "Signed in as Matt");
    assert_eq!(fill_placeholders("%{account}%{account}", &args), "MattMatt");
    assert_eq!(fill_placeholders("%{other} %{account", &args), "%{other} %{account");
    assert_eq!(fill_placeholders("nothing", &Vec::new()), "nothing");
    let message = Message::with("key", "n", "4");
    assert_eq!(message.key, "key");
    assert_eq!(fill_placeholders("step %{n} of 4", &message.args), "step 4 of 4");
}
