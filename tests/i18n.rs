use resource_loading::i18n::config::{
    init_language_res, BACK, GAMES_DESCRIPTION_1, MAIN_PLAY, SETTINGS_MASTER_VOLUME,
};
use resource_loading::i18n::{LanguageId, LanguageRes};

#[test]
fn test_language_res_get() {
    let mut lang_res = LanguageRes::default();
    lang_res.zh_cn("HELLO", "你好");
    lang_res.en_us("HELLO", "Hello");

    assert_eq!(lang_res.get("HELLO"), "你好");
    lang_res.set_language(LanguageId::EnUs);
    assert_eq!(lang_res.get("HELLO"), "Hello");
    assert_eq!(lang_res.get("UNKNOWN_KEY"), "UNKNOWN_KEY");
}

#[test]
fn test_set_language() {
    let mut lang_res = LanguageRes::default();
    lang_res.set_language(LanguageId::EnUs);
    assert_eq!(lang_res.curr_language, LanguageId::EnUs);

    lang_res.set_language(LanguageId::ZhCn);
    assert_eq!(lang_res.curr_language, LanguageId::ZhCn);
}

#[test]
fn unsupported_language_is_not_selected() {
    let mut lang_res = LanguageRes::default();
    lang_res.language_list = vec![LanguageId::ZhCn];
    lang_res.set_language(LanguageId::EnUs);
    assert_eq!(lang_res.curr_language, LanguageId::ZhCn);
}

#[test]
fn adding_a_phrase_supports_its_language() {
    let mut lang_res = LanguageRes::default();
    lang_res.language_list = vec![LanguageId::ZhCn];
    lang_res.add(LanguageId::EnUs, "OK", "Okay");
    assert_eq!(lang_res.language_list, vec![LanguageId::ZhCn, LanguageId::EnUs]);
    lang_res.add(LanguageId::EnUs, "NO", "Nope");
    assert_eq!(lang_res.language_list, vec![LanguageId::ZhCn, LanguageId::EnUs]);
    lang_res.set_language(LanguageId::EnUs);
    assert_eq!(lang_res.get("OK"), "Okay");
    assert_eq!(lang_res.get("NO"), "Nope");
}

#[test]
fn later_phrase_replaces_earlier() {
    let mut lang_res = LanguageRes::default();
    lang_res.zh_cn("KEY", "first");
    lang_res.zh_cn("KEY", "second");
    assert_eq!(lang_res.get("KEY"), "second");
}

#[test]
fn language_without_phrases_shows_keys() {
    let mut lang_res = LanguageRes::default();
    lang_res.zh_cn("HELLO", "你好");
    lang_res.set_language(LanguageId::EnUs);
    assert_eq!(lang_res.get("HELLO"), "HELLO");
    assert_eq!(lang_res.get(""), "");
}

#[test]
fn language_names() {
    assert_eq!(LanguageId::ZhCn.name(), "简体中文");
    assert_eq!(LanguageId::EnUs.name(), "English");
    assert_eq!(LanguageId::default(), LanguageId::ZhCn);
}

#[test]
fn configured_phrases() {
    let mut lang_res = init_language_res();
    assert_eq!(lang_res.curr_language, LanguageId::ZhCn);
    assert_eq!(lang_res.language_list, vec![LanguageId::ZhCn, LanguageId::EnUs]);
    assert_eq!(lang_res.get(MAIN_PLAY), "开始游戏");
    assert_eq!(lang_res.get(BACK), "返回");
    assert_eq!(lang_res.get(SETTINGS_MASTER_VOLUME), "主音量");
    lang_res.set_language(LanguageId::EnUs);
    assert_eq!(lang_res.get(MAIN_PLAY), "PLAY");
    assert_eq!(lang_res.get(SETTINGS_MASTER_VOLUME), "Master Volume");
    assert_eq!(
        lang_res.get(GAMES_DESCRIPTION_1),
        "A simple tower defense game to protect your land from enemies."
    );
}
