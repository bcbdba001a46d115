//! The text keys of the game's screens and the phrases they start with.

use super::{with_phrase, LanguageId, LanguageRes, Tables};
use vstd::prelude::*;

verus! {

/// Main menu: start playing.
pub const MAIN_PLAY: &'static str = "MAIN_PLAY";
/// Main menu: settings.
pub const MAIN_SETTINGS: &'static str = "MAIN_SETTINGS";
/// Main menu: credits.
pub const MAIN_CREDITS: &'static str = "MAIN_CREDITS";
/// Main menu: quit.
pub const MAIN_EXIT: &'static str = "MAIN_EXIT";
/// Pause screen: title.
pub const PAUSE_GAME_TITLE: &'static str = "PAUSE_GAME_TITLE";
/// Pause screen: resume.
pub const PAUSE_CONTINUE: &'static str = "PAUSE_CONTINUE";
/// Pause screen: back to the main menu.
pub const PAUSE_QUIT_TO_TITLE: &'static str = "PAUSE_QUIT_TO_TITLE";
/// Settings screen: title.
pub const SETTINGS_TITLE: &'static str = "SETTINGS_TITLE";
/// Settings screen: master volume.
pub const SETTINGS_MASTER_VOLUME: &'static str = "MASTER_VOLUME";
/// Settings screen: current volume.
pub const SETTINGS_CURRENT_VOLUME: &'static str = "CURRENT_VOLUME";
/// Game selection screen: title.
pub const SELECT_GAME_TITLE: &'static str = "SELECT_GAME_TITLE";
/// Back, on every screen.
pub const BACK: &'static str = "BACK";
/// The game's title.
pub const GAME_TITLE: &'static str = "GAME_TITLE";
/// Name of the first game.
pub const GAMES_NAME_1: &'static str = "GAMES_NAME_1";
/// Description of the first game.
pub const GAMES_DESCRIPTION_1: &'static str = "GAMES_DESCRIPTION_1";

/// The phrases of the game, set in this order, Chinese before English for
/// each key.
pub open spec fn configured_tables() -> Tables {
    let t = Tables::empty();
    let t = with_phrase(t, LanguageId::ZhCn, MAIN_PLAY@, "开始游戏"@);
    let t = with_phrase(t, LanguageId::EnUs, MAIN_PLAY@, "PLAY"@);
    let t = with_phrase(t, LanguageId::ZhCn, MAIN_SETTINGS@, "设置"@);
    let t = with_phrase(t, LanguageId::EnUs, MAIN_SETTINGS@, "SETTINGS"@);
    let t = with_phrase(t, LanguageId::ZhCn, MAIN_CREDITS@, "关于"@);
    let t = with_phrase(t, LanguageId::EnUs, MAIN_CREDITS@, "CREDITS"@);
    let t = with_phrase(t, LanguageId::ZhCn, MAIN_EXIT@, "退出"@);
    let t = with_phrase(t, LanguageId::EnUs, MAIN_EXIT@, "EXIT"@);
    let t = with_phrase(t, LanguageId::ZhCn, PAUSE_GAME_TITLE@, "游戏已暂停"@);
    let t = with_phrase(t, LanguageId::EnUs, PAUSE_GAME_TITLE@, "Game Paused"@);
    let t = with_phrase(t, LanguageId::ZhCn, PAUSE_CONTINUE@, "继续游戏"@);
    let t = with_phrase(t, LanguageId::EnUs, PAUSE_CONTINUE@, "CONTINUE"@);
    let t = with_phrase(t, LanguageId::ZhCn, PAUSE_QUIT_TO_TITLE@, "回到主菜单"@);
    let t = with_phrase(t, LanguageId::EnUs, PAUSE_QUIT_TO_TITLE@, "QUIT TO TITLE"@);
    let t = with_phrase(t, LanguageId::ZhCn, SETTINGS_TITLE@, "设置"@);
    let t = with_phrase(t, LanguageId::EnUs, SETTINGS_TITLE@, "SETTINGS"@);
    let t = with_phrase(t, LanguageId::ZhCn, SETTINGS_MASTER_VOLUME@, "主音量"@);
    let t = with_phrase(t, LanguageId::EnUs, SETTINGS_MASTER_VOLUME@, "Master Volume"@);
    let t = with_phrase(t, LanguageId::ZhCn, SETTINGS_CURRENT_VOLUME@, "当前音量"@);
    let t = with_phrase(t, LanguageId::EnUs, SETTINGS_CURRENT_VOLUME@, "Current Volume"@);
    let t = with_phrase(t, LanguageId::ZhCn, BACK@, "返回"@);
    let t = with_phrase(t, LanguageId::EnUs, BACK@, "BACK"@);
    let t = with_phrase(t, LanguageId::ZhCn, GAME_TITLE@, "种个锤子地"@);
    let t = with_phrase(t, LanguageId::EnUs, GAME_TITLE@, "WTF Farming"@);
    let t = with_phrase(t, LanguageId::ZhCn, GAMES_NAME_1@, "保护那块地!!"@);
    let t = with_phrase(t, LanguageId::EnUs, GAMES_NAME_1@, "Protect the Land!!"@);
    let t = with_phrase(t, LanguageId::ZhCn, GAMES_DESCRIPTION_1@, "一个简单的塔防游戏，保护你的土地免受敌人的侵袭。"@);
    let t = with_phrase(t, LanguageId::EnUs, GAMES_DESCRIPTION_1@, "A simple tower defense game to protect your land from enemies."@);
    let t = with_phrase(t, LanguageId::ZhCn, SELECT_GAME_TITLE@, "选择游戏"@);
    let t = with_phrase(t, LanguageId::EnUs, SELECT_GAME_TITLE@, "Select Game"@);
    t
}

/// The game's localized text: Chinese shown, both languages supported,
/// and the configured phrases.
pub fn init_language_res() -> (r: LanguageRes)
    ensures
        r.curr_language == LanguageId::ZhCn,
        r.language_list@ == seq![LanguageId::ZhCn, LanguageId::EnUs],
        super::tables_of(r.language_hash) == configured_tables(),
{
    let mut language_res = LanguageRes::default();
    proof {
        assert(language_res.language_list@[0] == LanguageId::ZhCn);
        assert(language_res.language_list@[1] == LanguageId::EnUs);
    }
    language_res.zh_cn(MAIN_PLAY, "开始游戏");
    language_res.en_us(MAIN_PLAY, "PLAY");
    language_res.zh_cn(MAIN_SETTINGS, "设置");
    language_res.en_us(MAIN_SETTINGS, "SETTINGS");
    language_res.zh_cn(MAIN_CREDITS, "关于");
    language_res.en_us(MAIN_CREDITS, "CREDITS");
    language_res.zh_cn(MAIN_EXIT, "退出");
    language_res.en_us(MAIN_EXIT, "EXIT");
    language_res.zh_cn(PAUSE_GAME_TITLE, "游戏已暂停");
    language_res.en_us(PAUSE_GAME_TITLE, "Game Paused");
    language_res.zh_cn(PAUSE_CONTINUE, "继续游戏");
    language_res.en_us(PAUSE_CONTINUE, "CONTINUE");
    language_res.zh_cn(PAUSE_QUIT_TO_TITLE, "回到主菜单");
    language_res.en_us(PAUSE_QUIT_TO_TITLE, "QUIT TO TITLE");
    language_res.zh_cn(SETTINGS_TITLE, "设置");
    language_res.en_us(SETTINGS_TITLE, "SETTINGS");
    language_res.zh_cn(SETTINGS_MASTER_VOLUME, "主音量");
    language_res.en_us(SETTINGS_MASTER_VOLUME, "Master Volume");
    language_res.zh_cn(SETTINGS_CURRENT_VOLUME, "当前音量");
    language_res.en_us(SETTINGS_CURRENT_VOLUME, "Current Volume");
    language_res.zh_cn(BACK, "返回");
    language_res.en_us(BACK, "BACK");
    language_res.zh_cn(GAME_TITLE, "种个锤子地");
    language_res.en_us(GAME_TITLE, "WTF Farming");
    language_res.zh_cn(GAMES_NAME_1, "保护那块地!!");
    language_res.en_us(GAMES_NAME_1, "Protect the Land!!");
    language_res.zh_cn(GAMES_DESCRIPTION_1, "一个简单的塔防游戏，保护你的土地免受敌人的侵袭。");
    language_res.en_us(GAMES_DESCRIPTION_1, "A simple tower defense game to protect your land from enemies.");
    language_res.zh_cn(SELECT_GAME_TITLE, "选择游戏");
    language_res.en_us(SELECT_GAME_TITLE, "Select Game");
    language_res
}

} // verus!
