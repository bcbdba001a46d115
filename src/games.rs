//! The list of games that can be opened from the selection screen.

use crate::i18n::config::{GAMES_DESCRIPTION_1, GAMES_NAME_1};
use crate::screens::{screen_for_play, Screen};
use vstd::prelude::*;

verus! {

/// Path of the first game's icon.
pub const GAME_ICON_1: &'static str = "assets/icons/game1.png";

/// A game: the text keys of its name and description, and its icon.
pub struct GameItem {
    pub name: String,
    pub description: String,
    pub icon: String,
}

/// The games offered.
pub struct GameList {
    pub games: Vec<GameItem>,
}

/// The games offered: one, the first game.
pub fn load_game_list() -> (list: GameList)
    ensures
        list.games@.len() == 1,
        list.games@[0].name@ == GAMES_NAME_1@,
        list.games@[0].description@ == GAMES_DESCRIPTION_1@,
        list.games@[0].icon@ == GAME_ICON_1@,
{
    let games = vec![
        GameItem {
            name: GAMES_NAME_1.to_owned(),
            description: GAMES_DESCRIPTION_1.to_owned(),
            icon: GAME_ICON_1.to_owned(),
        },
    ];
    GameList { games }
}

impl GameList {
    /// The screen that opening game `index` leads to: `None` when there is
    /// no such game, else gameplay when every resource is installed and the
    /// loading screen otherwise.
    pub fn screen_for_open(&self, index: u8, all_done: bool) -> (s: Option<Screen>)
        ensures
            s == if index < self.games@.len() {
                Some(
                    if all_done {
                        Screen::Gameplay
                    } else {
                        Screen::Loading
                    },
                )
            } else {
                None
            },
    {
        if (index as usize) < self.games.len() {
            Some(screen_for_play(all_done))
        } else {
            None
        }
    }
}

} // verus!
