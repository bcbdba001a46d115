//! Screen changes that wait on the resources: one that needs them goes
//! through the loading screen until nothing is outstanding.

use vstd::prelude::*;

verus! {

/// The game's screens.
#[derive(Clone, Copy, PartialEq, Eq, Structural, Hash, Debug, Default)]
pub enum Screen {
    #[default]
    Splash,
    Title,
    Loading,
    RefreshLanguage,
    Gameplay,
}

/// Where starting to play leads: straight to gameplay when every resource
/// is installed, else to the loading screen.
pub fn screen_for_play(all_done: bool) -> (s: Screen)
    ensures
        s == if all_done {
            Screen::Gameplay
        } else {
            Screen::Loading
        },
{
    if all_done {
        Screen::Gameplay
    } else {
        Screen::Loading
    }
}

/// The screen a waiting screen moves on to once nothing is outstanding:
/// gameplay after loading, the title after a language refresh. `None`
/// while something is outstanding, and on any other screen.
pub fn screen_after_waiting(current: Screen, all_done: bool) -> (next: Option<Screen>)
    ensures
        next == if !all_done {
            None
        } else {
            match current {
                Screen::Loading => Some(Screen::Gameplay),
                Screen::RefreshLanguage => Some(Screen::Title),
                _ => None,
            }
        },
{
    if !all_done {
        return None;
    }
    match current {
        Screen::Loading => Some(Screen::Gameplay),
        Screen::RefreshLanguage => Some(Screen::Title),
        _ => None,
    }
}

} // verus!
