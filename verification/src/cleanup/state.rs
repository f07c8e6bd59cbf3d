use vstd::prelude::*;

verus! {

use crate::cleanup::digger::DiggerState;

/// The game's lifecycle: load assets, sit in the menu, play, and pass
/// through a restart hook when the player retries.
#[derive(PartialEq, Eq, Structural, Clone, Copy, Debug)]
pub enum GameState {
    Restart,
    Loading,
    Playing,
    Menu,
}

/// The loading screen hands over to the menu exactly when every asset
/// group — fonts, textures and sounds — has finished loading.
pub fn check_state(fonts_loaded: bool, textures_loaded: bool, audio_loaded: bool) -> (r: Option<
    GameState,
>)
    ensures
        r == if fonts_loaded && textures_loaded && audio_loaded {
            Some(GameState::Menu)
        } else {
            None::<GameState>
        },
{
    if fonts_loaded && textures_loaded && audio_loaded {
        Some(GameState::Menu)
    } else {
        None
    }
}

/// Entering the restart hook immediately re-enters play.
pub fn switch_to_game() -> (s: GameState)
    ensures
        s == GameState::Playing,
{
    GameState::Playing
}

/// Clicking the menu's play button starts the game.
pub fn click_play_button() -> (s: GameState)
    ensures
        s == GameState::Playing,
{
    GameState::Playing
}

/// Clicking the retry button hands back a fresh digger and sends the game
/// through the restart hook.
pub fn click_retry_button() -> (r: (DiggerState, GameState))
    ensures
        r.0 == DiggerState::spec_start(),
        r.0.wf(),
        r.1 == GameState::Restart,
{
    (DiggerState::default(), GameState::Restart)
}

} // verus!
