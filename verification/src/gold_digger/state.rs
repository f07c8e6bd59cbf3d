use vstd::prelude::*;

verus! {

/// The game's lifecycle: load assets, sit in the menu, generate a world,
/// and play.
#[derive(PartialEq, Eq, Structural, Clone, Copy, Debug)]
pub enum GameState {
    Loading,
    Playing,
    GeneratingMap,
    Menu,
}

/// The loading screen hands over to the menu exactly when both asset
/// groups — fonts and textures — have finished loading.
pub fn check_state(fonts_loaded: bool, textures_loaded: bool) -> (r: Option<GameState>)
    ensures
        r == if fonts_loaded && textures_loaded {
            Some(GameState::Menu)
        } else {
            None::<GameState>
        },
{
    if fonts_loaded && textures_loaded {
        Some(GameState::Menu)
    } else {
        None
    }
}

/// Clicking the menu's play button asks for a fresh world first.
pub fn click_play_button() -> (s: GameState)
    ensures
        s == GameState::GeneratingMap,
{
    GameState::GeneratingMap
}

/// Once the world is generated, play begins.
pub fn map_generated() -> (s: GameState)
    ensures
        s == GameState::Playing,
{
    GameState::Playing
}

} // verus!
