use digger::cleanup::actions::{set_movement_actions, Actions, KeyInput};
use digger::cleanup::digger::DiggerState;
use digger::cleanup::state as cstate;
use digger::gold_digger::state as gstate;
use digger::gold_digger::map::Tile;
use digger::paths::{tile_path, AssetPaths};

fn no_keys() -> KeyInput {
    KeyInput {
        up_just_pressed: false,
        up_just_released: false,
        left_pressed: false,
        left_just_pressed: false,
        left_just_released: false,
        right_pressed: false,
        right_just_pressed: false,
        right_just_released: false,
        down_just_pressed: false,
        down_just_released: false,
    }
}

#[test]
fn pressing_right_drives_right() {
    let mut a = Actions::default();
    let mut k = no_keys();
    k.right_pressed = true;
    k.right_just_pressed = true;
    set_movement_actions(&mut a, k);
    assert_eq!(a.player_movement, Some(1));
    assert!(!a.flying);
    assert!(!a.mining_down);
}

#[test]
fn releasing_the_last_key_stops_driving() {
    let mut a = Actions::default();
    let mut k = no_keys();
    k.left_pressed = true;
    k.left_just_pressed = true;
    set_movement_actions(&mut a, k);
    assert_eq!(a.player_movement, Some(-1));
    let mut k = no_keys();
    k.left_just_released = true;
    set_movement_actions(&mut a, k);
    assert_eq!(a.player_movement, Some(0));
}

#[test]
fn flying_follows_the_up_key() {
    let mut a = Actions::default();
    let mut k = no_keys();
    k.up_just_pressed = true;
    set_movement_actions(&mut a, k);
    assert!(a.flying);
    let mut k = no_keys();
    k.up_just_released = true;
    set_movement_actions(&mut a, k);
    assert!(!a.flying);
}

#[test]
fn idle_keys_drop_the_driving_intent() {
    let mut a = Actions::default();
    let mut k = no_keys();
    k.right_pressed = true;
    k.right_just_pressed = true;
    set_movement_actions(&mut a, k);
    assert_eq!(a.player_movement, Some(1));
    set_movement_actions(&mut a, no_keys());
    assert_eq!(a.player_movement, None);
}

#[test]
fn digging_down_starts_and_stops_with_the_down_key() {
    let mut a = Actions::default();
    let mut k = no_keys();
    k.down_just_pressed = true;
    set_movement_actions(&mut a, k);
    assert!(a.mining_down);
    let mut k = no_keys();
    k.down_just_released = true;
    set_movement_actions(&mut a, k);
    assert!(!a.mining_down);
}

#[test]
fn steering_cancels_digging() {
    let mut a = Actions::default();
    let mut k = no_keys();
    k.down_just_pressed = true;
    set_movement_actions(&mut a, k);
    assert!(a.mining_down);
    let mut k = no_keys();
    k.right_pressed = true;
    set_movement_actions(&mut a, k);
    assert!(!a.mining_down);
}

#[test]
fn cleanup_loading_waits_for_every_group() {
    assert_eq!(cstate::check_state(true, true, true), Some(cstate::GameState::Menu));
    assert_eq!(cstate::check_state(true, true, false), None);
    assert_eq!(cstate::check_state(false, true, true), None);
    assert_eq!(cstate::check_state(true, false, true), None);
}

#[test]
fn cleanup_lifecycle_transitions() {
    assert_eq!(cstate::switch_to_game(), cstate::GameState::Playing);
    assert_eq!(cstate::click_play_button(), cstate::GameState::Playing);
    let (s, g) = cstate::click_retry_button();
    assert_eq!(g, cstate::GameState::Restart);
    let fresh = DiggerState::default();
    assert_eq!(s.fuel, fresh.fuel);
    assert_eq!(s.waste, 0);
    assert!(!s.dead);
}

#[test]
fn gold_digger_lifecycle_transitions() {
    assert_eq!(gstate::check_state(true, true), Some(gstate::GameState::Menu));
    assert_eq!(gstate::check_state(true, false), None);
    assert_eq!(gstate::click_play_button(), gstate::GameState::GeneratingMap);
    assert_eq!(gstate::map_generated(), gstate::GameState::Playing);
}

#[test]
fn asset_paths_are_the_shipped_ones() {
    let p = AssetPaths::default();
    assert_eq!(p.fira_sans, "fonts/FiraSans-Bold.ttf");
    assert_eq!(p.texture_sky, "textures/none.png");
    assert_eq!(p.texture_digger, "textures/digger.png");
    assert_eq!(p.texture_background, "textures/background.png");
    assert_eq!(p.texture_border, "textures/border.png");
    assert_eq!(p.texture_tank_upgrade, "textures/tank_upgrade.png");
    assert_eq!(p.texture_stone, "textures/stone.png");
    assert_eq!(p.texture_stone_mining, "textures/stone_mining.png");
    assert_eq!(p.texture_gold, "textures/gold.png");
    assert_eq!(p.texture_gold_mining, "textures/gold_mining.png");
    assert_eq!(p.texture_base, "textures/base.png");
}

#[test]
fn each_tile_renders_with_its_texture() {
    let p = AssetPaths::default();
    assert_eq!(tile_path(&p, &Tile::Stone), "textures/stone.png");
    assert_eq!(tile_path(&p, &Tile::Gold), "textures/gold.png");
    assert_eq!(tile_path(&p, &Tile::Background), "textures/background.png");
    assert_eq!(tile_path(&p, &Tile::Base), "textures/base.png");
    assert_eq!(tile_path(&p, &Tile::Sky), "textures/none.png");
}
