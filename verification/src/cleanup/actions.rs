use vstd::prelude::*;

verus! {

/// The player's current intent, distilled from the keyboard each frame:
/// driving direction (`-1`, `0` or `1` while movement keys are involved,
/// absent otherwise), upward thrust, and digging straight down.
pub struct Actions {
    pub player_movement: Option<i8>,
    pub flying: bool,
    pub mining_down: bool,
}

impl Default for Actions {
    fn default() -> (r: Actions)
        ensures
            r.player_movement is None,
            !r.flying,
            !r.mining_down,
    {
        Actions { player_movement: None, flying: false, mining_down: false }
    }
}

/// One frame's keyboard readings: for each key the engine reports whether
/// it is held, was pressed this frame, or was released this frame.
pub struct KeyInput {
    pub up_just_pressed: bool,
    pub up_just_released: bool,
    pub left_pressed: bool,
    pub left_just_pressed: bool,
    pub left_just_released: bool,
    pub right_pressed: bool,
    pub right_just_pressed: bool,
    pub right_just_released: bool,
    pub down_just_pressed: bool,
    pub down_just_released: bool,
}

/// Any reading that counts as active steering this frame.
pub open spec fn spec_steering(k: KeyInput) -> bool {
    ||| k.up_just_released
    ||| k.up_just_pressed
    ||| k.left_just_released
    ||| k.right_just_released
    ||| k.left_pressed
    ||| k.right_pressed
}

/// The intent that one frame's keyboard readings turn the previous intent
/// into.
pub open spec fn spec_next_actions(a: Actions, k: KeyInput) -> Actions {
    if spec_steering(k) {
        Actions {
            player_movement: Some(
                if k.right_just_released || k.left_just_released {
                    if k.right_pressed {
                        1i8
                    } else if k.left_pressed {
                        -1i8
                    } else {
                        0i8
                    }
                } else if k.right_just_pressed {
                    1i8
                } else if k.left_just_pressed {
                    -1i8
                } else {
                    match a.player_movement {
                        Some(d) => d,
                        None => 0i8,
                    }
                },
            ),
            flying: if k.up_just_released {
                false
            } else if k.up_just_pressed {
                true
            } else {
                a.flying
            },
            mining_down: false,
        }
    } else {
        Actions {
            player_movement: None,
            flying: a.flying,
            mining_down: if k.down_just_released || k.down_just_pressed {
                k.down_just_pressed
            } else {
                a.mining_down
            },
        }
    }
}

/// Turn one frame's keyboard readings into the player's intent. Steering
/// input cancels digging and steers; without it the driving direction is
/// dropped and only the dig-down key is tracked.
pub fn set_movement_actions(actions: &mut Actions, keys: KeyInput)
    ensures
        *final(actions) == spec_next_actions(*old(actions), keys),
{
    if keys.up_just_released || keys.up_just_pressed || keys.left_just_released
        || keys.right_just_released || keys.left_pressed || keys.right_pressed {
        actions.mining_down = false;
        let mut player_movement: i8 = match actions.player_movement {
            Some(d) => d,
            None => 0,
        };
        if keys.up_just_released {
            actions.flying = false;
        } else if keys.up_just_pressed {
            actions.flying = true;
        }
        if keys.right_just_released || keys.left_just_released {
            if keys.right_pressed {
                player_movement = 1;
            } else if keys.left_pressed {
                player_movement = -1;
            } else {
                player_movement = 0;
            }
        } else if keys.right_just_pressed {
            player_movement = 1;
        } else if keys.left_just_pressed {
            player_movement = -1;
        }
        actions.player_movement = Some(player_movement);
    } else {
        actions.player_movement = None;
        if keys.down_just_released || keys.down_just_pressed {
            actions.mining_down = keys.down_just_pressed;
        }
    }
}

} // verus!
