//! Hitbox geometry: a pure function from position state to collider
//! half-extents, and the updater that swaps a warrior's collider and
//! corrects its vertical position on crouch and stand-up transitions.

use vstd::prelude::*;

use crate::assets::WARRIOR_IN_GAME_HEIGHT;
use crate::assets::WARRIOR_IN_GAME_WIDTH;
use crate::states::WarriorPositionState;
use crate::warrior::Warrior;

verus! {

/// Half-extents of the stood-up collision box, in subpixels: a quarter
/// of the sprite width, half its height.
pub const STOOD_UP_HITBOX_HALF_WIDTH: u64 = WARRIOR_IN_GAME_WIDTH / 4;

pub const STOOD_UP_HITBOX_HALF_HEIGHT: u64 = WARRIOR_IN_GAME_HEIGHT / 2;

/// Half-extents of the crouch collision box, in subpixels: two fifths
/// of the sprite width (width over 2.5), a quarter of its height.
pub const CROUCH_HITBOX_HALF_WIDTH: u64 = WARRIOR_IN_GAME_WIDTH * 2 / 5;

pub const CROUCH_HITBOX_HALF_HEIGHT: u64 = WARRIOR_IN_GAME_HEIGHT / 4;

/// A collider's half-width and half-height, in subpixels.
#[derive(Clone, Copy, PartialEq, Eq, Structural, Debug)]
pub struct HalfExtents {
    pub x: u64,
    pub y: u64,
}

/// Marker for a warrior's standing hit volume.
#[derive(Clone, Copy, Debug)]
pub struct Hitbox;

/// Marker for a warrior's crouching hit volume.
#[derive(Clone, Copy, Debug)]
pub struct CrouchHitbox;

/// The collider half-extents that belong to a position state:
/// the stood-up box while idle, walking or jumping; the crouch box while
/// crouching; the stood-up box with its axes swapped while fallen.
pub open spec fn spec_position_hitbox(state: WarriorPositionState) -> HalfExtents {
    match state {
        WarriorPositionState::Idle => HalfExtents {
            x: STOOD_UP_HITBOX_HALF_WIDTH,
            y: STOOD_UP_HITBOX_HALF_HEIGHT,
        },
        WarriorPositionState::Walking => HalfExtents {
            x: STOOD_UP_HITBOX_HALF_WIDTH,
            y: STOOD_UP_HITBOX_HALF_HEIGHT,
        },
        WarriorPositionState::Jumping => HalfExtents {
            x: STOOD_UP_HITBOX_HALF_WIDTH,
            y: STOOD_UP_HITBOX_HALF_HEIGHT,
        },
        WarriorPositionState::Crouching => HalfExtents {
            x: CROUCH_HITBOX_HALF_WIDTH,
            y: CROUCH_HITBOX_HALF_HEIGHT,
        },
        WarriorPositionState::Fallen => HalfExtents {
            x: STOOD_UP_HITBOX_HALF_HEIGHT,
            y: STOOD_UP_HITBOX_HALF_WIDTH,
        },
    }
}

/// A position state that knows the collision half-extents belonging to
/// it.
pub trait PositionStateHitbox {
    /// The half-extents this state maps to.
    spec fn spec_hitbox(&self) -> HalfExtents;

    fn get_position_hitbox(&self) -> (half_extents: HalfExtents)
        ensures
            half_extents == self.spec_hitbox(),
    ;
}

impl PositionStateHitbox for WarriorPositionState {
    open spec fn spec_hitbox(&self) -> HalfExtents {
        spec_position_hitbox(*self)
    }

    fn get_position_hitbox(&self) -> (half_extents: HalfExtents) {
        match self {
            WarriorPositionState::Idle
            | WarriorPositionState::Walking
            | WarriorPositionState::Jumping => HalfExtents {
                x: STOOD_UP_HITBOX_HALF_WIDTH,
                y: STOOD_UP_HITBOX_HALF_HEIGHT,
            },
            WarriorPositionState::Crouching => HalfExtents {
                x: CROUCH_HITBOX_HALF_WIDTH,
                y: CROUCH_HITBOX_HALF_HEIGHT,
            },
            WarriorPositionState::Fallen => HalfExtents {
                x: STOOD_UP_HITBOX_HALF_HEIGHT,
                y: STOOD_UP_HITBOX_HALF_WIDTH,
            },
        }
    }
}

/// Hitbox geometry is a pure function of the position state alone;
/// crouching always yields the crouch box, two fifths of the sprite
/// width by a quarter of its height, whatever came before.
pub proof fn lemma_crouch_hitbox_pure()
    ensures
        spec_position_hitbox(WarriorPositionState::Crouching).x == WARRIOR_IN_GAME_WIDTH * 2 / 5,
        spec_position_hitbox(WarriorPositionState::Crouching).y == WARRIOR_IN_GAME_HEIGHT / 4,
{
}

/// Request to recompute one warrior's collision volume after its
/// position state changed to `position_state`.
#[derive(Clone, Copy, PartialEq, Eq, Structural, Debug)]
pub struct UpdateWarriorHitbox {
    pub warrior_entity: u64,
    pub position_state: WarriorPositionState,
}

/// The warrior after a hitbox recompute for `position_state`: the
/// collider takes that state's half-extents; entering a crouch lowers
/// the body by the crouch half-height so the feet stay planted, and
/// leaving one raises it back by the same amount.
pub open spec fn spec_update_warrior_hitbox(
    w: Warrior,
    position_state: WarriorPositionState,
) -> Warrior {
    let resized = Warrior { collider_half_extents: spec_position_hitbox(position_state), ..w };
    if position_state is Crouching {
        Warrior {
            translation_y: (resized.translation_y - CROUCH_HITBOX_HALF_HEIGHT) as i64,
            ..resized
        }
    } else if w.position_state_transition.previous is Crouching {
        Warrior {
            translation_y: (resized.translation_y + CROUCH_HITBOX_HALF_HEIGHT) as i64,
            ..resized
        }
    } else {
        resized
    }
}

/// Consume one hitbox recompute request for the warrior it names:
/// replace the collision volume with the one of the new state and
/// correct the vertical position across crouch transitions, reading
/// the outgoing state from the warrior's transition record.
pub fn update_warriors_hitbox(warrior: &mut Warrior, update: &UpdateWarriorHitbox)
    requires
        update.warrior_entity == old(warrior).entity,
        i64::MIN + CROUCH_HITBOX_HALF_HEIGHT <= old(warrior).translation_y,
        old(warrior).translation_y <= i64::MAX - CROUCH_HITBOX_HALF_HEIGHT,
    ensures
        *final(warrior) == spec_update_warrior_hitbox(*old(warrior), update.position_state),
        old(warrior).wf() ==> final(warrior).wf(),
{
    let position_state = update.position_state;
    let half_extents = position_state.get_position_hitbox();
    warrior.collider_half_extents = half_extents;

    if matches!(position_state, WarriorPositionState::Crouching) {
        warrior.translation_y = warrior.translation_y - CROUCH_HITBOX_HALF_HEIGHT as i64;
    } else if matches!(warrior.position_state_transition.previous, WarriorPositionState::Crouching) {
        warrior.translation_y = warrior.translation_y + CROUCH_HITBOX_HALF_HEIGHT as i64;
    }
}

} // verus!
