//! Sprite-atlas geometry and the sprite-frame selector: which contiguous
//! frame range of the atlas belongs to each (position state, damaged
//! state) pair, and how the current frame advances inside that range.

use vstd::prelude::*;

use crate::states::DamagedState;
use crate::states::WarriorPositionState;

verus! {

/// Lengths in this crate are subpixels: ninths of a screen pixel, so
/// that the sprite sheet's 250:450 tile proportion and every hitbox
/// fraction of it are exact integers.
pub const SUBPIXELS_PER_PIXEL: u64 = 9;

/// Width and height of one tile of the warrior sprite sheet, in sheet
/// pixels; only their proportion matters here.
pub const WARRIOR_SPRITE_TILE_WIDTH: u64 = 250;

pub const WARRIOR_SPRITE_TILE_HEIGHT: u64 = 450;

/// On-screen height of a warrior sprite: 260 pixels.
pub const WARRIOR_IN_GAME_HEIGHT: u64 = 260 * SUBPIXELS_PER_PIXEL;

/// On-screen width of a warrior sprite, keeping the tile proportion;
/// the division is exact.
pub const WARRIOR_IN_GAME_WIDTH: u64 = WARRIOR_IN_GAME_HEIGHT * WARRIOR_SPRITE_TILE_WIDTH
    / WARRIOR_SPRITE_TILE_HEIGHT;

/// Columns of one full undamaged bank of the atlas; the damaged bank
/// starts this many columns further.
pub const ATLAS_COLUMNS_AMOUNT: usize = 6;

/// The warrior's current frame of the shared sprite atlas.
#[derive(Clone, Copy, PartialEq, Eq, Structural, Debug)]
pub struct AtlasSprite {
    pub index: usize,
}

/// How far the frame range of a state is shifted right while the
/// warrior is damaged: zero columns normally, one full bank otherwise.
pub open spec fn spec_column_offset(damaged_state: DamagedState) -> int {
    if damaged_state is Unharmed {
        0
    } else {
        ATLAS_COLUMNS_AMOUNT as int
    }
}

/// First frame of the undamaged range of each position state.
pub open spec fn spec_state_frames_min(state: WarriorPositionState) -> int {
    match state {
        WarriorPositionState::Idle => 0,
        WarriorPositionState::Walking => 0,
        WarriorPositionState::Jumping => 3,
        WarriorPositionState::Crouching => 2,
        WarriorPositionState::Fallen => 4,
    }
}

/// How many frames the range of each position state holds.
pub open spec fn spec_state_frames_amount(state: WarriorPositionState) -> int {
    match state {
        WarriorPositionState::Idle => 2,
        WarriorPositionState::Walking => 2,
        WarriorPositionState::Jumping => 1,
        WarriorPositionState::Crouching => 1,
        WarriorPositionState::Fallen => 1,
    }
}

/// The frame that follows `current` for the given pair of states: a
/// single-frame state pins its one frame; a frame outside the valid
/// range snaps to its start; otherwise the range cycles.
pub open spec fn spec_next_sprite_index(
    state: WarriorPositionState,
    damaged_state: DamagedState,
    current: int,
) -> int {
    let min_index = spec_state_frames_min(state) + spec_column_offset(damaged_state);
    let amount = spec_state_frames_amount(state);
    if amount == 1 {
        min_index
    } else if current < min_index || current > min_index + amount - 1 {
        min_index
    } else {
        min_index + ((current + 1) % amount)
    }
}

/// A sprite whose atlas frame can be advanced along the frame range of
/// a warrior's current pair of states.
pub trait IncrementSpriteIndex {
    /// The frame the sprite currently shows.
    spec fn spec_index(&self) -> int;

    fn update_sprite_idx(
        &mut self,
        warrior_position_state: &WarriorPositionState,
        damaged_state: &DamagedState,
    )
        ensures
            final(self).spec_index() == spec_next_sprite_index(
                *warrior_position_state,
                *damaged_state,
                old(self).spec_index(),
            ),
    ;
}

impl IncrementSpriteIndex for AtlasSprite {
    open spec fn spec_index(&self) -> int {
        self.index as int
    }

    fn update_sprite_idx(
        &mut self,
        warrior_position_state: &WarriorPositionState,
        damaged_state: &DamagedState,
    ) {
        let column_offset: usize = match damaged_state {
            DamagedState::Unharmed => 0,
            _ => ATLAS_COLUMNS_AMOUNT,
        };

        let (first_frame, sprites_amount): (usize, usize) = match warrior_position_state {
            WarriorPositionState::Idle => (0, 2),
            WarriorPositionState::Walking => (0, 2),
            WarriorPositionState::Jumping => (3, 1),
            WarriorPositionState::Crouching => (2, 1),
            WarriorPositionState::Fallen => (4, 1),
        };

        let min_index = first_frame + column_offset;

        if sprites_amount == 1 {
            self.index = min_index;
            return;
        }

        let current_atlas_idx = self.index;
        let max_index = min_index + 1;

        if current_atlas_idx < min_index || current_atlas_idx > max_index {
            self.index = min_index;
            return;
        }

        self.index = min_index + (current_atlas_idx + 1) % sprites_amount;
    }
}

/// While the warrior is jumping the frame never advances: it is pinned
/// to the single jump frame of the active column bank, frame 3
/// undamaged and frame 3 + `ATLAS_COLUMNS_AMOUNT` damaged.
pub proof fn lemma_jumping_frame_pinned(damaged_state: DamagedState, current: int)
    ensures
        spec_next_sprite_index(WarriorPositionState::Jumping, damaged_state, current) == 3
            + spec_column_offset(damaged_state),
        damaged_state is Unharmed ==> spec_next_sprite_index(
            WarriorPositionState::Jumping,
            damaged_state,
            current,
        ) == 3,
        !(damaged_state is Unharmed) ==> spec_next_sprite_index(
            WarriorPositionState::Jumping,
            damaged_state,
            current,
        ) == 9,
{
}

} // verus!
