//! Per-warrior sprite animation: the repeating cadence timer and the
//! per-tick update that advances the atlas frame and requests a hitbox
//! recompute whenever the position state changed.

use vstd::prelude::*;

use crate::assets::AtlasSprite;
use crate::assets::IncrementSpriteIndex;
use crate::assets::spec_next_sprite_index;
use crate::hitbox::UpdateWarriorHitbox;
use crate::states::Timer;
use crate::states::spec_default_timer;
use crate::states::spec_tick;
use crate::warrior::Warrior;

verus! {

/// Cadence of the walking animation: the frame advances every time this
/// many milliseconds elapse.
pub const SPRITE_ANIMATION_PERIOD_MS: u32 = 750;

/// The repeating timer that paces a warrior's animation.
#[derive(Clone, Copy, PartialEq, Eq, Structural, Debug)]
pub struct SpriteAnimationTimer {
    pub timer: Timer,
}

impl Default for SpriteAnimationTimer {
    fn default() -> (t: SpriteAnimationTimer)
        ensures
            t.timer == spec_default_timer(),
    {
        SpriteAnimationTimer { timer: Timer::default() }
    }
}

/// The warrior after one animation tick, with the hitbox-recompute
/// request the tick emits: on a state change the animation clock
/// restarts and the request carries the new state; the frame advances
/// when the state changed or the cadence completed.
pub open spec fn spec_update_warrior_sprites(
    w: Warrior,
    delta_ms: u32,
    position_state_changed: bool,
) -> (Warrior, Option<UpdateWarriorHitbox>) {
    let clock = if position_state_changed {
        Timer { elapsed_ms: 0, just_finished: false, ..w.sprite_animation_timer.timer }
    } else {
        w.sprite_animation_timer.timer
    };
    let ticked = spec_tick(clock, delta_ms);
    let index = if position_state_changed || ticked.just_finished {
        spec_next_sprite_index(w.position_state, w.damaged_state, w.sprite.index as int)
    } else {
        w.sprite.index as int
    };
    let event = if position_state_changed {
        Some(UpdateWarriorHitbox { warrior_entity: w.entity, position_state: w.position_state })
    } else {
        None
    };
    (
        Warrior {
            sprite_animation_timer: SpriteAnimationTimer { timer: ticked },
            sprite: AtlasSprite { index: index as usize },
            ..w
        },
        event,
    )
}

/// Advance one warrior's animation by the frame's elapsed time.
/// `position_state_changed` says whether the warrior's position state
/// was written earlier in this same tick; exactly then a hitbox
/// recompute request is returned.
pub fn update_warriors_sprites(
    warrior: &mut Warrior,
    delta_ms: u32,
    position_state_changed: bool,
) -> (update_hitbox_event: Option<UpdateWarriorHitbox>)
    requires
        old(warrior).sprite_animation_timer.timer.wf(),
    ensures
        *final(warrior) == spec_update_warrior_sprites(
            *old(warrior),
            delta_ms,
            position_state_changed,
        ).0,
        update_hitbox_event == spec_update_warrior_sprites(
            *old(warrior),
            delta_ms,
            position_state_changed,
        ).1,
        final(warrior).sprite_animation_timer.timer.wf(),
{
    let mut update_hitbox_event: Option<UpdateWarriorHitbox> = None;

    if position_state_changed {
        warrior.sprite_animation_timer.timer.reset();
        update_hitbox_event = Some(UpdateWarriorHitbox {
            warrior_entity: warrior.entity,
            position_state: warrior.position_state,
        });
    }

    warrior.sprite_animation_timer.timer.tick(delta_ms);

    if position_state_changed || warrior.sprite_animation_timer.timer.just_finished() {
        let position_state = warrior.position_state;
        let damaged_state = warrior.damaged_state;
        warrior.sprite.update_sprite_idx(&position_state, &damaged_state);
    }

    update_hitbox_event
}

} // verus!
