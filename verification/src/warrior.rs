//! The warrior aggregate: one record holding every per-character
//! component, its well-formedness invariant, and the constructors that
//! assemble a freshly spawned warrior.

use vstd::prelude::*;

use crate::assets::AtlasSprite;
use crate::assets::SUBPIXELS_PER_PIXEL;
use crate::attack::AttackHit;
use crate::attack::AttackVolume;
use crate::attack::attack_hits;
use crate::attack::attack_matching;
use crate::attack::damage_timer_finished;
use crate::attack::spec_attack_hit_applied;
use crate::attack::spec_damage_timer_finished;
use crate::attack::spec_warrior_hits;
use crate::hitbox::CROUCH_HITBOX_HALF_HEIGHT;
use crate::hitbox::HalfExtents;
use crate::hitbox::STOOD_UP_HITBOX_HALF_HEIGHT;
use crate::hitbox::STOOD_UP_HITBOX_HALF_WIDTH;
use crate::hitbox::spec_update_warrior_hitbox;
use crate::hitbox::update_warriors_hitbox;
use crate::player::KeyboardSnapshot;
use crate::player::Player;
use crate::player::move_player;
use crate::player::process_jump;
use crate::player::spec_jump_intent;
use crate::player::spec_move_player;
use crate::sprites::SPRITE_ANIMATION_PERIOD_MS;
use crate::sprites::SpriteAnimationTimer;
use crate::sprites::spec_update_warrior_sprites;
use crate::sprites::update_warriors_sprites;
use crate::states::DamagedState;
use crate::states::DamagedTimer;
use crate::states::FacingPosition;
use crate::states::Timer;
use crate::states::TimerMode;
use crate::states::WarriorJumpingTimer;
use crate::states::WarriorPositionState;
use crate::states::WarriorPositionStateTransition;
use crate::states::spec_tick;
use crate::states::tick_state_timer;
use crate::stats::Speed;
use crate::stats::WarriorKind;

verus! {

/// Default walk magnitude of a spawned warrior: 180 pixels per second.
pub const WARRIOR_WALK_SPEED: u32 = 180 * SUBPIXELS_PER_PIXEL as u32;

/// Default jump magnitude of a spawned warrior: 450 pixels per second.
pub const WARRIOR_JUMP_SPEED: u32 = 450 * SUBPIXELS_PER_PIXEL as u32;

/// One playable character with every component the simulation reads or
/// writes. The host engine owns everything else about the entity
/// (horizontal position, rendering, physics integration) and addresses
/// the warrior by `entity`.
#[derive(Clone, Copy, Debug)]
pub struct Warrior {
    pub entity: u64,
    pub kind: WarriorKind,
    pub position_state: WarriorPositionState,
    pub position_state_transition: WarriorPositionStateTransition,
    pub damaged_state: DamagedState,
    pub facing: FacingPosition,
    pub speed: Speed,
    pub sprite_animation_timer: SpriteAnimationTimer,
    pub sprite: AtlasSprite,
    pub jumping_timer: Option<WarriorJumpingTimer>,
    pub damaged_timer: Option<DamagedTimer>,
    pub collider_half_extents: HalfExtents,
    pub translation_y: i64,
    pub player: Option<Player>,
}

impl Warrior {
    /// Well-formedness: the animation clock is a sane repeating timer,
    /// any attached jump or stun timer is a sane fire-once timer, and a
    /// damaged state other than unharmed is always backed by an
    /// attached stun timer.
    pub open spec fn wf(self) -> bool {
        &&& self.sprite_animation_timer.timer.wf()
        &&& self.sprite_animation_timer.timer.mode is Repeating
        &&& (self.jumping_timer matches Some(j) ==> j.timer.wf() && j.timer.mode is Once)
        &&& (self.damaged_timer matches Some(d) ==> d.timer.wf() && d.timer.mode is Once)
        &&& (!(self.damaged_state is Unharmed) ==> self.damaged_timer is Some)
    }
}

/// The record a freshly spawned warrior holds: idle, unharmed, facing
/// right, first atlas frame, the stood-up collision box, no timed state
/// attached, and the default speeds.
pub open spec fn spec_spawned_warrior(
    entity: u64,
    selected_warrior: WarriorKind,
    player: Option<Player>,
    translation_y: i64,
) -> Warrior {
    Warrior {
        entity,
        kind: selected_warrior,
        position_state: WarriorPositionState::Idle,
        position_state_transition: WarriorPositionStateTransition {
            previous: WarriorPositionState::Idle,
        },
        damaged_state: DamagedState::Unharmed,
        facing: FacingPosition::Right,
        speed: Speed { walk: WARRIOR_WALK_SPEED, jump: WARRIOR_JUMP_SPEED },
        sprite_animation_timer: SpriteAnimationTimer {
            timer: Timer {
                duration_ms: SPRITE_ANIMATION_PERIOD_MS,
                elapsed_ms: 0,
                mode: TimerMode::Repeating,
                just_finished: false,
            },
        },
        sprite: AtlasSprite { index: 0 },
        jumping_timer: None,
        damaged_timer: None,
        collider_half_extents: HalfExtents {
            x: STOOD_UP_HITBOX_HALF_WIDTH,
            y: STOOD_UP_HITBOX_HALF_HEIGHT,
        },
        translation_y,
        player,
    }
}

/// Assemble a warrior with every component at its spawn value. The
/// host engine spawns the entity itself and keeps `entity` as its
/// address; `translation_y` is where the host places it vertically.
pub fn spawn_warrior_bundle(
    entity: u64,
    selected_warrior: WarriorKind,
    player: Option<Player>,
    translation_y: i64,
) -> (warrior: Warrior)
    ensures
        warrior == spec_spawned_warrior(entity, selected_warrior, player, translation_y),
        warrior.wf(),
{
    let default_position_state = WarriorPositionState::Idle;
    Warrior {
        entity,
        kind: selected_warrior,
        position_state: default_position_state,
        position_state_transition: WarriorPositionStateTransition {
            previous: WarriorPositionState::Idle,
        },
        damaged_state: DamagedState::Unharmed,
        facing: FacingPosition::Right,
        speed: Speed { walk: WARRIOR_WALK_SPEED, jump: WARRIOR_JUMP_SPEED },
        sprite_animation_timer: SpriteAnimationTimer {
            timer: Timer::from_millis(SPRITE_ANIMATION_PERIOD_MS, TimerMode::Repeating),
        },
        sprite: AtlasSprite { index: 0 },
        jumping_timer: None,
        damaged_timer: None,
        collider_half_extents: HalfExtents {
            x: STOOD_UP_HITBOX_HALF_WIDTH,
            y: STOOD_UP_HITBOX_HALF_HEIGHT,
        },
        translation_y,
        player,
    }
}

/// The movement the input mapper hands to the physics host for one
/// tick, in subpixels: positive `x` to the right, positive `y` upwards.
#[derive(Clone, Copy, PartialEq, Eq, Structural, Debug)]
pub struct MoveIntent {
    pub x: i64,
    pub y: i64,
}

/// The warrior after its attached jump timer, if any, ticked by the
/// frame's elapsed time. Completion needs no handling here: the jump
/// record stays attached, driving the downward intent, until grounding
/// removes it.
pub open spec fn spec_tick_jumping_timer(w: Warrior, delta_ms: u32) -> Warrior {
    match w.jumping_timer {
        Some(j) => Warrior {
            jumping_timer: Some(WarriorJumpingTimer { timer: spec_tick(j.timer, delta_ms) }),
            ..w
        },
        None => w,
    }
}

/// The warrior after its attached stun timer, if any, ticked by the
/// frame's elapsed time; the tick that completes it clears the damaged
/// state and detaches the record.
pub open spec fn spec_tick_damaged_timer(w: Warrior, delta_ms: u32) -> Warrior {
    match w.damaged_timer {
        Some(d) => {
            let ticked = spec_tick(d.timer, delta_ms);
            if ticked.just_finished {
                spec_damage_timer_finished(w)
            } else {
                Warrior { damaged_timer: Some(DamagedTimer { timer: ticked }), ..w }
            }
        }
        None => w,
    }
}

/// The warrior after this tick's hit detection: if any contact belongs
/// to a hit volume of the opposing party, each such hit independently
/// restarts the stun timer and marks the warrior hit.
pub open spec fn spec_resolve_hits(
    w: Warrior,
    contacts: Seq<u64>,
    attacks: Seq<AttackVolume>,
) -> Warrior {
    if spec_warrior_hits(w.entity, contacts, w.player is Some, attacks).len() > 0 {
        spec_attack_hit_applied(w)
    } else {
        w
    }
}

/// One full simulation tick over one warrior, phase by phase: the
/// attached timers tick (stun completion clears the damaged state);
/// the input mapper walks the state machine and yields the horizontal
/// intent; the jump record yields the vertical intent; hit detection
/// applies this tick's contacts; the sprite selector advances the frame
/// and, exactly when the position state changed since the tick began,
/// requests the hitbox recompute that ends the tick.
pub open spec fn spec_advance_tick(
    w: Warrior,
    keyboard: KeyboardSnapshot,
    grounded: bool,
    contacts: Seq<u64>,
    attacks: Seq<AttackVolume>,
    delta_ms: u32,
) -> (Warrior, MoveIntent) {
    let timers_ticked = spec_tick_damaged_timer(spec_tick_jumping_timer(w, delta_ms), delta_ms);
    let moved = spec_move_player(timers_ticked, keyboard, grounded, delta_ms);
    let after_input = moved.0;
    let to_move_y = spec_jump_intent(after_input, delta_ms);
    let after_hits = spec_resolve_hits(after_input, contacts, attacks);
    let position_state_changed = !(after_hits.position_state == w.position_state);
    let sprites = spec_update_warrior_sprites(after_hits, delta_ms, position_state_changed);
    let after_hitbox = match sprites.1 {
        Some(update) => spec_update_warrior_hitbox(sprites.0, update.position_state),
        None => sprites.0,
    };
    (after_hitbox, MoveIntent { x: moved.1 as i64, y: to_move_y as i64 })
}

/// Tick both attached timed-state records by the frame's elapsed
/// time: the jump timer simply advances, while a stun timer that
/// completes clears the damaged state and detaches itself.
pub fn tick_warrior_timers(warrior: &mut Warrior, delta_ms: u32)
    requires
        old(warrior).wf(),
    ensures
        *final(warrior) == spec_tick_damaged_timer(
            spec_tick_jumping_timer(*old(warrior), delta_ms),
            delta_ms,
        ),
        final(warrior).wf(),
{
    let ghost w0 = *warrior;

    match &mut warrior.jumping_timer {
        Some(jumping_timer) => {
            let _ = tick_state_timer(jumping_timer, delta_ms);
        }
        None => {}
    }
    proof {
        assert(*warrior == spec_tick_jumping_timer(w0, delta_ms));
    }

    let mut stun_finished = false;
    match &mut warrior.damaged_timer {
        Some(damaged_timer) => {
            stun_finished = tick_state_timer(damaged_timer, delta_ms);
        }
        None => {}
    }
    if stun_finished {
        damage_timer_finished(warrior);
    }
}

/// Run this tick's hit detection for one warrior: every contact that is
/// a hit volume of the opposing party counts as a hit, and each hit
/// independently restarts the stun timer and marks the warrior hit.
pub fn resolve_warrior_hits(warrior: &mut Warrior, contacts: &Vec<u64>, attacks: &Vec<AttackVolume>)
    ensures
        *final(warrior) == spec_resolve_hits(*old(warrior), contacts@, attacks@),
        old(warrior).wf() ==> final(warrior).wf(),
{
    let ghost w0 = *warrior;
    let is_ally = warrior.player.is_some();
    let contacts_amount = contacts.len();
    let mut ci: usize = 0;
    while ci < contacts_amount
        invariant
            ci <= contacts_amount,
            contacts_amount == contacts@.len(),
            is_ally == (w0.player is Some),
            warrior.entity == w0.entity,
            *warrior == if spec_warrior_hits(
                w0.entity,
                contacts@.take(ci as int),
                is_ally,
                attacks@,
            ).len() > 0 {
                spec_attack_hit_applied(w0)
            } else {
                w0
            },
        decreases contacts_amount - ci,
    {
        let contact_entity = contacts[ci];
        if attack_matching(attacks, is_ally, contact_entity) {
            let warrior_entity = warrior.entity;
            attack_hits(warrior, &AttackHit { warrior_entity, attack_entity: contact_entity });
        }
        proof {
            assert(contacts@.take(ci + 1).drop_last() =~= contacts@.take(ci as int));
            assert(contacts@.take(ci + 1).last() == contacts@[ci as int]);
        }
        ci = ci + 1;
    }
    proof {
        assert(contacts@.take(contacts_amount as int) =~= contacts@);
    }
}

/// Run one warrior through one ordered simulation tick and return the
/// tick's movement intent for the physics host.
pub fn advance_tick(
    warrior: &mut Warrior,
    keyboard: &KeyboardSnapshot,
    grounded: bool,
    contacts: &Vec<u64>,
    attacks: &Vec<AttackVolume>,
    delta_ms: u32,
) -> (intent: MoveIntent)
    requires
        old(warrior).wf(),
        i64::MIN + CROUCH_HITBOX_HALF_HEIGHT <= old(warrior).translation_y,
        old(warrior).translation_y <= i64::MAX - CROUCH_HITBOX_HALF_HEIGHT,
    ensures
        *final(warrior) == spec_advance_tick(
            *old(warrior),
            *keyboard,
            grounded,
            contacts@,
            attacks@,
            delta_ms,
        ).0,
        intent == spec_advance_tick(
            *old(warrior),
            *keyboard,
            grounded,
            contacts@,
            attacks@,
            delta_ms,
        ).1,
        final(warrior).wf(),
{
    let ghost w0 = *warrior;
    let entry_position_state = warrior.position_state;

    tick_warrior_timers(warrior, delta_ms);

    let to_move_x = move_player(warrior, keyboard, grounded, delta_ms);
    let to_move_y = process_jump(warrior, delta_ms);

    resolve_warrior_hits(warrior, contacts, attacks);
    let ghost w4 = *warrior;

    let position_state_changed = warrior.position_state != entry_position_state;
    proof {
        assert(position_state_changed == !(w4.position_state == w0.position_state));
        assert(warrior.translation_y == w0.translation_y);
    }
    let update_hitbox_event = update_warriors_sprites(warrior, delta_ms, position_state_changed);
    match &update_hitbox_event {
        Some(update) => update_warriors_hitbox(warrior, update),
        None => {}
    }
    proof {
        assert(*warrior == spec_advance_tick(
            w0,
            *keyboard,
            grounded,
            contacts@,
            attacks@,
            delta_ms,
        ).0);
    }

    MoveIntent { x: to_move_x, y: to_move_y }
}

/// Crouching and standing back up round-trips the vertical position
/// exactly: a walking warrior that holds the crouch key for one tick
/// and releases it on the next ends the second tick idle, with its
/// vertical position exactly where it started, whatever the tick
/// lengths and whatever hit volumes stand around (no contact reported).
pub proof fn lemma_crouch_round_trip(
    w: Warrior,
    crouch_keys: KeyboardSnapshot,
    release_keys: KeyboardSnapshot,
    attacks: Seq<AttackVolume>,
    delta1_ms: u32,
    delta2_ms: u32,
)
    requires
        w.position_state is Walking,
        i64::MIN + CROUCH_HITBOX_HALF_HEIGHT <= w.translation_y,
        w.translation_y <= i64::MAX - CROUCH_HITBOX_HALF_HEIGHT,
        crouch_keys.crouch_pressed,
        !crouch_keys.jump_pressed,
        !crouch_keys.crouch_just_released,
        !release_keys.crouch_pressed,
        !release_keys.jump_pressed,
        release_keys.crouch_just_released,
    ensures
        ({
            let mid = spec_advance_tick(w, crouch_keys, false, Seq::empty(), attacks, delta1_ms).0;
            let done = spec_advance_tick(
                mid,
                release_keys,
                false,
                Seq::empty(),
                attacks,
                delta2_ms,
            ).0;
            &&& mid.position_state is Crouching
            &&& mid.translation_y == w.translation_y - CROUCH_HITBOX_HALF_HEIGHT
            &&& done.position_state is Idle
            &&& done.translation_y == w.translation_y
        }),
{
    let mid = spec_advance_tick(w, crouch_keys, false, Seq::empty(), attacks, delta1_ms).0;
    assert(mid.position_state is Crouching);
    assert(mid.position_state_transition.previous is Walking);
    assert(mid.translation_y == w.translation_y - CROUCH_HITBOX_HALF_HEIGHT);
    let done = spec_advance_tick(mid, release_keys, false, Seq::empty(), attacks, delta2_ms).0;
    assert(done.position_state is Idle);
    assert(done.translation_y == w.translation_y);
}

/// Spawn the currently selected warrior as the player's character.
pub fn spawn_warrior(entity: u64, translation_y: i64) -> (warrior: Warrior)
    ensures
        warrior == spec_spawned_warrior(
            entity,
            WarriorKind::Jotaile,
            Some(Player),
            translation_y,
        ),
        warrior.wf(),
{
    let selected_warrior = WarriorKind::Jotaile;
    spawn_warrior_bundle(entity, selected_warrior, Some(Player), translation_y)
}

} // verus!
