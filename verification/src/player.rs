//! The input-to-intent mapper: reads the tick's keyboard snapshot and
//! grounded feedback, walks the warrior position-state machine, and
//! emits the horizontal and vertical movement intents handed to the
//! physics host.

use vstd::prelude::*;

use crate::states::Timer;
use crate::states::TimerMode;
use crate::states::WarriorJumpingTimer;
use crate::states::WarriorPositionState;
use crate::states::WarriorPositionStateTransition;
use crate::warrior::Warrior;

verus! {

/// Marker for the character the local player controls.
#[derive(Clone, Copy, PartialEq, Eq, Structural, Debug)]
pub struct Player;

/// How long a jump rises before it starts to fall: 0.4 seconds.
pub const JUMPING_TIMER_DURATION_MS: u32 = 400;

/// The keys the mapper reads, already polled by the host for this tick:
/// level state for the four movement keys, plus the release edges that
/// end walking and crouching.
#[derive(Clone, Copy, PartialEq, Eq, Structural, Debug)]
pub struct KeyboardSnapshot {
    pub jump_pressed: bool,
    pub crouch_pressed: bool,
    pub left_pressed: bool,
    pub right_pressed: bool,
    pub left_just_released: bool,
    pub right_just_released: bool,
    pub crouch_just_released: bool,
}

impl KeyboardSnapshot {
    /// A snapshot with every key up and no release edge.
    pub fn released() -> (keyboard: KeyboardSnapshot)
        ensures
            keyboard == (KeyboardSnapshot {
                jump_pressed: false,
                crouch_pressed: false,
                left_pressed: false,
                right_pressed: false,
                left_just_released: false,
                right_just_released: false,
                crouch_just_released: false,
            }),
    {
        KeyboardSnapshot {
            jump_pressed: false,
            crouch_pressed: false,
            left_pressed: false,
            right_pressed: false,
            left_just_released: false,
            right_just_released: false,
            crouch_just_released: false,
        }
    }
}

/// Jumping and crouching start only from the two grounded stances.
pub open spec fn spec_can_leave_ground(state: WarriorPositionState) -> bool {
    state is Idle || state is Walking
}

/// The fresh fire-once timer armed when a jump starts.
pub open spec fn spec_armed_jumping_timer() -> WarriorJumpingTimer {
    WarriorJumpingTimer {
        timer: Timer {
            duration_ms: JUMPING_TIMER_DURATION_MS,
            elapsed_ms: 0,
            mode: TimerMode::Once,
            just_finished: false,
        },
    }
}

/// Whether this tick's grounded feedback forces the warrior back to
/// idle: it does whenever the host reports ground contact while the
/// warrior is in any other stance.
pub open spec fn spec_forced_idle(w: Warrior, grounded: bool) -> bool {
    grounded && !(w.position_state is Idle)
}

/// Whether this tick lands a jump: ground contact reported while the
/// warrior is still jumping. On exactly that tick the jump and crouch
/// keys are ignored, so a held jump key cannot re-arm the jump the
/// grounding just cancelled.
pub open spec fn spec_just_landed(w: Warrior, grounded: bool) -> bool {
    grounded && w.position_state is Jumping
}

/// Grounding feedback: a warrior reported on the ground while not idle
/// is forced to idle and its jump ends at once.
pub open spec fn spec_ground_step(w: Warrior, grounded: bool) -> Warrior {
    if spec_forced_idle(w, grounded) {
        Warrior {
            position_state: WarriorPositionState::Idle,
            position_state_transition: WarriorPositionStateTransition {
                previous: w.position_state,
            },
            jumping_timer: None,
            ..w
        }
    } else {
        w
    }
}

/// A held jump key takes a grounded stance to jumping and arms the jump
/// timer. Any other stance ignores the key, so a jump in progress is
/// never re-armed.
pub open spec fn spec_jump_step(w: Warrior, keyboard: KeyboardSnapshot) -> Warrior {
    if keyboard.jump_pressed && spec_can_leave_ground(w.position_state) {
        Warrior {
            position_state: WarriorPositionState::Jumping,
            position_state_transition: WarriorPositionStateTransition {
                previous: w.position_state,
            },
            jumping_timer: Some(spec_armed_jumping_timer()),
            ..w
        }
    } else {
        w
    }
}

/// A held crouch key takes a grounded stance to crouching; any other
/// stance ignores it.
pub open spec fn spec_crouch_step(w: Warrior, keyboard: KeyboardSnapshot) -> Warrior {
    if keyboard.crouch_pressed && spec_can_leave_ground(w.position_state) {
        Warrior {
            position_state: WarriorPositionState::Crouching,
            position_state_transition: WarriorPositionStateTransition {
                previous: w.position_state,
            },
            ..w
        }
    } else {
        w
    }
}

/// How far a movement magnitude of `speed` subpixels per second carries
/// in `delta_ms` milliseconds, rounded down.
pub open spec fn spec_speed_delta(speed: u32, delta_ms: u32) -> int {
    (speed * delta_ms) / 1000
}

/// An idle warrior pressing a horizontal key starts walking.
pub open spec fn spec_start_walking(w: Warrior) -> Warrior {
    if w.position_state is Idle {
        Warrior {
            position_state: WarriorPositionState::Walking,
            position_state_transition: WarriorPositionStateTransition {
                previous: w.position_state,
            },
            ..w
        }
    } else {
        w
    }
}

/// Horizontal input, left given priority over right: the warrior starts
/// walking if idle and the tick's walk distance is accumulated, negative
/// to the left.
pub open spec fn spec_horizontal_step(
    w: Warrior,
    keyboard: KeyboardSnapshot,
    delta_ms: u32,
) -> (Warrior, int) {
    if keyboard.left_pressed {
        (spec_start_walking(w), -spec_speed_delta(w.speed.walk, delta_ms))
    } else if keyboard.right_pressed {
        (spec_start_walking(w), spec_speed_delta(w.speed.walk, delta_ms))
    } else {
        (w, 0)
    }
}

/// Releasing the last held horizontal key while walking, or the crouch
/// key while crouching, returns the warrior to idle.
pub open spec fn spec_return_to_idle_step(w: Warrior, keyboard: KeyboardSnapshot) -> Warrior {
    if (w.position_state is Walking && (keyboard.left_just_released
        || keyboard.right_just_released)) || (w.position_state is Crouching
        && keyboard.crouch_just_released) {
        Warrior {
            position_state: WarriorPositionState::Idle,
            position_state_transition: WarriorPositionStateTransition {
                previous: w.position_state,
            },
            ..w
        }
    } else {
        w
    }
}

/// One tick of the input mapper: grounding feedback first; then, unless
/// this tick just landed a jump, the jump and crouch keys; then
/// horizontal movement; finally the return to idle on release edges.
/// The returned integer is the tick's horizontal movement intent in
/// subpixels.
pub open spec fn spec_move_player(
    w: Warrior,
    keyboard: KeyboardSnapshot,
    grounded: bool,
    delta_ms: u32,
) -> (Warrior, int) {
    let after_ground = spec_ground_step(w, grounded);
    let after_vertical = if spec_just_landed(w, grounded) {
        after_ground
    } else {
        spec_crouch_step(spec_jump_step(after_ground, keyboard), keyboard)
    };
    let after_horizontal = spec_horizontal_step(after_vertical, keyboard, delta_ms);
    (spec_return_to_idle_step(after_horizontal.0, keyboard), after_horizontal.1)
}

/// `speed * delta_ms / 1000` computed without overflow.
fn speed_delta(speed: u32, delta_ms: u32) -> (d: i64)
    ensures
        d == spec_speed_delta(speed, delta_ms),
        0 <= d <= 0xffff_ffff_ffff_ffffu64 / 1000,
{
    proof {
        assert((speed as u64) * (delta_ms as u64) <= 0xffff_ffffu64 * 0xffff_ffffu64)
            by (nonlinear_arith)
            requires
                speed <= 0xffff_ffffu64,
                delta_ms <= 0xffff_ffffu64,
        ;
    }
    let product: u64 = speed as u64 * delta_ms as u64;
    (product / 1000) as i64
}

/// One tick of the input mapper over one warrior. Returns the tick's
/// horizontal movement intent in subpixels, negative to the left.
pub fn move_player(
    warrior: &mut Warrior,
    keyboard: &KeyboardSnapshot,
    grounded: bool,
    delta_ms: u32,
) -> (to_move_x: i64)
    ensures
        *final(warrior) == spec_move_player(*old(warrior), *keyboard, grounded, delta_ms).0,
        to_move_x == spec_move_player(*old(warrior), *keyboard, grounded, delta_ms).1,
        old(warrior).wf() ==> final(warrior).wf(),
{
    let mut to_move_x: i64 = 0;
    let just_landed = grounded && matches!(warrior.position_state, WarriorPositionState::Jumping);

    if grounded && !matches!(warrior.position_state, WarriorPositionState::Idle) {
        warrior.position_state_transition.previous = warrior.position_state;
        warrior.position_state = WarriorPositionState::Idle;
        warrior.jumping_timer = None;
    }

    if !just_landed {
        if keyboard.jump_pressed && matches!(
            warrior.position_state,
            WarriorPositionState::Idle | WarriorPositionState::Walking
        ) {
            warrior.position_state_transition.previous = warrior.position_state;
            warrior.position_state = WarriorPositionState::Jumping;
            warrior.jumping_timer = Some(WarriorJumpingTimer {
                timer: Timer::from_millis(JUMPING_TIMER_DURATION_MS, TimerMode::Once),
            });
        }

        if keyboard.crouch_pressed && matches!(
            warrior.position_state,
            WarriorPositionState::Idle | WarriorPositionState::Walking
        ) {
            warrior.position_state_transition.previous = warrior.position_state;
            warrior.position_state = WarriorPositionState::Crouching;
        }
    }

    if keyboard.left_pressed {
        if matches!(warrior.position_state, WarriorPositionState::Idle) {
            warrior.position_state_transition.previous = warrior.position_state;
            warrior.position_state = WarriorPositionState::Walking;
        }
        to_move_x = to_move_x - speed_delta(warrior.speed.walk, delta_ms);
    } else if keyboard.right_pressed {
        if matches!(warrior.position_state, WarriorPositionState::Idle) {
            warrior.position_state_transition.previous = warrior.position_state;
            warrior.position_state = WarriorPositionState::Walking;
        }
        to_move_x = to_move_x + speed_delta(warrior.speed.walk, delta_ms);
    }

    // Return to idle
    if (matches!(warrior.position_state, WarriorPositionState::Walking)
        && (keyboard.left_just_released || keyboard.right_just_released))
        || (matches!(warrior.position_state, WarriorPositionState::Crouching)
            && keyboard.crouch_just_released) {
        warrior.position_state_transition.previous = warrior.position_state;
        warrior.position_state = WarriorPositionState::Idle;
    }

    to_move_x
}

/// The tick's vertical movement intent while a jump record is attached:
/// rising at jump speed until the jump timer completes, falling at the
/// same magnitude afterwards, until grounding removes the record.
pub open spec fn spec_jump_intent(w: Warrior, delta_ms: u32) -> int {
    match w.jumping_timer {
        Some(jumping_timer) => if !jumping_timer.timer.spec_finished() {
            spec_speed_delta(w.speed.jump, delta_ms)
        } else {
            -spec_speed_delta(w.speed.jump, delta_ms)
        },
        None => 0,
    }
}

/// Compute the tick's vertical movement intent in subpixels, positive
/// upwards, from the attached jump record.
pub fn process_jump(warrior: &Warrior, delta_ms: u32) -> (to_move_y: i64)
    ensures
        to_move_y == spec_jump_intent(*warrior, delta_ms),
{
    match &warrior.jumping_timer {
        Some(jumping_timer) => {
            let d = speed_delta(warrior.speed.jump, delta_ms);
            if !jumping_timer.timer.finished() {
                d
            } else {
                -d
            }
        }
        None => 0,
    }
}

/// Pressing jump again while already jumping changes nothing: the
/// stance stays jumping and the armed jump timer is left exactly as it
/// was, however often the key is pressed.
pub proof fn lemma_jump_press_idempotent_while_jumping(
    w: Warrior,
    keyboard: KeyboardSnapshot,
    delta_ms: u32,
)
    requires
        w.position_state is Jumping,
        keyboard.jump_pressed,
    ensures
        spec_move_player(w, keyboard, false, delta_ms).0.position_state is Jumping,
        spec_move_player(w, keyboard, false, delta_ms).0.jumping_timer == w.jumping_timer,
{
}

} // verus!
