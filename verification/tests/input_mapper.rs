use warrior_core::player::JUMPING_TIMER_DURATION_MS;
use warrior_core::player::KeyboardSnapshot;
use warrior_core::player::move_player;
use warrior_core::player::process_jump;
use warrior_core::states::TimerMode;
use warrior_core::states::WarriorPositionState;
use warrior_core::warrior::WARRIOR_JUMP_SPEED;
use warrior_core::warrior::WARRIOR_WALK_SPEED;
use warrior_core::warrior::spawn_warrior;

#[test]
fn horizontal_press_starts_walking_and_scales_by_elapsed_time() {
    let mut warrior = spawn_warrior(1, 0);
    let mut keyboard = KeyboardSnapshot::released();
    keyboard.right_pressed = true;
    let to_move_x = move_player(&mut warrior, &keyboard, true, 16);
    assert_eq!(warrior.position_state, WarriorPositionState::Walking);
    assert_eq!(warrior.position_state_transition.previous, WarriorPositionState::Idle);
    // 1620 subpixels per second for 16 ms, rounded down.
    assert_eq!(to_move_x, (WARRIOR_WALK_SPEED as i64 * 16) / 1000);
    assert_eq!(to_move_x, 25);
}

#[test]
fn left_has_priority_over_right() {
    let mut warrior = spawn_warrior(1, 0);
    let mut keyboard = KeyboardSnapshot::released();
    keyboard.left_pressed = true;
    keyboard.right_pressed = true;
    let to_move_x = move_player(&mut warrior, &keyboard, true, 1000);
    assert_eq!(to_move_x, -(WARRIOR_WALK_SPEED as i64));
    assert_eq!(warrior.position_state, WarriorPositionState::Walking);
}

#[test]
fn jump_press_from_idle_arms_the_jump_timer() {
    let mut warrior = spawn_warrior(1, 0);
    let mut keyboard = KeyboardSnapshot::released();
    keyboard.jump_pressed = true;
    move_player(&mut warrior, &keyboard, true, 16);
    assert_eq!(warrior.position_state, WarriorPositionState::Jumping);
    let jump = warrior.jumping_timer.expect("jump timer armed");
    assert_eq!(jump.timer.duration_ms, JUMPING_TIMER_DURATION_MS);
    assert_eq!(jump.timer.elapsed_ms, 0);
    assert_eq!(jump.timer.mode, TimerMode::Once);
}

#[test]
fn jump_press_while_jumping_changes_nothing() {
    let mut warrior = spawn_warrior(1, 0);
    let mut keyboard = KeyboardSnapshot::released();
    keyboard.jump_pressed = true;
    move_player(&mut warrior, &keyboard, true, 16);
    let armed = warrior.jumping_timer.unwrap();

    move_player(&mut warrior, &keyboard, false, 16);
    assert_eq!(warrior.position_state, WarriorPositionState::Jumping);
    assert_eq!(warrior.jumping_timer.unwrap(), armed);
}

#[test]
fn crouch_press_wins_only_from_grounded_stances() {
    let mut warrior = spawn_warrior(1, 0);
    let mut keyboard = KeyboardSnapshot::released();
    keyboard.crouch_pressed = true;
    move_player(&mut warrior, &keyboard, true, 16);
    assert_eq!(warrior.position_state, WarriorPositionState::Crouching);

    // Still crouched: a second held crouch does not rewrite the transition.
    let mut keyboard_jump = KeyboardSnapshot::released();
    keyboard_jump.jump_pressed = true;
    move_player(&mut warrior, &keyboard_jump, false, 16);
    assert_eq!(warrior.position_state, WarriorPositionState::Crouching);
}

#[test]
fn jump_wins_over_crouch_when_both_are_held() {
    let mut warrior = spawn_warrior(1, 0);
    let mut keyboard = KeyboardSnapshot::released();
    keyboard.jump_pressed = true;
    keyboard.crouch_pressed = true;
    move_player(&mut warrior, &keyboard, true, 16);
    assert_eq!(warrior.position_state, WarriorPositionState::Jumping);
}

#[test]
fn releasing_crouch_returns_to_idle() {
    let mut warrior = spawn_warrior(1, 0);
    let mut keyboard = KeyboardSnapshot::released();
    keyboard.crouch_pressed = true;
    move_player(&mut warrior, &keyboard, true, 16);

    let mut keyboard = KeyboardSnapshot::released();
    keyboard.crouch_just_released = true;
    move_player(&mut warrior, &keyboard, true, 16);
    assert_eq!(warrior.position_state, WarriorPositionState::Idle);
    assert_eq!(warrior.position_state_transition.previous, WarriorPositionState::Crouching);
}

#[test]
fn grounding_forces_idle_and_cancels_the_jump() {
    let mut warrior = spawn_warrior(1, 0);
    let mut keyboard = KeyboardSnapshot::released();
    keyboard.jump_pressed = true;
    move_player(&mut warrior, &keyboard, true, 16);
    assert_eq!(warrior.position_state, WarriorPositionState::Jumping);

    // Landing, with the jump key still held: forced idle, timer removed.
    move_player(&mut warrior, &keyboard, true, 16);
    assert_eq!(warrior.position_state, WarriorPositionState::Idle);
    assert!(warrior.jumping_timer.is_none());
}

#[test]
fn jump_intent_rises_then_falls() {
    let mut warrior = spawn_warrior(1, 0);
    assert_eq!(process_jump(&warrior, 16), 0);

    let mut keyboard = KeyboardSnapshot::released();
    keyboard.jump_pressed = true;
    move_player(&mut warrior, &keyboard, true, 16);

    // 4050 subpixels per second for 16 ms, rounded down.
    let expected = (WARRIOR_JUMP_SPEED as i64 * 16) / 1000;
    assert_eq!(process_jump(&warrior, 16), expected);
    assert_eq!(expected, 64);

    warrior.jumping_timer.as_mut().unwrap().timer.tick(JUMPING_TIMER_DURATION_MS);
    assert_eq!(process_jump(&warrior, 16), -expected);
}
