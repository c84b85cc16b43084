use warrior_core::hitbox::UpdateWarriorHitbox;
use warrior_core::hitbox::update_warriors_hitbox;
use warrior_core::player::Player;
use warrior_core::states::DamagedState;
use warrior_core::states::FacingPosition;
use warrior_core::states::TimerMode;
use warrior_core::states::WarriorPositionState;
use warrior_core::stats::WarriorKind;
use warrior_core::warrior::spawn_warrior;
use warrior_core::warrior::spawn_warrior_bundle;

#[test]
fn spawned_warrior_starts_idle_with_defaults() {
    let warrior = spawn_warrior(1, -450);
    assert_eq!(warrior.entity, 1);
    assert_eq!(warrior.kind, WarriorKind::Jotaile);
    assert_eq!(warrior.position_state, WarriorPositionState::Idle);
    assert_eq!(warrior.position_state_transition.previous, WarriorPositionState::Idle);
    assert_eq!(warrior.damaged_state, DamagedState::Unharmed);
    assert_eq!(warrior.facing, FacingPosition::Right);
    assert_eq!(warrior.speed.walk, 1620);
    assert_eq!(warrior.speed.jump, 4050);
    assert_eq!(warrior.sprite.index, 0);
    assert_eq!(warrior.sprite_animation_timer.timer.duration_ms, 750);
    assert_eq!(warrior.sprite_animation_timer.timer.mode, TimerMode::Repeating);
    assert!(warrior.jumping_timer.is_none());
    assert!(warrior.damaged_timer.is_none());
    assert_eq!(warrior.collider_half_extents.x, 325);
    assert_eq!(warrior.collider_half_extents.y, 1170);
    assert_eq!(warrior.translation_y, -450);
    assert!(warrior.player.is_some());
}

#[test]
fn bundle_without_player_marker_is_not_the_player() {
    let warrior = spawn_warrior_bundle(2, WarriorKind::Jotaile, None, 0);
    assert!(warrior.player.is_none());
    let warrior = spawn_warrior_bundle(3, WarriorKind::Jotaile, Some(Player), 0);
    assert!(warrior.player.is_some());
}

#[test]
fn hitbox_update_applies_the_new_state_box() {
    let mut warrior = spawn_warrior(1, 100);
    warrior.position_state_transition.previous = WarriorPositionState::Idle;
    update_warriors_hitbox(
        &mut warrior,
        &UpdateWarriorHitbox { warrior_entity: 1, position_state: WarriorPositionState::Fallen },
    );
    assert_eq!(warrior.collider_half_extents.x, 1170);
    assert_eq!(warrior.collider_half_extents.y, 325);
    assert_eq!(warrior.translation_y, 100);
}

#[test]
fn hitbox_update_undoes_the_crouch_offset_on_stand_up() {
    let mut warrior = spawn_warrior(1, 0);
    update_warriors_hitbox(
        &mut warrior,
        &UpdateWarriorHitbox { warrior_entity: 1, position_state: WarriorPositionState::Crouching },
    );
    assert_eq!(warrior.translation_y, -585);

    warrior.position_state_transition.previous = WarriorPositionState::Crouching;
    update_warriors_hitbox(
        &mut warrior,
        &UpdateWarriorHitbox { warrior_entity: 1, position_state: WarriorPositionState::Idle },
    );
    assert_eq!(warrior.translation_y, 0);
    assert_eq!(warrior.collider_half_extents.x, 325);
}
