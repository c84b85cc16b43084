use warrior_core::attack::AttackHit;
use warrior_core::attack::AttackParty;
use warrior_core::attack::AttackVolume;
use warrior_core::attack::DAMAGED_TIMER_DURATION_MS;
use warrior_core::attack::WarriorContactReport;
use warrior_core::attack::attack_collides_player;
use warrior_core::attack::attack_hits;
use warrior_core::attack::damage_timer_finished;
use warrior_core::attack::tmp_spawn_fixed_attack;
use warrior_core::hitbox::HalfExtents;
use warrior_core::states::DamagedState;
use warrior_core::states::TimerMode;
use warrior_core::stats::WarriorKind;
use warrior_core::warrior::spawn_warrior;

#[test]
fn fixed_attack_is_an_enemy_square_at_origin() {
    let attack_volume = tmp_spawn_fixed_attack(99);
    assert_eq!(attack_volume.entity, 99);
    assert_eq!(attack_volume.party, AttackParty::Enemy);
    assert_eq!(attack_volume.x, 0);
    assert_eq!(attack_volume.y, 0);
    assert_eq!(attack_volume.half_extents, HalfExtents { x: 45, y: 45 });
}

fn volume(entity: u64, party: AttackParty) -> AttackVolume {
    AttackVolume { entity, party, x: 0, y: 0, half_extents: HalfExtents { x: 45, y: 45 } }
}

#[test]
fn only_opposing_party_contacts_count_as_hits() {
    let attacks = vec![volume(10, AttackParty::Ally), volume(11, AttackParty::Enemy)];
    let warriors = vec![
        WarriorContactReport { warrior_entity: 1, is_ally: true, contacts: vec![10, 11] },
        WarriorContactReport { warrior_entity: 2, is_ally: false, contacts: vec![10, 11] },
    ];
    let events = attack_collides_player(&warriors, &attacks);
    assert_eq!(
        events,
        vec![
            AttackHit { warrior_entity: 1, attack_entity: 11 },
            AttackHit { warrior_entity: 2, attack_entity: 10 },
        ]
    );
}

#[test]
fn contacts_with_no_hit_volume_produce_no_events() {
    let attacks = vec![volume(10, AttackParty::Enemy)];
    let warriors = vec![WarriorContactReport {
        warrior_entity: 1,
        is_ally: true,
        contacts: vec![5, 6, 7],
    }];
    let events = attack_collides_player(&warriors, &attacks);
    assert!(events.is_empty());
}

#[test]
fn repeated_contact_emits_one_event_per_contact() {
    let attacks = vec![volume(10, AttackParty::Enemy)];
    let warriors = vec![WarriorContactReport {
        warrior_entity: 1,
        is_ally: true,
        contacts: vec![10, 10],
    }];
    let events = attack_collides_player(&warriors, &attacks);
    assert_eq!(events.len(), 2);
}

#[test]
fn a_hit_sets_damage_state_and_restarts_the_stun_timer() {
    let mut warrior = spawn_warrior(1, 0);
    assert_eq!(warrior.kind, WarriorKind::Jotaile);
    assert_eq!(warrior.damaged_state, DamagedState::Unharmed);
    assert!(warrior.damaged_timer.is_none());

    attack_hits(&mut warrior, &AttackHit { warrior_entity: 1, attack_entity: 99 });
    assert_eq!(warrior.damaged_state, DamagedState::Hit);
    let stun = warrior.damaged_timer.expect("stun timer attached");
    assert_eq!(stun.timer.duration_ms, DAMAGED_TIMER_DURATION_MS);
    assert_eq!(stun.timer.elapsed_ms, 0);
    assert_eq!(stun.timer.mode, TimerMode::Once);

    // A second hit restarts the timer from zero rather than stacking.
    let mut warrior = warrior;
    warrior.damaged_timer.as_mut().unwrap().timer.tick(600);
    attack_hits(&mut warrior, &AttackHit { warrior_entity: 1, attack_entity: 98 });
    assert_eq!(warrior.damaged_timer.unwrap().timer.elapsed_ms, 0);
}

#[test]
fn stun_completion_reverts_damage_state_and_detaches_timer() {
    let mut warrior = spawn_warrior(1, 0);
    attack_hits(&mut warrior, &AttackHit { warrior_entity: 1, attack_entity: 99 });
    damage_timer_finished(&mut warrior);
    assert_eq!(warrior.damaged_state, DamagedState::Unharmed);
    assert!(warrior.damaged_timer.is_none());
}
