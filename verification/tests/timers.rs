use warrior_core::states::DamagedTimer;
use warrior_core::states::Timer;
use warrior_core::states::TimerMode;
use warrior_core::states::WarriorJumpingTimer;
use warrior_core::states::tick_state_timer;
use warrior_core::states::tick_states_timers;

#[test]
fn once_timer_fires_exactly_at_duration() {
    let mut timer = Timer::from_millis(400, TimerMode::Once);
    assert!(!timer.finished());
    timer.tick(399);
    assert!(!timer.finished());
    assert!(!timer.just_finished());
    timer.tick(1);
    assert!(timer.finished());
    assert!(timer.just_finished());
    assert_eq!(timer.elapsed_ms, 400);
}

#[test]
fn once_timer_never_fires_twice_without_reset() {
    let mut timer = Timer::from_millis(100, TimerMode::Once);
    timer.tick(150);
    assert!(timer.just_finished());
    timer.tick(16);
    assert!(timer.finished());
    assert!(!timer.just_finished());
    timer.tick(1000);
    assert!(!timer.just_finished());
}

#[test]
fn once_timer_overshoot_clamps_to_duration() {
    let mut timer = Timer::from_millis(100, TimerMode::Once);
    timer.tick(250);
    assert!(timer.just_finished());
    assert_eq!(timer.elapsed_ms, 100);
}

#[test]
fn reset_rearms_a_finished_timer() {
    let mut timer = Timer::from_millis(100, TimerMode::Once);
    timer.tick(100);
    assert!(timer.finished());
    timer.reset();
    assert!(!timer.finished());
    assert_eq!(timer.elapsed_ms, 0);
    timer.tick(100);
    assert!(timer.just_finished());
}

#[test]
fn repeating_timer_wraps_and_fires_each_period() {
    let mut timer = Timer::from_millis(750, TimerMode::Repeating);
    timer.tick(375);
    assert!(!timer.just_finished());
    assert!(!timer.finished());
    timer.tick(375);
    assert!(timer.just_finished());
    assert!(timer.finished());
    assert_eq!(timer.elapsed_ms, 0);
    timer.tick(800);
    assert!(timer.just_finished());
    assert_eq!(timer.elapsed_ms, 50);
}

#[test]
fn default_timer_is_elapsed_once_mode() {
    let timer = Timer::default();
    assert_eq!(timer.duration_ms, 0);
    assert_eq!(timer.elapsed_ms, 0);
    assert_eq!(timer.mode, TimerMode::Once);
    assert!(!timer.just_finished);
}

#[test]
fn tick_state_timer_reports_completion_once() {
    let mut record = WarriorJumpingTimer { timer: Timer::from_millis(400, TimerMode::Once) };
    assert!(!tick_state_timer(&mut record, 399));
    assert!(tick_state_timer(&mut record, 1));
    assert!(!tick_state_timer(&mut record, 500));
}

#[test]
fn tick_states_timers_notifies_only_finishing_entities() {
    let mut timers: Vec<(u64, DamagedTimer)> = vec![
        (7, DamagedTimer { timer: Timer::from_millis(1000, TimerMode::Once) }),
        (8, DamagedTimer { timer: Timer::from_millis(50, TimerMode::Once) }),
        (9, DamagedTimer { timer: Timer::from_millis(120, TimerMode::Once) }),
    ];
    let events = tick_states_timers(&mut timers, 100);
    let notified: Vec<u64> = events.iter().map(|e| e.0).collect();
    assert_eq!(notified, vec![8]);
    assert_eq!(timers[0].1.timer.elapsed_ms, 100);
    assert_eq!(timers[1].1.timer.elapsed_ms, 50);
    assert_eq!(timers[2].1.timer.elapsed_ms, 100);

    let events = tick_states_timers(&mut timers, 100);
    let notified: Vec<u64> = events.iter().map(|e| e.0).collect();
    assert_eq!(notified, vec![9]);

    let events = tick_states_timers(&mut timers, 100);
    assert!(events.is_empty());
}
