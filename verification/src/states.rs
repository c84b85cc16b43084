//! Warrior state enums and the timed-state framework: a countdown timer
//! in "fire once" or repeating mode, a trait exposing such a timer, and a
//! generic scheduler that ticks every registered timer and reports which
//! ones completed on this very tick.

use vstd::prelude::*;

verus! {

/// Whether a timer stops at its duration or wraps around and fires again.
#[derive(Clone, Copy, PartialEq, Eq, Structural, Debug)]
pub enum TimerMode {
    Once,
    Repeating,
}

/// A countdown timer over whole milliseconds.
///
/// `Once` timers accumulate elapsed time up to their duration and report
/// completion exactly once, on the tick that reaches the duration.
/// `Repeating` timers wrap around their duration and report completion on
/// every tick that crosses it.
#[derive(Clone, Copy, PartialEq, Eq, Structural, Debug)]
pub struct Timer {
    pub duration_ms: u32,
    pub elapsed_ms: u32,
    pub mode: TimerMode,
    pub just_finished: bool,
}

/// The value a timer holds after one tick of `delta_ms` milliseconds.
pub open spec fn spec_tick(t: Timer, delta_ms: u32) -> Timer {
    match t.mode {
        TimerMode::Once => {
            if t.elapsed_ms >= t.duration_ms {
                Timer { just_finished: false, ..t }
            } else if t.elapsed_ms + delta_ms >= t.duration_ms {
                Timer { elapsed_ms: t.duration_ms, just_finished: true, ..t }
            } else {
                Timer { elapsed_ms: (t.elapsed_ms + delta_ms) as u32, just_finished: false, ..t }
            }
        }
        TimerMode::Repeating => {
            Timer {
                elapsed_ms: ((t.elapsed_ms + delta_ms) % (t.duration_ms as int)) as u32,
                just_finished: t.elapsed_ms + delta_ms >= t.duration_ms,
                ..t
            }
        }
    }
}

impl Timer {
    /// Internal sanity: a `Once` timer never holds more elapsed time than
    /// its duration, and a `Repeating` timer has a positive period and an
    /// elapsed time strictly below it.
    pub open spec fn wf(self) -> bool {
        match self.mode {
            TimerMode::Once => self.elapsed_ms <= self.duration_ms,
            TimerMode::Repeating => self.duration_ms > 0 && self.elapsed_ms < self.duration_ms,
        }
    }

    /// A timer counts as finished once its elapsed time has reached its
    /// duration; a repeating timer only on the tick it wrapped.
    pub open spec fn spec_finished(self) -> bool {
        match self.mode {
            TimerMode::Once => self.elapsed_ms >= self.duration_ms,
            TimerMode::Repeating => self.just_finished,
        }
    }

    pub fn from_millis(duration_ms: u32, mode: TimerMode) -> (t: Timer)
        requires
            mode is Repeating ==> duration_ms > 0,
        ensures
            t == (Timer { duration_ms, elapsed_ms: 0, mode, just_finished: false }),
            t.wf(),
    {
        Timer { duration_ms, elapsed_ms: 0, mode, just_finished: false }
    }

    /// Advance the timer by `delta_ms` milliseconds.
    pub fn tick(&mut self, delta_ms: u32)
        requires
            old(self).wf(),
        ensures
            *final(self) == spec_tick(*old(self), delta_ms),
            final(self).wf(),
    {
        match self.mode {
            TimerMode::Once => {
                if self.elapsed_ms >= self.duration_ms {
                    self.just_finished = false;
                } else {
                    let total: u64 = self.elapsed_ms as u64 + delta_ms as u64;
                    if total >= self.duration_ms as u64 {
                        self.elapsed_ms = self.duration_ms;
                        self.just_finished = true;
                    } else {
                        self.elapsed_ms = total as u32;
                        self.just_finished = false;
                    }
                }
            }
            TimerMode::Repeating => {
                let total: u64 = self.elapsed_ms as u64 + delta_ms as u64;
                self.elapsed_ms = (total % (self.duration_ms as u64)) as u32;
                self.just_finished = total >= self.duration_ms as u64;
            }
        }
    }

    /// Rewind the timer to the start without firing.
    pub fn reset(&mut self)
        ensures
            *final(self) == (Timer { elapsed_ms: 0, just_finished: false, ..*old(self) }),
    {
        self.elapsed_ms = 0;
        self.just_finished = false;
    }

    pub fn finished(&self) -> (r: bool)
        ensures
            r == self.spec_finished(),
    {
        match self.mode {
            TimerMode::Once => self.elapsed_ms >= self.duration_ms,
            TimerMode::Repeating => self.just_finished,
        }
    }

    pub fn just_finished(&self) -> (r: bool)
        ensures
            r == self.just_finished,
    {
        self.just_finished
    }
}

/// The timer a `Default` call hands out: an already-elapsed zero-length
/// `Once` timer.
pub open spec fn spec_default_timer() -> Timer {
    Timer { duration_ms: 0, elapsed_ms: 0, mode: TimerMode::Once, just_finished: false }
}

impl Default for Timer {
    fn default() -> (t: Timer)
        ensures
            t == spec_default_timer(),
            t.wf(),
    {
        Timer { duration_ms: 0, elapsed_ms: 0, mode: TimerMode::Once, just_finished: false }
    }
}

/// A state record that owns a countdown timer, so that the generic
/// scheduler below can tick it and report its completion. Meant for
/// timers in `Once` mode.
pub trait StateTimer: Sized {
    /// The timer this record currently holds.
    spec fn spec_timer(&self) -> Timer;

    fn get_timer(&mut self) -> (t: &mut Timer)
        ensures
            *t == old(self).spec_timer(),
            final(self).spec_timer() == *final(t),
    ;
}

/// Notification that the timer of one record of kind `T` completed on
/// this tick, carrying the identity of the entity that owns the record.
/// The notification is typed by the record kind, so completions of one
/// timed behavior are never observed by consumers of another.
pub struct StateTimerFinished<T: StateTimer>(pub u64, pub core::marker::PhantomData<T>);

impl<T: StateTimer> StateTimerFinished<T> {
    pub fn new(entity: u64) -> (e: Self)
        ensures
            e.0 == entity,
    {
        StateTimerFinished(entity, core::marker::PhantomData)
    }
}

/// Tick the timer of a single state record and say whether it completed
/// on this very tick (fire-once semantics: a `Once` timer that was
/// already finished reports `false`).
pub fn tick_state_timer<T: StateTimer>(record: &mut T, delta_ms: u32) -> (completed: bool)
    requires
        old(record).spec_timer().wf(),
    ensures
        final(record).spec_timer() == spec_tick(old(record).spec_timer(), delta_ms),
        final(record).spec_timer().wf(),
        completed == spec_tick(old(record).spec_timer(), delta_ms).just_finished,
{
    let t = record.get_timer();
    let mut ticked: Timer = *t;
    ticked.tick(delta_ms);
    let completed = ticked.just_finished;
    *t = ticked;
    completed
}

/// The entities, in order, whose timers complete when every pair in
/// `timers` is ticked by `delta_ms`.
pub open spec fn spec_finished_entities(timers: Seq<(u64, Timer)>, delta_ms: u32) -> Seq<u64>
    decreases timers.len(),
{
    if timers.len() == 0 {
        Seq::empty()
    } else {
        let rest = spec_finished_entities(timers.drop_last(), delta_ms);
        if spec_tick(timers.last().1, delta_ms).just_finished {
            rest.push(timers.last().0)
        } else {
            rest
        }
    }
}

/// Tick every registered timer of kind `T` by the frame's elapsed time
/// and collect one completion notification per timer that reaches its
/// duration on this tick. Removal of a record before completion simply
/// keeps it out of `state_timers`: no notification fires for it.
pub fn tick_states_timers<T: StateTimer>(
    state_timers: &mut Vec<(u64, T)>,
    delta_ms: u32,
) -> (events: Vec<StateTimerFinished<T>>)
    requires
        forall|i: int|
            0 <= i < old(state_timers)@.len() ==> (#[trigger] old(state_timers)@[i].1.spec_timer()).wf(),
    ensures
        final(state_timers)@.len() == old(state_timers)@.len(),
        forall|i: int|
            0 <= i < old(state_timers)@.len() ==> {
                &&& (#[trigger] final(state_timers)@[i]).0 == old(state_timers)@[i].0
                &&& final(state_timers)@[i].1.spec_timer() == spec_tick(
                    old(state_timers)@[i].1.spec_timer(),
                    delta_ms,
                )
            },
        events@.map_values(|e: StateTimerFinished<T>| e.0) == spec_finished_entities(
            old(state_timers)@.map_values(|p: (u64, T)| (p.0, p.1.spec_timer())),
            delta_ms,
        ),
{
    let ghost all: Seq<(u64, Timer)> = old(state_timers)@.map_values(
        |p: (u64, T)| (p.0, p.1.spec_timer()),
    );
    let mut events: Vec<StateTimerFinished<T>> = Vec::new();
    let n = state_timers.len();
    let mut i: usize = 0;
    while i < n
        invariant
            i <= n,
            n == state_timers@.len(),
            n == old(state_timers)@.len(),
            all == old(state_timers)@.map_values(|p: (u64, T)| (p.0, p.1.spec_timer())),
            forall|j: int|
                i <= j < n ==> #[trigger] state_timers@[j] == old(state_timers)@[j],
            forall|j: int|
                0 <= j < n ==> (#[trigger] old(state_timers)@[j].1.spec_timer()).wf(),
            forall|j: int|
                0 <= j < i ==> {
                    &&& (#[trigger] state_timers@[j]).0 == old(state_timers)@[j].0
                    &&& state_timers@[j].1.spec_timer() == spec_tick(
                        old(state_timers)@[j].1.spec_timer(),
                        delta_ms,
                    )
                },
            events@.map_values(|e: StateTimerFinished<T>| e.0) == spec_finished_entities(
                all.take(i as int),
                delta_ms,
            ),
        decreases n - i,
    {
        let entity = state_timers[i].0;
        let pair = &mut state_timers[i];
        let completed = tick_state_timer(&mut pair.1, delta_ms);
        if completed {
            events.push(StateTimerFinished::new(entity));
        }
        proof {
            assert(all.take(i + 1).drop_last() =~= all.take(i as int));
            assert(all.take(i + 1).last() == all[i as int]);
            assert(events@.map_values(|e: StateTimerFinished<T>| e.0) =~= spec_finished_entities(
                all.take(i + 1),
                delta_ms,
            ));
        }
        i = i + 1;
    }
    proof {
        assert(all.take(n as int) =~= all);
    }
    events
}

/// The warrior's current stance or motion mode. This is the whole of it:
/// a warrior is never in any state outside these five.
#[derive(Clone, Copy, PartialEq, Eq, Structural, Debug)]
pub enum WarriorPositionState {
    Idle,
    Walking,
    Jumping,
    Crouching,
    Fallen,
}

impl Default for WarriorPositionState {
    fn default() -> (s: WarriorPositionState)
        ensures
            s is Idle,
    {
        WarriorPositionState::Idle
    }
}

/// Every warrior position state is one of the five declared stances;
/// there is no undefined stance.
pub proof fn lemma_position_state_cases(s: WarriorPositionState)
    ensures
        s is Idle || s is Walking || s is Jumping || s is Crouching || s is Fallen,
{
}

/// The position state a warrior was in immediately before its most
/// recent transition. Written every time the position state changes,
/// before the new value is assigned.
#[derive(Clone, Copy, PartialEq, Eq, Structural, Debug)]
pub struct WarriorPositionStateTransition {
    pub previous: WarriorPositionState,
}

impl Default for WarriorPositionStateTransition {
    fn default() -> (t: WarriorPositionStateTransition)
        ensures
            t.previous is Idle,
    {
        WarriorPositionStateTransition { previous: WarriorPositionState::Idle }
    }
}

/// Which way the warrior faces. Declared for future horizontal-flip
/// behavior; nothing mutates it yet.
#[derive(Clone, Copy, PartialEq, Eq, Structural, Debug)]
pub enum FacingPosition {
    Right,
    Left,
}

impl Default for FacingPosition {
    fn default() -> (f: FacingPosition)
        ensures
            f is Right,
    {
        FacingPosition::Right
    }
}

/// While attached to a warrior, the jump is underway: upward intent
/// until the timer completes, downward intent after, until grounding
/// removes the record.
#[derive(Clone, Copy, PartialEq, Eq, Structural, Debug)]
pub struct WarriorJumpingTimer {
    pub timer: Timer,
}

impl StateTimer for WarriorJumpingTimer {
    open spec fn spec_timer(&self) -> Timer {
        self.timer
    }

    fn get_timer(&mut self) -> (t: &mut Timer) {
        &mut self.timer
    }
}

impl Default for WarriorJumpingTimer {
    fn default() -> (j: WarriorJumpingTimer)
        ensures
            j.timer == spec_default_timer(),
    {
        WarriorJumpingTimer { timer: Timer::default() }
    }
}

/// While attached to a warrior, the hit stun is underway; its completion
/// clears the warrior's damaged state.
#[derive(Clone, Copy, PartialEq, Eq, Structural, Debug)]
pub struct DamagedTimer {
    pub timer: Timer,
}

impl StateTimer for DamagedTimer {
    open spec fn spec_timer(&self) -> Timer {
        self.timer
    }

    fn get_timer(&mut self) -> (t: &mut Timer) {
        &mut self.timer
    }
}

impl Default for DamagedTimer {
    fn default() -> (d: DamagedTimer)
        ensures
            d.timer == spec_default_timer(),
    {
        DamagedTimer { timer: Timer::default() }
    }
}

/// Whether the warrior currently suffers from a hit.
#[derive(Clone, Copy, PartialEq, Eq, Structural, Debug)]
pub enum DamagedState {
    Unharmed,
    Hit,
    Stunned,
}

impl Default for DamagedState {
    fn default() -> (d: DamagedState)
        ensures
            d is Unharmed,
    {
        DamagedState::Unharmed
    }
}

} // verus!
