//! The attack/damage resolver: party-tagged hit volumes, hit detection
//! against the contact lists the physics host reports, and the damage
//! state and stun timer a hit applies.

use vstd::prelude::*;

use crate::assets::SUBPIXELS_PER_PIXEL;
use crate::hitbox::HalfExtents;
use crate::states::DamagedState;
use crate::states::DamagedTimer;
use crate::states::Timer;
use crate::states::TimerMode;
use crate::warrior::Warrior;

verus! {

/// How long a hit stuns: 1 second.
pub const DAMAGED_TIMER_DURATION_MS: u32 = 1000;

/// Half-extent of the fixed test attack volume: a 5-pixel half-square.
pub const FIXED_ATTACK_HALF_EXTENT: u64 = 5 * SUBPIXELS_PER_PIXEL;

/// Marker for a hit volume.
#[derive(Clone, Copy, Debug)]
pub struct Attack;

/// Which side a hit volume fights for; it damages only characters of
/// the opposite party.
#[derive(Clone, Copy, PartialEq, Eq, Structural, Debug)]
pub enum AttackParty {
    Ally,
    Enemy,
}

impl Default for AttackParty {
    fn default() -> (party: AttackParty)
        ensures
            party is Ally,
    {
        AttackParty::Ally
    }
}

/// A hit volume as the resolver sees it: the entity the physics host
/// reports on contact, the party it fights for, and its static shape
/// and position, in subpixels.
#[derive(Clone, Copy, PartialEq, Eq, Structural, Debug)]
pub struct AttackVolume {
    pub entity: u64,
    pub party: AttackParty,
    pub x: i64,
    pub y: i64,
    pub half_extents: HalfExtents,
}

/// Notification that one warrior was hit by one attack volume.
#[derive(Clone, Copy, PartialEq, Eq, Structural, Debug)]
pub struct AttackHit {
    pub warrior_entity: u64,
    pub attack_entity: u64,
}

/// One warrior's contact report for the tick: the contacts the physics
/// host saw on its movable body, and whether the warrior fights as an
/// ally.
#[derive(Clone, Debug)]
pub struct WarriorContactReport {
    pub warrior_entity: u64,
    pub is_ally: bool,
    pub contacts: Vec<u64>,
}

/// The static enemy hit volume the prototype places at the origin.
pub fn tmp_spawn_fixed_attack(entity: u64) -> (attack_volume: AttackVolume)
    ensures
        attack_volume == (AttackVolume {
            entity,
            party: AttackParty::Enemy,
            x: 0,
            y: 0,
            half_extents: HalfExtents {
                x: FIXED_ATTACK_HALF_EXTENT,
                y: FIXED_ATTACK_HALF_EXTENT,
            },
        }),
{
    AttackVolume {
        entity,
        party: AttackParty::Enemy,
        x: 0,
        y: 0,
        half_extents: HalfExtents { x: FIXED_ATTACK_HALF_EXTENT, y: FIXED_ATTACK_HALF_EXTENT },
    }
}

/// The party whose hit volumes damage a warrior of the given side.
pub open spec fn spec_damaging_party(is_ally_warrior: bool) -> AttackParty {
    if is_ally_warrior {
        AttackParty::Enemy
    } else {
        AttackParty::Ally
    }
}

/// Whether `contact_entity` is a hit volume of the party that damages
/// the given side.
pub open spec fn spec_attack_matches(
    attacks: Seq<AttackVolume>,
    is_ally_warrior: bool,
    contact_entity: u64,
) -> bool {
    exists|i: int|
        0 <= i < attacks.len() && (#[trigger] attacks[i]).entity == contact_entity
            && attacks[i].party == spec_damaging_party(is_ally_warrior)
}

/// The hit notifications one warrior's contact list produces, in
/// contact order.
pub open spec fn spec_warrior_hits(
    warrior_entity: u64,
    contacts: Seq<u64>,
    is_ally_warrior: bool,
    attacks: Seq<AttackVolume>,
) -> Seq<AttackHit>
    decreases contacts.len(),
{
    if contacts.len() == 0 {
        Seq::empty()
    } else {
        let rest = spec_warrior_hits(warrior_entity, contacts.drop_last(), is_ally_warrior, attacks);
        if spec_attack_matches(attacks, is_ally_warrior, contacts.last()) {
            rest.push(AttackHit { warrior_entity, attack_entity: contacts.last() })
        } else {
            rest
        }
    }
}

/// All hit notifications of the tick, warrior by warrior, each
/// warrior's in contact order.
pub open spec fn spec_collect_hits(
    warriors: Seq<WarriorContactReport>,
    attacks: Seq<AttackVolume>,
) -> Seq<AttackHit>
    decreases warriors.len(),
{
    if warriors.len() == 0 {
        Seq::empty()
    } else {
        spec_collect_hits(warriors.drop_last(), attacks) + spec_warrior_hits(
            warriors.last().warrior_entity,
            warriors.last().contacts@,
            warriors.last().is_ally,
            attacks,
        )
    }
}

/// Whether any hit volume in `attacks` is the contact `contact_entity`
/// and of the party that damages the given side.
pub(crate) fn attack_matching(
    attacks: &Vec<AttackVolume>,
    is_ally_warrior: bool,
    contact_entity: u64,
) -> (found: bool)
    ensures
        found == spec_attack_matches(attacks@, is_ally_warrior, contact_entity),
{
    let damaging_party = if is_ally_warrior {
        AttackParty::Enemy
    } else {
        AttackParty::Ally
    };
    let n = attacks.len();
    let mut i: usize = 0;
    while i < n
        invariant
            i <= n,
            n == attacks@.len(),
            damaging_party == spec_damaging_party(is_ally_warrior),
            forall|j: int|
                0 <= j < i ==> !((#[trigger] attacks@[j]).entity == contact_entity
                    && attacks@[j].party == damaging_party),
        decreases n - i,
    {
        if attacks[i].entity == contact_entity && attacks[i].party == damaging_party {
            return true;
        }
        i = i + 1;
    }
    false
}

/// Inspect every warrior's contact list against the hit volumes and
/// collect one hit notification per contact with a volume of the
/// opposing party.
pub fn attack_collides_player(
    warriors: &Vec<WarriorContactReport>,
    attacks: &Vec<AttackVolume>,
) -> (collision_events: Vec<AttackHit>)
    ensures
        collision_events@ == spec_collect_hits(warriors@, attacks@),
{
    let mut collision_events: Vec<AttackHit> = Vec::new();
    let warriors_amount = warriors.len();
    let mut wi: usize = 0;
    while wi < warriors_amount
        invariant
            wi <= warriors_amount,
            warriors_amount == warriors@.len(),
            collision_events@ == spec_collect_hits(warriors@.take(wi as int), attacks@),
        decreases warriors_amount - wi,
    {
        let warrior_entity = warriors[wi].warrior_entity;
        let is_ally = warriors[wi].is_ally;
        let contacts_amount = warriors[wi].contacts.len();
        let mut ci: usize = 0;
        while ci < contacts_amount
            invariant
                wi < warriors_amount,
                ci <= contacts_amount,
                warriors_amount == warriors@.len(),
                warrior_entity == warriors@[wi as int].warrior_entity,
                is_ally == warriors@[wi as int].is_ally,
                contacts_amount == warriors@[wi as int].contacts@.len(),
                collision_events@ == spec_collect_hits(warriors@.take(wi as int), attacks@)
                    + spec_warrior_hits(
                    warrior_entity,
                    warriors@[wi as int].contacts@.take(ci as int),
                    is_ally,
                    attacks@,
                ),
            decreases contacts_amount - ci,
        {
            let contact_entity = warriors[wi].contacts[ci];
            if attack_matching(attacks, is_ally, contact_entity) {
                collision_events.push(AttackHit { warrior_entity, attack_entity: contact_entity });
            }
            proof {
                let contacts = warriors@[wi as int].contacts@;
                assert(contacts.take(ci + 1).drop_last() =~= contacts.take(ci as int));
                assert(contacts.take(ci + 1).last() == contacts[ci as int]);
            }
            ci = ci + 1;
        }
        proof {
            let contacts = warriors@[wi as int].contacts@;
            assert(contacts.take(contacts_amount as int) =~= contacts);
            assert(warriors@.take(wi + 1).drop_last() =~= warriors@.take(wi as int));
            assert(warriors@.take(wi + 1).last() == warriors@[wi as int]);
        }
        wi = wi + 1;
    }
    proof {
        assert(warriors@.take(warriors_amount as int) =~= warriors@);
    }
    collision_events
}

/// The fresh fire-once stun timer a hit attaches.
pub open spec fn spec_fresh_damaged_timer() -> DamagedTimer {
    DamagedTimer {
        timer: Timer {
            duration_ms: DAMAGED_TIMER_DURATION_MS,
            elapsed_ms: 0,
            mode: TimerMode::Once,
            just_finished: false,
        },
    }
}

/// The warrior after one hit: damaged, with its stun timer restarted.
pub open spec fn spec_attack_hit_applied(w: Warrior) -> Warrior {
    Warrior {
        damaged_state: DamagedState::Hit,
        damaged_timer: Some(spec_fresh_damaged_timer()),
        ..w
    }
}

/// Apply one hit notification to the warrior it names: the damaged
/// state becomes `Hit` and the stun timer is restarted from zero,
/// independently of any other hit of the same tick.
pub fn attack_hits(warrior: &mut Warrior, attack_hit: &AttackHit)
    requires
        attack_hit.warrior_entity == old(warrior).entity,
    ensures
        *final(warrior) == spec_attack_hit_applied(*old(warrior)),
        old(warrior).wf() ==> final(warrior).wf(),
{
    warrior.damaged_timer = Some(DamagedTimer {
        timer: Timer::from_millis(DAMAGED_TIMER_DURATION_MS, TimerMode::Once),
    });
    warrior.damaged_state = DamagedState::Hit;
}

/// The warrior after its stun timer completed: unharmed again, the
/// timer record removed.
pub open spec fn spec_damage_timer_finished(w: Warrior) -> Warrior {
    Warrior { damaged_state: DamagedState::Unharmed, damaged_timer: None, ..w }
}

/// Consume the completion of the warrior's stun timer: the damaged
/// state reverts to unharmed, whatever the warrior's stance or
/// grounding, and the timer record is detached.
pub fn damage_timer_finished(warrior: &mut Warrior)
    ensures
        *final(warrior) == spec_damage_timer_finished(*old(warrior)),
        old(warrior).wf() ==> final(warrior).wf(),
{
    warrior.damaged_state = DamagedState::Unharmed;
    warrior.damaged_timer = None;
}

} // verus!
