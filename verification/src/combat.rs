use vstd::prelude::*;

use crate::enemy::Enemy;
use crate::timer::Timer;
use crate::unit::Unit;
use crate::unit::UnitBundle;

verus! {

/// A patrolling unit catches an approaching enemy when the fraction of its
/// patrol already flown has reached the fraction of the enemy's approach
/// still ahead: elapsed/duration of the patrol at least (duration - elapsed)
/// / duration of the approach, compared exactly by cross-multiplication. A
/// zero-duration timer on either side counts as a journey already complete.
pub open spec fn spec_catches(patrol: Timer, approach: Timer) -> bool {
    patrol.elapsed_ms * approach.duration_ms + approach.elapsed_ms * patrol.duration_ms
        >= patrol.duration_ms * approach.duration_ms
}

/// The product of two timer fields fits a `u128`.
proof fn lemma_u64_mul_fits(x: u64, y: u64)
    ensures
        x * y <= u128::MAX,
{
    assert(x * y <= 0xffffffffffffffff * 0xffffffffffffffff) by (nonlinear_arith)
        requires
            x <= 0xffffffffffffffffu64,
            y <= 0xffffffffffffffffu64,
    ;
}

/// Exact comparison of patrol progress against enemy remainder.
pub fn catches(patrol: &Timer, approach: &Timer) -> (r: bool)
    ensures
        r == spec_catches(*patrol, *approach),
{
    proof {
        lemma_u64_mul_fits(patrol.elapsed_ms, approach.duration_ms);
        lemma_u64_mul_fits(approach.elapsed_ms, patrol.duration_ms);
        lemma_u64_mul_fits(patrol.duration_ms, approach.duration_ms);
    }
    let a: u128 = (patrol.elapsed_ms as u128) * (approach.duration_ms as u128);
    let b: u128 = (approach.elapsed_ms as u128) * (patrol.duration_ms as u128);
    let c: u128 = (patrol.duration_ms as u128) * (approach.duration_ms as u128);
    if a >= c {
        true
    } else {
        b >= c - a
    }
}

/// A unit may intercept an enemy when it is patrolling the enemy's lane and
/// its progress has caught up with the enemy's remainder.
pub open spec fn spec_eligible(ub: UnitBundle, e: Enemy) -> bool {
    ub.0 matches Unit::Patrolling(t, ct) && ct == e.combat_type && spec_catches(t, e.progress)
}

pub fn eligible(ub: &UnitBundle, e: &Enemy) -> (r: bool)
    ensures
        r == spec_eligible(*ub, *e),
{
    match &ub.0 {
        Unit::Patrolling(t, ct) => *ct == e.combat_type && catches(t, &e.progress),
        _ => false,
    }
}

/// The position of the first unit at or after `i` that may intercept `e`;
/// stable input order is the tie-break when several qualify.
pub open spec fn spec_first_eligible_from(units: Seq<UnitBundle>, e: Enemy, i: int) -> Option<int>
    decreases units.len() - i,
    when 0 <= i
{
    if i >= units.len() {
        None
    } else if spec_eligible(units[i], e) {
        Some(i)
    } else {
        spec_first_eligible_from(units, e, i + 1)
    }
}

/// The units after the one at `i` intercepts: it turns for home carrying its
/// patrol timer, so the return trip mirrors the outbound leg, and it takes a
/// hit; a unit whose health is exhausted is removed from play.
pub open spec fn spec_after_hit(units: Seq<UnitBundle>, i: int) -> Seq<UnitBundle>
    recommends
        0 <= i < units.len(),
{
    let ub = units[i];
    let sent_home = match ub.0 {
        Unit::Patrolling(t, ct) => Unit::Returning(t, ct),
        _ => ub.0,
    };
    if ub.1.spec_survives_hit() {
        units.update(i, UnitBundle(sent_home, ub.1.spec_after_hit()))
    } else {
        units.remove(i)
    }
}

/// The combat resolution of one frame: enemies are taken in order; each is
/// intercepted by the first eligible unit, if any, and removed, the unit
/// turning for home with one hit of wear; enemies nobody intercepts remain,
/// in order.
pub open spec fn spec_resolve(units: Seq<UnitBundle>, enemies: Seq<Enemy>) -> (
    Seq<UnitBundle>,
    Seq<Enemy>,
)
    decreases enemies.len(),
{
    if enemies.len() == 0 {
        (units, enemies)
    } else {
        let e = enemies[0];
        let rest = enemies.drop_first();
        match spec_first_eligible_from(units, e, 0) {
            Some(i) => spec_resolve(spec_after_hit(units, i), rest),
            None => {
                let r = spec_resolve(units, rest);
                (r.0, seq![e] + r.1)
            },
        }
    }
}

/// Find the first unit that may intercept `e`, if any.
fn first_eligible(units: &Vec<UnitBundle>, e: &Enemy) -> (r: Option<usize>)
    ensures
        match r {
            Some(i) => {
                &&& spec_first_eligible_from(units@, *e, 0) == Some(i as int)
                &&& i < units@.len()
                &&& spec_eligible(units@[i as int], *e)
            },
            None => spec_first_eligible_from(units@, *e, 0) is None,
        },
{
    let mut i: usize = 0;
    while i < units.len()
        invariant
            0 <= i <= units@.len(),
            spec_first_eligible_from(units@, *e, 0) == spec_first_eligible_from(
                units@,
                *e,
                i as int,
            ),
        decreases units@.len() - i,
    {
        if eligible(&units[i], e) {
            return Some(i);
        }
        i = i + 1;
    }
    None
}

/// Match patrolling units against approaching enemies, lane by lane.
///
/// Deterministic: the outcome is a function of the two collections alone,
/// and when no unit-enemy pair of matching type satisfies the progress
/// comparison, both collections are left unchanged (see
/// [`lemma_resolve_no_eligible_pair`]).
pub fn units_meet_enemies(units: &mut Vec<UnitBundle>, enemies: &mut Vec<Enemy>)
    ensures
        final(units)@ == spec_resolve(old(units)@, old(enemies)@).0,
        final(enemies)@ == spec_resolve(old(units)@, old(enemies)@).1,
{
    let ghost units0 = units@;
    let ghost enemies0 = enemies@;
    let mut kept: Vec<Enemy> = Vec::new();
    let mut j: usize = 0;

    proof {
        assert(enemies0.skip(0) =~= enemies0);
        assert(kept@ + spec_resolve(units@, enemies0).1 =~= spec_resolve(units@, enemies0).1);
    }

    while j < enemies.len()
        invariant
            0 <= j <= enemies@.len(),
            enemies@ == enemies0,
            spec_resolve(units0, enemies0).0 == spec_resolve(units@, enemies0.skip(j as int)).0,
            spec_resolve(units0, enemies0).1 == kept@ + spec_resolve(
                units@,
                enemies0.skip(j as int),
            ).1,
        decreases enemies@.len() - j,
    {
        let e = enemies[j];
        let ghost pending = enemies0.skip(j as int);
        proof {
            assert(pending[0] == e);
            assert(pending.drop_first() =~= enemies0.skip(j as int + 1));
        }
        match first_eligible(units, &e) {
            Some(i) => {
                let ub = units[i];
                let mut unit = ub.0;
                let mut health = ub.1;
                let _ = unit.return_to_base();
                let alive = health.take_hit();
                if alive {
                    units[i] = UnitBundle(unit, health);
                } else {
                    units.remove(i);
                }
            },
            None => {
                kept.push(e);
            },
        }
        j = j + 1;
    }

    proof {
        assert(enemies0.skip(enemies0.len() as int) =~= Seq::<Enemy>::empty());
        assert(kept@ + spec_resolve(units@, enemies0.skip(enemies0.len() as int)).1 =~= kept@);
    }
    *enemies = kept;
}

/// When no unit may intercept any enemy, combat resolution changes nothing.
pub proof fn lemma_resolve_no_eligible_pair(units: Seq<UnitBundle>, enemies: Seq<Enemy>)
    requires
        forall|i: int, j: int|
            0 <= i < units.len() && 0 <= j < enemies.len() ==> !#[trigger] spec_eligible(
                units[i],
                enemies[j],
            ),
    ensures
        spec_resolve(units, enemies) == (units, enemies),
    decreases enemies.len(),
{
    if enemies.len() == 0 {
    } else {
        let e = enemies[0];
        lemma_first_eligible_none(units, e, 0);
        lemma_resolve_no_eligible_pair(units, enemies.drop_first());
        assert(seq![e] + enemies.drop_first() =~= enemies);
    }
}

/// If no unit from position `i` on is eligible for `e`, none is found.
proof fn lemma_first_eligible_none(units: Seq<UnitBundle>, e: Enemy, i: int)
    requires
        0 <= i,
        forall|k: int| i <= k < units.len() ==> !spec_eligible(#[trigger] units[k], e),
    ensures
        spec_first_eligible_from(units, e, i) is None,
    decreases units.len() - i,
{
    if i < units.len() {
        lemma_first_eligible_none(units, e, i + 1);
    }
}

} // verus!
