use vstd::prelude::*;

use crate::pool::ParkingSpace;
use crate::pool::Token;
use crate::pool::TokenPool;
use crate::timer::Timer;

verus! {

/// How long a unit takes to come out of storage.
pub const UNSTORING_MS: u64 = 10000;
/// How long combat preparation takes.
pub const PREPARING_MS: u64 = 5000;
/// How long a patrol lasts.
pub const PATROL_MS: u64 = 30000;
/// How long moving into storage takes.
pub const STORING_MS: u64 = 10000;
/// How long parking takes after waiting.
pub const PARKING_MS: u64 = 5000;

/// Full health, measured in fifteen-thousandths so that both the repair rate
/// (one fifteenth per second, i.e. one unit per millisecond) and the cost of
/// a hit (a quarter) are whole numbers.
pub const HEALTH_FULL: u32 = 15000;
/// What one resolved combat encounter costs: a quarter of full health.
pub const HIT_COST: u32 = 3750;

/// The matching key that partitions units and enemies into independent lanes.
#[derive(Clone, Copy, Debug, PartialEq, Eq, Hash, Structural)]
pub enum CombatType {
    A,
    B,
    C,
    D,
}

impl CombatType {
    /// The combat type at a given position, counting `A`, `B`, `C`, `D` and
    /// wrapping around; uniform indices give uniform types.
    pub fn from_index(i: u32) -> (r: CombatType)
        ensures
            i % 4 == 0 ==> r == CombatType::A,
            i % 4 == 1 ==> r == CombatType::B,
            i % 4 == 2 ==> r == CombatType::C,
            i % 4 == 3 ==> r == CombatType::D,
    {
        match i % 4 {
            0 => CombatType::A,
            1 => CombatType::B,
            2 => CombatType::C,
            _ => CombatType::D,
        }
    }
}

/// A unit's wear, in fifteen-thousandths of full condition.
#[derive(Clone, Copy, Debug, PartialEq, Eq, Structural)]
pub struct Health(pub u32);

impl Health {
    pub open spec fn spec_value(self) -> u32 {
        self.0
    }

    /// A unit survives a hit exactly when it has at least a quarter of full
    /// health left; at exactly zero afterwards it still survives.
    pub open spec fn spec_survives_hit(self) -> bool {
        self.spec_value() >= HIT_COST
    }

    /// Health after one hit; an overwhelmed unit bottoms out at zero.
    pub open spec fn spec_after_hit(self) -> Health {
        if self.spec_survives_hit() {
            Health::spec_new((self.spec_value() - HIT_COST) as u32)
        } else {
            Health::spec_new(0)
        }
    }

    /// Health after repairing for `delta_ms`: one unit per millisecond,
    /// capped at full.
    pub open spec fn spec_repaired(self, delta_ms: u64) -> Health {
        if self.spec_value() + delta_ms >= HEALTH_FULL {
            Health::spec_new(HEALTH_FULL)
        } else {
            Health::spec_new((self.spec_value() + delta_ms) as u32)
        }
    }

    pub open spec fn spec_new(value: u32) -> Health {
        Health(value)
    }

    pub fn new(value: u32) -> (h: Health)
        ensures
            h == Health::spec_new(value),
    {
        Health(value)
    }

    pub fn value(&self) -> (r: u32)
        ensures
            r == self.spec_value(),
    {
        self.0
    }

    /// Record one resolved combat encounter; reports whether the unit is
    /// still fit for duty.
    pub fn take_hit(&mut self) -> (alive: bool)
        ensures
            alive == old(self).spec_survives_hit(),
            *final(self) == old(self).spec_after_hit(),
    {
        if self.0 >= HIT_COST {
            self.0 = self.0 - HIT_COST;
            true
        } else {
            self.0 = 0;
            false
        }
    }

    /// Repair toward full health while the unit sits in storage.
    pub fn repair_tick(&mut self, delta_ms: u64)
        ensures
            *final(self) == old(self).spec_repaired(delta_ms),
    {
        if self.0 >= HEALTH_FULL || delta_ms >= (HEALTH_FULL - self.0) as u64 {
            self.0 = HEALTH_FULL;
        } else {
            self.0 = self.0 + delta_ms as u32;
        }
    }
}

impl Default for Health {
    /// A new unit is in full condition.
    fn default() -> (h: Health)
        ensures
            h == Health::spec_new(HEALTH_FULL),
    {
        Health(HEALTH_FULL)
    }
}

/// Why a player command was refused.
#[derive(Clone, Copy, Debug, PartialEq, Eq, Structural)]
pub enum TransitionError {
    /// The unit is not in a state from which this command is valid.
    InvalidState,
    /// Every parking space is claimed; retry after a release.
    NoCapacity,
}

/// The lifecycle state of one unit. Each parked or transitioning-to-parked
/// state holds exactly one parking-space token; taking off and moving into
/// storage give the token back.
#[derive(Clone, Copy, Debug, PartialEq, Eq)]
pub enum Unit {
    InStorage,
    UnStoring(Timer, Token),
    ParkedUnready(Token),
    ParkedPreparing(Timer, Token, CombatType),
    ParkedReady(Token, CombatType),
    Patrolling(Timer, CombatType),
    Returning(Timer, CombatType),
    WaitingToPark,
    Storing(Timer),
    Parking(Timer, Token),
}

impl Unit {
    /// Whether a tick in this state claims a parking space (only a waiting
    /// unit does, and only when one is free).
    pub open spec fn spec_tick_takes_token(self, can_park: bool) -> bool {
        self is WaitingToPark && can_park
    }

    /// The state one tick later: the active timer advances and, on finishing,
    /// applies its state's transition; a waiting unit re-tries to park.
    pub open spec fn spec_ticked(self, delta_ms: u64, can_park: bool) -> Unit {
        match self {
            Unit::UnStoring(t, tok) => {
                let t2 = t.spec_ticked(delta_ms);
                if t2.spec_finished() {
                    Unit::ParkedUnready(tok)
                } else {
                    Unit::UnStoring(t2, tok)
                }
            },
            Unit::ParkedPreparing(t, tok, ct) => {
                let t2 = t.spec_ticked(delta_ms);
                if t2.spec_finished() {
                    Unit::ParkedReady(tok, ct)
                } else {
                    Unit::ParkedPreparing(t2, tok, ct)
                }
            },
            Unit::Patrolling(t, ct) => {
                let t2 = t.spec_ticked(delta_ms);
                if t2.spec_finished() {
                    Unit::WaitingToPark
                } else {
                    Unit::Patrolling(t2, ct)
                }
            },
            Unit::Returning(t, ct) => {
                let t2 = t.spec_ticked(delta_ms);
                if t2.spec_finished() {
                    Unit::WaitingToPark
                } else {
                    Unit::Returning(t2, ct)
                }
            },
            Unit::Storing(t) => {
                let t2 = t.spec_ticked(delta_ms);
                if t2.spec_finished() {
                    Unit::InStorage
                } else {
                    Unit::Storing(t2)
                }
            },
            Unit::Parking(t, tok) => {
                let t2 = t.spec_ticked(delta_ms);
                if t2.spec_finished() {
                    Unit::ParkedUnready(tok)
                } else {
                    Unit::Parking(t2, tok)
                }
            },
            Unit::WaitingToPark => {
                if can_park {
                    Unit::ParkedUnready(Token::spec_issued())
                } else {
                    Unit::WaitingToPark
                }
            },
            _ => self,
        }
    }

    /// Advance this unit by one frame. States without a timer do nothing,
    /// except that a waiting unit claims a parking space as soon as one is
    /// free.
    pub fn tick(&mut self, delta_ms: u64, pool: &mut TokenPool<ParkingSpace>)
        ensures
            *final(self) == old(self).spec_ticked(delta_ms, old(pool).spec_can_take()),
            final(pool).spec_max() == old(pool).spec_max(),
            final(pool).spec_outstanding() as int == old(pool).spec_outstanding()
                + (if old(self).spec_tick_takes_token(old(pool).spec_can_take()) {
                    1int
                } else {
                    0int
                }),
    {
        match *self {
            Unit::UnStoring(mut timer, tok) => {
                timer.tick(delta_ms);
                if timer.finished() {
                    *self = Unit::ParkedUnready(tok);
                } else {
                    *self = Unit::UnStoring(timer, tok);
                }
            },
            Unit::ParkedPreparing(mut timer, tok, ct) => {
                timer.tick(delta_ms);
                if timer.finished() {
                    *self = Unit::ParkedReady(tok, ct);
                } else {
                    *self = Unit::ParkedPreparing(timer, tok, ct);
                }
            },
            Unit::Patrolling(mut timer, ct) => {
                timer.tick(delta_ms);
                if timer.finished() {
                    *self = Unit::WaitingToPark;
                } else {
                    *self = Unit::Patrolling(timer, ct);
                }
            },
            Unit::Returning(mut timer, ct) => {
                timer.tick(delta_ms);
                if timer.finished() {
                    *self = Unit::WaitingToPark;
                } else {
                    *self = Unit::Returning(timer, ct);
                }
            },
            Unit::Storing(mut timer) => {
                timer.tick(delta_ms);
                if timer.finished() {
                    *self = Unit::InStorage;
                } else {
                    *self = Unit::Storing(timer);
                }
            },
            Unit::Parking(mut timer, tok) => {
                timer.tick(delta_ms);
                if timer.finished() {
                    *self = Unit::ParkedUnready(tok);
                } else {
                    *self = Unit::Parking(timer, tok);
                }
            },
            Unit::WaitingToPark => {
                match pool.try_take() {
                    Some(tok) => {
                        *self = Unit::ParkedUnready(tok);
                    },
                    None => {},
                }
            },
            _ => {},
        }
    }

    /// How far along its patrol this unit is, in thousandths; zero for any
    /// state other than patrolling.
    pub fn progress_permille(&self) -> (r: u64)
        ensures
            r == (match *self {
                Unit::Patrolling(t, _) => t.spec_permille_elapsed(),
                _ => 0u64,
            }),
    {
        match self {
            Unit::Patrolling(timer, _) => timer.permille_elapsed(),
            _ => 0,
        }
    }

    /// Player command: send a patrolling unit home. The return trip reuses
    /// the patrol timer, so it mirrors the outbound leg's remaining time.
    pub fn return_to_base(&mut self) -> (r: Result<(), TransitionError>)
        ensures
            *old(self) matches Unit::Patrolling(t, ct) ==> r is Ok && *final(self)
                == Unit::Returning(t, ct),
            !(*old(self) is Patrolling) ==> r == Err::<(), TransitionError>(
                TransitionError::InvalidState,
            ) && *final(self) == *old(self),
    {
        match *self {
            Unit::Patrolling(timer, ct) => {
                *self = Unit::Returning(timer, ct);
                Ok(())
            },
            _ => Err(TransitionError::InvalidState),
        }
    }

    /// Player command: bring a stored unit out, claiming a parking space.
    pub fn un_store(&mut self, pool: &mut TokenPool<ParkingSpace>) -> (r: Result<
        (),
        TransitionError,
    >)
        ensures
            final(pool).spec_max() == old(pool).spec_max(),
            *old(self) is InStorage && old(pool).spec_can_take() ==> {
                &&& r is Ok
                &&& *final(self) == Unit::UnStoring(
                    Timer::spec_one_shot(UNSTORING_MS),
                    Token::spec_issued(),
                )
                &&& final(pool).spec_outstanding() == old(pool).spec_outstanding() + 1
            },
            *old(self) is InStorage && !old(pool).spec_can_take() ==> {
                &&& r == Err::<(), TransitionError>(TransitionError::NoCapacity)
                &&& *final(self) == *old(self)
                &&& *final(pool) == *old(pool)
            },
            !(*old(self) is InStorage) ==> {
                &&& r == Err::<(), TransitionError>(TransitionError::InvalidState)
                &&& *final(self) == *old(self)
                &&& *final(pool) == *old(pool)
            },
    {
        match *self {
            Unit::InStorage => {
                match pool.try_take() {
                    Some(tok) => {
                        *self = Unit::UnStoring(Timer::new(UNSTORING_MS, false), tok);
                        Ok(())
                    },
                    None => Err(TransitionError::NoCapacity),
                }
            },
            _ => Err(TransitionError::InvalidState),
        }
    }

    /// Player command: prepare a parked unit for one combat type.
    pub fn prepare(&mut self, combat_type: CombatType) -> (r: Result<(), TransitionError>)
        ensures
            *old(self) matches Unit::ParkedUnready(tok) ==> r is Ok && *final(self)
                == Unit::ParkedPreparing(Timer::spec_one_shot(PREPARING_MS), tok, combat_type),
            !(*old(self) is ParkedUnready) ==> r == Err::<(), TransitionError>(
                TransitionError::InvalidState,
            ) && *final(self) == *old(self),
    {
        match *self {
            Unit::ParkedUnready(tok) => {
                *self = Unit::ParkedPreparing(Timer::new(PREPARING_MS, false), tok, combat_type);
                Ok(())
            },
            _ => Err(TransitionError::InvalidState),
        }
    }

    /// Player command: launch a ready unit on patrol, freeing its parking
    /// space.
    pub fn take_off(&mut self, pool: &mut TokenPool<ParkingSpace>) -> (r: Result<
        (),
        TransitionError,
    >)
        ensures
            final(pool).spec_max() == old(pool).spec_max(),
            *old(self) matches Unit::ParkedReady(_, ct) ==> {
                &&& r is Ok
                &&& *final(self) == Unit::Patrolling(Timer::spec_one_shot(PATROL_MS), ct)
                &&& final(pool).spec_outstanding() == old(pool).spec_outstanding_after_release()
            },
            !(*old(self) is ParkedReady) ==> {
                &&& r == Err::<(), TransitionError>(TransitionError::InvalidState)
                &&& *final(self) == *old(self)
                &&& *final(pool) == *old(pool)
            },
    {
        match *self {
            Unit::ParkedReady(tok, ct) => {
                pool.release(tok);
                *self = Unit::Patrolling(Timer::new(PATROL_MS, false), ct);
                Ok(())
            },
            _ => Err(TransitionError::InvalidState),
        }
    }

    /// Whether the "move into storage" command is valid from this state.
    pub open spec fn spec_can_store(self) -> bool {
        self is ParkedUnready || self is ParkedPreparing || self is ParkedReady
            || self is WaitingToPark
    }

    /// Whether this state holds a parking-space token.
    pub open spec fn spec_holds_token(self) -> bool {
        self is UnStoring || self is ParkedUnready || self is ParkedPreparing
            || self is ParkedReady || self is Parking
    }

    /// Player command: send a parked or waiting unit into storage, freeing
    /// its parking space if it held one.
    pub fn move_into_storage(&mut self, pool: &mut TokenPool<ParkingSpace>) -> (r: Result<
        (),
        TransitionError,
    >)
        ensures
            final(pool).spec_max() == old(pool).spec_max(),
            old(self).spec_can_store() ==> {
                &&& r is Ok
                &&& *final(self) == Unit::Storing(Timer::spec_one_shot(STORING_MS))
            },
            old(self).spec_can_store() && old(self).spec_holds_token() ==> final(
                pool).spec_outstanding() == old(pool).spec_outstanding_after_release(),
            old(self).spec_can_store() && !old(self).spec_holds_token() ==> *final(pool) == *old(
                pool),
            !old(self).spec_can_store() ==> {
                &&& r == Err::<(), TransitionError>(TransitionError::InvalidState)
                &&& *final(self) == *old(self)
                &&& *final(pool) == *old(pool)
            },
    {
        match *self {
            Unit::ParkedUnready(tok) => {
                pool.release(tok);
                *self = Unit::Storing(Timer::new(STORING_MS, false));
                Ok(())
            },
            Unit::ParkedPreparing(_, tok, _) => {
                pool.release(tok);
                *self = Unit::Storing(Timer::new(STORING_MS, false));
                Ok(())
            },
            Unit::ParkedReady(tok, _) => {
                pool.release(tok);
                *self = Unit::Storing(Timer::new(STORING_MS, false));
                Ok(())
            },
            Unit::WaitingToPark => {
                *self = Unit::Storing(Timer::new(STORING_MS, false));
                Ok(())
            },
            _ => Err(TransitionError::InvalidState),
        }
    }

    /// Player command: park a waiting unit, claiming a parking space.
    pub fn park_after_returning(&mut self, pool: &mut TokenPool<ParkingSpace>) -> (r: Result<
        (),
        TransitionError,
    >)
        ensures
            final(pool).spec_max() == old(pool).spec_max(),
            *old(self) is WaitingToPark && old(pool).spec_can_take() ==> {
                &&& r is Ok
                &&& *final(self) == Unit::Parking(
                    Timer::spec_one_shot(PARKING_MS),
                    Token::spec_issued(),
                )
                &&& final(pool).spec_outstanding() == old(pool).spec_outstanding() + 1
            },
            *old(self) is WaitingToPark && !old(pool).spec_can_take() ==> {
                &&& r == Err::<(), TransitionError>(TransitionError::NoCapacity)
                &&& *final(self) == *old(self)
                &&& *final(pool) == *old(pool)
            },
            !(*old(self) is WaitingToPark) ==> {
                &&& r == Err::<(), TransitionError>(TransitionError::InvalidState)
                &&& *final(self) == *old(self)
                &&& *final(pool) == *old(pool)
            },
    {
        match *self {
            Unit::WaitingToPark => {
                match pool.try_take() {
                    Some(tok) => {
                        *self = Unit::Parking(Timer::new(PARKING_MS, false), tok);
                        Ok(())
                    },
                    None => Err(TransitionError::NoCapacity),
                }
            },
            _ => Err(TransitionError::InvalidState),
        }
    }
}

/// A unit together with its wear.
#[derive(Clone, Copy, Debug, PartialEq, Eq)]
pub struct UnitBundle(pub Unit, pub Health);

} // verus!
