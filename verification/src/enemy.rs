use vstd::prelude::*;

use crate::rng::random_below;
use crate::timer::Timer;
use crate::unit::CombatType;

verus! {

/// How long an enemy's approach to the base takes.
pub const ENEMY_RUN_MS: u64 = 30000;
/// The mean time between enemy arrivals at game start.
pub const INITIAL_MEAN_SPAWN_MS: u64 = 30000;
/// The shortest admissible time between two spawns.
pub const MIN_SPAWN_MS: u64 = 1000;
/// The longest admissible time between two spawns.
pub const MAX_SPAWN_MS: u64 = 10000;

/// A countdown-to-impact entity tagged with a combat type. When its progress
/// timer finishes, the enemy has reached the base.
#[derive(Clone, Copy, Debug, PartialEq, Eq)]
pub struct Enemy {
    pub progress: Timer,
    pub combat_type: CombatType,
}

impl Enemy {
    /// This enemy one frame later.
    pub open spec fn spec_ticked(self, delta_ms: u64) -> Enemy {
        Enemy { progress: self.progress.spec_ticked(delta_ms), ..self }
    }

    pub fn new(run_time_ms: u64, combat_type: CombatType) -> (e: Enemy)
        ensures
            e.progress == Timer::spec_one_shot(run_time_ms),
            e.combat_type == combat_type,
    {
        Enemy { progress: Timer::new(run_time_ms, false), combat_type }
    }

    pub fn tick(&mut self, delta_ms: u64)
        ensures
            *final(self) == old(self).spec_ticked(delta_ms),
    {
        self.progress.tick(delta_ms);
    }

    /// How much of the approach is still ahead, in thousandths.
    pub fn remaining_permille(&self) -> (r: u64)
        ensures
            r == (if self.progress.spec_permille_elapsed() >= 1000 {
                0u64
            } else {
                (1000 - self.progress.spec_permille_elapsed()) as u64
            }),
    {
        self.progress.permille_left()
    }
}

/// The spawn interval drawn around a mean: the given standard-normal z-score
/// (in thousandths) scaled to the five-second spread, added to the mean, and
/// clamped to the admissible window.
pub open spec fn spec_spawn_interval(mean_ms: u64, z_milli: i64) -> u64 {
    let raw = mean_ms + 5 * z_milli;
    if raw < MIN_SPAWN_MS {
        MIN_SPAWN_MS
    } else if raw > MAX_SPAWN_MS {
        MAX_SPAWN_MS
    } else {
        raw as u64
    }
}

/// Clamp a drawn spawn interval into the admissible window. The caller turns
/// one standard-normal draw into `z_milli` (the z-score in thousandths); with
/// a five-second spread each thousandth is worth five milliseconds.
pub fn spawn_interval_ms(mean_ms: u64, z_milli: i64) -> (r: u64)
    ensures
        r == spec_spawn_interval(mean_ms, z_milli),
        MIN_SPAWN_MS <= r <= MAX_SPAWN_MS,
{
    let raw: i128 = mean_ms as i128 + 5 * (z_milli as i128);
    if raw < MIN_SPAWN_MS as i128 {
        MIN_SPAWN_MS
    } else if raw > MAX_SPAWN_MS as i128 {
        MAX_SPAWN_MS
    } else {
        raw as u64
    }
}

/// The difficulty ramp: after each spawn the mean inter-arrival time keeps
/// only ninety-seven hundredths of itself.
pub open spec fn spec_shrunk_mean(mean_ms: u64) -> u64 {
    (mean_ms * 97 / 100) as u64
}

/// The ramp strictly shrinks every positive mean and never goes negative, so
/// spawn pressure only ever increases.
pub proof fn lemma_mean_ramp_decreases(mean_ms: u64)
    requires
        mean_ms >= 1,
    ensures
        spec_shrunk_mean(mean_ms) < mean_ms,
{
    assert(mean_ms * 97 / 100 < mean_ms) by (nonlinear_arith)
        requires
            mean_ms >= 1,
    ;
}

/// The stochastic process that emits enemies at a randomized, accelerating
/// pace: a countdown to the next spawn, and the current mean inter-arrival
/// time, which shrinks after every spawn.
#[derive(Clone, Copy, Debug, PartialEq, Eq)]
pub struct EnemySpawner {
    pub time_to_next_spawn: Timer,
    pub mean_time_between_enemies_ms: u64,
}

impl EnemySpawner {
    /// Whether ticking by `delta_ms` finishes the countdown and spawns.
    pub open spec fn spec_spawns(self, delta_ms: u64) -> bool {
        self.time_to_next_spawn.spec_ticked(delta_ms).spec_finished()
    }

    /// A spawner at the initial mean whose first countdown is drawn with the
    /// given z-score.
    pub fn new(z_milli: i64) -> (s: EnemySpawner)
        ensures
            s.mean_time_between_enemies_ms == INITIAL_MEAN_SPAWN_MS,
            s.time_to_next_spawn == Timer::spec_one_shot(
                spec_spawn_interval(INITIAL_MEAN_SPAWN_MS, z_milli),
            ),
    {
        let first = spawn_interval_ms(INITIAL_MEAN_SPAWN_MS, z_milli);
        EnemySpawner {
            time_to_next_spawn: Timer::new(first, false),
            mean_time_between_enemies_ms: INITIAL_MEAN_SPAWN_MS,
        }
    }

    /// Advance the countdown; on finishing, append one fresh enemy of a
    /// random combat type, shrink the mean, and start the next countdown at
    /// an interval drawn with the given z-score around the new mean.
    pub fn tick(&mut self, delta_ms: u64, z_milli: i64, enemies: &mut Vec<Enemy>)
        ensures
            !old(self).spec_spawns(delta_ms) ==> {
                &&& *final(self) == (EnemySpawner {
                    time_to_next_spawn: old(self).time_to_next_spawn.spec_ticked(delta_ms),
                    ..*old(self)
                })
                &&& final(enemies)@ == old(enemies)@
            },
            old(self).spec_spawns(delta_ms) ==> {
                &&& final(self).mean_time_between_enemies_ms == spec_shrunk_mean(
                    old(self).mean_time_between_enemies_ms,
                )
                &&& final(self).time_to_next_spawn == Timer::spec_one_shot(
                    spec_spawn_interval(final(self).mean_time_between_enemies_ms, z_milli),
                )
                &&& MIN_SPAWN_MS <= final(self).time_to_next_spawn.duration_ms <= MAX_SPAWN_MS
                &&& final(enemies)@.len() == old(enemies)@.len() + 1
                &&& final(enemies)@.drop_last() == old(enemies)@
                &&& final(enemies)@.last().progress == Timer::spec_one_shot(ENEMY_RUN_MS)
            },
            final(self).mean_time_between_enemies_ms <= old(self).mean_time_between_enemies_ms,
            old(self).spec_spawns(delta_ms) && old(self).mean_time_between_enemies_ms >= 1
                ==> final(self).mean_time_between_enemies_ms < old(
                self,
            ).mean_time_between_enemies_ms,
    {
        self.time_to_next_spawn.tick(delta_ms);

        if self.time_to_next_spawn.finished() {
            let combat_type = CombatType::from_index(random_below(4));
            enemies.push(Enemy::new(ENEMY_RUN_MS, combat_type));

            let old_mean = self.mean_time_between_enemies_ms;
            let shrunk: u64 = (((old_mean as u128) * 97) / 100) as u64;
            proof {
                assert(old_mean * 97 / 100 <= old_mean) by (nonlinear_arith);
                if old_mean >= 1 {
                    lemma_mean_ramp_decreases(old_mean);
                }
            }
            self.mean_time_between_enemies_ms = shrunk;

            let next = spawn_interval_ms(shrunk, z_milli);
            self.time_to_next_spawn = Timer::new(next, false);
        }
    }
}

impl Default for EnemySpawner {
    /// The spawner the game starts with: first countdown drawn at the mean
    /// itself (a zero z-score).
    fn default() -> (s: Self)
        ensures
            s.mean_time_between_enemies_ms == INITIAL_MEAN_SPAWN_MS,
            s.time_to_next_spawn == Timer::spec_one_shot(
                spec_spawn_interval(INITIAL_MEAN_SPAWN_MS, 0),
            ),
    {
        EnemySpawner::new(0)
    }
}

} // verus!
