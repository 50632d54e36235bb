use vstd::prelude::*;

use crate::combat::spec_resolve;
use crate::combat::units_meet_enemies;
use crate::enemy::spec_shrunk_mean;
use crate::enemy::spec_spawn_interval;
use crate::enemy::Enemy;
use crate::enemy::EnemySpawner;
use crate::enemy::ENEMY_RUN_MS;
use crate::enemy::MAX_SPAWN_MS;
use crate::enemy::MIN_SPAWN_MS;
use crate::pool::ParkingSpace;
use crate::pool::TokenPool;
use crate::timer::sat_add;
use crate::timer::Timer;
use crate::unit::Health;
use crate::unit::Unit;
use crate::unit::UnitBundle;
use crate::unit::HEALTH_FULL;

verus! {

/// Whether the game is still being played. The transition to `GameOver` is
/// one-way: nothing in the library ever sets a game back to `Running`.
#[derive(Clone, Copy, Debug, PartialEq, Eq, Hash, Structural)]
pub enum GameState {
    Running,
    GameOver,
}

impl Default for GameState {
    /// A game starts running.
    fn default() -> (s: Self)
        ensures
            s == GameState::Running,
    {
        GameState::Running
    }
}

/// Total play time so far, in milliseconds.
#[derive(Clone, Copy, Debug, PartialEq, Eq, Structural, Default)]
pub struct PlayTime(pub u64);

impl PlayTime {
    pub fn tick(&mut self, delta_ms: u64)
        ensures
            final(self).0 == sat_add(old(self).0, delta_ms),
    {
        self.0 = self.0.saturating_add(delta_ms);
    }
}

/// How many units a fresh game starts with, all in storage.
pub const INITIAL_UNIT_COUNT: usize = 8;

/// The units a fresh game starts with.
pub open spec fn spec_initial_units(count: nat) -> Seq<UnitBundle> {
    Seq::new(count, |i: int| UnitBundle(Unit::InStorage, Health::spec_new(HEALTH_FULL)))
}

/// Stock a game with its initial units: eight stored units in full condition.
pub fn init_stuff(units: &mut Vec<UnitBundle>)
    ensures
        final(units)@ == old(units)@ + spec_initial_units(INITIAL_UNIT_COUNT as nat),
{
    let ghost units0 = units@;
    let mut k: usize = 0;
    while k < INITIAL_UNIT_COUNT
        invariant
            0 <= k <= INITIAL_UNIT_COUNT,
            units@ == units0 + spec_initial_units(k as nat),
        decreases INITIAL_UNIT_COUNT - k,
    {
        units.push(UnitBundle(Unit::InStorage, Health::new(HEALTH_FULL)));
        k = k + 1;
        proof {
            assert(units@ =~= units0 + spec_initial_units(k as nat));
        }
    }
    proof {
        assert(units@ =~= units0 + spec_initial_units(INITIAL_UNIT_COUNT as nat));
    }
}

/// The units after one frame, together with the number of outstanding
/// parking-space tokens afterwards: each unit ticks in order, and a waiting
/// unit claims a token if one is free at its turn.
pub open spec fn spec_tick_units(
    units: Seq<UnitBundle>,
    delta_ms: u64,
    outstanding: usize,
    max: usize,
) -> (Seq<UnitBundle>, usize)
    decreases units.len(),
{
    if units.len() == 0 {
        (units, outstanding)
    } else {
        let ub = units[0];
        let can_park = outstanding < max;
        let ticked = UnitBundle(ub.0.spec_ticked(delta_ms, can_park), ub.1);
        let next_outstanding = if ub.0.spec_tick_takes_token(can_park) {
            (outstanding + 1) as usize
        } else {
            outstanding
        };
        let rest = spec_tick_units(units.drop_first(), delta_ms, next_outstanding, max);
        (seq![ticked] + rest.0, rest.1)
    }
}

/// The enemies after one frame: every approach timer advances.
pub open spec fn spec_tick_enemies(enemies: Seq<Enemy>, delta_ms: u64) -> Seq<Enemy> {
    Seq::new(enemies.len(), |i: int| enemies[i].spec_ticked(delta_ms))
}

/// Whether any enemy has completed its approach.
pub open spec fn spec_any_enemy_finished(enemies: Seq<Enemy>) -> bool {
    exists|i: int| 0 <= i < enemies.len() && enemies[i].progress.spec_finished()
}

/// One frame of plain time-keeping: every unit ticks (waiting units may claim
/// a freed parking space, in order), every enemy ticks, the game is lost the
/// moment any enemy has finished its approach, and the play clock advances.
pub fn ticker(
    delta_ms: u64,
    units: &mut Vec<UnitBundle>,
    enemies: &mut Vec<Enemy>,
    game_state: &mut GameState,
    play_time: &mut PlayTime,
    pool: &mut TokenPool<ParkingSpace>,
)
    ensures
        final(units)@ == spec_tick_units(
            old(units)@,
            delta_ms,
            old(pool).spec_outstanding(),
            old(pool).spec_max(),
        ).0,
        final(pool).spec_outstanding() == spec_tick_units(
            old(units)@,
            delta_ms,
            old(pool).spec_outstanding(),
            old(pool).spec_max(),
        ).1,
        final(pool).spec_max() == old(pool).spec_max(),
        final(enemies)@ == spec_tick_enemies(old(enemies)@, delta_ms),
        *final(game_state) == (if spec_any_enemy_finished(
            spec_tick_enemies(old(enemies)@, delta_ms),
        ) {
            GameState::GameOver
        } else {
            *old(game_state)
        }),
        final(play_time).0 == sat_add(old(play_time).0, delta_ms),
{
    let ghost units0 = units@;
    let ghost out0 = pool.spec_outstanding();
    let ghost max0 = pool.spec_max();

    let mut i: usize = 0;
    proof {
        assert(units0.skip(0) =~= units0);
        assert(units@.take(0) + spec_tick_units(units0, delta_ms, out0, max0).0 =~= spec_tick_units(
            units0,
            delta_ms,
            out0,
            max0,
        ).0);
    }
    while i < units.len()
        invariant
            0 <= i <= units@.len(),
            units@.len() == units0.len(),
            units@.skip(i as int) == units0.skip(i as int),
            pool.spec_max() == max0,
            spec_tick_units(units0, delta_ms, out0, max0).0 == units@.take(i as int)
                + spec_tick_units(
                units0.skip(i as int),
                delta_ms,
                pool.spec_outstanding(),
                max0,
            ).0,
            spec_tick_units(units0, delta_ms, out0, max0).1 == spec_tick_units(
                units0.skip(i as int),
                delta_ms,
                pool.spec_outstanding(),
                max0,
            ).1,
        decreases units@.len() - i,
    {
        let ghost pending = units0.skip(i as int);
        proof {
            assert(pending[0] == units@[i as int]);
            assert(pending.drop_first() =~= units0.skip(i as int + 1));
        }
        let ub = units[i];
        let mut unit = ub.0;
        unit.tick(delta_ms, pool);
        units[i] = UnitBundle(unit, ub.1);
        proof {
            assert(units@.take(i as int + 1) =~= units@.take(i as int).push(units@[i as int]));
            assert(units@.skip(i as int + 1) =~= units0.skip(i as int + 1));
            assert(units@.take(i as int) + (seq![units@[i as int]] + spec_tick_units(
                units0.skip(i as int + 1),
                delta_ms,
                pool.spec_outstanding(),
                max0,
            ).0) =~= units@.take(i as int + 1) + spec_tick_units(
                units0.skip(i as int + 1),
                delta_ms,
                pool.spec_outstanding(),
                max0,
            ).0);
        }
        i = i + 1;
    }
    proof {
        assert(units0.skip(units0.len() as int) =~= Seq::<UnitBundle>::empty());
        assert(units@.take(units0.len() as int) =~= units@);
    }

    let ghost enemies0 = enemies@;
    let ghost gs0 = *game_state;
    let mut j: usize = 0;
    while j < enemies.len()
        invariant
            0 <= j <= enemies@.len(),
            enemies@.len() == enemies0.len(),
            forall|k: int|
                0 <= k < j ==> enemies@[k] == enemies0[k].spec_ticked(delta_ms),
            forall|k: int| j <= k < enemies0.len() ==> enemies@[k] == enemies0[k],
            *game_state == (if spec_any_enemy_finished(
                spec_tick_enemies(enemies0, delta_ms).take(j as int),
            ) {
                GameState::GameOver
            } else {
                gs0
            }),
        decreases enemies@.len() - j,
    {
        let mut e = enemies[j];
        e.tick(delta_ms);
        enemies[j] = e;
        if e.progress.finished() {
            *game_state = GameState::GameOver;
        }
        proof {
            let ticked = spec_tick_enemies(enemies0, delta_ms);
            if e.progress.spec_finished() {
                assert(ticked.take(j as int + 1)[j as int].progress.spec_finished());
            } else {
                assert(forall|k: int|
                    0 <= k < j + 1 && #[trigger] ticked.take(j as int + 1)[k]
                        .progress.spec_finished() ==> ticked.take(j as int)[k]
                        .progress.spec_finished());
            }
        }
        j = j + 1;
    }
    proof {
        assert(enemies@ =~= spec_tick_enemies(enemies0, delta_ms));
        assert(spec_tick_enemies(enemies0, delta_ms).take(enemies0.len() as int)
            =~= spec_tick_enemies(enemies0, delta_ms));
    }

    play_time.tick(delta_ms);
}

/// The units after a repair pass: units sitting in storage regain health at
/// one unit per millisecond; all others are untouched.
pub open spec fn spec_repair_units(units: Seq<UnitBundle>, delta_ms: u64) -> Seq<UnitBundle> {
    Seq::new(
        units.len(),
        |i: int|
            if units[i].0 is InStorage {
                UnitBundle(units[i].0, units[i].1.spec_repaired(delta_ms))
            } else {
                units[i]
            },
    )
}

/// Repair every stored unit a little.
pub fn repair_tick(delta_ms: u64, units: &mut Vec<UnitBundle>)
    ensures
        final(units)@ == spec_repair_units(old(units)@, delta_ms),
{
    let ghost units0 = units@;
    let mut i: usize = 0;
    while i < units.len()
        invariant
            0 <= i <= units@.len(),
            units@.len() == units0.len(),
            forall|k: int| 0 <= k < i ==> units@[k] == spec_repair_units(units0, delta_ms)[k],
            forall|k: int| i <= k < units0.len() ==> units@[k] == units0[k],
        decreases units@.len() - i,
    {
        let ub = units[i];
        match ub.0 {
            Unit::InStorage => {
                let mut health = ub.1;
                health.repair_tick(delta_ms);
                units[i] = UnitBundle(ub.0, health);
            },
            _ => {},
        }
        i = i + 1;
    }
    proof {
        assert(units@ =~= spec_repair_units(units0, delta_ms));
    }
}

/// Run the spawner for one frame (see [`EnemySpawner::tick`]).
pub fn spawn_enemies(
    enemy_spawner: &mut EnemySpawner,
    delta_ms: u64,
    z_milli: i64,
    enemies: &mut Vec<Enemy>,
)
    ensures
        !old(enemy_spawner).spec_spawns(delta_ms) ==> {
            &&& *final(enemy_spawner) == (EnemySpawner {
                time_to_next_spawn: old(enemy_spawner).time_to_next_spawn.spec_ticked(delta_ms),
                ..*old(enemy_spawner)
            })
            &&& final(enemies)@ == old(enemies)@
        },
        old(enemy_spawner).spec_spawns(delta_ms) ==> {
            &&& final(enemy_spawner).mean_time_between_enemies_ms == spec_shrunk_mean(
                old(enemy_spawner).mean_time_between_enemies_ms,
            )
            &&& final(enemy_spawner).time_to_next_spawn == Timer::spec_one_shot(
                spec_spawn_interval(
                    final(enemy_spawner).mean_time_between_enemies_ms,
                    z_milli,
                ),
            )
            &&& MIN_SPAWN_MS <= final(enemy_spawner).time_to_next_spawn.duration_ms
                <= MAX_SPAWN_MS
            &&& final(enemies)@.len() == old(enemies)@.len() + 1
            &&& final(enemies)@.drop_last() == old(enemies)@
            &&& final(enemies)@.last().progress == Timer::spec_one_shot(ENEMY_RUN_MS)
        },
        final(enemy_spawner).mean_time_between_enemies_ms <= old(
            enemy_spawner,
        ).mean_time_between_enemies_ms,
{
    enemy_spawner.tick(delta_ms, z_milli, enemies);
}

/// One running game: every resource the frame loop touches, as explicit
/// fields.
pub struct MyGame {
    pub enemy_spawner: EnemySpawner,
    pub play_time: PlayTime,
    pub parking_spaces: TokenPool<ParkingSpace>,
    pub game_state: GameState,
    pub units: Vec<UnitBundle>,
    pub enemies: Vec<Enemy>,
}

impl MyGame {
    /// The units after this frame's ticking and combat resolution, before
    /// repair.
    pub open spec fn spec_frame_units_mid(self, delta_ms: u64) -> Seq<UnitBundle> {
        spec_resolve(
            spec_tick_units(
                self.units@,
                delta_ms,
                self.parking_spaces.spec_outstanding(),
                self.parking_spaces.spec_max(),
            ).0,
            spec_tick_enemies(self.enemies@, delta_ms),
        ).0
    }

    /// The enemies after this frame's ticking and combat resolution, before
    /// the spawner runs.
    pub open spec fn spec_frame_enemies_mid(self, delta_ms: u64) -> Seq<Enemy> {
        spec_resolve(
            spec_tick_units(
                self.units@,
                delta_ms,
                self.parking_spaces.spec_outstanding(),
                self.parking_spaces.spec_max(),
            ).0,
            spec_tick_enemies(self.enemies@, delta_ms),
        ).1
    }

    /// A fresh game: three parking spaces, no units fielded yet, no enemies,
    /// the spawner's first countdown drawn with the given z-score.
    pub fn new(z_milli: i64) -> (g: MyGame)
        ensures
            g.enemy_spawner.mean_time_between_enemies_ms
                == crate::enemy::INITIAL_MEAN_SPAWN_MS,
            g.enemy_spawner.time_to_next_spawn == Timer::spec_one_shot(
                spec_spawn_interval(crate::enemy::INITIAL_MEAN_SPAWN_MS, z_milli),
            ),
            g.play_time.0 == 0,
            g.parking_spaces.spec_max() == 3,
            g.parking_spaces.spec_outstanding() == 0,
            g.game_state == GameState::Running,
            g.units@ == Seq::<UnitBundle>::empty(),
            g.enemies@ == Seq::<Enemy>::empty(),
    {
        MyGame {
            enemy_spawner: EnemySpawner::new(z_milli),
            play_time: PlayTime(0),
            parking_spaces: TokenPool::new(3),
            game_state: GameState::Running,
            units: Vec::new(),
            enemies: Vec::new(),
        }
    }

    /// One frame of the game, in fixed order: units and enemies tick (losing
    /// the game if an enemy got through), combat resolves, the spawner may
    /// add an enemy, and stored units repair. `z_milli` is this frame's
    /// standard-normal draw in thousandths, used only if the spawner starts a
    /// new countdown. A finished game never changes again; in particular,
    /// `GameOver` is permanent.
    pub fn update(&mut self, delta_ms: u64, z_milli: i64)
        ensures
            old(self).game_state == GameState::GameOver ==> *final(self) == *old(self),
            final(self).game_state == GameState::Running ==> old(self).game_state
                == GameState::Running,
            old(self).game_state == GameState::Running ==> {
                &&& final(self).units@ == spec_repair_units(
                    old(self).spec_frame_units_mid(delta_ms),
                    delta_ms,
                )
                &&& final(self).game_state == (if spec_any_enemy_finished(
                    spec_tick_enemies(old(self).enemies@, delta_ms),
                ) {
                    GameState::GameOver
                } else {
                    GameState::Running
                })
                &&& final(self).play_time.0 == sat_add(old(self).play_time.0, delta_ms)
                &&& final(self).parking_spaces.spec_max() == old(
                    self,
                ).parking_spaces.spec_max()
                &&& final(self).parking_spaces.spec_outstanding() == spec_tick_units(
                    old(self).units@,
                    delta_ms,
                    old(self).parking_spaces.spec_outstanding(),
                    old(self).parking_spaces.spec_max(),
                ).1
                &&& final(self).enemy_spawner.mean_time_between_enemies_ms <= old(
                    self,
                ).enemy_spawner.mean_time_between_enemies_ms
                &&& (!old(self).enemy_spawner.spec_spawns(delta_ms) ==> final(self).enemies@
                    == old(self).spec_frame_enemies_mid(delta_ms))
                &&& (old(self).enemy_spawner.spec_spawns(delta_ms) ==> {
                    &&& final(self).enemies@.len() == old(self).spec_frame_enemies_mid(
                        delta_ms,
                    ).len() + 1
                    &&& final(self).enemies@.drop_last() == old(self).spec_frame_enemies_mid(
                        delta_ms,
                    )
                    &&& final(self).enemies@.last().progress == Timer::spec_one_shot(
                        ENEMY_RUN_MS,
                    )
                    &&& final(self).enemy_spawner.mean_time_between_enemies_ms
                        == spec_shrunk_mean(old(self).enemy_spawner.mean_time_between_enemies_ms)
                })
            },
    {
        if self.game_state == GameState::Running {
            ticker(
                delta_ms,
                &mut self.units,
                &mut self.enemies,
                &mut self.game_state,
                &mut self.play_time,
                &mut self.parking_spaces,
            );
            units_meet_enemies(&mut self.units, &mut self.enemies);
            spawn_enemies(&mut self.enemy_spawner, delta_ms, z_milli, &mut self.enemies);
            repair_tick(delta_ms, &mut self.units);
        }
    }
}

impl Default for MyGame {
    /// A fresh game whose first spawner countdown is drawn at the mean
    /// itself (a zero z-score).
    fn default() -> (g: Self)
        ensures
            g.enemy_spawner.mean_time_between_enemies_ms
                == crate::enemy::INITIAL_MEAN_SPAWN_MS,
            g.enemy_spawner.time_to_next_spawn == Timer::spec_one_shot(
                spec_spawn_interval(crate::enemy::INITIAL_MEAN_SPAWN_MS, 0),
            ),
            g.play_time.0 == 0,
            g.parking_spaces.spec_max() == 3,
            g.parking_spaces.spec_outstanding() == 0,
            g.game_state == GameState::Running,
            g.units@ == Seq::<UnitBundle>::empty(),
            g.enemies@ == Seq::<Enemy>::empty(),
    {
        MyGame::new(0)
    }
}

} // verus!
