use fruitopian_defender::init_stuff;
use fruitopian_defender::repair_tick;
use fruitopian_defender::spawn_enemies;
use fruitopian_defender::spawn_interval_ms;
use fruitopian_defender::ticker;
use fruitopian_defender::units_meet_enemies;
use fruitopian_defender::CombatType;
use fruitopian_defender::Enemy;
use fruitopian_defender::EnemySpawner;
use fruitopian_defender::GameState;
use fruitopian_defender::Health;
use fruitopian_defender::MyGame;
use fruitopian_defender::ParkingSpace;
use fruitopian_defender::PlayTime;
use fruitopian_defender::Timer;
use fruitopian_defender::TokenPool;
use fruitopian_defender::Unit;
use fruitopian_defender::UnitBundle;
use fruitopian_defender::ENEMY_RUN_MS;
use fruitopian_defender::HEALTH_FULL;
use fruitopian_defender::HIT_COST;
use fruitopian_defender::INITIAL_MEAN_SPAWN_MS;
use fruitopian_defender::INITIAL_UNIT_COUNT;
use fruitopian_defender::MAX_SPAWN_MS;
use fruitopian_defender::MIN_SPAWN_MS;
use fruitopian_defender::PATROL_MS;

fn patrolling(elapsed_ms: u64, ct: CombatType) -> UnitBundle {
    let mut t = Timer::new(PATROL_MS, false);
    t.tick(elapsed_ms);
    UnitBundle(Unit::Patrolling(t, ct), Health::new(HEALTH_FULL))
}

fn approaching(elapsed_ms: u64, ct: CombatType) -> Enemy {
    let mut e = Enemy::new(ENEMY_RUN_MS, ct);
    e.tick(elapsed_ms);
    e
}

#[test]
fn resolver_converts_the_catching_unit_and_removes_the_enemy() {
    // unit half way out, enemy two fifths away from the base: 0.5 >= 0.4
    let mut units = vec![patrolling(15000, CombatType::A)];
    let mut enemies = vec![approaching(18000, CombatType::A)];

    units_meet_enemies(&mut units, &mut enemies);

    assert!(enemies.is_empty());
    assert_eq!(units.len(), 1);
    match units[0].0 {
        Unit::Returning(t, ct) => {
            assert_eq!(t.duration(), PATROL_MS);
            assert_eq!(t.elapsed(), 15000);
            assert_eq!(ct, CombatType::A);
        }
        _ => panic!("expected the unit to turn for home"),
    }
    assert_eq!(units[0].1.value(), HEALTH_FULL - HIT_COST);
}

#[test]
fn resolver_leaves_everything_when_nobody_catches() {
    // unit three tenths out, enemy two fifths away: 0.3 < 0.4
    let mut units = vec![patrolling(9000, CombatType::A)];
    let mut enemies = vec![approaching(18000, CombatType::A)];
    let units_before = units.clone();
    let enemies_before = enemies.clone();

    units_meet_enemies(&mut units, &mut enemies);

    assert_eq!(units, units_before);
    assert_eq!(enemies, enemies_before);
}

#[test]
fn resolver_matches_combat_types_only() {
    let mut units = vec![patrolling(15000, CombatType::B)];
    let mut enemies = vec![approaching(18000, CombatType::A)];
    let units_before = units.clone();
    let enemies_before = enemies.clone();

    units_meet_enemies(&mut units, &mut enemies);

    assert_eq!(units, units_before);
    assert_eq!(enemies, enemies_before);
}

#[test]
fn resolver_first_eligible_unit_wins() {
    let mut units = vec![patrolling(16000, CombatType::A), patrolling(15000, CombatType::A)];
    let mut enemies = vec![approaching(18000, CombatType::A)];

    units_meet_enemies(&mut units, &mut enemies);

    assert!(enemies.is_empty());
    assert_eq!(units.len(), 2);
    assert!(matches!(units[0].0, Unit::Returning(_, _)));
    assert!(matches!(units[1].0, Unit::Patrolling(_, _)));
}

#[test]
fn resolver_removes_a_unit_whose_health_runs_out() {
    let mut t = Timer::new(PATROL_MS, false);
    t.tick(15000);
    let mut units = vec![UnitBundle(
        Unit::Patrolling(t, CombatType::A),
        Health::new(HIT_COST - 1),
    )];
    let mut enemies = vec![approaching(18000, CombatType::A)];

    units_meet_enemies(&mut units, &mut enemies);

    assert!(units.is_empty());
    assert!(enemies.is_empty());
}

#[test]
fn resolver_handles_each_enemy_with_a_fresh_interceptor() {
    // one unit, two enemies in its lane: only the first enemy is intercepted
    let mut units = vec![patrolling(20000, CombatType::C)];
    let mut enemies = vec![approaching(18000, CombatType::C), approaching(18000, CombatType::C)];

    units_meet_enemies(&mut units, &mut enemies);

    assert_eq!(enemies.len(), 1);
    assert_eq!(units.len(), 1);
    assert!(matches!(units[0].0, Unit::Returning(_, _)));
}

#[test]
fn enemy_reports_its_remaining_approach() {
    let e = approaching(18000, CombatType::D);
    assert_eq!(e.remaining_permille(), 400);
    assert_eq!(e.combat_type, CombatType::D);
}

#[test]
fn ready_unit_takes_off_patrols_and_ends_up_waiting() {
    let mut pool: TokenPool<ParkingSpace> = TokenPool::new(1);
    let tok = pool.try_take().unwrap();
    let mut unit = Unit::ParkedReady(tok, CombatType::A);

    assert!(unit.take_off(&mut pool).is_ok());
    match unit {
        Unit::Patrolling(t, ct) => {
            assert_eq!(t.duration(), PATROL_MS);
            assert_eq!(t.elapsed(), 0);
            assert_eq!(ct, CombatType::A);
        }
        _ => panic!("expected a patrolling unit"),
    }

    unit.tick(PATROL_MS + 1, &mut pool);
    assert_eq!(unit, Unit::WaitingToPark);
}

#[test]
fn a_frame_ticks_before_it_resolves() {
    // before this frame the unit is short of the enemy (12000 < 13000 to
    // go); only with the frame's delta applied on both sides does it catch
    // (13000 >= 12000), and the resolver must see that within the frame
    let mut game = MyGame::new(0);
    game.units.push(patrolling(12000, CombatType::B));
    game.enemies.push(approaching(17000, CombatType::B));

    game.update(1000, 0);

    assert!(game.enemies.is_empty());
    assert!(matches!(game.units[0].0, Unit::Returning(_, _)));
}

#[test]
fn spawn_interval_is_clamped_into_the_window() {
    assert_eq!(spawn_interval_ms(INITIAL_MEAN_SPAWN_MS, 0), MAX_SPAWN_MS);
    assert_eq!(spawn_interval_ms(5000, 0), 5000);
    assert_eq!(spawn_interval_ms(5000, 200), 6000);
    assert_eq!(spawn_interval_ms(5000, -200), 4000);
    assert_eq!(spawn_interval_ms(0, 0), MIN_SPAWN_MS);
    assert_eq!(spawn_interval_ms(5000, -100000), MIN_SPAWN_MS);
    assert_eq!(spawn_interval_ms(5000, 100000), MAX_SPAWN_MS);
}

#[test]
fn spawner_mean_strictly_decreases_with_each_spawn() {
    let mut spawner = EnemySpawner::new(0);
    assert_eq!(spawner.mean_time_between_enemies_ms, INITIAL_MEAN_SPAWN_MS);
    let mut enemies: Vec<Enemy> = Vec::new();

    let mut mean = spawner.mean_time_between_enemies_ms;
    for round in 1..=5u64 {
        // the countdown never exceeds the window, so this always spawns
        spawner.tick(MAX_SPAWN_MS, 0, &mut enemies);
        assert_eq!(enemies.len() as u64, round);
        assert!(spawner.mean_time_between_enemies_ms < mean);
        mean = spawner.mean_time_between_enemies_ms;

        let duration = spawner.time_to_next_spawn.duration();
        assert!(duration >= MIN_SPAWN_MS && duration <= MAX_SPAWN_MS);
        assert_eq!(spawner.time_to_next_spawn.elapsed(), 0);
    }
    assert_eq!(mean, 30000 * 97 / 100 * 97 / 100 * 97 / 100 * 97 / 100 * 97 / 100);

    let last = enemies.last().unwrap();
    assert_eq!(last.progress.duration(), ENEMY_RUN_MS);
    assert_eq!(last.progress.elapsed(), 0);
}

#[test]
fn spawner_waits_out_its_countdown() {
    let mut spawner = EnemySpawner::new(0);
    let mut enemies: Vec<Enemy> = Vec::new();
    spawner.tick(MAX_SPAWN_MS - 1, 0, &mut enemies);
    assert!(enemies.is_empty());
    assert_eq!(spawner.mean_time_between_enemies_ms, INITIAL_MEAN_SPAWN_MS);
    spawn_enemies(&mut spawner, 1, 0, &mut enemies);
    assert_eq!(enemies.len(), 1);
}

#[test]
fn init_stuff_fields_eight_stored_units() {
    let mut units: Vec<UnitBundle> = Vec::new();
    init_stuff(&mut units);
    assert_eq!(units.len(), INITIAL_UNIT_COUNT);
    for ub in &units {
        assert_eq!(ub.0, Unit::InStorage);
        assert_eq!(ub.1.value(), HEALTH_FULL);
    }
}

#[test]
fn repair_reaches_only_stored_units() {
    let mut units = vec![
        UnitBundle(Unit::InStorage, Health::new(10000)),
        UnitBundle(Unit::WaitingToPark, Health::new(10000)),
    ];
    repair_tick(2000, &mut units);
    assert_eq!(units[0].1.value(), 12000);
    assert_eq!(units[1].1.value(), 10000);
}

#[test]
fn ticker_declares_game_over_when_an_enemy_gets_through() {
    let mut units: Vec<UnitBundle> = Vec::new();
    let mut enemies = vec![Enemy::new(100, CombatType::A)];
    let mut game_state = GameState::Running;
    let mut play_time = PlayTime(0);
    let mut pool: TokenPool<ParkingSpace> = TokenPool::new(3);

    ticker(99, &mut units, &mut enemies, &mut game_state, &mut play_time, &mut pool);
    assert_eq!(game_state, GameState::Running);
    assert_eq!(play_time.0, 99);

    ticker(1, &mut units, &mut enemies, &mut game_state, &mut play_time, &mut pool);
    assert_eq!(game_state, GameState::GameOver);
    assert_eq!(play_time.0, 100);
}

#[test]
fn game_over_is_permanent() {
    let mut game = MyGame::new(0);
    init_stuff(&mut game.units);
    game.enemies.push(Enemy::new(50, CombatType::B));

    game.update(50, 0);
    assert_eq!(game.game_state, GameState::GameOver);

    let play_time_at_loss = game.play_time;
    let units_at_loss = game.units.clone();
    game.update(5000, 0);
    assert_eq!(game.game_state, GameState::GameOver);
    assert_eq!(game.play_time, play_time_at_loss);
    assert_eq!(game.units, units_at_loss);
}

#[test]
fn a_frame_advances_the_whole_game() {
    let mut game = MyGame::new(0);
    init_stuff(&mut game.units);
    assert_eq!(game.units.len(), INITIAL_UNIT_COUNT);
    assert_eq!(game.parking_spaces.max_count(), 3);

    // bring a unit out, prepare it, send it off
    assert!(game.units[0].0.un_store(&mut game.parking_spaces).is_ok());
    game.update(10000, 0);
    assert!(matches!(game.units[0].0, Unit::ParkedUnready(_)));
    assert!(game.units[0].0.prepare(CombatType::A).is_ok());
    game.update(5000, 0);
    assert!(matches!(game.units[0].0, Unit::ParkedReady(_, CombatType::A)));
    assert!(game.units[0].0.take_off(&mut game.parking_spaces).is_ok());
    assert!(matches!(game.units[0].0, Unit::Patrolling(_, _)));

    assert_eq!(game.game_state, GameState::Running);
    assert_eq!(game.play_time.0, 15000);
}
