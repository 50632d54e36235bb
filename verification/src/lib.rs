//! Core logic of a small tower-defense game: a pool of units cycles through
//! readiness states (storage, parking, combat preparation, patrol, return)
//! while enemies spawn at a randomized, accelerating pace and advance toward
//! the base. Patrolling units intercept enemies of the matching combat type;
//! an enemy that completes its approach ends the game.
//!
//! All durations are whole milliseconds, all health values fixed-point
//! fractions, so that every rule of the game is stated and proved exactly.
//! The presentation layer is expected to feed one elapsed-time delta per
//! frame and to apply player commands as direct state transitions.

pub mod combat;
pub mod enemy;
pub mod game;
pub mod pool;
mod rng;
pub mod timer;
pub mod unit;

pub use combat::catches;
pub use combat::eligible;
pub use combat::units_meet_enemies;
pub use enemy::spawn_interval_ms;
pub use enemy::Enemy;
pub use enemy::EnemySpawner;
pub use enemy::ENEMY_RUN_MS;
pub use enemy::INITIAL_MEAN_SPAWN_MS;
pub use enemy::MAX_SPAWN_MS;
pub use enemy::MIN_SPAWN_MS;
pub use game::init_stuff;
pub use game::repair_tick;
pub use game::spawn_enemies;
pub use game::ticker;
pub use game::GameState;
pub use game::MyGame;
pub use game::PlayTime;
pub use game::INITIAL_UNIT_COUNT;
pub use pool::ParkingSpace;
pub use pool::Token;
pub use pool::TokenPool;
pub use timer::Timer;
pub use unit::CombatType;
pub use unit::Health;
pub use unit::TransitionError;
pub use unit::Unit;
pub use unit::UnitBundle;
pub use unit::HEALTH_FULL;
pub use unit::HIT_COST;
pub use unit::PARKING_MS;
pub use unit::PATROL_MS;
pub use unit::PREPARING_MS;
pub use unit::STORING_MS;
pub use unit::UNSTORING_MS;
