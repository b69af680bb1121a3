//! Scheduling and environment logic for bytecode-scripted enemies of a
//! vertically scrolling shooter.
//!
//! The bytecode interpreter itself is not part of this crate. The crate decides
//! when an enemy is spawned and with which initialization record, keeps what an
//! interpreter reports about a running enemy, and provides the environment that
//! an interpreter queries while it runs.
//!
//! - [`spawner`]: the timed release of enemies, and the laws of its schedule.
//! - [`enemy`]: blueprints, initialization records and running enemies.
//! - [`game`]: the environment and its stream of random bytes.
//! - [`settings`], [`form`]: reading the settings of a play from text.
//! - [`text`]: trimming and splitting, as the settings need them.

pub mod enemy;
pub mod form;
pub mod game;
pub mod settings;
pub mod spawner;
pub mod text;

pub use enemy::{Enemy, EnemyInit, EnemyState, InterpreterInit, InterpreterReport, SpawnOrder};
pub use game::Game;
pub use spawner::{ConfigError, EnemySpawner};
