//! Tick-level simulation core of a two-player falling-block battle.
//!
//! The library advances one player's game by exactly one discrete time step
//! per call (`Game::update`), and `Battle` drives two such games in lockstep,
//! routing garbage between them. Every run is reproducible from the two RNG
//! seeds and the recorded per-tick inputs.

pub mod rng;
pub mod controller;
pub mod board;
pub mod game;
pub mod battle;

pub use controller::Controller;
pub use board::{Board, FallingPiece, LockResult, PieceKind, TspinStatus};
pub use game::{Event, FallingState, Game, GameConfig, GameState};
pub use battle::{Battle, GraphicsUpdate, Info, Replay, UpdateResult};
