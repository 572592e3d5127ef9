//! Simulation core of a 2D side-scrolling platformer.
//!
//! The crate models fixed-timestep physics integration, axis-aligned
//! collision resolution, an event-driven entity lifecycle (platforms,
//! pickups, a goal target, floating labels), and a player finite-state
//! controller.  Positions, velocities and sizes are whole world units;
//! fractional quantities (runtime multipliers, the fixed time delta)
//! are carried in thousandths, so every step of the simulation is exact
//! integer arithmetic with a proved absence of overflow.
//!
//! The host (rendering, input devices, audio, asset loading) sits outside:
//! it feeds discrete input readings and level data in, runs the fixed tick
//! and the per-frame update, and reads back positions, animation frames and
//! state-transition requests.

use vstd::prelude::*;

pub mod collision;
pub mod components;
pub mod lifecycle;
pub mod math;
pub mod physics;
pub mod player;
pub mod session;
pub mod side_effects;
pub mod timer;
pub mod world;

verus! {

/// The scene the host is asked to show.  The core only requests
/// transitions; the host owns the actual scene swap.
#[derive(Clone, Copy, Debug, PartialEq, Eq, Structural)]
pub enum GameState {
    MainMenu,
    Level,
    GameOver,
    LevelCompleted,
}

/// Persisted progress: which level the player is on.
#[derive(Clone, Copy, Debug, PartialEq, Eq, Structural)]
pub struct GameData {
    pub current_level: usize,
}

impl GameData {
    /// Progress starts on the first level.
    pub fn new() -> (d: GameData)
        ensures
            d.current_level == 1,
    {
        GameData { current_level: 1 }
    }

    /// On level completion the saved progress advances by one level and the
    /// host is asked to enter the next level.
    pub fn advance_level(&mut self) -> (next: GameState)
        requires
            old(self).current_level < usize::MAX,
        ensures
            final(self).current_level == old(self).current_level + 1,
            next == GameState::Level,
    {
        self.current_level = self.current_level + 1;
        GameState::Level
    }
}

} // verus!
