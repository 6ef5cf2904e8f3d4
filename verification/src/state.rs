//! The world state that predictors are evaluated against, and the choice of
//! RNG seeding scheme.

use vstd::prelude::*;

verus! {

/// Which scheme maps a seed to internal generator state.
///
/// The simulation collaborators are parameterized by this choice; it is made
/// once, at configuration build time, for the whole predictor graph.
#[derive(Clone, Copy, Debug, PartialEq, Eq, Structural)]
pub enum RngType {
    /// The current seeding scheme.
    Hashed,
    /// The legacy seeding scheme.
    Legacy,
}

impl Default for RngType {
    /// The current scheme is the default.
    fn default() -> (r: Self)
        ensures
            r == RngType::Hashed,
    {
        RngType::Hashed
    }
}

/// An immutable snapshot of the inputs needed to evaluate predictors for one
/// candidate seed at one point in simulated time.
///
/// A `WorldState` is a pure value: predictors never mutate one in place, they
/// derive modified copies through [`WorldState::with_seed`] and
/// [`WorldState::with_day`].
#[derive(Clone, Copy, Debug, PartialEq, Eq, Structural)]
pub struct WorldState {
    /// The candidate seed, the partition key of the whole search.
    pub game_id: u32,
    /// The multiplayer/session identifier. Defaults to 0.
    pub multiplayer_id: i64,
    /// Days played; day 1 is the game's first day, monotonically increasing,
    /// never reset.
    pub days_played: u32,
    /// The IEEE-754 bit pattern of the daily-luck value. The search logic
    /// never interprets it; it is carried through untouched for the
    /// simulation collaborators. Defaults to 0, the bit pattern of luck 0.
    pub daily_luck_bits: u64,
    /// Number of geodes cracked plus one: the game increments the counter
    /// before consuming it. Defaults to 1.
    pub geodes_cracked: u32,
    /// Deepest mine level reached. Defaults to 0.
    pub deepest_mine_level: u32,
}

impl WorldState {
    /// A world state with every field at its default.
    pub fn new() -> (r: Self)
        ensures
            r == (WorldState {
                game_id: 0u32,
                multiplayer_id: 0i64,
                days_played: 1u32,
                daily_luck_bits: 0u64,
                geodes_cracked: 1u32,
                deepest_mine_level: 0u32,
            }),
    {
        WorldState {
            game_id: 0,
            multiplayer_id: 0,
            days_played: 1,
            daily_luck_bits: 0,
            geodes_cracked: 1,
            deepest_mine_level: 0,
        }
    }

    /// The same state with the seed replaced.
    pub fn with_seed(&self, game_id: u32) -> (r: Self)
        ensures
            r == self.spec_with_seed(game_id),
    {
        WorldState { game_id, ..*self }
    }

    /// The same state with the day counter replaced.
    pub fn with_day(&self, days_played: u32) -> (r: Self)
        ensures
            r == self.spec_with_day(days_played),
    {
        WorldState { days_played, ..*self }
    }

    /// What [`WorldState::with_seed`] returns.
    pub open spec fn spec_with_seed(self, game_id: u32) -> WorldState {
        WorldState { game_id, ..self }
    }

    /// What [`WorldState::with_day`] returns.
    pub open spec fn spec_with_day(self, days_played: u32) -> WorldState {
        WorldState { days_played, ..self }
    }
}

} // verus!
