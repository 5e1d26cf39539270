use vstd::prelude::*;

verus! {

/// The options a player picks when starting the game.
pub struct ArgsParser {
    pub grid_size: GridSize,
    pub speed: Speed,
    pub movement_key_scheme: MovementKeyScheme,
}

/// How much of the terminal the board takes.
#[derive(Debug, PartialEq, Eq, Structural, Clone, Copy)]
pub enum GridSize {
    Small,
    Medium,
    Large,
}

impl GridSize {
    /// The playable fraction of the terminal, in hundredths.
    pub open spec fn percent(self) -> u16 {
        match self {
            GridSize::Small => 70,
            GridSize::Medium => 85,
            GridSize::Large => 100,
        }
    }

    /// The playable fraction of the terminal, in hundredths: 70, 85 or 100.
    pub fn value(&self) -> (r: u16)
        ensures
            r == self.percent(),
            0 < r <= 100,
    {
        match self {
            GridSize::Small => 70,
            GridSize::Medium => 85,
            GridSize::Large => 100,
        }
    }
}

/// How fast the snake moves.
#[derive(Debug, PartialEq, Eq, Structural, Clone, Copy)]
pub enum Speed {
    Slow,
    Moderate,
    High,
}

impl Speed {
    /// The length of a horizontal tick, in milliseconds.
    pub open spec fn millis(self) -> u64 {
        match self {
            Speed::Slow => 120,
            Speed::Moderate => 90,
            Speed::High => 60,
        }
    }

    /// The length of a horizontal tick, in milliseconds: 120, 90 or 60.
    pub fn value(&self) -> (r: u64)
        ensures
            r == self.millis(),
    {
        match self {
            Speed::Slow => 120,
            Speed::Moderate => 90,
            Speed::High => 60,
        }
    }
}

/// Which keys steer the snake.
#[derive(Debug, PartialEq, Eq, Structural, Clone, Copy)]
pub enum MovementKeyScheme {
    Wsad,
    Arrows,
}

} // verus!
