//! The simulation core of a terminal snake game: a wrap-around grid, the
//! snake's movement and growth, food placement, and the game's state machine.

pub mod game;
pub mod game_input;
pub mod game_instance;
pub mod parser;

pub use game::{Action, Game, GameState, Options, TerminalSize};
pub use game_input::{key_press, Key, KeyPress};
pub use game_instance::{Direction, GameError, GameGrid, GameInstance, GridCell, Snake};
pub use parser::{ArgsParser, GridSize, MovementKeyScheme, Speed};
