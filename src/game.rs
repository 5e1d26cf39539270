use vstd::prelude::*;

use crate::game_input::KeyPress;
use crate::game_instance::{
    grid_fits, starting_body, turned, welcome_body, welcome_fits, welcome_row, Direction,
    GameError, GameGrid, GameInstance,
};
use crate::parser::{ArgsParser, GridSize, MovementKeyScheme, Speed};

verus! {

/// The terminal's size in cells, width first.
pub struct TerminalSize {
    xy: (u16, u16),
}

impl TerminalSize {
    pub closed spec fn width(&self) -> u16 {
        self.xy.0
    }

    pub closed spec fn height(&self) -> u16 {
        self.xy.1
    }

    pub fn new(xy: (u16, u16)) -> (r: Self)
        ensures
            r.width() == xy.0,
            r.height() == xy.1,
    {
        Self { xy }
    }

    pub fn x(&self) -> (r: u16)
        ensures
            r == self.width(),
    {
        self.xy.0
    }

    pub fn y(&self) -> (r: u16)
        ensures
            r == self.height(),
    {
        self.xy.1
    }
}

/// How long to wait between two looks at the keyboard while nothing moves.
pub const PAUSE_POLL_MS: u64 = 10;

/// How much longer a vertical tick lasts than a horizontal one, since terminal cells
/// are taller than they are wide.
pub const VERTICAL_EXTRA_MS: u64 = 20;

/// The length of a tick in milliseconds while the snake travels in `dir`.
pub open spec fn tick_millis(speed: Speed, dir: Direction) -> u64 {
    if dir.is_vertical() {
        (speed.millis() + VERTICAL_EXTRA_MS) as u64
    } else {
        speed.millis()
    }
}

/// The options a game runs with.
#[derive(Debug, PartialEq, Eq, Structural, Clone, Copy)]
pub struct Options {
    pub grid_size: GridSize,
    pub speed: Speed,
    pub movement_key_scheme: MovementKeyScheme,
}

impl Options {
    pub fn new(grid_size: GridSize, speed: Speed, movement_key_scheme: MovementKeyScheme) -> (r:
        Self)
        ensures
            r == (Options { grid_size, speed, movement_key_scheme }),
    {
        Self { grid_size, speed, movement_key_scheme }
    }

    /// The options that the player picked.
    pub fn from_args(args: ArgsParser) -> (r: Self)
        ensures
            r == (Options {
                grid_size: args.grid_size,
                speed: args.speed,
                movement_key_scheme: args.movement_key_scheme,
            }),
    {
        Options::new(args.grid_size, args.speed, args.movement_key_scheme)
    }
}

/// The stage the game is in.
#[derive(Debug, PartialEq, Eq, Structural, Clone, Copy)]
pub enum GameState {
    /// The start screen, with a demo snake moving by itself.
    PreGame,
    /// A game being played.
    InProgress,
    /// The game-over animation after the snake's last move.
    GameOverTransition,
    /// The final score, waiting for the player to play again or quit.
    GameOver,
    /// A new game is about to be set up.
    RestartGame,
    /// The player quit.
    QuitButtonPressed,
}

/// What the terminal side is to do after a step of the game.
#[derive(Debug, PartialEq, Eq, Structural, Clone, Copy)]
pub enum Action {
    /// The demo snake moved: redraw it, then wait `wait_ms`.
    DemoMoved { wait_ms: u64 },
    /// A game began: clear the screen and draw the border, the snake and the food.
    ShowBoard,
    /// The snake moved: redraw the snake and the food, then wait `wait_ms`.
    Moved { wait_ms: u64 },
    /// Nothing to draw: wait `wait_ms`.
    Idle { wait_ms: u64 },
    /// The game ended: play the game-over animation.
    GameOverAnimation,
    /// Show the snake's final length, after discarding the keys pressed so far.
    ShowScore { length: usize },
    /// Restore the terminal and stop.
    Exit,
}

/// The game: its options, the stage it is in, and the running game or demo.
pub struct Game {
    pub options: Options,
    pub state: GameState,
    pub instance: GameInstance,
    pub terminal_size: TerminalSize,
    pub paused: bool,
}

impl Game {
    /// The running game is well formed, and the terminal holds both the start screen
    /// and a board of the chosen size.
    pub open spec fn wf(&self) -> bool {
        &&& self.instance.wf()
        &&& grid_fits(
            self.terminal_size.width(),
            self.terminal_size.height(),
            self.options.grid_size.percent(),
        )
        &&& welcome_fits(self.terminal_size.width(), self.terminal_size.height())
    }

    /// Whether `next` holds a new game just set up, being played and not paused.
    pub open spec fn started(&self, next: &Game) -> bool {
        &&& next.state == GameState::InProgress
        &&& !next.paused
        &&& next.instance.is_fresh(
            self.terminal_size.width(),
            self.terminal_size.height(),
            self.options.grid_size.percent(),
            starting_body(
                next.instance.grid.x_max,
                ((next.instance.grid.y_min + next.instance.grid.y_max) / 2) as u16,
            ),
            Direction::Right,
        )
    }

    /// Whether `next` and `action` come from one tick of the game, run after the snake
    /// turned to `dir`: the game goes on with the tick's length as the wait, or ends
    /// in the game-over animation.
    pub open spec fn ticked(&self, next: &Game, action: Action, dir: Direction) -> bool {
        let turned_instance = GameInstance { direction: dir, ..self.instance };
        &&& !next.paused
        &&& if action is GameOverAnimation {
            &&& next.state == GameState::GameOverTransition
            &&& turned_instance.ticked(next.instance, false)
        } else {
            &&& action == (Action::Moved { wait_ms: tick_millis(self.options.speed, dir) })
            &&& next.state == GameState::InProgress
            &&& turned_instance.ticked(next.instance, true)
        }
    }

    /// Whether `next` only changed stage to `state`, with nothing else touched.
    pub open spec fn moved_to(&self, next: &Game, state: GameState) -> bool {
        &&& next.state == state
        &&& next.paused == self.paused
        &&& next.instance == self.instance
    }

    /// Sets up the game on the start screen, or refuses a terminal too small for the
    /// start screen or for a board of the chosen size.
    pub fn new(args: ArgsParser, terminal_size: (u16, u16)) -> (r: Result<Game, GameError>)
        ensures
            r is Ok <==> grid_fits(terminal_size.0, terminal_size.1, args.grid_size.percent())
                && welcome_fits(terminal_size.0, terminal_size.1),
            r is Err ==> r == Err::<Game, GameError>(GameError::TerminalTooSmall),
            r matches Ok(g) ==> {
                &&& g.wf()
                &&& g.state == GameState::PreGame
                &&& !g.paused
                &&& g.terminal_size.width() == terminal_size.0
                &&& g.terminal_size.height() == terminal_size.1
                &&& g.options == (Options {
                    grid_size: args.grid_size,
                    speed: args.speed,
                    movement_key_scheme: args.movement_key_scheme,
                })
                &&& g.instance.is_fresh(
                    terminal_size.0,
                    terminal_size.1,
                    100,
                    welcome_body(g.instance.grid.x_max, welcome_row(g.instance.grid.y_max) as u16),
                    Direction::Left,
                )
            },
    {
        let terminal_size = TerminalSize::new(terminal_size);
        let options = Options::from_args(args);
        let percent = options.grid_size.value();
        match GameGrid::new(&terminal_size, percent) {
            Ok(_) => {},
            Err(e) => return Err(e),
        }
        let instance = match GameInstance::new_welcome(&terminal_size) {
            Ok(instance) => instance,
            Err(e) => return Err(e),
        };
        Ok(Game { options, state: GameState::PreGame, instance, terminal_size, paused: false })
    }

    /// The length of a tick in milliseconds in the current direction of travel.
    pub fn tick_period(&self) -> (r: u64)
        ensures
            r == tick_millis(self.options.speed, self.instance.direction),
    {
        let base = self.options.speed.value();
        if self.instance.direction.vertical() {
            base + VERTICAL_EXTRA_MS
        } else {
            base
        }
    }

    /// Replaces the running game with a new one on a board of the chosen size.
    fn start_game(&mut self)
        requires
            old(self).wf(),
        ensures
            final(self).wf(),
            old(self).started(final(self)),
            final(self).options == old(self).options,
            final(self).terminal_size == old(self).terminal_size,
    {
        let percent = self.options.grid_size.value();
        match GameInstance::new(&self.terminal_size, percent) {
            Ok(instance) => self.instance = instance,
            Err(_) => {},
        }
        self.state = GameState::InProgress;
        self.paused = false;
    }

    /// Takes one step of the game on the latest key press, and says what the terminal
    /// side is to do next.
    ///
    /// On the start screen, `Pause` starts a game, `Quit` quits, and any other key
    /// lets the demo snake move. While a game is played, `Quit` quits, `Pause` pauses
    /// or resumes, and a direction key turns the snake when the turn crosses its
    /// axis; each step that is not paused runs one tick. After the game-over
    /// animation comes the score, where `Pause` asks for a new game and `Quit` quits.
    pub fn step(&mut self, key: KeyPress) -> (action: Action)
        requires
            old(self).wf(),
        ensures
            final(self).wf(),
            final(self).options == old(self).options,
            final(self).terminal_size == old(self).terminal_size,
            key == KeyPress::Quit && old(self).state != GameState::GameOverTransition
                && old(self).state != GameState::RestartGame ==> action == Action::Exit
                && old(self).moved_to(final(self), GameState::QuitButtonPressed),
            old(self).state == GameState::PreGame ==> {
                &&& key == KeyPress::Pause ==> action == Action::ShowBoard && old(self).started(
                    final(self),
                )
                &&& key != KeyPress::Pause && key != KeyPress::Quit ==> {
                    &&& action == (Action::DemoMoved { wait_ms: old(self).options.speed.millis() })
                    &&& final(self).state == GameState::PreGame
                    &&& final(self).paused == old(self).paused
                    &&& old(self).instance.ticked(final(self).instance, true)
                        || old(self).instance.ticked(final(self).instance, false)
                }
            },
            old(self).state == GameState::InProgress && old(self).paused ==> {
                &&& key == KeyPress::Pause ==> old(self).ticked(
                    final(self),
                    action,
                    old(self).instance.direction,
                )
                &&& key != KeyPress::Pause && key != KeyPress::Quit ==> action == (Action::Idle {
                    wait_ms: PAUSE_POLL_MS,
                }) && old(self).moved_to(final(self), GameState::InProgress)
            },
            old(self).state == GameState::InProgress && !old(self).paused ==> {
                &&& key == KeyPress::Pause ==> {
                    &&& action == (Action::Idle { wait_ms: PAUSE_POLL_MS })
                    &&& final(self).state == GameState::InProgress
                    &&& final(self).paused
                    &&& final(self).instance == old(self).instance
                }
                &&& key matches KeyPress::DirectionKey(d) ==> old(self).ticked(
                    final(self),
                    action,
                    turned(old(self).instance.direction, d),
                )
                &&& key == KeyPress::Other || key == KeyPress::NoKey ==> old(self).ticked(
                    final(self),
                    action,
                    old(self).instance.direction,
                )
            },
            old(self).state == GameState::GameOverTransition ==> {
                &&& action == (Action::ShowScore { length: old(self).instance.snake.body@.len() as usize })
                &&& old(self).moved_to(final(self), GameState::GameOver)
            },
            old(self).state == GameState::GameOver && key == KeyPress::Pause ==> {
                &&& action == (Action::Idle { wait_ms: 0 })
                &&& old(self).moved_to(final(self), GameState::RestartGame)
            },
            old(self).state == GameState::GameOver && key != KeyPress::Pause && key
                != KeyPress::Quit ==> {
                &&& action == (Action::Idle { wait_ms: PAUSE_POLL_MS })
                &&& old(self).moved_to(final(self), GameState::GameOver)
            },
            old(self).state == GameState::RestartGame ==> action == Action::ShowBoard && old(
                self,
            ).started(final(self)),
            old(self).state == GameState::QuitButtonPressed ==> action == Action::Exit && old(
                self,
            ).moved_to(final(self), GameState::QuitButtonPressed),
    {
        match self.state {
            GameState::PreGame => match key {
                KeyPress::Pause => {
                    self.start_game();
                    Action::ShowBoard
                },
                KeyPress::Quit => {
                    self.state = GameState::QuitButtonPressed;
                    Action::Exit
                },
                _ => {
                    self.instance.game_cycle();
                    Action::DemoMoved { wait_ms: self.options.speed.value() }
                },
            },
            GameState::InProgress => match key {
                KeyPress::Quit => {
                    self.state = GameState::QuitButtonPressed;
                    Action::Exit
                },
                KeyPress::Pause => {
                    if self.paused {
                        self.play_tick()
                    } else {
                        self.paused = true;
                        Action::Idle { wait_ms: PAUSE_POLL_MS }
                    }
                },
                _ if self.paused => Action::Idle { wait_ms: PAUSE_POLL_MS },
                KeyPress::DirectionKey(d) => {
                    self.instance.request_direction(d);
                    self.play_tick()
                },
                _ => self.play_tick(),
            },
            GameState::GameOverTransition => {
                self.state = GameState::GameOver;
                Action::ShowScore { length: self.instance.snake.body.len() }
            },
            GameState::GameOver => match key {
                KeyPress::Pause => {
                    self.state = GameState::RestartGame;
                    Action::Idle { wait_ms: 0 }
                },
                KeyPress::Quit => {
                    self.state = GameState::QuitButtonPressed;
                    Action::Exit
                },
                _ => Action::Idle { wait_ms: PAUSE_POLL_MS },
            },
            GameState::RestartGame => {
                self.start_game();
                Action::ShowBoard
            },
            GameState::QuitButtonPressed => Action::Exit,
        }
    }

    /// Runs one tick of the game being played, after the snake turned as asked.
    fn play_tick(&mut self) -> (action: Action)
        requires
            old(self).wf(),
        ensures
            final(self).wf(),
            old(self).ticked(final(self), action, old(self).instance.direction),
            final(self).options == old(self).options,
            final(self).terminal_size == old(self).terminal_size,
    {
        self.paused = false;
        if self.instance.game_cycle() {
            self.state = GameState::InProgress;
            Action::Moved { wait_ms: self.tick_period() }
        } else {
            self.state = GameState::GameOverTransition;
            Action::GameOverAnimation
        }
    }
}

} // verus!
