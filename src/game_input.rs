use vstd::prelude::*;

use crate::game_instance::Direction;
use crate::parser::MovementKeyScheme;

verus! {

/// A key as the terminal reports it.
#[derive(Debug, PartialEq, Eq, Structural, Clone, Copy)]
pub enum Key {
    Char(char),
    Up,
    Down,
    Left,
    Right,
    Other,
}

/// What a key press asks of the game.
#[derive(Debug, PartialEq, Eq, Structural, Clone, Copy)]
pub enum KeyPress {
    DirectionKey(Direction),
    Quit,
    Pause,
    Other,
    NoKey,
}

/// What `key` asks of the game under `scheme`: `q` or `Q` quits, `p` or `P` pauses,
/// the scheme's four keys steer, and any other key asks nothing.
pub open spec fn binding(scheme: MovementKeyScheme, key: Key) -> KeyPress {
    match key {
        Key::Char('q') | Key::Char('Q') => KeyPress::Quit,
        Key::Char('p') | Key::Char('P') => KeyPress::Pause,
        Key::Up if scheme == MovementKeyScheme::Arrows => KeyPress::DirectionKey(Direction::Up),
        Key::Down if scheme == MovementKeyScheme::Arrows => KeyPress::DirectionKey(Direction::Down),
        Key::Left if scheme == MovementKeyScheme::Arrows => KeyPress::DirectionKey(Direction::Left),
        Key::Right if scheme == MovementKeyScheme::Arrows => KeyPress::DirectionKey(
            Direction::Right,
        ),
        Key::Char('w') if scheme == MovementKeyScheme::Wsad => KeyPress::DirectionKey(Direction::Up),
        Key::Char('s') if scheme == MovementKeyScheme::Wsad => KeyPress::DirectionKey(
            Direction::Down,
        ),
        Key::Char('a') if scheme == MovementKeyScheme::Wsad => KeyPress::DirectionKey(
            Direction::Left,
        ),
        Key::Char('d') if scheme == MovementKeyScheme::Wsad => KeyPress::DirectionKey(
            Direction::Right,
        ),
        _ => KeyPress::Other,
    }
}

/// What the latest key, if any, asks of the game: `NoKey` when no key was pressed.
pub fn key_press(scheme: MovementKeyScheme, key: Option<Key>) -> (r: KeyPress)
    ensures
        r == match key {
            Some(k) => binding(scheme, k),
            None => KeyPress::NoKey,
        },
{
    let arrows = scheme == MovementKeyScheme::Arrows;
    match key {
        None => KeyPress::NoKey,
        Some(Key::Char('q')) | Some(Key::Char('Q')) => KeyPress::Quit,
        Some(Key::Char('p')) | Some(Key::Char('P')) => KeyPress::Pause,
        Some(Key::Up) if arrows => KeyPress::DirectionKey(Direction::Up),
        Some(Key::Down) if arrows => KeyPress::DirectionKey(Direction::Down),
        Some(Key::Left) if arrows => KeyPress::DirectionKey(Direction::Left),
        Some(Key::Right) if arrows => KeyPress::DirectionKey(Direction::Right),
        Some(Key::Char('w')) if !arrows => KeyPress::DirectionKey(Direction::Up),
        Some(Key::Char('s')) if !arrows => KeyPress::DirectionKey(Direction::Down),
        Some(Key::Char('a')) if !arrows => KeyPress::DirectionKey(Direction::Left),
        Some(Key::Char('d')) if !arrows => KeyPress::DirectionKey(Direction::Right),
        _ => KeyPress::Other,
    }
}

} // verus!
