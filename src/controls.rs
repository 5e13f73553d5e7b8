use vstd::prelude::*;
use crate::snake::Direction;

verus! {

/// A key press, as far as the game tells keys apart.
#[derive(Debug, Clone, Copy, PartialEq, Eq, Structural)]
pub enum Key {
    Char(char),
    Left,
    Right,
    Up,
    Down,
    Esc,
    Other,
}

/// The direction a key steers towards: the arrows, and `q`, `s`, `d`, `z`
/// for left, down, right and up.
pub open spec fn steering(key: Key) -> Option<Direction> {
    match key {
        Key::Char('q') | Key::Left => Some(Direction::Left),
        Key::Char('s') | Key::Down => Some(Direction::Down),
        Key::Char('d') | Key::Right => Some(Direction::Right),
        Key::Char('z') | Key::Up => Some(Direction::Up),
        _ => None,
    }
}

pub fn key_direction(key: Key) -> (r: Option<Direction>)
    ensures
        r == steering(key),
{
    match key {
        Key::Char('q') | Key::Left => Some(Direction::Left),
        Key::Char('s') | Key::Down => Some(Direction::Down),
        Key::Char('d') | Key::Right => Some(Direction::Right),
        Key::Char('z') | Key::Up => Some(Direction::Up),
        _ => None,
    }
}

/// What the player chose at the end-of-life prompt.
#[derive(Debug, Clone, Copy, PartialEq, Eq, Structural)]
pub enum Answer {
    Restart,
    Quit,
    Undecided,
}

pub open spec fn answer_of(key: Key) -> Answer {
    match key {
        Key::Char('Y') | Key::Char('y') => Answer::Restart,
        Key::Char('N') | Key::Char('n') => Answer::Quit,
        _ => Answer::Undecided,
    }
}

/// Reads a key pressed at the prompt: `Y` or `y` restarts, `N` or `n` quits,
/// and anything else leaves the question open.
pub fn answer(key: Key) -> (r: Answer)
    ensures
        r == answer_of(key),
{
    match key {
        Key::Char('Y') | Key::Char('y') => Answer::Restart,
        Key::Char('N') | Key::Char('n') => Answer::Quit,
        _ => Answer::Undecided,
    }
}

} // verus!
