//! The input resolver: maps abstract key symbols, as the surrounding program
//! decodes them from the terminal, to the intents the round controller acts
//! on. Unrecognised keys are ignored, never reported.

use vstd::prelude::*;
use crate::snake::Direction;

verus! {

/// An abstract key symbol, already decoded from the raw terminal event.
#[derive(Clone, Copy, Debug, PartialEq, Eq, Structural)]
pub enum KeySymbol {
    Up,
    Down,
    Left,
    Right,
    Enter,
    Escape,
    Digit(u8),
}

/// What the player asks of the round controller.
#[derive(Clone, Copy, Debug, PartialEq, Eq, Structural)]
pub enum Intent {
    TurnUp,
    TurnDown,
    TurnLeft,
    TurnRight,
    TogglePause,
    RestartLevelSelect,
    Ignore,
}

/// The key-to-intent mapping: arrows turn, enter toggles pause, escape goes
/// back to level selection, anything else is discarded.
pub open spec fn spec_resolve(key: KeySymbol) -> Intent {
    match key {
        KeySymbol::Up => Intent::TurnUp,
        KeySymbol::Down => Intent::TurnDown,
        KeySymbol::Left => Intent::TurnLeft,
        KeySymbol::Right => Intent::TurnRight,
        KeySymbol::Enter => Intent::TogglePause,
        KeySymbol::Escape => Intent::RestartLevelSelect,
        KeySymbol::Digit(_) => Intent::Ignore,
    }
}

/// The direction a turn intent asks for, if it is one.
pub open spec fn spec_intent_direction(i: Intent) -> Option<Direction> {
    match i {
        Intent::TurnUp => Some(Direction::Up),
        Intent::TurnDown => Some(Direction::Down),
        Intent::TurnLeft => Some(Direction::Left),
        Intent::TurnRight => Some(Direction::Right),
        _ => None,
    }
}

/// Resolves one key symbol to an intent.
pub fn resolve_key(key: KeySymbol) -> (i: Intent)
    ensures
        i == spec_resolve(key),
{
    match key {
        KeySymbol::Up => Intent::TurnUp,
        KeySymbol::Down => Intent::TurnDown,
        KeySymbol::Left => Intent::TurnLeft,
        KeySymbol::Right => Intent::TurnRight,
        KeySymbol::Enter => Intent::TogglePause,
        KeySymbol::Escape => Intent::RestartLevelSelect,
        KeySymbol::Digit(_) => Intent::Ignore,
    }
}

/// The direction a turn intent asks for, if it is one.
pub fn intent_direction(i: Intent) -> (d: Option<Direction>)
    ensures
        d == spec_intent_direction(i),
{
    match i {
        Intent::TurnUp => Some(Direction::Up),
        Intent::TurnDown => Some(Direction::Down),
        Intent::TurnLeft => Some(Direction::Left),
        Intent::TurnRight => Some(Direction::Right),
        _ => None,
    }
}

} // verus!
