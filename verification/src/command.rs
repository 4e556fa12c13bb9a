//! Commands: the immutable values a client sends to steer its player.

use vstd::prelude::*;

verus! {

/// The horizontal input a player currently holds. `Still` means no
/// horizontal input is active.
#[derive(Clone, Copy, Debug, PartialEq, Eq, Structural)]
pub enum HorizontalIntent {
    Left,
    Right,
    Still,
}

/// One client intent, tagged with the identifier of the player it concerns.
///
/// `Dive` and `EndDive` are reserved for a future fast-fall behaviour: the
/// simulation accepts them without touching any player state.
#[derive(Clone, Debug, PartialEq, Eq)]
pub enum Command {
    Join(String),
    Leave(String),
    MoveLeft(String),
    MoveRight(String),
    MoveNone(String),
    Jump(String),
    Dive(String),
    EndDive(String),
}

/// The identifier of the player a command speaks of.
pub open spec fn player_of(c: Command) -> Seq<char> {
    match c {
        Command::Join(id) => id@,
        Command::Leave(id) => id@,
        Command::MoveLeft(id) => id@,
        Command::MoveRight(id) => id@,
        Command::MoveNone(id) => id@,
        Command::Jump(id) => id@,
        Command::Dive(id) => id@,
        Command::EndDive(id) => id@,
    }
}

} // verus!
