//! Classification of raw terminal key codes into the closed set of game
//! commands.  Reading the keys is the terminal collaborator's job; deciding
//! what a key means happens here.

use vstd::prelude::*;
use crate::game_objects::Direction;

verus! {

/// Key code of the down-arrow key, as the curses protocol reports it.
pub const KEY_DOWN: i32 = 258;

/// Key code of the up-arrow key.
pub const KEY_UP: i32 = 259;

/// Key code of the left-arrow key.
pub const KEY_LEFT: i32 = 260;

/// Key code of the right-arrow key.
pub const KEY_RIGHT: i32 = 261;

/// Key code of the F4 function key: the designated quit key.
pub const KEY_F4: i32 = 268;

/// Key code of the enter key, as the curses protocol reports it.
pub const KEY_ENTER: i32 = 343;

/// The escape key.
pub const ESC: i32 = 0x1B;

/// Control-C.
pub const CTRL_C: i32 = 0x3;

/// The newline character, what a terminal hands back for the enter key when
/// it is not in keypad mode.
pub const NEWLINE: i32 = 0xA;

/// A classified input event: what one keypress asks the game to do.
#[derive(Clone, Copy, PartialEq, Eq, Structural, Debug)]
pub enum Command {
    /// Move the player in the given direction.
    Move(Direction),
    /// Pause or resume the game.
    Pause,
    /// End the game.
    Quit,
    /// A key with no meaning; the main loop ignores it silently.
    Unrecognized,
}

/// What each raw key code means: the arrow keys move, escape pauses,
/// Control-C and F4 quit, and every other key means nothing.
pub open spec fn classified(key: i32) -> Command {
    if key == KEY_LEFT {
        Command::Move(Direction::Left)
    } else if key == KEY_RIGHT {
        Command::Move(Direction::Right)
    } else if key == KEY_UP {
        Command::Move(Direction::Up)
    } else if key == KEY_DOWN {
        Command::Move(Direction::Down)
    } else if key == ESC {
        Command::Pause
    } else if key == KEY_F4 || key == CTRL_C {
        Command::Quit
    } else {
        Command::Unrecognized
    }
}

/// Translate one raw key code into the command it stands for.
pub fn classify_key(key: i32) -> (c: Command)
    ensures
        c == classified(key),
{
    if key == KEY_LEFT {
        Command::Move(Direction::Left)
    } else if key == KEY_RIGHT {
        Command::Move(Direction::Right)
    } else if key == KEY_UP {
        Command::Move(Direction::Up)
    } else if key == KEY_DOWN {
        Command::Move(Direction::Down)
    } else if key == ESC {
        Command::Pause
    } else if key == KEY_F4 || key == CTRL_C {
        Command::Quit
    } else {
        Command::Unrecognized
    }
}

} // verus!
