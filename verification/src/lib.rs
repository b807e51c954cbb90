//! Core logic of a terminal maze-chase game: the spatial primitives, the
//! actors (player, spectres, coins), the menu state machine, the command
//! classification, and the per-tick game-state transition.
//!
//! Terminal rendering, key reading and command-line handling are external
//! collaborators; this library only decides, on plain values, what each
//! component does.

pub mod game;
pub mod game_objects;
pub mod input;
pub mod menu;
pub mod window;

pub use game::GameState;
pub use game_objects::Character;
pub use game_objects::Coin;
pub use game_objects::Direction;
pub use game_objects::Player;
pub use game_objects::Point;
pub use game_objects::Spectre;
pub use input::Command;
pub use menu::MainMenu;
pub use menu::MenuBuilder;
pub use menu::MenuObject;
pub use menu::MenuStep;
pub use menu::PauseMenu;
pub use menu::SubMenu;
