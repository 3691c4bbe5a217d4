//! Movement and self-collision core of a grid snake game.

pub mod draw;
pub mod lemmas;
pub mod snake;

pub use draw::to_coord_u32;
pub use snake::{Direction, Snake};
