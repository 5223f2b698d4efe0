//! Decoding of the `grid_line` redraw notifications that Neovim sends to an
//! external UI, and the decisions that the bridge to Neovim takes.

pub mod value;
pub mod errors;
pub mod character;
pub mod grid_line;
pub mod notify;
pub mod session;
