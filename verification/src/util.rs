//! Error kinds, path layout and text helpers shared by every layer.

pub mod atomic;
pub mod clock;
pub mod encoding;
pub mod errors;
pub mod io;
pub mod paths;
pub mod text;
pub mod text_map;
