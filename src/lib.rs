//! Block-digit terminal clock: glyph table, time decomposition, layout,
//! frame composition and the redraw lifecycle, with their contracts.

pub mod config;
pub mod frame;
pub mod glyph;
pub mod layout;
pub mod lifecycle;
pub mod time;
