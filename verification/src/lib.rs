//! Rain animation engine and the small deterministic rules of a terminal chat
//! client: streaks that fall over a character grid, the cells they may touch,
//! and the pure decisions behind the client's menu, settings and notes.

pub mod glyph;
pub mod llm;
pub mod matrix;
pub mod memory;
pub mod menu;
pub mod random;
pub mod region;
pub mod settings;
