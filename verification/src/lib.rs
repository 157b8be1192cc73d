//! Text-statistics library: byte, character, line and word counts over an
//! in-memory text, plus the fixed-order policy that turns a set of selected
//! counts into a single output line.

pub mod counts;
pub mod data;
pub mod render;
