//! The color spaces and what they share.

pub mod generic;
pub mod histgen;
pub mod hsl;
pub mod hsv;
pub mod okhsl;
pub mod okhsv;
