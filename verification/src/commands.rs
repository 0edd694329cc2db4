//! What each slash command decides.

pub mod admin;
pub mod games;
pub mod misc;
pub mod settings;
