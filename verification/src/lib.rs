//! Session rules, shot decisions, HUD text and panel bridge values of a
//! browser basketball shooting game.

pub mod session;
pub mod shooting;
pub mod laws;
pub mod hud;
pub mod bridge;
pub mod practice;
