//! Verified models of two small browser demos: a textured-quad render loop
//! driven by animation frames, and a colour guessing game.

pub mod app;
pub mod color;
pub mod command;
pub mod consistency;
pub mod gl;
pub mod guess;
pub mod host;
pub mod quad;
pub mod render;
pub mod texture;
pub mod trace;

pub use app::{App, Msg};
