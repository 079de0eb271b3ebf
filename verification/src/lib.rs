//! Decision and command-building logic of a WSL distribution dashboard.
//!
//! The library computes, from plain values, what the dashboard launches
//! (programs, arguments, environment), how a launch outcome is reported back,
//! and what a user interface event leads to. Running processes, reading the
//! environment and driving the window are left to the caller.

pub mod launch;
pub mod manage;
pub mod models;
pub mod text;
