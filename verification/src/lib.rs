//! A single-user task-list manager: an in-memory task store with a monotonic
//! id counter, a pure filter engine, a modal input controller, a selection
//! tracker and a render planner, all verified. Persistence and the terminal
//! are external collaborators reached from the surrounding application.

pub mod animation;
pub mod cli;
pub mod clock;
pub mod controller;
pub mod date;
pub mod export;
pub mod filter;
pub mod render;
pub mod store;
pub mod task;
pub mod text;
pub mod theme;

pub use task::Todo;
