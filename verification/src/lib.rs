//! A command runner without I/O of its own.
//!
//! The library decides what is launched, what a spinner shows while a child
//! runs, and what a finished child means for its caller. Its host launches the
//! processes, draws the spinner and prints: it hands the library what the
//! operating system gave back, as plain values.

pub mod text;
pub mod command;
pub mod executor;
pub mod capture;
pub mod progress;
pub mod driver;
pub mod guarantees;
