//! A task executor whose event loop lives outside Rust.
//!
//! The Rust side keeps a table of spawned tasks; an external driver (a
//! libuv loop, a Dart isolate, or any loop written in C) owns one external
//! task per spawned future, wakes it, polls it through the table and drops
//! it once it has completed.

pub mod task;
pub mod driver;
pub mod uv;
pub mod dart;
pub mod ip;
pub mod file;
pub mod cstr;
