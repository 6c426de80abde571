//! A personal journal of notes, tasks and events.
//!
//! Entries nest: each owns the entries below it, in insertion order. A store
//! holds a list of entries and addresses them by index. The store in memory
//! forgets them with the process; the store on disk keeps them as YAML text
//! in one file, which it rewrites in full after every change.
//!
//! Nothing here reads a clock, a file or a terminal. Whoever runs a store or
//! a view hands in what was read, and gets back what is to be written or
//! drawn.

pub mod calendar;
pub mod cli;
pub mod kinds;
pub mod models;
pub mod services;
pub mod text;
pub mod views;
