//! Entries as one type per kind, each holding its own children.

pub mod entry;
pub mod event;
pub mod note;
pub mod task;

pub use self::entry::{Child, Entry};
pub use self::event::Event;
pub use self::note::Note;
pub use self::task::Task;
