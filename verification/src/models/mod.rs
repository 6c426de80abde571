//! The entry record and what it is rendered as.

pub mod entries;

pub use self::entries::{Entry, EntryVariants, EntryView, JournalEntry};
