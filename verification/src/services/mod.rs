//! The stores that hold a journal's entries.

pub mod codec;
pub mod journal;
pub mod yaml;

pub use self::codec::{deserialize, serialize};
pub use self::journal::{InMemoryJournal, LocalDiskJournal, JournalError, Journalable, Write, WriteView};
