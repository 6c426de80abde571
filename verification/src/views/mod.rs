//! What the journal shows on a terminal, as the commands to draw it.

pub mod application;
pub mod header_bar;
pub mod interactive;
pub mod terminal;
pub mod text_area;

pub use self::application::{Application, Cursor};
pub use self::header_bar::HeaderBar;
pub use self::terminal::{Color, Draw, DrawView};
pub use self::text_area::{EditorMode, Key, Step, TextArea};
