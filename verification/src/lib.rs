//! Parts of an editor: keystrokes with their modifiers, and the slash command
//! that inserts Rust documentation.

pub mod candidates;
pub mod docs_laws;
pub mod docs_run;
pub mod keystroke;
pub mod keystroke_laws;
pub mod manifest;
pub mod modifiers;
pub mod rustdoc_command;
pub mod text;

pub use crate::keystroke::Keystroke;
pub use crate::modifiers::Modifiers;
