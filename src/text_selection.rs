//! The selected-text reader's decisions: counting text the way an editor's
//! cursor moves through it (per platform), what is reported of a selection,
//! and how the context before the cursor is read.

pub mod cross_platform;
pub mod cursor_context;
pub mod macos;
pub mod selected_text;
pub mod windows;
