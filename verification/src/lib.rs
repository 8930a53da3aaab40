//! A live markdown previewer: the rules behind its key bindings, its file
//! watcher, its renderer and the page it builds.

pub mod assets;
pub mod background;
pub mod input;
pub mod markdown;
pub mod text;
pub mod ui;
