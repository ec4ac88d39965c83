//! Core logic of a small Markdown viewer: request routing for its custom
//! protocol, embedded assets, messages from the web front end, text decoding,
//! change detection for the open file and the plan for registering the viewer
//! as the handler of `.md` files.

mod chars;
pub mod mime;
pub mod text;
pub mod assets;
pub mod protocol;
pub mod script;
pub mod viewer;
pub mod ipc;
pub mod watch;
pub mod association;
pub mod shell;
