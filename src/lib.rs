//! Session management for an AI coding assistant running inside tmux,
//! centred on deciding when an assistant turn has finished.
pub mod text;
pub mod parse;
pub mod markers;
pub mod detect;
pub mod driver;
pub mod claude;
pub mod session;
