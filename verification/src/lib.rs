//! A verified core for a command-line front-end to a local model server.
//!
//! The library owns the program's decisions and text assembly: deriving the
//! configuration paths from the user's home directory, planning the first-run
//! setup, resolving a named system prompt, joining piped standard-input
//! lines, assembling the request text, formatting the listing of available
//! system prompts, and turning the model server's outcome into the text
//! printed or the error reported. All I/O (filesystem, terminal, network)
//! lives outside the library and hands it plain values.

pub mod config;
pub mod listing;
pub mod mode;
pub mod paths;
pub mod prompt;
pub mod response;
pub mod setup;
