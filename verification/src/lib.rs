//! Host side of a command line tool that loads WebAssembly modules under
//! names, calls functions in them, and serves HTTP requests through them.
pub mod registry;
pub mod text;
pub mod json;
pub mod modules;
pub mod host;
pub mod guests;
pub mod http_server;
pub mod cli;
