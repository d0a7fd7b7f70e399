//! The rules by which a bundler loads modules the way Deno does: which URL an
//! entrypoint stands for, what a module depends on, how a loaded module is to be
//! bundled, and what an HTTP reply means.
pub mod graph;
pub mod http_client;
pub mod media;
pub mod module_analyzer;
pub mod plugin;
pub mod position;
pub mod specifier;
pub mod syntax;
pub mod text;
