//! Instrumentation of WebAssembly modules: one set of module operations,
//! carried out alike on a compiling engine's module metadata and on a parsed
//! binary, and the passes that are built from them.

pub mod binary;
pub mod error;
pub mod global;
pub mod info;
pub mod laws;
pub mod middleware;
pub mod module;
pub mod passes;
pub mod shape;
pub mod types;
