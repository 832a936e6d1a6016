//! A runtime for WebAssembly functions: what it decides and computes, apart from the engine,
//! the network and the file system around it.
pub mod compiler;
pub mod cron;
pub mod definition;
pub mod definitions;
pub mod effects;
pub mod function;
pub mod introspection;
pub mod order;
pub mod poll;
pub mod profiling;
pub mod resources;
pub mod runtime;
pub mod server;
pub mod streams;
pub mod table;
pub mod text;
pub mod web;
