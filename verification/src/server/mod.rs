//! The server: what it starts with, and what it answers.
pub mod config;
pub mod consumers;
pub mod fx_server;
pub mod http;
pub mod logs;
