//! The decisions of a Cloudreve desktop client, kept apart from its I/O.

pub mod client;
pub mod config;
pub mod desktop;
pub mod download;
pub mod download_laws;
pub mod error;
pub mod exchange;
pub mod exchange_laws;
pub mod http;
pub mod json;
pub mod jwt;
pub mod progress;
pub mod text;
pub mod time;
pub mod tokens;
