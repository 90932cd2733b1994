//! Verified core of a desktop client that uploads albums to a music-library
//! server: part slicing, the single-file upload engine, the album
//! orchestrator, settings and the error taxonomy.

pub mod text;
pub mod error;
pub mod parts;
pub mod config;
pub mod hashing;
pub mod upload;
pub mod album;
pub mod settings;
pub mod transport;
