//! Reading-progress synchronisation between YACReader libraries and a Stump
//! server.
//!
//! The library decides; it neither opens a database nor a connection. It says
//! which comics belong together, what state two sides converge to, what is
//! written where, which request is sent, and which step of a run comes next.

pub mod clock;
pub mod config;
pub mod decimal;
pub mod ffi;
pub mod graphql;
pub mod mapping_db;
pub mod runtime;
pub mod stump_client;
pub mod sync_engine;
pub mod text;
pub mod types;
