//! A small verified record store for a service catalog: a durable,
//! uniqueness-enforcing store of service records backed by SQLite, plus an
//! in-memory manager with the same operation shape.

pub mod database;
pub mod error;
pub mod hardware;
pub mod laws;
pub mod model;
pub mod sqlite;
