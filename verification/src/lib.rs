//! Client registry: records, an in-memory store and the commands over it.

pub mod commands;
pub mod db;
pub mod error;
pub mod ident;
pub mod laws;
pub mod prisma;
pub mod store;
pub mod timestamp;
