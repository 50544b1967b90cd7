//! The storage and query layer.

pub mod entities;
pub mod error;
pub mod gateway;
pub mod ingest;
pub mod operations;
pub mod statement;
pub mod timestamp;
