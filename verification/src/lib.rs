//! Data-access core of a personal media catalog.
//!
//! The catalog keeps filesystem paths as items in a relational store. This
//! crate holds what the catalog decides: which statement the store is asked
//! to run, with which bound parameters, and what becomes of its answer. It
//! never touches the store itself; whoever uses it runs the statements.

pub mod database;
pub mod path;
pub mod text;
