//! Verified core of a directory service for person records.
//!
//! The service takes creations, lookups by identifier, searches by a part of
//! the text of a person, and counts. This crate holds what it decides: the
//! records and their identifiers, each operation as a machine that is driven
//! from outside, the statements for the relational store, a model of what
//! the store holds, and the laws of the operations against that model.

pub mod config;
pub mod date;
pub mod directory;
pub mod handlers;
pub mod ident;
pub mod laws;
pub mod memory;
pub mod models;
pub mod response;
pub mod schema;
pub mod startup;
pub mod store;
