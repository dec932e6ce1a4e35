//! Verified core of a small user-management service.
//!
//! The crate holds the part of the service that decides: how a user row is
//! built from a request, which statement is sent to the store, how a store
//! failure is classified, which outcome a reply carries, and the
//! combinatorics utility. Transport, the database driver and process start-up
//! are left to the program that links this library.

pub mod combinations;
pub mod config;
pub mod error;
pub mod handlers;
pub mod identity;
pub mod laws;
pub mod models;
pub mod outcome;
pub mod repository;
pub mod status;
pub mod table;
pub mod text;
