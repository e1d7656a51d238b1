//! Selective disclosure of a locally stored personal record.
//!
//! A user's personal fields are kept in one record. A remote service asks for some of
//! them by a short code; after the user has confirmed, those fields and no other are
//! sent. The record lives in a single cell, is restored from a stored file at startup
//! and written back whenever it has changed.
//!
//! The library decides and computes; it neither waits nor touches a file or the
//! network. A caller runs the tasks, performs the requests that the library describes
//! and hands back what came of them.

pub mod cell;
pub mod commands;
pub mod gateway;
pub mod json;
pub mod record;
pub mod startup;
pub mod wire;
