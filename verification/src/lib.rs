//! A model layer without I/O of its own.
//!
//! Every data access is an exchange in two halves. A controller first says
//! what is to be sent to the store: a [`base::Request`] that carries the
//! acting context, the storage handle and the statement. Whoever owns the
//! connection runs it, and hands the store's reply to the second half, which
//! decodes rows into the projection that the caller chose and turns failures
//! into the closed set of [`error::Error`].

pub mod base;
pub mod ctx;
pub mod error;
pub mod laws;
pub mod manager;
pub mod row;
pub mod sql;
pub mod task;
pub mod user;
