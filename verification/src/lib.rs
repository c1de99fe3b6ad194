//! A store for one OAuth-style credential bundle, kept as a single text
//! record in a per-installation data directory.
//!
//! The library decides and never acts. [`store`] turns each of the three
//! operations, load, save and clear, into steps for a driver that owns the
//! disk; [`location`] says which file the steps are about; [`codec`] turns a
//! record into text and back, with [`json`] as the reader and writer
//! underneath. [`model`] says what the operations come to on a disk that does
//! as it is told, and proves the laws of the store from that.

pub mod codec;
pub mod error;
pub mod json;
pub mod location;
pub mod model;
pub mod record;
pub mod store;
