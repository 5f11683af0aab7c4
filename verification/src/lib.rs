//! Decision logic of the CookyCardz desktop back end: signing in and checking a
//! session, synchronising recipes, tags and schedules with the cloud, and
//! backing up or restoring the local data directory.
//!
//! Everything that touches the network, the database, the file system or the
//! user interface is performed by the caller; the functions here decide what
//! to do next and compute the values that are sent or stored.

pub mod text;
pub mod lists;
pub mod auth;
pub mod recipes;
pub mod schedules;
pub mod sync;
pub mod tags;
pub mod archive;
