//! Session lifecycle manager of a collaborative document editor.
//!
//! The manager keeps at most one editing session per document, routes inbound
//! synchronization messages to the session of the document they name, and
//! fans connectivity changes out to every registered receiver. It decides;
//! the caller performs the outside work (building an editor, fetching from
//! the cloud, stopping a session) and reports back what came of it.

pub mod cloud;
pub mod entities;
pub mod errors;
pub mod laws;
pub mod manager;
pub mod model;
pub mod registry;
pub mod ws_data;
