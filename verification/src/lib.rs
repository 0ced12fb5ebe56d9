//! Core of a concurrent streaming download manager.
//!
//! Each user-initiated download is one [`state::Entry`] in a
//! [`reducer::Registry`]. A transfer task drives the network fetch and the
//! file writes, reporting progress as a sequence of transfer events; the
//! event reducer applies each event to the entry it addresses. This crate
//! holds the data model, the task's decision logic, and the reducer; the
//! surrounding program performs the actual network and filesystem work and
//! renders registry snapshots.

pub mod event;
pub mod laws;
pub mod reducer;
pub mod state;
pub mod task;
