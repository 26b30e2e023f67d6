//! Core of a user-space networking runtime: the waker page that a cooperative
//! scheduler uses to track which of its tasks are ready, and a UDP peer with
//! socket-style operations on top of an ARP resolver and a raw transmit path.
//!
//! Everything here is sequential state with exact contracts. What suspends,
//! performs I/O or needs raw pointers stays with the caller, which hands in
//! plain values and carries out the actions that the functions return.

pub mod collections;
pub mod fail;
pub mod file_table;
pub mod operations;
pub mod protocols;
