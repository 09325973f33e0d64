//! A text-broadcast relay: every line one client sends is passed on to all
//! other connected clients, prefixed with the sender's address.
//!
//! The library holds the decisions of the relay as verified state machines:
//! how a received buffer becomes a message ([`reader`]), what the acceptor does
//! with each poll ([`acceptor`]), and how the single dispatcher reacts to each
//! queued event over the client registry ([`handler`], [`registry`]). Sockets,
//! threads and the queue itself live with the program that drives them.

pub mod wire;
pub mod message;
pub mod registry;
pub mod handler;
pub mod reader;
pub mod acceptor;
pub mod guarantees;
