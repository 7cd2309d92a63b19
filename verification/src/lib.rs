//! Core of a line-oriented TCP chat broadcast server.
//!
//! Clients connect, pick a username, and every line they send is fanned out
//! to all other currently connected clients, with join and leave notices
//! interleaved into the same broadcast stream.  This crate holds the verified
//! core: the message type with its canonical rendering, the model of a
//! connection's bounded FIFO mailbox, the shared registry with its fan-out
//! rule, and the per-connection lifecycle state machine.  The surrounding
//! binary supplies the sockets and the task scheduling.

pub mod handler;
pub mod kv;
pub mod mailbox;
pub mod message;
pub mod registry;
