//! Decision logic of an interactive console for a Lightning node.
//!
//! The crate holds what the console decides and computes: how a line of input
//! is split into words, which command it names, what the console prints in
//! reply, how the amount of an LNURL payment is read, how the LNURL is decoded
//! and in which order the steps of such a payment follow each other. Reading
//! the terminal, talking to the network and running the node are left to the
//! program that drives these functions.

pub mod amount;
pub mod config;
pub mod console;
pub mod decode;
pub mod invoice;
pub mod payment;
pub mod words;
