//! A connectionless UDP relay engine.
//!
//! One listening socket serves many clients; every client gets an upstream
//! socket of its own towards a single fixed remote endpoint. This crate holds
//! the part of such a relay that decides: the bounded session table, the
//! lifecycle of a session, and the order of the datagrams that leave. The
//! sockets themselves belong to the program around it, which performs the
//! [`action::Action`]s it is handed and reports back what came of them.

pub mod action;
pub mod addr;
pub mod datagram;
pub mod laws;
pub mod model;
pub mod relay;
pub mod table;
pub mod task;
