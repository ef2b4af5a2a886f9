//! A forwarding gateway for a chat backend spoken to over HTTP.
//!
//! The gateway offers three operations — send a chat message, fetch a
//! session's history, and check the backend's health — each a plain
//! pass-through of one HTTP exchange. This crate holds the verified part:
//! building the outbound request (its method, path and JSON body) and
//! turning the outcome of the exchange into the text handed to the caller.
//! Performing the exchange itself is the host application's job; it hands
//! the raw outcome back as a [`gateway::Exchange`] value.

pub mod body;
pub mod gateway;
