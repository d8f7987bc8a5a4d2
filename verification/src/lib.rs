//! Command decoder for a Redis-protocol-compatible server.
//!
//! A request arrives as an ordered sequence of already-tokenized protocol
//! values ([`protocol::RESP`]). The decoder turns one such sequence into
//! exactly one typed [`command::Command`], catching malformed requests,
//! wrong arity and unsupported verbs deterministically.

pub mod command;
pub mod protocol;
