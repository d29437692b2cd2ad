//! Verified control plane of an enclave supervisor process.
//!
//! The supervisor owns one isolated compute enclave for its lifetime: it
//! detaches from its launching terminal, multiplexes control connections from
//! CLI clients over local sockets, dispatches a small command protocol against
//! enclave lifecycle operations, and tears itself down on request or signal.
//!
//! This crate holds the verified core: the wire framing of the command
//! protocol, the logger-identifier derivation, the output-routing discipline,
//! the listener registry, and the dispatcher state machine. The surrounding
//! process work (sockets, fork, epoll, threads) is driven by an unverified
//! shell that calls into these functions.

pub mod dispatcher;
pub mod ids;
pub mod lifecycle;
pub mod listener;
pub mod protocol;
pub mod router;
