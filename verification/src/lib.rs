//! A single-input, many-output byte relay.
//!
//! One input transport (a TCP client connection, a TCP server that accepts a
//! single peer, a UDP socket, or a serial port) is bridged to any number of
//! TCP clients: bytes read from the input are broadcast to every connected
//! client, and bytes written by any client are funnelled back into the input
//! transport.
//!
//! This crate holds the verified core: the transport state machines, the
//! publish backoff policy, the per-client delivery and eviction policy, and
//! reference models of the two channels that wire them together. The
//! surrounding process (socket handling, task spawning, timers) drives these
//! state machines and performs the I/O they decide on.

pub mod bus;
pub mod client;
pub mod config;
pub mod port;
pub mod publish;
