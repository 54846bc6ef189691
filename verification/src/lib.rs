//! Control plane of an AMQP 1.0 protocol engine: protocol-identifier
//! negotiation, SASL orchestration, the `Open` exchange, and the routing of
//! session- and link-lifecycle events to an application-level link service.
//!
//! Byte-level framing, transport I/O and the SASL mechanism algorithms are
//! external collaborators: this crate works on typed frames and plain values
//! and proves the decisions the engine makes about them.

pub mod control;
pub mod dispatcher;
pub mod error;
pub mod factory;
pub mod sasl;
pub mod session;
pub mod types;
