//! Verified routing and fan-out core of a small set of cooperating services:
//! a topic-based message bus on one side, live streaming clients on the other.
//!
//! - `routing`: the routing table, one handler per routing key.
//! - `consumer`: the message consumer, which dispatches and settles every
//!   delivery.
//! - `broadcast`: the bounded, lossy, multi-subscriber topic.
//! - `relay`: the handler that publishes decoded bus messages on a topic.
//! - `session`: the state machine of one connected client.
//! - `prompt`, `events`, `ident`, `json`, `text`, `amqp`: the messages, their
//!   identifiers and their wire forms.
//! - `ingress_api`, `endpoint`, `agent_orchestrator`: what each service adds.
//!
//! The library performs no I/O. Whoever holds the connections hands it frames
//! and deliveries as plain values and carries out what it decides.

pub mod amqp;
pub mod broadcast;
pub mod consumer;
pub mod events;
pub mod ident;
pub mod json;
pub mod prompt;
pub mod relay;
pub mod routing;
pub mod session;
pub mod text;

pub mod agent_orchestrator;
pub mod endpoint;
pub mod ingress_api;
