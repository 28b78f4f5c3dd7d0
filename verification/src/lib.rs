//! Core of a delivery-management service built around a transactional outbox.
//!
//! A state change and the event that announces it are written in one
//! transaction; queued events are relayed to a broker afterwards; inbound
//! broker messages are acknowledged only once their transaction has committed.
//!
//! The handlers are written as scripts: each takes the reply to its last
//! storage command and says which command comes next, so the decisions live
//! here while a driver performs the commands against a database and a broker.
//!
//! * [`status`], [`models`], [`events`], [`outbox`]: the values that are
//!   stored and exchanged, and the wire form of the events.
//! * [`storage`]: the commands and replies that scripts and storage exchange.
//! * [`creation`], [`transition`]: the scripts that create a delivery and
//!   move it through its lifecycle.
//! * [`consumer`], [`ack`]: the handling of one inbound message and what
//!   becomes of it.
//! * [`publisher`]: one cycle of the relay that publishes queued events.
//! * [`ledger`], [`store`]: the tables as a mathematical value, and an
//!   in-memory store that carries out the storage commands.
//! * [`service`], [`relay`]: the scripts run to their end against the store,
//!   with what each of them changes and returns.

pub mod ack;
pub mod consumer;
pub mod creation;
pub mod error;
pub mod events;
pub mod ledger;
pub mod models;
pub mod outbox;
pub mod publisher;
pub mod relay;
pub mod service;
pub mod status;
pub mod storage;
pub mod store;
pub mod text;
pub mod transition;
