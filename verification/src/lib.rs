//! Core of a two-runtime web page: a reactive UI layer (a counter page and a
//! canvas page) feeding a fixed-tick simulation layer through a one-directional
//! event bridge.
//!
//! The UI layer and the simulation layer never share a call stack; the only
//! sanctioned communication path is the bridge, a single-producer,
//! single-consumer, unbounded FIFO channel of text events. This crate states
//! and proves the protocol of that bridge, the bootstrap state machine of the
//! simulation instance, and the behaviour of the routed pages, over plain
//! values. The host frameworks that render the pages and drive the frame loop
//! live outside this crate and call into it.

pub mod bridge;
pub mod event;
pub mod sim;
pub mod ui;
