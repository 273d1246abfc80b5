//! The deciding core of a queue-triggered record processor.
//!
//! A batch of queue records arrives; each record either asks for a product by
//! its key, which is then looked up in the table and forwarded to an output
//! queue, or describes a new product, which gets a fresh identifier and is put
//! into the table. Everything that decides or computes lives here and is
//! verified; talking to the table, the queues and the runtime is left to the
//! caller, which performs the actions that this crate hands out and reports
//! back what came of them.

pub mod error;
pub mod dtos;
pub mod models;
pub mod queries;
pub mod library;
