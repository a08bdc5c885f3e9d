//! Routing and invocation core of a distributed worker runtime.
//!
//! A cluster of executor nodes each owns a shard of named, stateful workers.
//! Any node may be asked to invoke a function on any worker; this library
//! decides whether the call executes locally or is forwarded to the node that
//! owns the target, while presenting one uniform invocation contract and one
//! error taxonomy regardless of locality.

pub mod auction;
pub mod compile;
pub mod cursor;
pub mod demand;
pub mod doubles;
pub mod error;
pub mod grpc;
pub mod idempotency;
pub mod images;
pub mod keyvalue;
pub mod model;
pub mod record_data;
pub mod rpc;
pub mod services;
pub mod tasks;
pub mod tokenizer;
