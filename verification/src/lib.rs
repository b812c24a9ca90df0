//! Incremental synchronization of a remote paginated follower listing into a
//! local tracked-entity store.
//!
//! The library models and verifies the core of the sync engine: cursor-based
//! pagination across a sweep, idempotent reconciliation of observed entities
//! against a sweep window, the sweep-window lifecycle itself, and the
//! scheduling and error-classification decisions that drive retries and
//! shutdown. Network fetches, the durable store's transactions, timers and
//! signal handling live outside the library; they hand plain values in and
//! take plain values back.

pub mod engine;

pub mod errors;

pub mod page;

pub mod reconcile;

pub mod scheduler;

pub mod store;

pub mod sweep;
