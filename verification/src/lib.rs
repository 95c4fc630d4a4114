//! Durable storage for the state of a small service that manages users and the
//! compute instances they own.
//!
//! The crate is the core of that storage, free of locks and of I/O: the domain
//! model, the store with its read-only and read-write access, and the course by
//! which a changed state reaches its backing file without the file ever being
//! seen half-written. Everything in it is verified with Verus.
//!
//! * `model`: the plain values of the domain.
//! * `store`: the store, how it is loaded, read and changed.
//! * `persist`: the flush of a committed state to disk, step by step.

pub mod model;
pub mod persist;
pub mod store;
