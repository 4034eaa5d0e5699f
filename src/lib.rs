//! Fixed-window admission control backed by a shared atomic counter.
//!
//! The library holds the decisions: the counting protocol as a state
//! transition over a counter record, the reading of the store's reply, the
//! resolution of a client key and the admission outcome of a request.
pub mod policy;
pub mod window;
pub mod laws;
pub mod protocol;
pub mod resolve;
pub mod admission;
pub mod config;
pub mod store;
