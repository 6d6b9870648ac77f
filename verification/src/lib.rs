//! The block-processing core of an inscription indexer: the worker's control
//! protocol, its two cache tiers, the sequence cursor, and the per-block
//! transactional protocol. The worker's collaborators (the relational store,
//! the block store, the protocol computation) are driven by the caller, who
//! answers the requests that the functions of this crate return.

pub mod block;
pub mod cache;
pub mod control;
pub mod cursor;
pub mod processor;
pub mod runloop;
