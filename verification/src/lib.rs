//! A journaled block buffer cache: fixed-size disk blocks held in memory,
//! each with the flags that a write-ahead-logging transaction engine needs
//! to commit, checkpoint and recover.
//!
//! The library performs no I/O. Where a block has to be read or written it
//! hands its caller a request, and takes the outcome back as a plain value:
//!
//! - [`device`]: blocks, write-back requests, and the rules by which a
//!   medium's replies become results;
//! - [`buffer`]: one cached block and its flags;
//! - [`manager`]: the registry that holds one buffer per block id;
//! - [`journal`]: what the transaction engine is handed, the buffer provider
//!   and the slot for its current transaction.

pub mod device;
pub mod buffer;
pub mod manager;
pub mod journal;
