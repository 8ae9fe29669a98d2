//! Fast simulation of calls for an execution node.
//!
//! Calls and traces are executed by a pool of workers on the state of the newest
//! block. The modules hold what is decided and computed on the way:
//!
//! - [`epoch`]: which block is the newest, and what a new one does to the caches
//! - [`api`]: where a request goes, and how it is answered
//! - [`worker`]: the pool, and how a worker goes through a task
//! - [`provider`]: reads of the state, through a worker's own cache and the shared
//!   one
//! - [`isolation`]: what tasks leave behind in the caches
//! - [`cache`]: the shared cache, and how it follows the chain
//! - [`impact`]: which pools a block may have moved
//! - [`metrics`]: what is counted, and what is reported
//! - [`config`]: the settings
//!
//! What they rest on is in [`primitives`], [`chain`], [`keyed_map`] and [`text`].

pub mod api;
pub mod cache;
pub mod chain;
pub mod config;
pub mod epoch;
pub mod impact;
pub mod isolation;
pub mod keyed_map;
pub mod metrics;
pub mod primitives;
pub mod provider;
pub mod text;
pub mod worker;

pub use crate::epoch::EpochContext;
pub use crate::worker::DEFAULT_POOL_SIZE as DEFAULT_MEV_POOL_SIZE;
