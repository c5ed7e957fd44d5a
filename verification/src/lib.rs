//! Verified core of a terminal front-end that narrates the line-oriented
//! output of a bridged interactive process with a typing animation.
//!
//! The parts, leaves first: [`typing`] queues narration lines and reveals
//! them scalar by scalar; [`viewport`] keeps the scroll offset and decides
//! whether the window follows new output; [`input`] and [`history`] hold the
//! input line, its cursor and the ring of submitted inputs; [`command`] maps
//! keys to commands; [`app`] is the coordinator that owns them all. [`model`]
//! is the front-end as a mathematical value, over which the coordinator's
//! contracts are stated, and [`invariants`] proves what holds of it whatever
//! happens.
//!
//! The library reads no clock and touches no pipe. Times are handed in as
//! milliseconds on a clock of the caller's choosing; events of the process
//! are handed in as values, and what is to be sent to it is handed back.

pub mod app;
pub mod command;
pub mod history;
pub mod input;
pub mod invariants;
pub mod lines;
pub mod message;
pub mod model;
pub mod text;
pub mod typing;
pub mod viewport;
