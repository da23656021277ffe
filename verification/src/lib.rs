//! An adaptive concurrency controller for time-bounded request campaigns.
//!
//! A run issues as many concurrent requests as possible against an upstream
//! that throttles with 429 responses. The controller grows its in-flight
//! ceiling while responses succeed and contracts it on 429s, moving through
//! three one-way strategies (fast growth, linear growth, periodic growth),
//! and tags every worker with the strategy era it was dispatched under so
//! that stale 429s from an earlier era cannot drive the state machine twice.
//!
//! This crate holds the verified core: the run records, the id-to-run
//! storage, and the controller state machine. The network and task plumbing
//! around it lives outside.

pub mod handlers;
pub mod models;
pub mod requester;
pub mod storage;
