//! Client side of a shared test queue: CI worker nodes ask a remote queue
//! service for batches of tests, run them, and report the timings back.
pub mod ci;
pub mod client;
pub mod error;
pub mod models;
pub mod run_loop;
pub mod runner;
