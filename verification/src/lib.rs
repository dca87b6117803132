//! Decision core of a Monte Carlo estimator for the area of the Mandelbrot set.
//!
//! A pool of workers samples points in a bounding disk and hands the number of
//! points found inside the set to one aggregator. This crate holds the rules of
//! that engine as plain state machines: the escalating interrupt signal, the
//! running totals and the area derived from them, the worker's loop decisions
//! and the aggregator's phases. Threads, channels, clocks, signal registration
//! and floating-point geometry are left to the caller.

pub mod aggregator;
pub mod config;
pub mod sampler;
pub mod signal;
pub mod totals;
pub mod worker;
