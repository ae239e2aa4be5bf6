//! A small concurrent workload generator, verified: a fixed pool of workers
//! each recomputes a large-integer Fibonacci value for a fixed index and
//! publishes it into a shared result table, while a controller samples the
//! table on a fixed tick for a bounded run and then stops the pool.
//!
//! The library holds the verified logic: the Fibonacci engine, the result
//! table, the worker's step and stop decision, and the controller's state
//! machine. Thread spawning, sleeping, argument parsing and printing live
//! outside it, handing the library plain values and taking plain values back.
pub mod bignum;
pub mod config;
pub mod control;
pub mod engine;
pub mod table;
