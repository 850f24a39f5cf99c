//! A deterministic load-generation harness for transactional key/value
//! storage engines: a seeded key-locality generator, a uniform write
//! interface over heterogeneous backends, and a batched fill driver with
//! latency accounting.

pub mod config;
pub mod driver;
pub mod engine;
pub mod keygen;
mod rng;
pub mod stats;
