//! Core of a persistent job scheduler: job definitions, trigger parsing, a
//! priority queue of pending jobs, retry rules, health monitoring and the
//! facade that composes them.

pub mod config;
pub mod scheduler;
pub mod types;
