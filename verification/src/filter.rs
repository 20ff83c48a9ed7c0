//! The per-request filter: the operations it works through, and the state
//! machine that carries it across the host's callbacks.

pub mod guarantees;
pub mod kuadrant_filter;
pub mod operations;

pub use kuadrant_filter::{Filter, KuadrantFilter};
