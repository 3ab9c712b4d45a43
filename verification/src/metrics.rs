//! Connection counters that any number of tasks may update at once.

use std::sync::atomic::{AtomicU64, Ordering};
use vstd::prelude::*;

verus! {

/// The number of connections that are open and the number that were closed.
/// The counters are atomics that are read and written with relaxed
/// ordering: other tasks may change them at any moment, so a value read
/// says nothing of the next one. For that reason no method here promises
/// anything of a counter's value.
#[derive(Debug)]
pub struct Metrics {
    open_connections: AtomicU64,
    closed_connections: AtomicU64,
}

impl Default for Metrics {
    /// Both counters at zero.
    fn default() -> Metrics {
        Metrics { open_connections: AtomicU64::new(0), closed_connections: AtomicU64::new(0) }
    }
}

impl Metrics {
    /// Counts one more connection as open.
    pub fn conn_opened(&self) {
        self.open_connections.fetch_add(1, Ordering::Relaxed);
    }

    /// Counts one connection as open no longer, and as closed.
    pub fn conn_closed(&self) {
        self.open_connections.fetch_sub(1, Ordering::Relaxed);
        self.closed_connections.fetch_add(1, Ordering::Relaxed);
    }

    /// The count of open connections as it stood at some moment of the call.
    pub fn open_connections(&self) -> u64 {
        self.open_connections.load(Ordering::Relaxed)
    }

    /// The count of closed connections as it stood at some moment of the call.
    pub fn closed_connections(&self) -> u64 {
        self.closed_connections.load(Ordering::Relaxed)
    }
}

} // verus!
