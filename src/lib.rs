//! Pull-based forwarder from systemd-journal-gatewayd sources to an
//! OTLP/HTTP log collector.
//!
//! The library holds the logic of one forwarding cycle: how a fetch query is
//! built and its response classified, how journal records are decoded into
//! entries, how entries become an OTLP export document, how checkpoints are
//! named and read back, and the per-cycle state machine that ties them
//! together. Network and file I/O are performed by the caller.

use vstd::prelude::*;

pub mod collector;
pub mod config;
pub mod cursor;
pub mod journal;
pub mod metrics;
pub mod otlp;
pub mod text;
