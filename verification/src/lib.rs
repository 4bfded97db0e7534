//! Control library for wireless beacon base stations.
//!
//! Discovered devices advertise a local name; the name's prefix selects a
//! protocol generation, and each generation has its own command encoding for
//! the logical power states (off, on, standby). An adaptive timeout
//! controller decides, from the cadence of successful dispatches, how long a
//! scan session keeps running.

pub mod classify;
pub mod controller;
pub mod dispatch;
pub mod encoder;
pub mod hex;
pub mod state;
