//! The composition root of an aircraft's onboard systems: it owns every
//! subsystem, runs their updates once a tick in a fixed two-phase order
//! around the host's electrical distribution solve, and lets the host read
//! and write each subsystem's state by stable identifier.

pub mod aircraft;
pub mod ids;
pub mod schedule;
pub mod settings;
pub mod snapshot;
pub mod traversal;
