//! Verified model of a GPU's adjustable power and clock limits.
//!
//! A [`caps::CapabilityDescriptor`] describes which knobs a GPU backend
//! supports and their legal ranges; a `Gpu` settings entity accepts requested
//! values and clamps them to capability before they ever reach hardware.

pub mod caps;
pub mod gpu;
pub mod iface;
pub mod laws;
pub mod locator;
pub mod minmax;
pub mod persist;
