//! Host device access.
pub mod vfio;
pub mod uring;
