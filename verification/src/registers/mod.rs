//! xHCI registers.
pub mod capability;
pub mod operational;
pub mod doorbell;
pub mod runtime;
pub mod register64;
