//! TRB (Transfer Request Block).
use vstd::prelude::*;

pub mod command;
pub mod event;
pub mod transfer;

verus! {

/// The bytes of a TRB.
pub const BYTES: usize = 16;

} // verus!
