//! A module containing things representing errors
use vstd::prelude::*;

verus! {

/// An enum representing errors
#[derive(Copy, Clone, Debug, PartialEq, Eq, Structural)]
pub enum Error {
    /// The passed address is not aligned correctly.
    NotAligned {
        /// The address must be `alignment` byte aligned.
        alignment: u64,
        /// The address passed as an argument.
        address: u64,
    },
}

} // verus!
