//! Types of the xHCI structures, such as the Registers, the Contexts and the TRBs, with their
//! contracts.
//!
//! Users can use this library to implement a USB device driver on their own OS.
pub mod bits;
pub mod registers;
pub mod extended_capabilities;
pub mod context;
pub mod ring;
pub mod accessor;
pub mod error;
