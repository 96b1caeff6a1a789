//! xHCI Supported Protocol Capability
//!
//! The Protocol Speed ID and its fields are those of [`super::xhci_supported_protocol`].
pub use super::xhci_supported_protocol::{BitRate, LinkProtocol, ProtocolSpeedId, PsiType};
