//! Construction of raw Ethernet/ARP frames: address value types, bit-exact
//! encoding of the 14-byte Ethernet header and the 28-byte ARP payload into
//! reusable buffers, a matching decoder, and the decision logic for binding
//! to a named network interface. Everything here is pure computation; the
//! caller that owns the link-layer handle performs the actual transmission.

pub mod addr;
pub mod binding;
pub mod error;
pub mod frame;
