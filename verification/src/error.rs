//! The error taxonomy. Every failure is terminal for the operation that
//! raised it: no internal retry or recovery is performed.

use vstd::prelude::*;

verus! {

/// Why an operation failed.
#[derive(Clone, Copy, Debug, PartialEq, Eq, Structural)]
pub enum ArpError {
    /// No interface of the requested name exists on this host.
    InterfaceNotFound,
    /// The platform refused to open a raw link-layer channel
    /// (most commonly: insufficient privilege).
    ChannelUnavailable,
    /// A channel was opened but it is not Ethernet-framed.
    UnsupportedLinkType,
    /// The interface reports no hardware address.
    NoHardwareAddress,
    /// An externally supplied buffer has the wrong size for the
    /// fixed Ethernet/ARP layout.
    BufferTooSmall,
    /// The link-layer send was attempted and did not succeed.
    SendFailed,
}

impl ArpError {
    /// A short diagnostic name for the error.
    pub fn text(&self) -> (r: &'static str)
        ensures
            r@ == self.spec_text(),
    {
        match self {
            ArpError::InterfaceNotFound => "interface not found",
            ArpError::ChannelUnavailable => "channel unavailable",
            ArpError::UnsupportedLinkType => "unsupported link type",
            ArpError::NoHardwareAddress => "no hardware address",
            ArpError::BufferTooSmall => "buffer too small",
            ArpError::SendFailed => "send failed",
        }
    }

    pub open spec fn spec_text(&self) -> Seq<char> {
        match self {
            ArpError::InterfaceNotFound => "interface not found"@,
            ArpError::ChannelUnavailable => "channel unavailable"@,
            ArpError::UnsupportedLinkType => "unsupported link type"@,
            ArpError::NoHardwareAddress => "no hardware address"@,
            ArpError::BufferTooSmall => "buffer too small"@,
            ArpError::SendFailed => "send failed"@,
        }
    }
}

} // verus!
