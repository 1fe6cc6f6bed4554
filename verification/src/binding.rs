//! Decision logic for binding to a named network interface. The platform
//! work itself — enumerating interfaces, opening a raw link-layer channel,
//! the blocking send — happens outside this crate; these functions take
//! its plain outcomes and decide, exactly, which result the binding's
//! caller sees.

use vstd::prelude::*;

use crate::addr::MacAddress;
use crate::error::ArpError;

verus! {

/// Selects the interface whose name matches `wanted` exactly, given the
/// names of every interface available on the host in enumeration order.
/// Returns the index of the first match, or `InterfaceNotFound` exactly
/// when no name matches — in which case no channel is to be opened.
pub fn resolve_interface(names: &Vec<String>, wanted: &String) -> (r: Result<usize, ArpError>)
    ensures
        r is Ok ==> {
            let i = r->Ok_0;
            &&& i < names@.len()
            &&& names@[i as int]@ == wanted@
            &&& forall|j: int| 0 <= j < i ==> names@[j]@ != wanted@
        },
        r is Err ==> r->Err_0 == ArpError::InterfaceNotFound && forall|j: int|
            0 <= j < names@.len() ==> names@[j]@ != wanted@,
{
    let n: usize = names.len();
    let mut i: usize = 0;
    while i < n
        invariant
            n == names@.len(),
            i <= n,
            forall|j: int| 0 <= j < i ==> names@[j]@ != wanted@,
        decreases n - i,
    {
        if names[i].eq(wanted) {
            return Ok(i);
        }
        i = i + 1;
    }
    Err(ArpError::InterfaceNotFound)
}

/// Decides the result of the channel-opening step: the platform either
/// refused to open a raw channel (`ChannelUnavailable`, most commonly for
/// want of privilege), or opened one that is not Ethernet-framed
/// (`UnsupportedLinkType`), or the binding is usable.
pub fn channel_outcome(opened: bool, is_ethernet: bool) -> (r: Result<(), ArpError>)
    ensures
        !opened ==> r == Err::<(), ArpError>(ArpError::ChannelUnavailable),
        opened && !is_ethernet ==> r == Err::<(), ArpError>(ArpError::UnsupportedLinkType),
        opened && is_ethernet ==> r == Ok::<(), ArpError>(()),
{
    if !opened {
        Err(ArpError::ChannelUnavailable)
    } else if !is_ethernet {
        Err(ArpError::UnsupportedLinkType)
    } else {
        Ok(())
    }
}

/// Decides the result of a hardware-address query: the interface either
/// reports a MAC, which is returned unchanged, or reports none, which is
/// `NoHardwareAddress` — a configuration mismatch, not a transient fault.
pub fn require_mac(mac: Option<MacAddress>) -> (r: Result<MacAddress, ArpError>)
    ensures
        mac is Some <==> r is Ok,
        mac is Some ==> r->Ok_0 == mac->0,
        mac is None ==> r->Err_0 == ArpError::NoHardwareAddress,
{
    match mac {
        Some(m) => Ok(m),
        None => Err(ArpError::NoHardwareAddress),
    }
}

/// Decides the result of one blocking link-layer send: the device either
/// accepted the frame, or the transmit failed (`SendFailed`) — a per-call,
/// possibly transient condition the caller may retry; nothing is retried
/// here.
pub fn send_outcome(accepted: bool) -> (r: Result<(), ArpError>)
    ensures
        accepted ==> r == Ok::<(), ArpError>(()),
        !accepted ==> r == Err::<(), ArpError>(ArpError::SendFailed),
{
    if accepted {
        Ok(())
    } else {
        Err(ArpError::SendFailed)
    }
}

} // verus!
