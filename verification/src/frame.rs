//! Bit-exact encoding of one ARP message and its enclosing Ethernet header,
//! and the matching decoder. The layout is fixed: a 14-byte Ethernet header
//! followed by a 28-byte ARP payload, all multi-byte fields in network byte
//! order. The encoder is pure: it validates no protocol semantics beyond
//! field layout, so the caller chooses the semantically correct addresses
//! for the chosen operation.

use vstd::prelude::*;

use crate::addr::AddressPair;
use crate::addr::MacAddress;
use crate::error::ArpError;

verus! {

/// Length in bytes of the Ethernet header.
pub const ETHERNET_HEADER_LEN: usize = 14;

/// Length in bytes of the ARP payload for IPv4 over Ethernet.
pub const ARP_PAYLOAD_LEN: usize = 28;

/// Length in bytes of one complete frame: Ethernet header plus ARP payload.
pub const FRAME_LEN: usize = 42;

/// The operation byte: 2 for a reply, 1 for a request. (The operation
/// field is two bytes; its high byte is always zero.)
pub open spec fn spec_operation_byte(is_reply: bool) -> u8 {
    if is_reply {
        2u8
    } else {
        1u8
    }
}

/// The 28 bytes of the ARP payload: hardware type Ethernet (1), protocol
/// type IPv4 (0x0800), address lengths 6 and 4, the operation, then the
/// sender and target hardware/protocol addresses.
pub open spec fn spec_arp_bytes(is_reply: bool, sender: AddressPair, target: AddressPair) -> Seq<
    u8,
> {
    seq![0u8, 1u8, 0x08u8, 0x00u8, 6u8, 4u8, 0u8, spec_operation_byte(is_reply)] + sender.mac@
        + sender.ip@ + target.mac@ + target.ip@
}

/// The 14 bytes of the Ethernet header: destination (the target's MAC),
/// source (the sender's MAC), then the ARP ethertype 0x0806.
pub open spec fn spec_ethernet_header(sender_mac: MacAddress, target_mac: MacAddress) -> Seq<u8> {
    target_mac@ + sender_mac@ + seq![0x08u8, 0x06u8]
}

/// The 42 bytes of one complete frame.
pub open spec fn spec_frame_bytes(is_reply: bool, sender: AddressPair, target: AddressPair) -> Seq<
    u8,
> {
    spec_ethernet_header(sender.mac, target.mac) + spec_arp_bytes(is_reply, sender, target)
}

/// Overwrites `buf[at .. at + N]` with `src`, leaving every other byte as
/// it was.
fn write_bytes<const N: usize>(buf: &mut Vec<u8>, at: usize, src: &[u8; N])
    requires
        at + N <= old(buf)@.len(),
    ensures
        final(buf)@.len() == old(buf)@.len(),
        forall|i: int|
            0 <= i < old(buf)@.len() ==> final(buf)@[i] == (if at <= i < at + N {
                src@[i - at]
            } else {
                old(buf)@[i]
            }),
{
    let n: usize = buf.len();
    let mut k: usize = 0;
    while k < N
        invariant
            k <= N,
            n == buf@.len(),
            at + N <= buf@.len(),
            buf@.len() == old(buf)@.len(),
            forall|i: int|
                0 <= i < buf@.len() ==> buf@[i] == (if at <= i < at + k {
                    src@[i - at]
                } else {
                    old(buf)@[i]
                }),
        decreases N - k,
    {
        buf[at + k] = src[k];
        k = k + 1;
    }
}

/// Encodes the ARP payload into a buffer known to have the exact size.
fn encode_arp_exact(buf: &mut Vec<u8>, is_reply: bool, sender: &AddressPair, target: &AddressPair)
    requires
        old(buf)@.len() == ARP_PAYLOAD_LEN,
    ensures
        final(buf)@ == spec_arp_bytes(is_reply, *sender, *target),
{
    buf[0] = 0x00;  // hardware type: Ethernet (1)
    buf[1] = 0x01;
    buf[2] = 0x08;  // protocol type: IPv4 (0x0800)
    buf[3] = 0x00;
    buf[4] = 6;  // hardware address length
    buf[5] = 4;  // protocol address length
    buf[6] = 0x00;  // operation: 1 = request, 2 = reply
    buf[7] = if is_reply {
        2
    } else {
        1
    };
    write_bytes(buf, 8, &sender.mac.octets);
    write_bytes(buf, 14, &sender.ip.octets);
    write_bytes(buf, 18, &target.mac.octets);
    write_bytes(buf, 24, &target.ip.octets);
    proof {
        assert(buf@ =~= spec_arp_bytes(is_reply, *sender, *target));
    }
}

/// Encodes the Ethernet header into the first 14 bytes of a buffer,
/// leaving the payload region as it was.
fn encode_ethernet_exact(buf: &mut Vec<u8>, sender_mac: &MacAddress, target_mac: &MacAddress)
    requires
        old(buf)@.len() >= ETHERNET_HEADER_LEN,
    ensures
        final(buf)@.len() == old(buf)@.len(),
        final(buf)@.subrange(0, ETHERNET_HEADER_LEN as int) == spec_ethernet_header(
            *sender_mac,
            *target_mac,
        ),
        final(buf)@.skip(ETHERNET_HEADER_LEN as int) == old(buf)@.skip(ETHERNET_HEADER_LEN as int),
{
    write_bytes(buf, 0, &target_mac.octets);
    write_bytes(buf, 6, &sender_mac.octets);
    buf[12] = 0x08;  // ethertype: ARP (0x0806)
    buf[13] = 0x06;
    proof {
        assert(buf@.subrange(0, ETHERNET_HEADER_LEN as int) =~= spec_ethernet_header(
            *sender_mac,
            *target_mac,
        ));
        assert(buf@.skip(ETHERNET_HEADER_LEN as int) =~= old(buf)@.skip(
            ETHERNET_HEADER_LEN as int,
        ));
    }
}

/// Encodes the 28-byte ARP payload into an externally supplied buffer.
/// Fails with `BufferTooSmall`, leaving the buffer untouched, exactly when
/// the buffer does not have the one valid size.
pub fn encode_arp(
    buf: &mut Vec<u8>,
    is_reply: bool,
    sender: &AddressPair,
    target: &AddressPair,
) -> (r: Result<(), ArpError>)
    ensures
        old(buf)@.len() == ARP_PAYLOAD_LEN ==> r is Ok && final(buf)@ == spec_arp_bytes(
            is_reply,
            *sender,
            *target,
        ),
        old(buf)@.len() != ARP_PAYLOAD_LEN ==> r == Err::<(), ArpError>(ArpError::BufferTooSmall)
            && final(buf)@ == old(buf)@,
{
    if buf.len() != ARP_PAYLOAD_LEN {
        return Err(ArpError::BufferTooSmall);
    }
    encode_arp_exact(buf, is_reply, sender, target);
    Ok(())
}

/// Encodes the 14-byte Ethernet header into the front of an externally
/// supplied buffer, leaving bytes beyond the header as they were. Fails
/// with `BufferTooSmall`, leaving the buffer untouched, exactly when the
/// buffer is shorter than the header.
pub fn encode_ethernet(buf: &mut Vec<u8>, sender_mac: &MacAddress, target_mac: &MacAddress) -> (r:
    Result<(), ArpError>)
    ensures
        old(buf)@.len() >= ETHERNET_HEADER_LEN ==> r is Ok && final(buf)@.len() == old(buf)@.len()
            && final(buf)@.subrange(0, ETHERNET_HEADER_LEN as int) == spec_ethernet_header(
            *sender_mac,
            *target_mac,
        ) && final(buf)@.skip(ETHERNET_HEADER_LEN as int) == old(buf)@.skip(
            ETHERNET_HEADER_LEN as int,
        ),
        old(buf)@.len() < ETHERNET_HEADER_LEN ==> r == Err::<(), ArpError>(ArpError::BufferTooSmall)
            && final(buf)@ == old(buf)@,
{
    if buf.len() < ETHERNET_HEADER_LEN {
        return Err(ArpError::BufferTooSmall);
    }
    encode_ethernet_exact(buf, sender_mac, target_mac);
    Ok(())
}

/// The two fixed-size byte buffers one binding owns: a 42-byte buffer for
/// the complete Ethernet frame and a 28-byte buffer for the standalone ARP
/// payload. Both are reused across sends; every byte of both is rewritten
/// on each fill, so their contents reflect only the latest call.
pub struct FrameBuffers {
    eth: Vec<u8>,
    arp: Vec<u8>,
}

impl FrameBuffers {
    /// The bytes of the Ethernet frame buffer.
    pub closed spec fn eth_view(&self) -> Seq<u8> {
        self.eth@
    }

    /// The bytes of the standalone ARP payload buffer.
    pub closed spec fn arp_view(&self) -> Seq<u8> {
        self.arp@
    }

    /// Both buffers have exactly the size the fixed layout dictates.
    pub open spec fn wf(&self) -> bool {
        self.eth_view().len() == FRAME_LEN && self.arp_view().len() == ARP_PAYLOAD_LEN
    }

    pub fn new() -> (r: FrameBuffers)
        ensures
            r.wf(),
    {
        FrameBuffers { eth: vec![0u8; 42], arp: vec![0u8; 28] }
    }

    /// Encodes one ARP message: fills the ARP buffer, then the Ethernet
    /// header, then embeds the ARP payload into the frame's payload
    /// region, producing one contiguous 42-byte frame. The result depends
    /// on the arguments of this call alone, never on what a previous call
    /// left in the buffers.
    pub fn fill(&mut self, is_reply: bool, sender: &AddressPair, target: &AddressPair)
        requires
            old(self).wf(),
        ensures
            final(self).wf(),
            final(self).arp_view() == spec_arp_bytes(is_reply, *sender, *target),
            final(self).eth_view() == spec_frame_bytes(is_reply, *sender, *target),
    {
        encode_arp_exact(&mut self.arp, is_reply, sender, target);
        encode_ethernet_exact(&mut self.eth, &sender.mac, &target.mac);
        let mut k: usize = 0;
        while k < ARP_PAYLOAD_LEN
            invariant
                k <= ARP_PAYLOAD_LEN,
                self.arp@ == spec_arp_bytes(is_reply, *sender, *target),
                self.eth@.len() == FRAME_LEN,
                self.eth@.subrange(0, ETHERNET_HEADER_LEN as int) == spec_ethernet_header(
                    sender.mac,
                    target.mac,
                ),
                forall|i: int|
                    ETHERNET_HEADER_LEN <= i < ETHERNET_HEADER_LEN + k ==> self.eth@[i]
                        == self.arp@[i - ETHERNET_HEADER_LEN],
            decreases ARP_PAYLOAD_LEN - k,
        {
            let b = self.arp[k];
            self.eth[ETHERNET_HEADER_LEN + k] = b;
            proof {
                assert(self.eth@.subrange(0, ETHERNET_HEADER_LEN as int) =~= spec_ethernet_header(
                    sender.mac,
                    target.mac,
                ));
            }
            k = k + 1;
        }
        proof {
            assert(self.eth@ =~= spec_frame_bytes(is_reply, *sender, *target));
        }
    }

    /// The complete 42-byte frame, ready for a link-layer send.
    pub fn frame(&self) -> (r: &Vec<u8>)
        ensures
            r@ == self.eth_view(),
    {
        &self.eth
    }

    /// The standalone 28-byte ARP payload.
    pub fn arp_payload(&self) -> (r: &Vec<u8>)
        ensures
            r@ == self.arp_view(),
    {
        &self.arp
    }
}

/// One decoded ARP message: the operation and the two address pairs.
#[derive(Clone, Copy, Debug)]
pub struct ArpMessage {
    pub is_reply: bool,
    pub sender: AddressPair,
    pub target: AddressPair,
}

/// A 28-byte sequence is a well-formed IPv4-over-Ethernet ARP payload:
/// right length, hardware type Ethernet, protocol type IPv4, address
/// lengths 6 and 4, and an operation of request (1) or reply (2).
pub open spec fn spec_arp_well_formed(s: Seq<u8>) -> bool {
    &&& s.len() == ARP_PAYLOAD_LEN
    &&& s[0] == 0u8
    &&& s[1] == 1u8
    &&& s[2] == 0x08u8
    &&& s[3] == 0x00u8
    &&& s[4] == 6u8
    &&& s[5] == 4u8
    &&& s[6] == 0u8
    &&& (s[7] == 1u8 || s[7] == 2u8)
}

/// `m` is what a standards-compliant parser reads out of the well-formed
/// payload `s`.
pub open spec fn spec_arp_decodes_to(s: Seq<u8>, m: ArpMessage) -> bool {
    &&& m.is_reply == (s[7] == 2u8)
    &&& m.sender.mac@ == s.subrange(8, 14)
    &&& m.sender.ip@ == s.subrange(14, 18)
    &&& m.target.mac@ == s.subrange(18, 24)
    &&& m.target.ip@ == s.subrange(24, 28)
}

/// Decodes a 28-byte ARP payload. Returns a message exactly when the
/// buffer is a well-formed IPv4-over-Ethernet ARP payload, and that
/// message carries exactly the addresses and operation the bytes hold.
pub fn decode_arp(buf: &Vec<u8>) -> (r: Option<ArpMessage>)
    ensures
        r is Some <==> spec_arp_well_formed(buf@),
        r is Some ==> spec_arp_decodes_to(buf@, r->Some_0),
{
    if buf.len() != ARP_PAYLOAD_LEN {
        return None;
    }
    if !(buf[0] == 0x00 && buf[1] == 0x01 && buf[2] == 0x08 && buf[3] == 0x00 && buf[4] == 6
        && buf[5] == 4 && buf[6] == 0x00 && (buf[7] == 1 || buf[7] == 2)) {
        return None;
    }
    let sender = AddressPair {
        mac: MacAddress { octets: [buf[8], buf[9], buf[10], buf[11], buf[12], buf[13]] },
        ip: crate::addr::Ipv4Address { octets: [buf[14], buf[15], buf[16], buf[17]] },
    };
    let target = AddressPair {
        mac: MacAddress { octets: [buf[18], buf[19], buf[20], buf[21], buf[22], buf[23]] },
        ip: crate::addr::Ipv4Address { octets: [buf[24], buf[25], buf[26], buf[27]] },
    };
    let m = ArpMessage { is_reply: buf[7] == 2, sender, target };
    proof {
        assert(m.sender.mac@ =~= buf@.subrange(8, 14));
        assert(m.sender.ip@ =~= buf@.subrange(14, 18));
        assert(m.target.mac@ =~= buf@.subrange(18, 24));
        assert(m.target.ip@ =~= buf@.subrange(24, 28));
    }
    Some(m)
}

/// For every input, the encoded ARP payload's operation field is 2 when
/// `is_reply` is true and 1 otherwise (high byte always zero), its
/// hardware and protocol address length fields are 6 and 4, and its
/// hardware and protocol type fields are Ethernet (1) and IPv4 (0x0800).
pub proof fn lemma_arp_field_layout(is_reply: bool, sender: AddressPair, target: AddressPair)
    ensures
        spec_arp_bytes(is_reply, sender, target).len() == ARP_PAYLOAD_LEN,
        spec_arp_bytes(is_reply, sender, target)[0] == 0u8,
        spec_arp_bytes(is_reply, sender, target)[1] == 1u8,
        spec_arp_bytes(is_reply, sender, target)[2] == 0x08u8,
        spec_arp_bytes(is_reply, sender, target)[3] == 0x00u8,
        spec_arp_bytes(is_reply, sender, target)[4] == 6u8,
        spec_arp_bytes(is_reply, sender, target)[5] == 4u8,
        spec_arp_bytes(is_reply, sender, target)[6] == 0u8,
        spec_arp_bytes(is_reply, sender, target)[7] == (if is_reply {
            2u8
        } else {
            1u8
        }),
{
}

/// Round trip: the payload the encoder produces is well formed, and
/// decoding it reproduces exactly the operation and the sender and target
/// addresses that were encoded.
pub proof fn lemma_arp_round_trip(is_reply: bool, sender: AddressPair, target: AddressPair)
    ensures
        spec_arp_well_formed(spec_arp_bytes(is_reply, sender, target)),
        spec_arp_decodes_to(
            spec_arp_bytes(is_reply, sender, target),
            (ArpMessage { is_reply, sender, target }),
        ),
{
    let b = spec_arp_bytes(is_reply, sender, target);
    assert(b.subrange(8, 14) =~= sender.mac@);
    assert(b.subrange(14, 18) =~= sender.ip@);
    assert(b.subrange(18, 24) =~= target.mac@);
    assert(b.subrange(24, 28) =~= target.ip@);
}

/// For both request and reply encodings, the frame's Ethernet destination
/// field equals the target's MAC, its source field equals the sender's
/// MAC, its ethertype is ARP (0x0806), and its payload region carries
/// exactly the ARP payload.
pub proof fn lemma_ethernet_field_layout(is_reply: bool, sender: AddressPair, target: AddressPair)
    ensures
        spec_frame_bytes(is_reply, sender, target).len() == FRAME_LEN,
        spec_frame_bytes(is_reply, sender, target).subrange(0, 6) == target.mac@,
        spec_frame_bytes(is_reply, sender, target).subrange(6, 12) == sender.mac@,
        spec_frame_bytes(is_reply, sender, target)[12] == 0x08u8,
        spec_frame_bytes(is_reply, sender, target)[13] == 0x06u8,
        spec_frame_bytes(is_reply, sender, target).subrange(
            ETHERNET_HEADER_LEN as int,
            FRAME_LEN as int,
        ) == spec_arp_bytes(is_reply, sender, target),
{
    let f = spec_frame_bytes(is_reply, sender, target);
    assert(f.subrange(0, 6) =~= target.mac@);
    assert(f.subrange(6, 12) =~= sender.mac@);
    assert(f.subrange(ETHERNET_HEADER_LEN as int, FRAME_LEN as int) =~= spec_arp_bytes(
        is_reply,
        sender,
        target,
    ));
}

} // verus!
