//! Address value types: 6-byte hardware (MAC) addresses, 4-byte IPv4
//! addresses, and the sender/target pairing an ARP message carries.

use vstd::prelude::*;
use vstd::string::StringExecFns;

verus! {

/// The lower-case hexadecimal digit for a value below 16.
pub open spec fn spec_hex_digit(n: int) -> char {
    if n == 0 {
        '0'
    } else if n == 1 {
        '1'
    } else if n == 2 {
        '2'
    } else if n == 3 {
        '3'
    } else if n == 4 {
        '4'
    } else if n == 5 {
        '5'
    } else if n == 6 {
        '6'
    } else if n == 7 {
        '7'
    } else if n == 8 {
        '8'
    } else if n == 9 {
        '9'
    } else if n == 10 {
        'a'
    } else if n == 11 {
        'b'
    } else if n == 12 {
        'c'
    } else if n == 13 {
        'd'
    } else if n == 14 {
        'e'
    } else {
        'f'
    }
}

/// The two lower-case hexadecimal digits of one byte.
pub open spec fn spec_byte_text(b: u8) -> Seq<char> {
    seq![spec_hex_digit(b as int / 16), spec_hex_digit(b as int % 16)]
}

fn hex_digit_str(n: u8) -> (r: &'static str)
    requires
        n < 16,
    ensures
        r@ == seq![spec_hex_digit(n as int)],
{
    proof {
        reveal_strlit("0");
        reveal_strlit("1");
        reveal_strlit("2");
        reveal_strlit("3");
        reveal_strlit("4");
        reveal_strlit("5");
        reveal_strlit("6");
        reveal_strlit("7");
        reveal_strlit("8");
        reveal_strlit("9");
        reveal_strlit("a");
        reveal_strlit("b");
        reveal_strlit("c");
        reveal_strlit("d");
        reveal_strlit("e");
        reveal_strlit("f");
    }
    let r: &'static str = if n == 0 {
        "0"
    } else if n == 1 {
        "1"
    } else if n == 2 {
        "2"
    } else if n == 3 {
        "3"
    } else if n == 4 {
        "4"
    } else if n == 5 {
        "5"
    } else if n == 6 {
        "6"
    } else if n == 7 {
        "7"
    } else if n == 8 {
        "8"
    } else if n == 9 {
        "9"
    } else if n == 10 {
        "a"
    } else if n == 11 {
        "b"
    } else if n == 12 {
        "c"
    } else if n == 13 {
        "d"
    } else if n == 14 {
        "e"
    } else {
        "f"
    };
    proof {
        assert(r@ =~= seq![spec_hex_digit(n as int)]);
    }
    r
}

/// A 6-byte link-layer hardware address.
#[derive(Clone, Copy, Debug)]
pub struct MacAddress {
    pub octets: [u8; 6],
}

impl View for MacAddress {
    type V = Seq<u8>;

    open spec fn view(&self) -> Seq<u8> {
        self.octets@
    }
}

impl MacAddress {
    pub fn new(octets: [u8; 6]) -> (r: MacAddress)
        ensures
            r@ == octets@,
    {
        MacAddress { octets }
    }

    /// The all-zero hardware address, conventional for the unknown
    /// target of an ARP request.
    pub fn zero() -> (r: MacAddress)
        ensures
            r@ == Seq::new(6, |i: int| 0u8),
    {
        let r = MacAddress { octets: [0u8; 6] };
        proof {
            assert(r@ =~= Seq::new(6, |i: int| 0u8));
        }
        r
    }

    /// The all-ones hardware address, the Ethernet broadcast address.
    pub fn broadcast() -> (r: MacAddress)
        ensures
            r@ == Seq::new(6, |i: int| 0xffu8),
    {
        let r = MacAddress { octets: [0xffu8; 6] };
        proof {
            assert(r@ =~= Seq::new(6, |i: int| 0xffu8));
        }
        r
    }
}

/// The colon-separated lower-case hexadecimal text of a hardware
/// address, such as `aa:bb:cc:dd:ee:ff`.
pub open spec fn spec_mac_text(m: MacAddress) -> Seq<char> {
    spec_byte_text(m@[0]) + seq![':'] + spec_byte_text(m@[1]) + seq![':'] + spec_byte_text(m@[2])
        + seq![':'] + spec_byte_text(m@[3]) + seq![':'] + spec_byte_text(m@[4]) + seq![':']
        + spec_byte_text(m@[5])
}

impl MacAddress {
    /// The colon-hex text of this address, for diagnostics.
    pub fn text(&self) -> (r: String)
        ensures
            r@ == spec_mac_text(*self),
    {
        proof {
            reveal_strlit(":");
        }
        let mut s = String::new();
        s.append(hex_digit_str(self.octets[0] / 16));
        s.append(hex_digit_str(self.octets[0] % 16));
        s.append(":");
        s.append(hex_digit_str(self.octets[1] / 16));
        s.append(hex_digit_str(self.octets[1] % 16));
        s.append(":");
        s.append(hex_digit_str(self.octets[2] / 16));
        s.append(hex_digit_str(self.octets[2] % 16));
        s.append(":");
        s.append(hex_digit_str(self.octets[3] / 16));
        s.append(hex_digit_str(self.octets[3] % 16));
        s.append(":");
        s.append(hex_digit_str(self.octets[4] / 16));
        s.append(hex_digit_str(self.octets[4] % 16));
        s.append(":");
        s.append(hex_digit_str(self.octets[5] / 16));
        s.append(hex_digit_str(self.octets[5] % 16));
        proof {
            assert(s@ =~= spec_mac_text(*self));
        }
        s
    }
}

impl PartialEq for MacAddress {
    fn eq(&self, other: &MacAddress) -> (r: bool) {
        let r = self.octets[0] == other.octets[0] && self.octets[1] == other.octets[1]
            && self.octets[2] == other.octets[2] && self.octets[3] == other.octets[3]
            && self.octets[4] == other.octets[4] && self.octets[5] == other.octets[5];
        proof {
            if r {
                assert(self@ =~= other@);
            }
        }
        r
    }
}

impl vstd::std_specs::cmp::PartialEqSpecImpl for MacAddress {
    open spec fn obeys_eq_spec() -> bool {
        true
    }

    open spec fn eq_spec(&self, other: &MacAddress) -> bool {
        self@ == other@
    }
}

impl Eq for MacAddress {}

/// A 4-byte IPv4 protocol address.
#[derive(Clone, Copy, Debug)]
pub struct Ipv4Address {
    pub octets: [u8; 4],
}

impl View for Ipv4Address {
    type V = Seq<u8>;

    open spec fn view(&self) -> Seq<u8> {
        self.octets@
    }
}

impl Ipv4Address {
    pub fn new(octets: [u8; 4]) -> (r: Ipv4Address)
        ensures
            r@ == octets@,
    {
        Ipv4Address { octets }
    }
}

impl PartialEq for Ipv4Address {
    fn eq(&self, other: &Ipv4Address) -> (r: bool) {
        let r = self.octets[0] == other.octets[0] && self.octets[1] == other.octets[1]
            && self.octets[2] == other.octets[2] && self.octets[3] == other.octets[3];
        proof {
            if r {
                assert(self@ =~= other@);
            }
        }
        r
    }
}

impl vstd::std_specs::cmp::PartialEqSpecImpl for Ipv4Address {
    open spec fn obeys_eq_spec() -> bool {
        true
    }

    open spec fn eq_spec(&self, other: &Ipv4Address) -> bool {
        self@ == other@
    }
}

impl Eq for Ipv4Address {}

/// A hardware/protocol address binding, used for both the sender and the
/// target role of an ARP message.
#[derive(Clone, Copy, Debug)]
pub struct AddressPair {
    pub mac: MacAddress,
    pub ip: Ipv4Address,
}

impl AddressPair {
    pub fn new(mac: MacAddress, ip: Ipv4Address) -> (r: AddressPair)
        ensures
            r.mac == mac,
            r.ip == ip,
    {
        AddressPair { mac, ip }
    }
}

} // verus!
