use arppusher::addr::MacAddress;
use arppusher::binding::channel_outcome;
use arppusher::binding::require_mac;
use arppusher::binding::resolve_interface;
use arppusher::binding::send_outcome;
use arppusher::error::ArpError;

#[test]
fn resolve_picks_first_exact_match() {
    let names: Vec<String> =
        vec!["lo".to_string(), "eth0".to_string(), "wlan0".to_string(), "eth0".to_string()];
    assert_eq!(resolve_interface(&names, &"eth0".to_string()), Ok(1));
    assert_eq!(resolve_interface(&names, &"lo".to_string()), Ok(0));
    assert_eq!(resolve_interface(&names, &"eth".to_string()), Err(ArpError::InterfaceNotFound));
    assert_eq!(resolve_interface(&Vec::new(), &"lo".to_string()), Err(ArpError::InterfaceNotFound));
}

#[test]
fn open_nonexistent_interface_is_not_found() {
    // The names of the interfaces this host really has, in enumeration
    // order, exactly as a binding's open step would see them.
    let names: Vec<String> =
        pnet::datalink::interfaces().into_iter().map(|i| i.name).collect();
    assert_eq!(resolve_interface(&names, &"nonexistent0".to_string()), Err(ArpError::InterfaceNotFound));
}

#[test]
fn channel_outcomes() {
    assert_eq!(channel_outcome(false, false), Err(ArpError::ChannelUnavailable));
    assert_eq!(channel_outcome(false, true), Err(ArpError::ChannelUnavailable));
    assert_eq!(channel_outcome(true, false), Err(ArpError::UnsupportedLinkType));
    assert_eq!(channel_outcome(true, true), Ok(()));
}

#[test]
fn missing_hardware_address() {
    assert_eq!(require_mac(None), Err(ArpError::NoHardwareAddress));
    let m = MacAddress::new([1, 2, 3, 4, 5, 6]);
    assert_eq!(require_mac(Some(m)), Ok(m));
}

#[test]
fn send_outcomes() {
    assert_eq!(send_outcome(true), Ok(()));
    assert_eq!(send_outcome(false), Err(ArpError::SendFailed));
}

#[test]
fn error_texts() {
    assert_eq!(ArpError::InterfaceNotFound.text(), "interface not found");
    assert_eq!(ArpError::ChannelUnavailable.text(), "channel unavailable");
    assert_eq!(ArpError::UnsupportedLinkType.text(), "unsupported link type");
    assert_eq!(ArpError::NoHardwareAddress.text(), "no hardware address");
    assert_eq!(ArpError::BufferTooSmall.text(), "buffer too small");
    assert_eq!(ArpError::SendFailed.text(), "send failed");
}

#[test]
fn mac_colon_hex_text() {
    assert_eq!(MacAddress::new([0xaa, 0xbb, 0xcc, 0xdd, 0xee, 0xff]).text(), "aa:bb:cc:dd:ee:ff");
    assert_eq!(MacAddress::new([0x00, 0x01, 0x0f, 0x10, 0x80, 0xff]).text(), "00:01:0f:10:80:ff");
    // Matches the textual form the platform library prints for the same address.
    let m = pnet::util::MacAddr::new(0x02, 0x42, 0x13, 0x37, 0x00, 0x01);
    assert_eq!(MacAddress::new(m.octets()).text(), m.to_string());
}

#[test]
fn mac_equality_is_by_octets() {
    let a = MacAddress::new([1, 2, 3, 4, 5, 6]);
    let b = MacAddress::new([1, 2, 3, 4, 5, 6]);
    let c = MacAddress::new([1, 2, 3, 4, 5, 7]);
    assert_eq!(a, b);
    assert_ne!(a, c);
    assert_eq!(MacAddress::zero().octets, [0u8; 6]);
    assert_eq!(MacAddress::broadcast().octets, [0xffu8; 6]);
}
