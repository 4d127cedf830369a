use tcp_stream_capture::address::AddressError;
use tcp_stream_capture::address::IpAddress;
use tcp_stream_capture::address::MacAddress;
use tcp_stream_capture::address::OptionMacAddress;
use tcp_stream_capture::address::StandardAddress;
use tcp_stream_capture::address::VERSION_V4;
use tcp_stream_capture::address::VERSION_V6;
use tcp_stream_capture::address::bytes16_eq;
use tcp_stream_capture::address::ip_eq;
use tcp_stream_capture::address::normalize_v4;
use tcp_stream_capture::address::normalize_v6;

#[test]
fn mac_display_canonical() {
    let mac = MacAddress { bytes: [0x00, 0x1B, 0x44, 0x11, 0x3A, 0xB7] };
    assert_eq!(mac.display(), "00:1B:44:11:3A:B7".to_string());
}

#[test]
fn mac_display_edge_nibbles() {
    let mac = MacAddress { bytes: [0xFF, 0x00, 0x0A, 0x99, 0x0F, 0xF0] };
    assert_eq!(mac.display(), "FF:00:0A:99:0F:F0".to_string());
}

#[test]
fn mac_display_all_zero() {
    let mac = MacAddress { bytes: [0; 6] };
    assert_eq!(mac.display(), "00:00:00:00:00:00".to_string());
}

#[test]
fn absent_mac_collapses_to_none() {
    let garbage = MacAddress { bytes: [0xDE, 0xAD, 0xBE, 0xEF, 0x01, 0x02] };
    let absent = OptionMacAddress { value: garbage, valid: false };
    assert_eq!(absent.as_option(), None);
}

#[test]
fn present_mac_collapses_to_some() {
    let mac = MacAddress { bytes: [0x00, 0x1B, 0x44, 0x11, 0x3A, 0xB7] };
    let present = OptionMacAddress { value: mac, valid: true };
    assert_eq!(present.as_option(), Some(mac));
}

#[test]
fn v4_round_trip_identical_octets() {
    let octets = [192u8, 168, 1, 77];
    let unified = normalize_v4(&octets);
    assert_eq!(unified.version, VERSION_V4);
    assert_eq!(
        unified.to_standard_address(),
        Ok(StandardAddress::V4([192, 168, 1, 77]))
    );
}

#[test]
fn v4_normalize_pads_with_zeroes() {
    let unified = normalize_v4(&[10, 0, 0, 1]);
    assert_eq!(
        unified.bytes,
        [10, 0, 0, 1, 0, 0, 0, 0, 0, 0, 0, 0, 0, 0, 0, 0]
    );
}

#[test]
fn v6_round_trip_identical_bytes() {
    let bytes = [
        0x20, 0x01, 0x0d, 0xb8, 0, 0, 0, 0, 0, 0, 0, 0, 0, 0, 0x12, 0x34,
    ];
    let unified = normalize_v6(&bytes);
    assert_eq!(unified.version, VERSION_V6);
    assert_eq!(unified.to_standard_address(), Ok(StandardAddress::V6(bytes)));
}

#[test]
fn unexpected_version_tag_is_explicit_error() {
    let corrupt = IpAddress {
        bytes: [7; 16],
        version: 9,
    };
    assert_eq!(
        corrupt.to_standard_address(),
        Err(AddressError::InvalidVersionTag)
    );
}

#[test]
fn zero_version_tag_is_explicit_error() {
    let corrupt = IpAddress {
        bytes: [0; 16],
        version: 0,
    };
    assert_eq!(
        corrupt.to_standard_address(),
        Err(AddressError::InvalidVersionTag)
    );
}

#[test]
fn tag_is_part_of_identity() {
    // An IPv4 address and an IPv6 address with identical buffers are
    // distinct addresses: the tag belongs to the identity.
    let v4 = normalize_v4(&[0, 0, 0, 1]);
    let mut buffer = [0u8; 16];
    buffer[3] = 1;
    let v6 = normalize_v6(&buffer);
    assert_eq!(v4.bytes, v6.bytes);
    assert!(!ip_eq(&v4, &v6));
    assert!(ip_eq(&v4, &v4));
}

#[test]
fn buffer_equality_checks_every_byte() {
    let a = [1u8; 16];
    let mut b = [1u8; 16];
    assert!(bytes16_eq(&a, &b));
    b[15] = 2;
    assert!(!bytes16_eq(&a, &b));
}
