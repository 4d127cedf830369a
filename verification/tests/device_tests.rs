use tcp_stream_capture::address::MacAddress;
use tcp_stream_capture::address::OptionMacAddress;
use tcp_stream_capture::address::VERSION_V4;
use tcp_stream_capture::address::VERSION_V6;
use tcp_stream_capture::address::normalize_v4;
use tcp_stream_capture::address::normalize_v6;
use tcp_stream_capture::device::DeviceRecord;
use tcp_stream_capture::device::LiveDevice;
use tcp_stream_capture::device::find_by_address;
use tcp_stream_capture::device::find_by_ip_or_name;
use tcp_stream_capture::device::find_by_name;

fn no_mac() -> OptionMacAddress {
    OptionMacAddress {
        value: MacAddress { bytes: [0; 6] },
        valid: false,
    }
}

fn sample_devices() -> Vec<DeviceRecord> {
    vec![
        DeviceRecord {
            device: LiveDevice { handle: 11 },
            name: "lo".to_string(),
            mac: no_mac(),
            addresses: vec![normalize_v4(&[127, 0, 0, 1])],
        },
        DeviceRecord {
            device: LiveDevice { handle: 22 },
            name: "eth0".to_string(),
            mac: OptionMacAddress {
                value: MacAddress { bytes: [0x00, 0x1B, 0x44, 0x11, 0x3A, 0xB7] },
                valid: true,
            },
            addresses: vec![
                normalize_v4(&[192, 168, 1, 7]),
                normalize_v6(&[0xfe, 0x80, 0, 0, 0, 0, 0, 0, 0, 0, 0, 0, 0, 0, 0, 0x07]),
            ],
        },
    ]
}

#[test]
fn find_by_name_miss_returns_null_handle() {
    let devices = sample_devices();
    let handle = find_by_name(&devices, &"nonexistent-device-xyz".to_string());
    assert!(handle.is_null());
    assert_eq!(handle.handle, 0);
}

#[test]
fn find_by_name_hit_returns_handle() {
    let devices = sample_devices();
    let handle = find_by_name(&devices, &"eth0".to_string());
    assert_eq!(handle, LiveDevice { handle: 22 });
    assert!(!handle.is_null());
}

#[test]
fn find_by_name_first_match_wins() {
    let mut devices = sample_devices();
    devices.push(DeviceRecord {
        device: LiveDevice { handle: 33 },
        name: "eth0".to_string(),
        mac: no_mac(),
        addresses: vec![],
    });
    let handle = find_by_name(&devices, &"eth0".to_string());
    assert_eq!(handle, LiveDevice { handle: 22 });
}

#[test]
fn find_by_address_hit_and_miss() {
    let devices = sample_devices();
    let bound = normalize_v4(&[192, 168, 1, 7]);
    assert_eq!(find_by_address(&devices, &bound), LiveDevice { handle: 22 });
    let unbound = normalize_v4(&[192, 168, 1, 8]);
    assert!(find_by_address(&devices, &unbound).is_null());
}

#[test]
fn find_by_address_respects_version_tag() {
    // Same 16-byte buffer, other family tag: no device matches.
    let devices = sample_devices();
    let mut buffer = [0u8; 16];
    buffer[0] = 127;
    buffer[3] = 1;
    let v6_lookalike = normalize_v6(&buffer);
    assert!(find_by_address(&devices, &v6_lookalike).is_null());
}

#[test]
fn find_by_ip_or_name_prefers_address() {
    let devices = sample_devices();
    let parsed = Some(normalize_v4(&[127, 0, 0, 1]));
    // The token also names a device; the parsed address decides.
    let handle = find_by_ip_or_name(&devices, parsed, &"eth0".to_string());
    assert_eq!(handle, LiveDevice { handle: 11 });
}

#[test]
fn find_by_ip_or_name_falls_back_to_name() {
    let devices = sample_devices();
    let handle = find_by_ip_or_name(&devices, None, &"eth0".to_string());
    assert_eq!(handle, LiveDevice { handle: 22 });
}

#[test]
fn null_handle_is_null() {
    assert!(LiveDevice::null().is_null());
    assert!(!LiveDevice { handle: 5 }.is_null());
}

#[test]
fn mac_address_collapses_at_the_record() {
    let devices = sample_devices();
    assert_eq!(devices[0].mac_address(), None);
    assert_eq!(
        devices[1].mac_address(),
        Some(MacAddress { bytes: [0x00, 0x1B, 0x44, 0x11, 0x3A, 0xB7] })
    );
}

#[test]
fn primary_address_picks_first_of_family() {
    let devices = sample_devices();
    assert_eq!(
        devices[1].primary_address(VERSION_V4),
        Some(normalize_v4(&[192, 168, 1, 7]))
    );
    let v6 = devices[1].primary_address(VERSION_V6).unwrap();
    assert_eq!(v6.version, VERSION_V6);
    assert_eq!(devices[0].primary_address(VERSION_V6), None);
}

#[test]
fn has_address_reports_bound_addresses() {
    let devices = sample_devices();
    assert!(devices[0].has_address(&normalize_v4(&[127, 0, 0, 1])));
    assert!(!devices[0].has_address(&normalize_v4(&[10, 0, 0, 1])));
}
