use hid_report::args::convert_argument;
use hid_report::endpoint::{find_device, find_endpoint, DeviceId, Direction, Endpoint, EndpointCandidate, TransferKind};

fn cand(config: u8, iface: u8, address: u8, direction: Direction, transfer_kind: TransferKind) -> EndpointCandidate {
    EndpointCandidate { config, iface, setting: 0, address, direction, transfer_kind }
}

#[test]
fn first_matching_endpoint_is_chosen() {
    let cs = vec![
        cand(1, 0, 0x81, Direction::In, TransferKind::Bulk),
        cand(1, 3, 0x84, Direction::In, TransferKind::Interrupt),
        cand(1, 3, 0x03, Direction::Out, TransferKind::Interrupt),
        cand(2, 0, 0x85, Direction::In, TransferKind::Interrupt),
    ];
    assert_eq!(
        find_endpoint(&cs, Direction::In, TransferKind::Interrupt),
        Some(Endpoint { config: 1, iface: 3, setting: 0, address: 0x84 })
    );
    assert_eq!(
        find_endpoint(&cs, Direction::Out, TransferKind::Interrupt),
        Some(Endpoint { config: 1, iface: 3, setting: 0, address: 0x03 })
    );
    assert_eq!(find_endpoint(&cs, Direction::Out, TransferKind::Bulk), None);
    assert_eq!(find_endpoint(&vec![], Direction::In, TransferKind::Interrupt), None);
}

#[test]
fn first_matching_device_is_chosen() {
    let ds = vec![
        Some(DeviceId { vendor_id: 1, product_id: 2 }),
        None,
        Some(DeviceId { vendor_id: 0x054c, product_id: 0x0ce6 }),
        Some(DeviceId { vendor_id: 0x054c, product_id: 0x0ce6 }),
    ];
    assert_eq!(find_device(&ds, 0x054c, 0x0ce6), Some(2));
    assert_eq!(find_device(&ds, 1, 2), Some(0));
    assert_eq!(find_device(&ds, 1, 3), None);
}

#[test]
fn arguments_in_decimal_and_hex() {
    assert_eq!(convert_argument("1356"), Some(1356));
    assert_eq!(convert_argument("0x054c"), Some(0x054c));
    assert_eq!(convert_argument("0x0CE6"), Some(0x0ce6));
    assert_eq!(convert_argument("65535"), Some(65535));
    assert_eq!(convert_argument("0xffff"), Some(0xffff));
    assert_eq!(convert_argument("0"), Some(0));
}

#[test]
fn bad_arguments_are_rejected() {
    assert_eq!(convert_argument(""), None);
    assert_eq!(convert_argument("0x"), None);
    assert_eq!(convert_argument("65536"), None);
    assert_eq!(convert_argument("0x10000"), None);
    assert_eq!(convert_argument("12a"), None);
    assert_eq!(convert_argument("ff"), None);
    assert_eq!(convert_argument("99999999999"), None);
}
