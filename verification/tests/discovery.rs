use picoboot_rs::cmd::{PicobootError, TargetID};
use picoboot_rs::usb::{
    get_endpoint, locate_device, resolve_endpoints, UsbConfigInfo, UsbDeviceInfo, UsbDirection,
    UsbEndpointInfo, UsbInterfaceAltInfo, UsbTransferType,
};
use picoboot_rs::{PICOBOOT_PID_RP2040, PICOBOOT_PID_RP2350, PICOBOOT_VID};

fn ep(address: u8, direction: UsbDirection, transfer_type: UsbTransferType) -> UsbEndpointInfo {
    UsbEndpointInfo {
        address,
        direction,
        transfer_type,
    }
}

fn iface(
    interface_number: u8,
    class: u8,
    sub_class: u8,
    protocol: u8,
    endpoints: Vec<UsbEndpointInfo>,
) -> UsbInterfaceAltInfo {
    UsbInterfaceAltInfo {
        interface_number,
        setting_number: 0,
        class_code: class,
        sub_class_code: sub_class,
        protocol_code: protocol,
        endpoints,
    }
}

/// A device exposing bulk IN/OUT endpoints on a vendor interface (0xff/0/0),
/// next to another interface of a different class with its own endpoints.
fn picoboot_device() -> UsbDeviceInfo {
    let mass_storage = iface(
        0,
        0x08,
        0x06,
        0x50,
        vec![
            ep(0x81, UsbDirection::In, UsbTransferType::Bulk),
            ep(0x01, UsbDirection::Out, UsbTransferType::Bulk),
        ],
    );
    let vendor = iface(
        1,
        0xff,
        0x00,
        0x00,
        vec![
            ep(0x83, UsbDirection::In, UsbTransferType::Bulk),
            ep(0x03, UsbDirection::Out, UsbTransferType::Bulk),
        ],
    );
    UsbDeviceInfo {
        vendor_id: PICOBOOT_VID,
        product_id: PICOBOOT_PID_RP2040,
        configs: vec![UsbConfigInfo {
            number: 1,
            alt_settings: vec![mass_storage, vendor],
        }],
    }
}

#[test]
fn locator_selects_the_vendor_interface() {
    // The mass-storage interface also has bulk endpoints, but its class
    // triple does not match: only interface 1 qualifies.
    let d = picoboot_device();
    let found_in = get_endpoint(
        &d,
        0xff,
        0,
        0,
        UsbDirection::In,
        UsbTransferType::Bulk,
    )
    .unwrap();
    assert_eq!(found_in.cfg, 1);
    assert_eq!(found_in.iface, 1);
    assert_eq!(found_in.setting, 0);
    assert_eq!(found_in.address, 0x83);

    let found_out = get_endpoint(
        &d,
        0xff,
        0,
        0,
        UsbDirection::Out,
        UsbTransferType::Bulk,
    )
    .unwrap();
    assert_eq!(found_out.address, 0x03);
}

#[test]
fn resolve_endpoints_pairs_the_vendor_interface() {
    let d = picoboot_device();
    let pair = resolve_endpoints(&d).unwrap();
    assert_eq!(pair.cfg, 1);
    assert_eq!(pair.iface, 1);
    assert_eq!(pair.setting, 0);
    assert_eq!(pair.in_addr, 0x83);
    assert_eq!(pair.out_addr, 0x03);
}

#[test]
fn resolve_endpoints_rejects_split_interfaces() {
    // IN and OUT live under different vendor interfaces: not conformant.
    let in_only = iface(
        1,
        0xff,
        0,
        0,
        vec![ep(0x83, UsbDirection::In, UsbTransferType::Bulk)],
    );
    let out_only = iface(
        2,
        0xff,
        0,
        0,
        vec![ep(0x03, UsbDirection::Out, UsbTransferType::Bulk)],
    );
    let d = UsbDeviceInfo {
        vendor_id: PICOBOOT_VID,
        product_id: PICOBOOT_PID_RP2040,
        configs: vec![UsbConfigInfo {
            number: 1,
            alt_settings: vec![in_only, out_only],
        }],
    };
    assert_eq!(resolve_endpoints(&d), Err(PicobootError::EndpointMismatch));
}

#[test]
fn resolve_endpoints_rejects_missing_endpoint() {
    let in_only = iface(
        1,
        0xff,
        0,
        0,
        vec![ep(0x83, UsbDirection::In, UsbTransferType::Bulk)],
    );
    let d = UsbDeviceInfo {
        vendor_id: PICOBOOT_VID,
        product_id: PICOBOOT_PID_RP2040,
        configs: vec![UsbConfigInfo {
            number: 1,
            alt_settings: vec![in_only],
        }],
    };
    assert_eq!(resolve_endpoints(&d), Err(PicobootError::EndpointMismatch));
}

fn bare_device(vendor_id: u16, product_id: u16) -> UsbDeviceInfo {
    UsbDeviceInfo {
        vendor_id,
        product_id,
        configs: vec![],
    }
}

#[test]
fn locate_device_with_explicit_pair() {
    let devices = vec![
        bare_device(0x1234, 0x5678),
        bare_device(PICOBOOT_VID, PICOBOOT_PID_RP2350),
    ];
    let (i, t) = locate_device(&devices, Some((PICOBOOT_VID, PICOBOOT_PID_RP2350))).unwrap();
    assert_eq!(i, 1);
    assert_eq!(t, TargetID::Rp2350);
}

#[test]
fn locate_device_without_pair_prefers_rp2040() {
    let devices = vec![
        bare_device(0x1234, 0x5678),
        bare_device(PICOBOOT_VID, PICOBOOT_PID_RP2350),
        bare_device(PICOBOOT_VID, PICOBOOT_PID_RP2040),
    ];
    let (i, t) = locate_device(&devices, None).unwrap();
    assert_eq!(i, 2);
    assert_eq!(t, TargetID::Rp2040);

    let only_2350 = vec![bare_device(PICOBOOT_VID, PICOBOOT_PID_RP2350)];
    let (i, t) = locate_device(&only_2350, None).unwrap();
    assert_eq!(i, 0);
    assert_eq!(t, TargetID::Rp2350);
}

#[test]
fn locate_device_reports_not_found() {
    let devices = vec![bare_device(0x1234, 0x5678)];
    assert_eq!(
        locate_device(&devices, None),
        Err(PicobootError::DeviceNotFound)
    );
    assert_eq!(
        locate_device(&devices, Some((0xaaaa, 0xbbbb))),
        Err(PicobootError::DeviceNotFound)
    );
}
