//! Device discovery, connection state and the transaction engine.
//!
//! Everything here works on plain descriptor data and produces explicit
//! plans: a transaction is an ordered sequence of transfer actions that a
//! transport shell executes against real hardware. The engine itself never
//! touches a USB stack, which is what lets its sequencing rules — token
//! assignment, payload direction, the acknowledgment handshake, teardown
//! order — be stated and checked precisely.

use vstd::prelude::*;
use crate::cmd::{
    spec_range_args, spec_reboot2_args, spec_reboot_args, PicobootCmd, PicobootCmdId,
    PicobootError, PicobootRangeCmd, PicobootReboot2Cmd, PicobootRebootCmd, PicobootStatus,
    PicobootStatusCmd, TargetID,
};
use crate::{PICOBOOT_PID_RP2040, PICOBOOT_PID_RP2350, PICOBOOT_VID};

verus! {

/// USB interface class of the PICOBOOT vendor interface.
pub const PICOBOOT_INTERFACE_CLASS: u8 = 0xff;
/// USB interface subclass of the PICOBOOT vendor interface.
pub const PICOBOOT_INTERFACE_SUBCLASS: u8 = 0x00;
/// USB interface protocol of the PICOBOOT vendor interface.
pub const PICOBOOT_INTERFACE_PROTOCOL: u8 = 0x00;

/// Request type of the status-query control transfer: device-to-host,
/// vendor-specific, targeting the claimed interface.
pub const PICOBOOT_STATUS_REQUEST_TYPE: u8 = 0b11000001;
/// Request code of the status-query control transfer.
pub const PICOBOOT_STATUS_REQUEST: u8 = 0b01000010;
/// Request type of the interface-reset control transfer: host-to-device,
/// vendor-specific, targeting the claimed interface.
pub const PICOBOOT_RESET_REQUEST_TYPE: u8 = 0b01000001;
/// Request code of the interface-reset control transfer.
pub const PICOBOOT_RESET_REQUEST: u8 = 0b01000001;

/// Direction of a USB endpoint.
#[derive(Debug, Clone, Copy, PartialEq, Eq, Structural)]
pub enum UsbDirection {
    In,
    Out,
}

/// Transfer type of a USB endpoint.
#[derive(Debug, Clone, Copy, PartialEq, Eq, Structural)]
pub enum UsbTransferType {
    Control,
    Isochronous,
    Bulk,
    Interrupt,
}

/// One endpoint of an alternate setting, as read from the descriptors.
#[derive(Debug, Clone, Copy, PartialEq, Eq, Structural)]
pub struct UsbEndpointInfo {
    pub address: u8,
    pub direction: UsbDirection,
    pub transfer_type: UsbTransferType,
}

/// One alternate setting of one interface, as read from the descriptors.
#[derive(Debug, Clone)]
pub struct UsbInterfaceAltInfo {
    pub interface_number: u8,
    pub setting_number: u8,
    pub class_code: u8,
    pub sub_class_code: u8,
    pub protocol_code: u8,
    pub endpoints: Vec<UsbEndpointInfo>,
}

/// One configuration of a device, with every alternate setting of every
/// interface flattened into one list in descriptor order.
#[derive(Debug, Clone)]
pub struct UsbConfigInfo {
    pub number: u8,
    pub alt_settings: Vec<UsbInterfaceAltInfo>,
}

/// One attached device: its identifiers and its configurations in
/// descriptor order.
#[derive(Debug, Clone)]
pub struct UsbDeviceInfo {
    pub vendor_id: u16,
    pub product_id: u16,
    pub configs: Vec<UsbConfigInfo>,
}

/// Where an endpoint was found: the configuration/interface/alt-setting
/// triple it lives under, and its address.
#[derive(Debug, Clone, Copy, PartialEq, Eq, Structural)]
pub struct EndpointLocation {
    pub cfg: u8,
    pub iface: u8,
    pub setting: u8,
    pub address: u8,
}

/// The resolved bulk endpoint pair of a PICOBOOT interface. The IN and
/// OUT endpoints are guaranteed to share one configuration/interface/
/// alt-setting triple.
#[derive(Debug, Clone, Copy, PartialEq, Eq, Structural)]
pub struct EndpointPair {
    pub cfg: u8,
    pub iface: u8,
    pub setting: u8,
    pub in_addr: u8,
    pub out_addr: u8,
}

/// Whether an endpoint has the wanted direction and transfer type.
pub open spec fn spec_ep_matches(
    e: UsbEndpointInfo,
    direction: UsbDirection,
    transfer_type: UsbTransferType,
) -> bool {
    e.direction == direction && e.transfer_type == transfer_type
}

/// Whether an alternate setting carries the wanted class triple.
pub open spec fn spec_iface_matches(
    i: UsbInterfaceAltInfo,
    class: u8,
    sub_class: u8,
    protocol: u8,
) -> bool {
    i.class_code == class && i.sub_class_code == sub_class && i.protocol_code == protocol
}

/// Address of the first endpoint in the list with the wanted direction
/// and transfer type.
pub open spec fn spec_find_ep(
    eps: Seq<UsbEndpointInfo>,
    direction: UsbDirection,
    transfer_type: UsbTransferType,
) -> Option<u8>
    decreases eps.len(),
{
    if eps.len() == 0 {
        None
    } else if spec_ep_matches(eps[0], direction, transfer_type) {
        Some(eps[0].address)
    } else {
        spec_find_ep(eps.subrange(1, eps.len() as int), direction, transfer_type)
    }
}

/// First match within one configuration: alternate settings are scanned
/// in descriptor order, and only settings with the wanted class triple
/// have their endpoints searched.
pub open spec fn spec_find_in_config(
    cfg: u8,
    ifaces: Seq<UsbInterfaceAltInfo>,
    class: u8,
    sub_class: u8,
    protocol: u8,
    direction: UsbDirection,
    transfer_type: UsbTransferType,
) -> Option<EndpointLocation>
    decreases ifaces.len(),
{
    if ifaces.len() == 0 {
        None
    } else {
        let found = if spec_iface_matches(ifaces[0], class, sub_class, protocol) {
            spec_find_ep(ifaces[0].endpoints@, direction, transfer_type)
        } else {
            None
        };
        match found {
            Some(addr) => Some(
                EndpointLocation {
                    cfg,
                    iface: ifaces[0].interface_number,
                    setting: ifaces[0].setting_number,
                    address: addr,
                },
            ),
            None => spec_find_in_config(
                cfg,
                ifaces.subrange(1, ifaces.len() as int),
                class,
                sub_class,
                protocol,
                direction,
                transfer_type,
            ),
        }
    }
}

/// First match across all configurations of a device, in descriptor
/// order.
pub open spec fn spec_find_endpoint(
    configs: Seq<UsbConfigInfo>,
    class: u8,
    sub_class: u8,
    protocol: u8,
    direction: UsbDirection,
    transfer_type: UsbTransferType,
) -> Option<EndpointLocation>
    decreases configs.len(),
{
    if configs.len() == 0 {
        None
    } else {
        match spec_find_in_config(
            configs[0].number,
            configs[0].alt_settings@,
            class,
            sub_class,
            protocol,
            direction,
            transfer_type,
        ) {
            Some(l) => Some(l),
            None => spec_find_endpoint(
                configs.subrange(1, configs.len() as int),
                class,
                sub_class,
                protocol,
                direction,
                transfer_type,
            ),
        }
    }
}

fn find_ep(eps: &Vec<UsbEndpointInfo>, direction: UsbDirection, transfer_type: UsbTransferType) -> (r:
    Option<u8>)
    ensures
        r == spec_find_ep(eps@, direction, transfer_type),
{
    proof {
        assert(eps@.subrange(0, eps@.len() as int) =~= eps@);
    }
    let mut i: usize = 0;
    while i < eps.len()
        invariant
            i <= eps@.len(),
            spec_find_ep(eps@, direction, transfer_type) == spec_find_ep(
                eps@.subrange(i as int, eps@.len() as int),
                direction,
                transfer_type,
            ),
        decreases eps@.len() - i,
    {
        proof {
            assert(eps@.subrange(i as int, eps@.len() as int)[0] == eps@[i as int]);
        }
        let e = &eps[i];
        if e.direction == direction && e.transfer_type == transfer_type {
            proof {
                assert(spec_find_ep(
                    eps@.subrange(i as int, eps@.len() as int),
                    direction,
                    transfer_type,
                ) == Some(eps@[i as int].address));
            }
            return Some(e.address);
        }
        proof {
            assert(eps@.subrange(i as int, eps@.len() as int).subrange(
                1,
                eps@.len() - i as int,
            ) =~= eps@.subrange(i as int + 1, eps@.len() as int));
        }
        i += 1;
    }
    None
}

fn find_in_config(
    config: &UsbConfigInfo,
    class: u8,
    sub_class: u8,
    protocol: u8,
    direction: UsbDirection,
    transfer_type: UsbTransferType,
) -> (r: Option<EndpointLocation>)
    ensures
        r == spec_find_in_config(
            config.number,
            config.alt_settings@,
            class,
            sub_class,
            protocol,
            direction,
            transfer_type,
        ),
{
    proof {
        assert(config.alt_settings@.subrange(0, config.alt_settings@.len() as int)
            =~= config.alt_settings@);
    }
    let mut i: usize = 0;
    while i < config.alt_settings.len()
        invariant
            i <= config.alt_settings@.len(),
            spec_find_in_config(
                config.number,
                config.alt_settings@,
                class,
                sub_class,
                protocol,
                direction,
                transfer_type,
            ) == spec_find_in_config(
                config.number,
                config.alt_settings@.subrange(i as int, config.alt_settings@.len() as int),
                class,
                sub_class,
                protocol,
                direction,
                transfer_type,
            ),
        decreases config.alt_settings@.len() - i,
    {
        proof {
            assert(config.alt_settings@.subrange(i as int, config.alt_settings@.len() as int)[0] == config.alt_settings@[i as int]);
        }
        let iface = &config.alt_settings[i];
        if iface.class_code == class && iface.sub_class_code == sub_class && iface.protocol_code
            == protocol {
            match find_ep(&iface.endpoints, direction, transfer_type) {
                Some(address) => {
                    proof {
                        let sub = config.alt_settings@.subrange(i as int, config.alt_settings@.len() as int);
                        assert(spec_iface_matches(sub[0], class, sub_class, protocol));
                        assert(spec_find_ep(sub[0].endpoints@, direction, transfer_type)
                            == Some(address));
                        assert(spec_find_in_config(
                            config.number,
                            sub,
                            class,
                            sub_class,
                            protocol,
                            direction,
                            transfer_type,
                        ) == Some(
                            EndpointLocation {
                                cfg: config.number,
                                iface: sub[0].interface_number,
                                setting: sub[0].setting_number,
                                address,
                            },
                        ));
                    }
                    return Some(
                        EndpointLocation {
                            cfg: config.number,
                            iface: iface.interface_number,
                            setting: iface.setting_number,
                            address,
                        },
                    );
                },
                None => {},
            }
        }
        proof {
            assert(config.alt_settings@.subrange(i as int, config.alt_settings@.len() as int).subrange(
                1,
                config.alt_settings@.len() - i as int,
            ) =~= config.alt_settings@.subrange(i as int + 1, config.alt_settings@.len() as int));
        }
        i += 1;
    }
    None
}

/// Scan a device's descriptors for the first endpoint with the wanted
/// direction and transfer type, under an interface with the wanted
/// class/subclass/protocol triple: configurations, then alternate
/// settings, then endpoints, all in descriptor order.
pub fn get_endpoint(
    device: &UsbDeviceInfo,
    class: u8,
    sub_class: u8,
    protocol: u8,
    direction: UsbDirection,
    transfer_type: UsbTransferType,
) -> (r: Option<EndpointLocation>)
    ensures
        r == spec_find_endpoint(
            device.configs@,
            class,
            sub_class,
            protocol,
            direction,
            transfer_type,
        ),
{
    proof {
        assert(device.configs@.subrange(0, device.configs@.len() as int) =~= device.configs@);
    }
    let mut i: usize = 0;
    while i < device.configs.len()
        invariant
            i <= device.configs@.len(),
            spec_find_endpoint(device.configs@, class, sub_class, protocol, direction, transfer_type)
                == spec_find_endpoint(
                device.configs@.subrange(i as int, device.configs@.len() as int),
                class,
                sub_class,
                protocol,
                direction,
                transfer_type,
            ),
        decreases device.configs@.len() - i,
    {
        proof {
            assert(device.configs@.subrange(i as int, device.configs@.len() as int)[0] == device.configs@[i as int]);
        }
        match find_in_config(&device.configs[i], class, sub_class, protocol, direction, transfer_type) {
            Some(l) => {
                proof {
                    let sub = device.configs@.subrange(i as int, device.configs@.len() as int);
                    assert(spec_find_in_config(
                        sub[0].number,
                        sub[0].alt_settings@,
                        class,
                        sub_class,
                        protocol,
                        direction,
                        transfer_type,
                    ) == Some(l));
                    assert(spec_find_endpoint(
                        sub,
                        class,
                        sub_class,
                        protocol,
                        direction,
                        transfer_type,
                    ) == Some(l));
                }
                return Some(l);
            },
            None => {},
        }
        proof {
            assert(device.configs@.subrange(i as int, device.configs@.len() as int).subrange(
                1,
                device.configs@.len() - i as int,
            ) =~= device.configs@.subrange(i as int + 1, device.configs@.len() as int));
        }
        i += 1;
    }
    None
}

/// Whether a device descriptor carries the wanted vendor/product pair.
pub open spec fn spec_device_id_matches(d: UsbDeviceInfo, vid: u16, pid: u16) -> bool {
    d.vendor_id == vid && d.product_id == pid
}

/// Index `i` is the first device in the list with the wanted pair.
pub open spec fn spec_first_device_match(
    devs: Seq<UsbDeviceInfo>,
    vid: u16,
    pid: u16,
    i: int,
) -> bool {
    &&& 0 <= i < devs.len()
    &&& spec_device_id_matches(devs[i], vid, pid)
    &&& forall|j: int| 0 <= j < i ==> !spec_device_id_matches(#[trigger] devs[j], vid, pid)
}

/// No device in the list carries the wanted pair.
pub open spec fn spec_no_device_match(devs: Seq<UsbDeviceInfo>, vid: u16, pid: u16) -> bool {
    forall|j: int| 0 <= j < devs.len() ==> !spec_device_id_matches(#[trigger] devs[j], vid, pid)
}

/// Find the first attached device with the given vendor/product pair.
pub fn find_device(devices: &Vec<UsbDeviceInfo>, vid: u16, pid: u16) -> (r: Option<usize>)
    ensures
        r matches Some(i) ==> spec_first_device_match(devices@, vid, pid, i as int),
        r is None ==> spec_no_device_match(devices@, vid, pid),
{
    let mut i: usize = 0;
    while i < devices.len()
        invariant
            i <= devices@.len(),
            forall|j: int|
                0 <= j < i ==> !spec_device_id_matches(#[trigger] devices@[j], vid, pid),
        decreases devices@.len() - i,
    {
        let d = &devices[i];
        if d.vendor_id == vid && d.product_id == pid {
            return Some(i);
        }
        i += 1;
    }
    None
}

/// Which hardware variant a vendor/product pair names.
pub open spec fn spec_target_for(vid: u16, pid: u16) -> TargetID {
    if vid == PICOBOOT_VID && pid == PICOBOOT_PID_RP2040 {
        TargetID::Rp2040
    } else {
        TargetID::Rp2350
    }
}

/// Pick the device to talk to. With an explicit vendor/product pair the
/// list is searched for it, and the target variant is derived from the
/// pair. With none, the fixed PICOBOOT vendor ID is tried against the
/// RP2040 product ID first and the RP2350 product ID second.
pub fn locate_device(devices: &Vec<UsbDeviceInfo>, vidpid: Option<(u16, u16)>) -> (r: Result<
    (usize, TargetID),
    PicobootError,
>)
    ensures
        r matches Err(e) ==> e == PicobootError::DeviceNotFound,
        vidpid matches Some(vp) ==> {
            &&& (r matches Ok(p) ==> spec_first_device_match(devices@, vp.0, vp.1, p.0 as int)
                && p.1 == spec_target_for(vp.0, vp.1))
            &&& (r is Err ==> spec_no_device_match(devices@, vp.0, vp.1))
        },
        vidpid is None ==> {
            &&& (r matches Ok(p) ==> {
                ||| (p.1 == TargetID::Rp2040 && spec_first_device_match(
                    devices@,
                    PICOBOOT_VID,
                    PICOBOOT_PID_RP2040,
                    p.0 as int,
                ))
                ||| (p.1 == TargetID::Rp2350 && spec_no_device_match(
                    devices@,
                    PICOBOOT_VID,
                    PICOBOOT_PID_RP2040,
                ) && spec_first_device_match(
                    devices@,
                    PICOBOOT_VID,
                    PICOBOOT_PID_RP2350,
                    p.0 as int,
                ))
            })
            &&& (r is Err ==> spec_no_device_match(devices@, PICOBOOT_VID, PICOBOOT_PID_RP2040)
                && spec_no_device_match(devices@, PICOBOOT_VID, PICOBOOT_PID_RP2350))
        },
{
    match vidpid {
        Some((vid, pid)) => {
            let target = if vid == PICOBOOT_VID && pid == PICOBOOT_PID_RP2040 {
                TargetID::Rp2040
            } else {
                TargetID::Rp2350
            };
            match find_device(devices, vid, pid) {
                Some(i) => Ok((i, target)),
                None => Err(PicobootError::DeviceNotFound),
            }
        },
        None => {
            match find_device(devices, PICOBOOT_VID, PICOBOOT_PID_RP2040) {
                Some(i) => Ok((i, TargetID::Rp2040)),
                None => {
                    match find_device(devices, PICOBOOT_VID, PICOBOOT_PID_RP2350) {
                        Some(i) => Ok((i, TargetID::Rp2350)),
                        None => Err(PicobootError::DeviceNotFound),
                    }
                },
            }
        },
    }
}

/// Resolve the PICOBOOT bulk endpoint pair of a device. The bulk-IN and
/// bulk-OUT endpoints must live under one and the same configuration/
/// interface/alt-setting triple; a device where they do not (or where one
/// is missing) does not conform and is rejected as `EndpointMismatch`.
pub fn resolve_endpoints(device: &UsbDeviceInfo) -> (r: Result<EndpointPair, PicobootError>)
    ensures
        ({
            let fin = spec_find_endpoint(
                device.configs@,
                PICOBOOT_INTERFACE_CLASS,
                PICOBOOT_INTERFACE_SUBCLASS,
                PICOBOOT_INTERFACE_PROTOCOL,
                UsbDirection::In,
                UsbTransferType::Bulk,
            );
            let fout = spec_find_endpoint(
                device.configs@,
                PICOBOOT_INTERFACE_CLASS,
                PICOBOOT_INTERFACE_SUBCLASS,
                PICOBOOT_INTERFACE_PROTOCOL,
                UsbDirection::Out,
                UsbTransferType::Bulk,
            );
            match r {
                Ok(p) => {
                    &&& fin matches Some(li) && li == (EndpointLocation {
                        cfg: p.cfg,
                        iface: p.iface,
                        setting: p.setting,
                        address: p.in_addr,
                    })
                    &&& fout matches Some(lo) && lo == (EndpointLocation {
                        cfg: p.cfg,
                        iface: p.iface,
                        setting: p.setting,
                        address: p.out_addr,
                    })
                },
                Err(e) => {
                    &&& e == PicobootError::EndpointMismatch
                    &&& (fin is None || fout is None || (fin matches Some(li)
                        && fout matches Some(lo) && !(li.cfg == lo.cfg && li.iface == lo.iface
                        && li.setting == lo.setting)))
                },
            }
        }),
{
    let found_in = get_endpoint(
        device,
        PICOBOOT_INTERFACE_CLASS,
        PICOBOOT_INTERFACE_SUBCLASS,
        PICOBOOT_INTERFACE_PROTOCOL,
        UsbDirection::In,
        UsbTransferType::Bulk,
    );
    let found_out = get_endpoint(
        device,
        PICOBOOT_INTERFACE_CLASS,
        PICOBOOT_INTERFACE_SUBCLASS,
        PICOBOOT_INTERFACE_PROTOCOL,
        UsbDirection::Out,
        UsbTransferType::Bulk,
    );
    match (found_in, found_out) {
        (Some(li), Some(lo)) => {
            if li.cfg == lo.cfg && li.iface == lo.iface && li.setting == lo.setting {
                Ok(
                    EndpointPair {
                        cfg: lo.cfg,
                        iface: lo.iface,
                        setting: lo.setting,
                        in_addr: li.address,
                        out_addr: lo.address,
                    },
                )
            } else {
                Err(PicobootError::EndpointMismatch)
            }
        },
        _ => Err(PicobootError::EndpointMismatch),
    }
}


/// One transfer the transport shell must perform, in plan order. Bulk
/// transfers marked strict move an exact byte count: moving fewer (or
/// more) bytes is a fatal transport error, because host and device have
/// then desynchronized.
#[derive(Debug)]
pub enum UsbAction {
    /// Write `data` to the bulk endpoint `endpoint`.
    BulkOut { endpoint: u8, data: Vec<u8>, strict: bool },
    /// Read exactly `len` bytes from the bulk endpoint `endpoint`.
    BulkIn { endpoint: u8, len: u32, strict: bool },
    /// A control read of `len` bytes from the device.
    ControlIn { request_type: u8, request: u8, value: u16, index: u16, len: u16 },
    /// A control write carrying no data.
    ControlOut { request_type: u8, request: u8, value: u16, index: u16 },
    /// Clear a halt condition on the endpoint `endpoint`.
    ClearHalt { endpoint: u8 },
}

/// Whether an action writes exactly `data` to bulk endpoint `endpoint`.
pub open spec fn spec_is_bulk_out(a: UsbAction, endpoint: u8, data: Seq<u8>, strict: bool) -> bool {
    a matches UsbAction::BulkOut { endpoint: e, data: d, strict: s } && e == endpoint && d@ == data
        && s == strict
}

/// Whether an action reads `len` bytes from bulk endpoint `endpoint`.
pub open spec fn spec_is_bulk_in(a: UsbAction, endpoint: u8, len: u32, strict: bool) -> bool {
    a matches UsbAction::BulkIn { endpoint: e, len: n, strict: s } && e == endpoint && n == len
        && s == strict
}

/// Whether an action is the status-query control transfer: a 16-byte
/// control read with the fixed status request codes, targeting the
/// claimed interface.
pub open spec fn spec_is_status_poll(a: UsbAction, iface: u8) -> bool {
    a matches UsbAction::ControlIn { request_type, request, value, index, len }
        && request_type == PICOBOOT_STATUS_REQUEST_TYPE && request == PICOBOOT_STATUS_REQUEST
        && value == 0u16 && index == iface as u16 && len == 16u16
}

/// Whether an action is the interface-reset control transfer.
pub open spec fn spec_is_reset_control(a: UsbAction, iface: u8) -> bool {
    a matches UsbAction::ControlOut { request_type, request, value, index }
        && request_type == PICOBOOT_RESET_REQUEST_TYPE && request == PICOBOOT_RESET_REQUEST
        && value == 0u16 && index == iface as u16
}

/// Whether an action clears a halt condition on endpoint `endpoint`.
pub open spec fn spec_is_clear_halt(a: UsbAction, endpoint: u8) -> bool {
    a matches UsbAction::ClearHalt { endpoint: e } && e == endpoint
}

/// One step of opening a connection, in plan order.
#[derive(Debug, Clone, Copy, PartialEq, Eq, Structural)]
pub enum SetupAction {
    /// Detach the kernel driver bound to the interface.
    DetachKernelDriver { iface: u8 },
    /// Activate the configuration; a failure here is a soft warning.
    SetActiveConfiguration { cfg: u8 },
    /// Claim the interface; a failure here is fatal.
    ClaimInterface { iface: u8 },
    /// Select the alternate setting; a failure here is fatal.
    SetAlternateSetting { iface: u8, setting: u8 },
}

/// One step of tearing a connection down, in plan order.
#[derive(Debug, Clone, Copy, PartialEq, Eq, Structural)]
pub enum TeardownAction {
    /// Release the claimed interface.
    ReleaseInterface { iface: u8 },
    /// Reattach the kernel driver that was detached at open time.
    AttachKernelDriver { iface: u8 },
}

/// The steps that open a connection on resolved endpoints, in order:
/// detach the kernel driver if one is bound, activate the configuration,
/// claim the interface, select the alternate setting.
pub fn open_sequence(endpoints: &EndpointPair, kernel_driver_active: bool) -> (r: Vec<SetupAction>)
    ensures
        r@ == spec_open_sequence(*endpoints, kernel_driver_active),
{
    let mut r: Vec<SetupAction> = Vec::new();
    if kernel_driver_active {
        r.push(SetupAction::DetachKernelDriver { iface: endpoints.iface });
    }
    r.push(SetupAction::SetActiveConfiguration { cfg: endpoints.cfg });
    r.push(SetupAction::ClaimInterface { iface: endpoints.iface });
    r.push(SetupAction::SetAlternateSetting { iface: endpoints.iface, setting: endpoints.setting });
    proof {
        assert(r@ =~= spec_open_sequence(*endpoints, kernel_driver_active));
    }
    r
}

/// The steps `open_sequence` promises.
pub open spec fn spec_open_sequence(endpoints: EndpointPair, kernel_driver_active: bool) -> Seq<
    SetupAction,
> {
    let tail = seq![
        (SetupAction::SetActiveConfiguration { cfg: endpoints.cfg }),
        (SetupAction::ClaimInterface { iface: endpoints.iface }),
        (SetupAction::SetAlternateSetting { iface: endpoints.iface, setting: endpoints.setting }),
    ];
    if kernel_driver_active {
        seq![(SetupAction::DetachKernelDriver { iface: endpoints.iface })] + tail
    } else {
        tail
    }
}

/// Protocol state of one open connection: the resolved endpoint pair and
/// its triple, the next command token, whether a kernel driver was
/// detached at open time, and which hardware variant the device is.
/// The USB handles themselves live with the transport shell that owns
/// the transfers; this state is what the protocol itself needs.
#[derive(Debug, Clone, Copy)]
pub struct PicobootConnection {
    cfg: u8,
    iface: u8,
    setting: u8,
    in_addr: u8,
    out_addr: u8,
    cmd_token: u32,
    has_kernel_driver: bool,
    target_id: TargetID,
}

/// The parts of a connection that never change once it is open:
/// everything except the token counter.
pub open spec fn spec_same_usb_state(a: PicobootConnection, b: PicobootConnection) -> bool {
    &&& b.spec_cfg() == a.spec_cfg()
    &&& b.spec_iface() == a.spec_iface()
    &&& b.spec_setting() == a.spec_setting()
    &&& b.spec_in_addr() == a.spec_in_addr()
    &&& b.spec_out_addr() == a.spec_out_addr()
    &&& b.spec_has_kernel_driver() == a.spec_has_kernel_driver()
    &&& b.spec_target_id() == a.spec_target_id()
}

/// Law (transaction shape): every issued transaction runs, in this
/// order: send the 32-byte command frame over bulk-OUT (strict), poll
/// status, then — only when the transfer length is nonzero — move
/// exactly that payload (device-to-host over bulk-IN for read-class
/// commands, host-to-device over bulk-OUT for write-class) and poll
/// status again, and finally the acknowledgment handshake: read-class
/// commands write one zero byte to bulk-OUT, write-class commands read
/// one byte from bulk-IN. In particular the payload transfer always
/// stands before the acknowledgment byte.
pub open spec fn spec_transaction_plan_ok(
    t: Transaction,
    conn: PicobootConnection,
    buf: Seq<u8>,
) -> bool {
    let n = t.cmd.spec_transfer_len();
    let read_class = t.cmd.spec_is_read_class();
    &&& t.cmd.spec_token() == t.token
    &&& t.actions@.len() == (if n == 0 { 3int } else { 5int })
    &&& spec_is_bulk_out(t.actions@[0], conn.spec_out_addr(), t.cmd.spec_ser(), true)
    &&& spec_is_status_poll(t.actions@[1], conn.spec_iface())
    &&& (n != 0 && read_class ==> {
        &&& spec_is_bulk_in(t.actions@[2], conn.spec_in_addr(), n, true)
        &&& spec_is_status_poll(t.actions@[3], conn.spec_iface())
        &&& spec_is_bulk_out(t.actions@[4], conn.spec_out_addr(), seq![0u8], false)
    })
    &&& (n != 0 && !read_class ==> {
        &&& spec_is_bulk_out(t.actions@[2], conn.spec_out_addr(), buf, true)
        &&& spec_is_status_poll(t.actions@[3], conn.spec_iface())
        &&& spec_is_bulk_in(t.actions@[4], conn.spec_in_addr(), 1, false)
    })
    &&& (n == 0 && read_class ==> spec_is_bulk_out(
        t.actions@[2],
        conn.spec_out_addr(),
        seq![0u8],
        false,
    ))
    &&& (n == 0 && !read_class ==> spec_is_bulk_in(t.actions@[2], conn.spec_in_addr(), 1, false))
}

/// What issuing any command promises: the connection's token advanced by
/// exactly one, nothing else about the connection changed, the
/// transaction carries the token that was current when it was issued,
/// and its action plan has the shape `spec_transaction_plan_ok` states.
pub open spec fn spec_issued(
    old_c: PicobootConnection,
    new_c: PicobootConnection,
    t: Transaction,
    buf: Seq<u8>,
) -> bool {
    &&& new_c.spec_cmd_token() == old_c.spec_cmd_token() + 1
    &&& spec_same_usb_state(old_c, new_c)
    &&& t.token == old_c.spec_cmd_token()
    &&& t.cmd.wf()
    &&& spec_transaction_plan_ok(t, old_c, buf)
}

/// One planned transaction: the token it was issued under, the command
/// frame (token already assigned), and the ordered transfer actions the
/// transport shell must perform.
#[derive(Debug)]
pub struct Transaction {
    pub token: u32,
    pub cmd: PicobootCmd,
    pub actions: Vec<UsbAction>,
}

fn status_poll_action(iface: u8) -> (a: UsbAction)
    ensures
        spec_is_status_poll(a, iface),
{
    UsbAction::ControlIn {
        request_type: PICOBOOT_STATUS_REQUEST_TYPE,
        request: PICOBOOT_STATUS_REQUEST,
        value: 0,
        index: iface as u16,
        len: 16,
    }
}

impl PicobootConnection {
    /// Configuration number of the claimed interface.
    pub closed spec fn spec_cfg(self) -> u8 {
        self.cfg
    }

    /// Interface number of the claimed interface.
    pub closed spec fn spec_iface(self) -> u8 {
        self.iface
    }

    /// Alternate setting of the claimed interface.
    pub closed spec fn spec_setting(self) -> u8 {
        self.setting
    }

    /// Address of the bulk-IN endpoint.
    pub closed spec fn spec_in_addr(self) -> u8 {
        self.in_addr
    }

    /// Address of the bulk-OUT endpoint.
    pub closed spec fn spec_out_addr(self) -> u8 {
        self.out_addr
    }

    /// The token the next transaction will be issued under.
    pub closed spec fn spec_cmd_token(self) -> u32 {
        self.cmd_token
    }

    /// Whether a kernel driver was detached at open time.
    pub closed spec fn spec_has_kernel_driver(self) -> bool {
        self.has_kernel_driver
    }

    /// Which hardware variant the device is.
    pub closed spec fn spec_target_id(self) -> TargetID {
        self.target_id
    }

    /// Protocol state of a freshly opened connection. The token counter
    /// starts at 1 and never repeats within this connection's lifetime.
    pub fn new(endpoints: EndpointPair, has_kernel_driver: bool, target_id: TargetID) -> (r:
        PicobootConnection)
        ensures
            r.spec_cfg() == endpoints.cfg,
            r.spec_iface() == endpoints.iface,
            r.spec_setting() == endpoints.setting,
            r.spec_in_addr() == endpoints.in_addr,
            r.spec_out_addr() == endpoints.out_addr,
            r.spec_cmd_token() == 1,
            r.spec_has_kernel_driver() == has_kernel_driver,
            r.spec_target_id() == target_id,
    {
        PicobootConnection {
            cfg: endpoints.cfg,
            iface: endpoints.iface,
            setting: endpoints.setting,
            in_addr: endpoints.in_addr,
            out_addr: endpoints.out_addr,
            cmd_token: 1,
            has_kernel_driver,
            target_id,
        }
    }

    /// The token the next transaction will be issued under. A caller
    /// can test this against `u32::MAX` before issuing a command.
    pub fn get_cmd_token(&self) -> (r: u32)
        ensures
            r == self.spec_cmd_token(),
    {
        self.cmd_token
    }

    /// Which hardware variant this connection talks to.
    pub fn get_device_type(&self) -> (r: TargetID)
        ensures
            r == self.spec_target_id(),
    {
        self.target_id
    }

    /// Issue one command: assign the connection's current token to the
    /// frame, advance the counter by one, and lay out the transaction's
    /// transfer actions. For a write-class command with a payload, `buf`
    /// is the payload and must be exactly the frame's transfer length.
    pub fn cmd(&mut self, c: PicobootCmd, buf: Vec<u8>) -> (t: Transaction)
        requires
            old(self).spec_cmd_token() < u32::MAX,
            c.wf(),
            !c.spec_is_read_class() && c.spec_transfer_len() != 0 ==> buf@.len()
                == c.spec_transfer_len(),
        ensures
            final(self).spec_cmd_token() == old(self).spec_cmd_token() + 1,
            spec_same_usb_state(*old(self), *final(self)),
            spec_issued(*old(self), *final(self), t, buf@),
            t.cmd.spec_cmd_id() == c.spec_cmd_id(),
            t.cmd.spec_cmd_size() == c.spec_cmd_size(),
            t.cmd.spec_transfer_len() == c.spec_transfer_len(),
            t.cmd.spec_args() == c.spec_args(),
            t.cmd.spec_token() == t.token,
    {
        let token = self.cmd_token;
        let c = c.set_token(token);
        self.cmd_token = self.cmd_token + 1;
        let frame = c.ser();
        let n = c.get_transfer_len();
        let read_class = (c.get_cmd_id() & 0x80) != 0;
        let mut actions: Vec<UsbAction> = Vec::new();
        actions.push(UsbAction::BulkOut { endpoint: self.out_addr, data: frame, strict: true });
        actions.push(status_poll_action(self.iface));
        if n != 0 {
            if read_class {
                actions.push(UsbAction::BulkIn { endpoint: self.in_addr, len: n, strict: true });
            } else {
                actions.push(UsbAction::BulkOut { endpoint: self.out_addr, data: buf, strict: true });
            }
            actions.push(status_poll_action(self.iface));
        }
        if read_class {
            let mut ack: Vec<u8> = Vec::new();
            ack.push(0);
            proof {
                assert(ack@ =~= seq![0u8]);
            }
            actions.push(UsbAction::BulkOut { endpoint: self.out_addr, data: ack, strict: false });
        } else {
            actions.push(UsbAction::BulkIn { endpoint: self.in_addr, len: 1, strict: false });
        }
        Transaction { token, cmd: c, actions }
    }
}



proof fn lemma_tag_classes()
    by (bit_vector)
    ensures
        (0x01u8 & 0x80u8) == 0,
        (0x02u8 & 0x80u8) == 0,
        (0x03u8 & 0x80u8) == 0,
        (0x05u8 & 0x80u8) == 0,
        (0x06u8 & 0x80u8) == 0,
        (0x07u8 & 0x80u8) == 0,
        (0x0au8 & 0x80u8) == 0,
        (0x84u8 & 0x80u8) != 0,
{
}

impl PicobootConnection {
    fn set_exclusive_access(&mut self, exclusive: u8) -> (t: Transaction)
        requires
            old(self).spec_cmd_token() < u32::MAX,
        ensures
            spec_issued(*old(self), *final(self), t, Seq::<u8>::empty()),
            t.cmd.spec_cmd_id() == 0x01,
            !t.cmd.spec_is_read_class(),
            t.cmd.spec_cmd_size() == 1,
            t.cmd.spec_transfer_len() == 0,
            t.cmd.spec_args() == spec_zero_args().update(0, exclusive),
    {
        let mut args: [u8; 16] = [0u8; 16];
        args[0] = exclusive;
        proof {
            assert(args@ =~= spec_zero_args().update(0, exclusive));
        }
        let c = PicobootCmd::new(PicobootCmdId::ExclusiveAccess, 1, 0, args);
        proof {
            lemma_tag_classes();
        }
        self.cmd(c, Vec::new())
    }

    /// Release the session-level exclusive-access lock.
    pub fn access_not_exclusive(&mut self) -> (t: Transaction)
        requires
            old(self).spec_cmd_token() < u32::MAX,
        ensures
            spec_issued(*old(self), *final(self), t, Seq::<u8>::empty()),
            t.cmd.spec_cmd_id() == 0x01,
            !t.cmd.spec_is_read_class(),
            t.cmd.spec_cmd_size() == 1,
            t.cmd.spec_transfer_len() == 0,
            t.cmd.spec_args() == spec_zero_args().update(0, 0u8),
    {
        self.set_exclusive_access(0)
    }

    /// Claim the session-level exclusive-access lock.
    pub fn access_exclusive(&mut self) -> (t: Transaction)
        requires
            old(self).spec_cmd_token() < u32::MAX,
        ensures
            spec_issued(*old(self), *final(self), t, Seq::<u8>::empty()),
            t.cmd.spec_cmd_id() == 0x01,
            !t.cmd.spec_is_read_class(),
            t.cmd.spec_cmd_size() == 1,
            t.cmd.spec_transfer_len() == 0,
            t.cmd.spec_args() == spec_zero_args().update(0, 1u8),
    {
        self.set_exclusive_access(1)
    }

    /// Claim the exclusive-access lock and eject the mass-storage
    /// personality.
    pub fn access_exclusive_eject(&mut self) -> (t: Transaction)
        requires
            old(self).spec_cmd_token() < u32::MAX,
        ensures
            spec_issued(*old(self), *final(self), t, Seq::<u8>::empty()),
            t.cmd.spec_cmd_id() == 0x01,
            !t.cmd.spec_is_read_class(),
            t.cmd.spec_cmd_size() == 1,
            t.cmd.spec_transfer_len() == 0,
            t.cmd.spec_args() == spec_zero_args().update(0, 2u8),
    {
        self.set_exclusive_access(2)
    }

    /// Reboot the device: first reboot form, with an explicit jump target
    /// and stack pointer. Selection between the two reboot forms is the
    /// caller's duty, driven by the connection's recorded target variant.
    pub fn reboot(&mut self, pc: u32, sp: u32, delay: u32) -> (t: Transaction)
        requires
            old(self).spec_cmd_token() < u32::MAX,
        ensures
            spec_issued(*old(self), *final(self), t, Seq::<u8>::empty()),
            t.cmd.spec_cmd_id() == 0x02,
            !t.cmd.spec_is_read_class(),
            t.cmd.spec_cmd_size() == 12,
            t.cmd.spec_transfer_len() == 0,
            t.cmd.spec_args() == spec_reboot_args(pc, sp, delay),
    {
        let args = PicobootRebootCmd::ser(pc, sp, delay);
        let c = PicobootCmd::new(PicobootCmdId::Reboot, 12, 0, args);
        proof {
            lemma_tag_classes();
        }
        self.cmd(c, Vec::new())
    }

    /// Reboot the device: second reboot form, normal boot with a flags
    /// word of zero and only the delay carried.
    pub fn reboot2_normal(&mut self, delay: u32) -> (t: Transaction)
        requires
            old(self).spec_cmd_token() < u32::MAX,
        ensures
            spec_issued(*old(self), *final(self), t, Seq::<u8>::empty()),
            t.cmd.spec_cmd_id() == 0x0a,
            !t.cmd.spec_is_read_class(),
            t.cmd.spec_cmd_size() == 0x10,
            t.cmd.spec_transfer_len() == 0,
            t.cmd.spec_args() == spec_reboot2_args(0, delay, 0, 0),
    {
        let args = PicobootReboot2Cmd::ser(0, delay, 0, 0);
        let c = PicobootCmd::new(PicobootCmdId::Reboot2, 0x10, 0, args);
        proof {
            lemma_tag_classes();
        }
        self.cmd(c, Vec::new())
    }

    /// Erase flash sectors. The caller is responsible for sector
    /// alignment; no re-alignment happens here. No payload phase.
    pub fn flash_erase(&mut self, addr: u32, size: u32) -> (t: Transaction)
        requires
            old(self).spec_cmd_token() < u32::MAX,
        ensures
            spec_issued(*old(self), *final(self), t, Seq::<u8>::empty()),
            t.cmd.spec_cmd_id() == 0x03,
            !t.cmd.spec_is_read_class(),
            t.cmd.spec_cmd_size() == 8,
            t.cmd.spec_transfer_len() == 0,
            t.cmd.spec_args() == spec_range_args(addr, size),
    {
        let args = PicobootRangeCmd::ser(addr, size);
        let c = PicobootCmd::new(PicobootCmdId::FlashErase, 8, 0, args);
        proof {
            lemma_tag_classes();
        }
        self.cmd(c, Vec::new())
    }

    /// Write `buf` to flash or RAM at `addr`: a write-class command whose
    /// payload phase sends exactly `buf` host-to-device.
    pub fn flash_write(&mut self, addr: u32, buf: Vec<u8>) -> (t: Transaction)
        requires
            old(self).spec_cmd_token() < u32::MAX,
            buf@.len() <= u32::MAX,
        ensures
            spec_issued(*old(self), *final(self), t, buf@),
            t.cmd.spec_cmd_id() == 0x05,
            !t.cmd.spec_is_read_class(),
            t.cmd.spec_cmd_size() == 8,
            t.cmd.spec_transfer_len() == buf@.len(),
            t.cmd.spec_args() == spec_range_args(addr, buf@.len() as u32),
    {
        let size = buf.len() as u32;
        let args = PicobootRangeCmd::ser(addr, size);
        let c = PicobootCmd::new(PicobootCmdId::Write, 8, size, args);
        proof {
            lemma_tag_classes();
        }
        self.cmd(c, buf)
    }

    /// Read `size` bytes from flash or RAM at `addr`: a read-class
    /// command whose payload phase moves exactly `size` bytes
    /// device-to-host.
    pub fn flash_read(&mut self, addr: u32, size: u32) -> (t: Transaction)
        requires
            old(self).spec_cmd_token() < u32::MAX,
        ensures
            spec_issued(*old(self), *final(self), t, Seq::<u8>::empty()),
            t.cmd.spec_cmd_id() == 0x84,
            t.cmd.spec_is_read_class(),
            t.cmd.spec_cmd_size() == 8,
            t.cmd.spec_transfer_len() == size,
            t.cmd.spec_args() == spec_range_args(addr, size),
    {
        let args = PicobootRangeCmd::ser(addr, size);
        let c = PicobootCmd::new(PicobootCmdId::Read, 8, size, args);
        proof {
            lemma_tag_classes();
        }
        self.cmd(c, Vec::new())
    }

    /// Enter execute-in-place mode. Empty argument block, no payload.
    pub fn enter_xip(&mut self) -> (t: Transaction)
        requires
            old(self).spec_cmd_token() < u32::MAX,
        ensures
            spec_issued(*old(self), *final(self), t, Seq::<u8>::empty()),
            t.cmd.spec_cmd_id() == 0x07,
            !t.cmd.spec_is_read_class(),
            t.cmd.spec_cmd_size() == 0,
            t.cmd.spec_transfer_len() == 0,
            t.cmd.spec_args() == spec_zero_args(),
    {
        let args: [u8; 16] = [0u8; 16];
        proof {
            assert(args@ =~= spec_zero_args());
        }
        let c = PicobootCmd::new(PicobootCmdId::EnterCmdXip, 0, 0, args);
        proof {
            lemma_tag_classes();
        }
        self.cmd(c, Vec::new())
    }

    /// Exit execute-in-place mode; required before flash can be erased
    /// or written. Empty argument block, no payload.
    pub fn exit_xip(&mut self) -> (t: Transaction)
        requires
            old(self).spec_cmd_token() < u32::MAX,
        ensures
            spec_issued(*old(self), *final(self), t, Seq::<u8>::empty()),
            t.cmd.spec_cmd_id() == 0x06,
            !t.cmd.spec_is_read_class(),
            t.cmd.spec_cmd_size() == 0,
            t.cmd.spec_transfer_len() == 0,
            t.cmd.spec_args() == spec_zero_args(),
    {
        let args: [u8; 16] = [0u8; 16];
        proof {
            assert(args@ =~= spec_zero_args());
        }
        let c = PicobootCmd::new(PicobootCmdId::ExitXip, 0, 0, args);
        proof {
            lemma_tag_classes();
        }
        self.cmd(c, Vec::new())
    }

    /// The transfers that clear a possibly desynchronized session: clear
    /// the halt condition on both bulk endpoints, then the vendor
    /// interface-reset control transfer. Run once at the start of a
    /// session, and again after any transport failure.
    pub fn reset_interface(&self) -> (r: Vec<UsbAction>)
        ensures
            r@.len() == 3,
            spec_is_clear_halt(r@[0], self.spec_in_addr()),
            spec_is_clear_halt(r@[1], self.spec_out_addr()),
            spec_is_reset_control(r@[2], self.spec_iface()),
    {
        let mut r: Vec<UsbAction> = Vec::new();
        r.push(UsbAction::ClearHalt { endpoint: self.in_addr });
        r.push(UsbAction::ClearHalt { endpoint: self.out_addr });
        r.push(
            UsbAction::ControlOut {
                request_type: PICOBOOT_RESET_REQUEST_TYPE,
                request: PICOBOOT_RESET_REQUEST,
                value: 0,
                index: self.iface as u16,
            },
        );
        r
    }

    /// Law (teardown): tearing a connection down always releases the
    /// claimed interface first, and reattaches the kernel driver exactly
    /// when one was detached at open time — whatever happened to the
    /// operations before. The plan depends only on the connection's
    /// state, never on any operation's outcome.
    pub fn teardown_sequence(&self) -> (r: Vec<TeardownAction>)
        ensures
            r@ == spec_teardown_sequence(*self),
    {
        let mut r: Vec<TeardownAction> = Vec::new();
        r.push(TeardownAction::ReleaseInterface { iface: self.iface });
        if self.has_kernel_driver {
            r.push(TeardownAction::AttachKernelDriver { iface: self.iface });
        }
        proof {
            assert(r@ =~= spec_teardown_sequence(*self));
        }
        r
    }
}

/// The steps `teardown_sequence` promises: release the interface, then
/// reattach the kernel driver exactly when one was detached.
pub open spec fn spec_teardown_sequence(c: PicobootConnection) -> Seq<TeardownAction> {
    if c.spec_has_kernel_driver() {
        seq![
            (TeardownAction::ReleaseInterface { iface: c.spec_iface() }),
            (TeardownAction::AttachKernelDriver { iface: c.spec_iface() }),
        ]
    } else {
        seq![(TeardownAction::ReleaseInterface { iface: c.spec_iface() })]
    }
}

/// A 16-byte argument block of all zeroes.
pub open spec fn spec_zero_args() -> Seq<u8> {
    seq![0u8, 0u8, 0u8, 0u8, 0u8, 0u8, 0u8, 0u8, 0u8, 0u8, 0u8, 0u8, 0u8, 0u8, 0u8, 0u8]
}

/// Law (desynchronization is detected): classify a polled status frame
/// against the token of the transaction it must report on. A frame whose
/// token does not echo the most recently issued token is classified as
/// `ProtocolDesync`, never silently accepted; with the right token, a
/// non-success status code is `DeviceRejected` with that code, and a
/// status word outside the enumeration is a decoding failure.
pub fn check_status(frame: &PicobootStatusCmd, expected_token: u32) -> (r: Result<
    (),
    PicobootError,
>)
    ensures
        r == ({
            if frame.spec_token() != expected_token {
                Err::<(), PicobootError>(PicobootError::ProtocolDesync)
            } else {
                match PicobootStatus::spec_try_from(frame.spec_status_code()) {
                    Some(PicobootStatus::Success) => Ok::<(), PicobootError>(()),
                    Some(s) => Err::<(), PicobootError>(PicobootError::DeviceRejected(s)),
                    None => Err::<(), PicobootError>(PicobootError::DecodeError),
                }
            }
        }),
{
    if frame.get_token() != expected_token {
        return Err(PicobootError::ProtocolDesync);
    }
    match PicobootStatus::try_from(frame.get_status_code()) {
        Ok(PicobootStatus::Success) => Ok(()),
        Ok(s) => Err(PicobootError::DeviceRejected(s)),
        Err(_) => Err(PicobootError::DecodeError),
    }
}

/// Classify the byte count a bulk transfer reported. A strict transfer
/// that moved anything other than the expected count is a fatal
/// transport error: host and device have desynchronized.
pub fn check_transfer_len(expected: usize, actual: usize, strict: bool) -> (r: Result<
    (),
    PicobootError,
>)
    ensures
        r == ({
            if strict && actual != expected {
                Err::<(), PicobootError>(PicobootError::TransportError)
            } else {
                Ok::<(), PicobootError>(())
            }
        }),
{
    if strict && actual != expected {
        Err(PicobootError::TransportError)
    } else {
        Ok(())
    }
}


/// Law (token monotonicity): across two consecutive transactions on one
/// connection the token grows by exactly one. Starting from a fresh
/// connection the first token is 1, and since every issue advances the
/// counter, no token is ever reused within the connection's lifetime.
pub proof fn lemma_token_strictly_increases(
    c0: PicobootConnection,
    c1: PicobootConnection,
    c2: PicobootConnection,
    t1: Transaction,
    t2: Transaction,
    b1: Seq<u8>,
    b2: Seq<u8>,
)
    requires
        spec_issued(c0, c1, t1, b1),
        spec_issued(c1, c2, t2, b2),
    ensures
        t2.token == t1.token + 1,
        t1.token < t2.token,
{
}


} // verus!
