//! Host-side client for the PICOBOOT protocol, the vendor-specific USB
//! command interface that Raspberry Pi microcontrollers expose while in
//! BOOTSEL (boot ROM) mode.
//!
//! The crate covers the protocol engine itself: the fixed-layout binary
//! framing of commands and status reports, discovery of the vendor bulk
//! endpoint pair on an attached device, and the transaction sequencing
//! that every operation follows (command frame, status polls, optional
//! payload phase, acknowledgment handshake). The USB transport that
//! carries the bytes is a capability the engine's caller supplies: every
//! operation is planned here as an explicit sequence of transfer actions,
//! and an unverified shell executes those actions against real hardware.

use vstd::prelude::*;

pub mod cmd;
pub mod usb;

pub use cmd::{PicobootCmd, PicobootCmdId, PicobootError, TargetID};
pub use usb::PicobootConnection;

verus! {

/// RP MCU memory address for the start of ROM storage
pub const ROM_START: u32 = 0x00000000;
/// RP2040 memory address for the end of ROM storage
pub const ROM_END_RP2040: u32 = 0x00004000;
/// RP2350 memory address for the end of ROM storage
pub const ROM_END_RP2350: u32 = 0x00008000;

/// RP MCU memory address for the start of flash storage
pub const FLASH_START: u32 = 0x10000000;
/// RP2040 memory address for the end of flash storage
pub const FLASH_END_RP2040: u32 = 0x11000000;
/// RP2350 memory address for the end of flash storage
pub const FLASH_END_RP2350: u32 = 0x12000000;

/// RP2040 memory address for the start of XIP (execute-in-place) SRAM storage
pub const XIP_SRAM_START_RP2040: u32 = 0x15000000;
/// RP2040 memory address for the end of XIP (execute-in-place) SRAM storage
pub const XIP_SRAM_END_RP2040: u32 = 0x15004000;
/// RP2350 memory address for the start of XIP (execute-in-place) SRAM storage
pub const XIP_SRAM_START_RP2350: u32 = 0x13ffc000;
/// RP2350 memory address for the end of XIP (execute-in-place) SRAM storage
pub const XIP_SRAM_END_RP2350: u32 = 0x14000000;

/// RP MCU memory address for the start of SRAM storage
pub const SRAM_START_RP2040: u32 = 0x20000000;
/// RP2040 memory address for the end of SRAM storage
pub const SRAM_END_RP2040: u32 = 0x20042000;
/// RP2350 memory address for the end of SRAM storage
pub const SRAM_END_RP2350: u32 = 0x20082000;

/// RP MCU flash page size (for writing)
pub const PAGE_SIZE: u32 = 0x100;
/// RP MCU flash sector size (for erasing)
pub const SECTOR_SIZE: u32 = 0x1000;
/// RP2040 memory address for the initial stack pointer
pub const STACK_POINTER_RP2040: u32 = 0x20042000;
/// RP2350 memory address for the initial stack pointer
pub const STACK_POINTER_RP2350: u32 = 0x20082000;

/// RP USB Vendor ID
pub const PICOBOOT_VID: u16 = 0x2E8A;
/// RP2040 USB Product ID
pub const PICOBOOT_PID_RP2040: u16 = 0x0003;
/// RP2350 USB Product ID
pub const PICOBOOT_PID_RP2350: u16 = 0x000f;

/// RP MCU magic number for USB interfacing
pub const PICOBOOT_MAGIC: u32 = 0x431FD10B;

} // verus!
