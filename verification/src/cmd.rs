//! Fixed-layout binary framing for PICOBOOT commands and status reports.
//!
//! Every structure exchanged with the device has a fixed width: command
//! frames are 32 bytes, argument blocks and status frames are 16 bytes.
//! All multi-byte integers travel in the device's native little-endian
//! order with no padding between fields; reserved bytes are written as
//! zero and ignored on decode.

use vstd::prelude::*;
use vstd::bytes::{
    lemma_auto_spec_u32_to_from_le_bytes, spec_u32_from_le_bytes, spec_u32_to_le_bytes,
    u32_from_le_bytes, u32_to_le_bytes,
};
use vstd::slice::slice_subrange;
use crate::PICOBOOT_MAGIC;

verus! {

broadcast use vstd::array::group_array_axioms;

/// The two supported hardware generations. They differ in reboot command
/// shape and memory map; a connection records which one it talks to.
#[derive(Debug, Clone, Copy, PartialEq, Eq, Structural)]
pub enum TargetID {
    Rp2040,
    Rp2350,
}

/// Command identifier tags of the PICOBOOT protocol. The high bit (0x80)
/// of the encoded tag marks a read-class command: the device produces the
/// payload data. Tags without the high bit are write-class: the host
/// produces the payload data (or there is none).
#[derive(Debug, Clone, Copy, PartialEq, Eq, Structural)]
pub enum PicobootCmdId {
    Unknown,
    ExclusiveAccess,
    Reboot,
    FlashErase,
    Read,
    Write,
    ExitXip,
    EnterCmdXip,
    Exec,
    VectorizeFlash,
    Reboot2,
    GetInfo,
    OtpRead,
    OtpWrite,
}

impl PicobootCmdId {
    /// The fixed protocol constant each command identifier encodes to.
    pub open spec fn spec_to_u8(self) -> u8 {
        match self {
            PicobootCmdId::Unknown => 0x00,
            PicobootCmdId::ExclusiveAccess => 0x01,
            PicobootCmdId::Reboot => 0x02,
            PicobootCmdId::FlashErase => 0x03,
            PicobootCmdId::Read => 0x84,
            PicobootCmdId::Write => 0x05,
            PicobootCmdId::ExitXip => 0x06,
            PicobootCmdId::EnterCmdXip => 0x07,
            PicobootCmdId::Exec => 0x08,
            PicobootCmdId::VectorizeFlash => 0x09,
            PicobootCmdId::Reboot2 => 0x0a,
            PicobootCmdId::GetInfo => 0x8b,
            PicobootCmdId::OtpRead => 0x8c,
            PicobootCmdId::OtpWrite => 0x0d,
        }
    }

    /// The tag value decoded from a byte, if the byte is in the enumeration.
    pub open spec fn spec_try_from(x: u8) -> Option<PicobootCmdId> {
        match x {
            0x00 => Some(PicobootCmdId::Unknown),
            0x01 => Some(PicobootCmdId::ExclusiveAccess),
            0x02 => Some(PicobootCmdId::Reboot),
            0x03 => Some(PicobootCmdId::FlashErase),
            0x84 => Some(PicobootCmdId::Read),
            0x05 => Some(PicobootCmdId::Write),
            0x06 => Some(PicobootCmdId::ExitXip),
            0x07 => Some(PicobootCmdId::EnterCmdXip),
            0x08 => Some(PicobootCmdId::Exec),
            0x09 => Some(PicobootCmdId::VectorizeFlash),
            0x0a => Some(PicobootCmdId::Reboot2),
            0x8b => Some(PicobootCmdId::GetInfo),
            0x8c => Some(PicobootCmdId::OtpRead),
            0x0d => Some(PicobootCmdId::OtpWrite),
            _ => None,
        }
    }

    /// Encode this identifier as its wire tag.
    pub fn to_u8(self) -> (r: u8)
        ensures
            r == self.spec_to_u8(),
    {
        match self {
            PicobootCmdId::Unknown => 0x00,
            PicobootCmdId::ExclusiveAccess => 0x01,
            PicobootCmdId::Reboot => 0x02,
            PicobootCmdId::FlashErase => 0x03,
            PicobootCmdId::Read => 0x84,
            PicobootCmdId::Write => 0x05,
            PicobootCmdId::ExitXip => 0x06,
            PicobootCmdId::EnterCmdXip => 0x07,
            PicobootCmdId::Exec => 0x08,
            PicobootCmdId::VectorizeFlash => 0x09,
            PicobootCmdId::Reboot2 => 0x0a,
            PicobootCmdId::GetInfo => 0x8b,
            PicobootCmdId::OtpRead => 0x8c,
            PicobootCmdId::OtpWrite => 0x0d,
        }
    }

    /// Decode a wire tag. Any value outside the enumeration is rejected.
    pub fn try_from(x: u8) -> (r: Result<PicobootCmdId, ()>)
        ensures
            match PicobootCmdId::spec_try_from(x) {
                Some(c) => r == Ok::<PicobootCmdId, ()>(c),
                None => r == Err::<PicobootCmdId, ()>(()),
            },
    {
        match x {
            0x00 => Ok(PicobootCmdId::Unknown),
            0x01 => Ok(PicobootCmdId::ExclusiveAccess),
            0x02 => Ok(PicobootCmdId::Reboot),
            0x03 => Ok(PicobootCmdId::FlashErase),
            0x84 => Ok(PicobootCmdId::Read),
            0x05 => Ok(PicobootCmdId::Write),
            0x06 => Ok(PicobootCmdId::ExitXip),
            0x07 => Ok(PicobootCmdId::EnterCmdXip),
            0x08 => Ok(PicobootCmdId::Exec),
            0x09 => Ok(PicobootCmdId::VectorizeFlash),
            0x0a => Ok(PicobootCmdId::Reboot2),
            0x8b => Ok(PicobootCmdId::GetInfo),
            0x8c => Ok(PicobootCmdId::OtpRead),
            0x0d => Ok(PicobootCmdId::OtpWrite),
            _ => Err(()),
        }
    }
}

/// Encoding and decoding a command identifier are mutually inverse.
pub proof fn lemma_cmd_id_round_trip(c: PicobootCmdId)
    ensures
        PicobootCmdId::spec_try_from(c.spec_to_u8()) == Some(c),
{
}

/// Enumerated result codes a status frame can carry. Any numeric value
/// outside this set is a decoding failure, never a silently accepted
/// unknown status.
#[derive(Debug, Clone, Copy, PartialEq, Eq, Structural)]
pub enum PicobootStatus {
    Success,
    UnknownCmd,
    InvalidCmdLength,
    InvalidTransferLength,
    InvalidAddress,
    BadAlignment,
    InterleavedWrite,
    Rebooting,
    UnknownError,
    InvalidState,
    NotPermitted,
    InvalidArg,
    BufferTooSmall,
    PreconditionNotMet,
    ModifiedData,
    InvalidData,
    NotFound,
    UnsupportedModification,
}

impl PicobootStatus {
    /// The fixed protocol constant each status encodes to.
    pub open spec fn spec_to_u32(self) -> u32 {
        match self {
            PicobootStatus::Success => 0,
            PicobootStatus::UnknownCmd => 1,
            PicobootStatus::InvalidCmdLength => 2,
            PicobootStatus::InvalidTransferLength => 3,
            PicobootStatus::InvalidAddress => 4,
            PicobootStatus::BadAlignment => 5,
            PicobootStatus::InterleavedWrite => 6,
            PicobootStatus::Rebooting => 7,
            PicobootStatus::UnknownError => 8,
            PicobootStatus::InvalidState => 9,
            PicobootStatus::NotPermitted => 10,
            PicobootStatus::InvalidArg => 11,
            PicobootStatus::BufferTooSmall => 12,
            PicobootStatus::PreconditionNotMet => 13,
            PicobootStatus::ModifiedData => 14,
            PicobootStatus::InvalidData => 15,
            PicobootStatus::NotFound => 16,
            PicobootStatus::UnsupportedModification => 17,
        }
    }

    /// The status decoded from a word, if the word is in the enumeration.
    pub open spec fn spec_try_from(x: u32) -> Option<PicobootStatus> {
        match x {
            0 => Some(PicobootStatus::Success),
            1 => Some(PicobootStatus::UnknownCmd),
            2 => Some(PicobootStatus::InvalidCmdLength),
            3 => Some(PicobootStatus::InvalidTransferLength),
            4 => Some(PicobootStatus::InvalidAddress),
            5 => Some(PicobootStatus::BadAlignment),
            6 => Some(PicobootStatus::InterleavedWrite),
            7 => Some(PicobootStatus::Rebooting),
            8 => Some(PicobootStatus::UnknownError),
            9 => Some(PicobootStatus::InvalidState),
            10 => Some(PicobootStatus::NotPermitted),
            11 => Some(PicobootStatus::InvalidArg),
            12 => Some(PicobootStatus::BufferTooSmall),
            13 => Some(PicobootStatus::PreconditionNotMet),
            14 => Some(PicobootStatus::ModifiedData),
            15 => Some(PicobootStatus::InvalidData),
            16 => Some(PicobootStatus::NotFound),
            17 => Some(PicobootStatus::UnsupportedModification),
            _ => None,
        }
    }

    /// Decode a status word. Any value outside the enumeration is rejected.
    pub fn try_from(x: u32) -> (r: Result<PicobootStatus, ()>)
        ensures
            match PicobootStatus::spec_try_from(x) {
                Some(s) => r == Ok::<PicobootStatus, ()>(s),
                None => r == Err::<PicobootStatus, ()>(()),
            },
    {
        match x {
            0 => Ok(PicobootStatus::Success),
            1 => Ok(PicobootStatus::UnknownCmd),
            2 => Ok(PicobootStatus::InvalidCmdLength),
            3 => Ok(PicobootStatus::InvalidTransferLength),
            4 => Ok(PicobootStatus::InvalidAddress),
            5 => Ok(PicobootStatus::BadAlignment),
            6 => Ok(PicobootStatus::InterleavedWrite),
            7 => Ok(PicobootStatus::Rebooting),
            8 => Ok(PicobootStatus::UnknownError),
            9 => Ok(PicobootStatus::InvalidState),
            10 => Ok(PicobootStatus::NotPermitted),
            11 => Ok(PicobootStatus::InvalidArg),
            12 => Ok(PicobootStatus::BufferTooSmall),
            13 => Ok(PicobootStatus::PreconditionNotMet),
            14 => Ok(PicobootStatus::ModifiedData),
            15 => Ok(PicobootStatus::InvalidData),
            16 => Ok(PicobootStatus::NotFound),
            17 => Ok(PicobootStatus::UnsupportedModification),
            _ => Err(()),
        }
    }
}

/// Failures surfaced by the protocol engine.
#[derive(Debug, Clone, Copy, PartialEq, Eq, Structural)]
pub enum PicobootError {
    /// Short read/write, timeout or unplugged device, reported by the
    /// caller-supplied USB transport.
    TransportError,
    /// A frame's byte length or an enumerated field did not decode.
    DecodeError,
    /// No attached USB device matches the requested identifiers.
    DeviceNotFound,
    /// The bulk IN/OUT endpoints do not resolve to one and the same
    /// configuration/interface/alt-setting triple, or one is missing.
    EndpointMismatch,
    /// A status frame's token does not echo the most recently issued
    /// command token.
    ProtocolDesync,
    /// The device answered with a non-success status code.
    DeviceRejected(PicobootStatus),
}

/// Bytes of a range argument block: address, size, then eight reserved
/// zero bytes.
pub open spec fn spec_range_args(addr: u32, size: u32) -> Seq<u8> {
    spec_u32_to_le_bytes(addr) + spec_u32_to_le_bytes(size)
        + seq![0u8, 0u8, 0u8, 0u8, 0u8, 0u8, 0u8, 0u8]
}

/// Bytes of a reboot argument block: program counter, stack pointer,
/// delay in milliseconds, then four reserved zero bytes.
pub open spec fn spec_reboot_args(pc: u32, sp: u32, delay: u32) -> Seq<u8> {
    spec_u32_to_le_bytes(pc) + spec_u32_to_le_bytes(sp) + spec_u32_to_le_bytes(delay)
        + seq![0u8, 0u8, 0u8, 0u8]
}

/// Bytes of the second reboot form's argument block: flags, delay in
/// milliseconds and two parameters.
pub open spec fn spec_reboot2_args(flags: u32, delay: u32, p0: u32, p1: u32) -> Seq<u8> {
    spec_u32_to_le_bytes(flags) + spec_u32_to_le_bytes(delay) + spec_u32_to_le_bytes(p0)
        + spec_u32_to_le_bytes(p1)
}

/// Argument block of the erase, read and write commands: an address range.
pub struct PicobootRangeCmd;

impl PicobootRangeCmd {
    /// Encode an address range as a 16-byte argument block.
    pub fn ser(addr: u32, size: u32) -> (r: [u8; 16])
        ensures
            r@ == spec_range_args(addr, size),
            r@.len() == 16,
    {
        let a = u32_to_le_bytes(addr);
        let s = u32_to_le_bytes(size);
        let r: [u8; 16] = [
            a[0], a[1], a[2], a[3], s[0], s[1], s[2], s[3], 0, 0, 0, 0, 0, 0, 0, 0,
        ];
        proof {
            lemma_auto_spec_u32_to_from_le_bytes();
            assert(r@ =~= spec_range_args(addr, size));
        }
        r
    }
}

/// Argument block of the first reboot form: jump target and stack pointer.
pub struct PicobootRebootCmd;

impl PicobootRebootCmd {
    /// Encode a reboot request as a 16-byte argument block.
    pub fn ser(pc: u32, sp: u32, delay: u32) -> (r: [u8; 16])
        ensures
            r@ == spec_reboot_args(pc, sp, delay),
            r@.len() == 16,
    {
        let p = u32_to_le_bytes(pc);
        let s = u32_to_le_bytes(sp);
        let d = u32_to_le_bytes(delay);
        let r: [u8; 16] = [
            p[0], p[1], p[2], p[3], s[0], s[1], s[2], s[3], d[0], d[1], d[2], d[3], 0, 0, 0, 0,
        ];
        proof {
            lemma_auto_spec_u32_to_from_le_bytes();
            assert(r@ =~= spec_reboot_args(pc, sp, delay));
        }
        r
    }
}

/// Argument block of the second reboot form: a flags word instead of an
/// explicit program counter and stack pointer.
pub struct PicobootReboot2Cmd;

impl PicobootReboot2Cmd {
    /// Encode the second reboot form as a 16-byte argument block.
    pub fn ser(flags: u32, delay: u32, p0: u32, p1: u32) -> (r: [u8; 16])
        ensures
            r@ == spec_reboot2_args(flags, delay, p0, p1),
            r@.len() == 16,
    {
        let f = u32_to_le_bytes(flags);
        let d = u32_to_le_bytes(delay);
        let q0 = u32_to_le_bytes(p0);
        let q1 = u32_to_le_bytes(p1);
        let r: [u8; 16] = [
            f[0], f[1], f[2], f[3], d[0], d[1], d[2], d[3], q0[0], q0[1], q0[2], q0[3], q1[0],
            q1[1], q1[2], q1[3],
        ];
        proof {
            lemma_auto_spec_u32_to_from_le_bytes();
            assert(r@ =~= spec_reboot2_args(flags, delay, p0, p1));
        }
        r
    }
}

/// A 16-byte status frame is well laid out when both of its enumerated
/// fields hold values inside their enumerations.
pub open spec fn spec_status_bytes_ok(b: Seq<u8>) -> bool {
    &&& b.len() == 16
    &&& PicobootStatus::spec_try_from(spec_u32_from_le_bytes(b.subrange(4, 8))) is Some
    &&& PicobootCmdId::spec_try_from(b[8]) is Some
}

/// How a decoded status frame relates to the bytes it was read from.
pub open spec fn spec_status_decode_matches(d: PicobootStatusCmd, b: Seq<u8>) -> bool {
    &&& spec_status_bytes_ok(b)
    &&& d.spec_token() == spec_u32_from_le_bytes(b.subrange(0, 4))
    &&& d.spec_status_code() == spec_u32_from_le_bytes(b.subrange(4, 8))
    &&& d.spec_cmd_id() == b[8]
    &&& d.spec_in_progress() == b[9]
}

/// Status frame the device reports over a control transfer: 16 bytes
/// holding the echoed token, a status code, the echoed command identifier
/// and an in-progress flag, followed by six reserved bytes.
#[derive(Debug, Clone, Copy)]
pub struct PicobootStatusCmd {
    token: u32,
    status_code: u32,
    cmd_id: u8,
    in_progress: u8,
}

impl PicobootStatusCmd {
    /// Token echoed from the command this frame reports on.
    pub closed spec fn spec_token(self) -> u32 {
        self.token
    }

    /// Raw enumerated result code.
    pub closed spec fn spec_status_code(self) -> u32 {
        self.status_code
    }

    /// Command identifier echoed from the command.
    pub closed spec fn spec_cmd_id(self) -> u8 {
        self.cmd_id
    }

    /// Nonzero while the device still executes the command.
    pub closed spec fn spec_in_progress(self) -> u8 {
        self.in_progress
    }

    /// Both enumerated fields decode; guaranteed by construction, since a
    /// status frame only ever comes out of `deser`.
    pub open spec fn wf(self) -> bool {
        &&& PicobootStatus::spec_try_from(self.spec_status_code()) is Some
        &&& PicobootCmdId::spec_try_from(self.spec_cmd_id()) is Some
    }

    pub fn get_token(&self) -> (r: u32)
        ensures
            r == self.spec_token(),
    {
        self.token
    }

    pub fn get_status_code(&self) -> (r: u32)
        ensures
            r == self.spec_status_code(),
    {
        self.status_code
    }

    pub fn get_cmd_id(&self) -> (r: u8)
        ensures
            r == self.spec_cmd_id(),
    {
        self.cmd_id
    }

    pub fn get_in_progress(&self) -> (r: u8)
        ensures
            r == self.spec_in_progress(),
    {
        self.in_progress
    }

    /// Decode a status frame. Fails when the byte length is not exactly
    /// 16 or either enumerated field holds a value outside its
    /// enumeration; reserved bytes are ignored.
    pub fn deser(b: &[u8]) -> (r: Result<PicobootStatusCmd, PicobootError>)
        ensures
            r matches Ok(d) ==> spec_status_decode_matches(d, b@) && d.wf(),
            r matches Err(e) ==> e == PicobootError::DecodeError && !spec_status_bytes_ok(b@),
            spec_status_bytes_ok(b@) ==> r is Ok,
    {
        if b.len() != 16 {
            return Err(PicobootError::DecodeError);
        }
        let token = u32_from_le_bytes(slice_subrange(b, 0, 4));
        let status_code = u32_from_le_bytes(slice_subrange(b, 4, 8));
        let cmd_id = b[8];
        let in_progress = b[9];
        match PicobootStatus::try_from(status_code) {
            Err(_) => {
                return Err(PicobootError::DecodeError);
            },
            Ok(_) => {},
        }
        match PicobootCmdId::try_from(cmd_id) {
            Err(_) => {
                return Err(PicobootError::DecodeError);
            },
            Ok(_) => {},
        }
        Ok(PicobootStatusCmd { token, status_code, cmd_id, in_progress })
    }
}

/// A 32-byte command frame is well laid out when it opens with the
/// protocol magic and its tag is in the enumeration.
pub open spec fn spec_cmd_bytes_ok(b: Seq<u8>) -> bool {
    &&& b.len() == 32
    &&& spec_u32_from_le_bytes(b.subrange(0, 4)) == PICOBOOT_MAGIC
    &&& PicobootCmdId::spec_try_from(b[8]) is Some
}

/// How a decoded command frame relates to the bytes it was read from.
pub open spec fn spec_cmd_decode_matches(d: PicobootCmd, b: Seq<u8>) -> bool {
    &&& spec_cmd_bytes_ok(b)
    &&& d.spec_token() == spec_u32_from_le_bytes(b.subrange(4, 8))
    &&& d.spec_cmd_id() == b[8]
    &&& d.spec_cmd_size() == b[9]
    &&& d.spec_transfer_len() == spec_u32_from_le_bytes(b.subrange(12, 16))
    &&& d.spec_args() == b.subrange(16, 32)
}

/// One PICOBOOT command frame: 32 bytes on the wire, laid out as magic,
/// token, command identifier, argument length, two reserved bytes,
/// transfer length and a 16-byte argument block. The magic and the
/// reserved bytes are fixed constants of the encoding and are not stored.
#[derive(Debug, Clone, Copy)]
pub struct PicobootCmd {
    token: u32,
    cmd_id: u8,
    cmd_size: u8,
    transfer_len: u32,
    args: [u8; 16],
}

impl PicobootCmd {
    /// Host-assigned token correlating this command with status reports.
    pub closed spec fn spec_token(self) -> u32 {
        self.token
    }

    /// Wire tag of the command.
    pub closed spec fn spec_cmd_id(self) -> u8 {
        self.cmd_id
    }

    /// Number of meaningful bytes in the argument block.
    pub closed spec fn spec_cmd_size(self) -> u8 {
        self.cmd_size
    }

    /// Bytes to move in the payload phase, zero if there is none.
    pub closed spec fn spec_transfer_len(self) -> u32 {
        self.transfer_len
    }

    /// The 16-byte argument block.
    pub closed spec fn spec_args(self) -> Seq<u8> {
        self.args@
    }

    /// The tag is in the enumeration; guaranteed by construction.
    pub open spec fn wf(self) -> bool {
        &&& PicobootCmdId::spec_try_from(self.spec_cmd_id()) is Some
        &&& self.spec_args().len() == 16
    }

    /// True of read-class commands: the device produces the payload.
    pub open spec fn spec_is_read_class(self) -> bool {
        self.spec_cmd_id() & 0x80 != 0
    }

    /// The 32 bytes this frame encodes to.
    pub open spec fn spec_ser(self) -> Seq<u8> {
        spec_u32_to_le_bytes(PICOBOOT_MAGIC) + spec_u32_to_le_bytes(self.spec_token())
            + seq![self.spec_cmd_id(), self.spec_cmd_size(), 0u8, 0u8]
            + spec_u32_to_le_bytes(self.spec_transfer_len()) + self.spec_args()
    }

    /// Build a command frame with token zero; the transaction engine
    /// assigns the real token when the command is issued.
    pub fn new(cmd_id: PicobootCmdId, cmd_size: u8, transfer_len: u32, args: [u8; 16]) -> (r:
        PicobootCmd)
        ensures
            r.spec_token() == 0,
            r.spec_cmd_id() == cmd_id.spec_to_u8(),
            r.spec_cmd_size() == cmd_size,
            r.spec_transfer_len() == transfer_len,
            r.spec_args() == args@,
            r.wf(),
    {
        proof {
            lemma_cmd_id_round_trip(cmd_id);
        }
        PicobootCmd { token: 0, cmd_id: cmd_id.to_u8(), cmd_size, transfer_len, args }
    }

    /// The same command with the given token.
    pub fn set_token(self, token: u32) -> (r: PicobootCmd)
        ensures
            r.spec_token() == token,
            r.spec_cmd_id() == self.spec_cmd_id(),
            r.spec_cmd_size() == self.spec_cmd_size(),
            r.spec_transfer_len() == self.spec_transfer_len(),
            r.spec_args() == self.spec_args(),
            r.wf() == self.wf(),
    {
        PicobootCmd { token, ..self }
    }

    pub fn get_transfer_len(&self) -> (r: u32)
        ensures
            r == self.spec_transfer_len(),
    {
        self.transfer_len
    }

    pub fn get_cmd_id(&self) -> (r: u8)
        ensures
            r == self.spec_cmd_id(),
    {
        self.cmd_id
    }

    /// Encode this frame into its 32 wire bytes.
    pub fn ser(&self) -> (r: Vec<u8>)
        ensures
            r@ == self.spec_ser(),
            r@.len() == 32,
    {
        proof {
            lemma_auto_spec_u32_to_from_le_bytes();
        }
        let mut out = u32_to_le_bytes(PICOBOOT_MAGIC);
        let mut t = u32_to_le_bytes(self.token);
        out.append(&mut t);
        out.push(self.cmd_id);
        out.push(self.cmd_size);
        out.push(0);
        out.push(0);
        let mut l = u32_to_le_bytes(self.transfer_len);
        out.append(&mut l);
        let ghost prefix = out@;
        let mut i: usize = 0;
        while i < 16
            invariant
                i <= 16,
                out@ == prefix + self.args@.subrange(0, i as int),
            decreases 16 - i,
        {
            out.push(self.args[i]);
            proof {
                assert(prefix + self.args@.subrange(0, i as int) + seq![self.args@[i as int]]
                    =~= prefix + self.args@.subrange(0, i as int + 1));
            }
            i += 1;
        }
        proof {
            assert(self.args@.subrange(0, 16) =~= self.args@);
            assert(out@ =~= self.spec_ser());
        }
        out
    }

    /// Decode a command frame. Fails when the byte length is not exactly
    /// 32, the magic does not match, or the tag is outside the
    /// enumeration; the reserved bytes are ignored.
    pub fn deser(b: &[u8]) -> (r: Result<PicobootCmd, PicobootError>)
        ensures
            r matches Ok(d) ==> spec_cmd_decode_matches(d, b@) && d.wf(),
            r matches Err(e) ==> e == PicobootError::DecodeError && !spec_cmd_bytes_ok(b@),
            spec_cmd_bytes_ok(b@) ==> r is Ok,
    {
        if b.len() != 32 {
            return Err(PicobootError::DecodeError);
        }
        let magic = u32_from_le_bytes(slice_subrange(b, 0, 4));
        if magic != PICOBOOT_MAGIC {
            return Err(PicobootError::DecodeError);
        }
        let token = u32_from_le_bytes(slice_subrange(b, 4, 8));
        let cmd_id = b[8];
        let cmd_size = b[9];
        let transfer_len = u32_from_le_bytes(slice_subrange(b, 12, 16));
        match PicobootCmdId::try_from(cmd_id) {
            Err(_) => {
                return Err(PicobootError::DecodeError);
            },
            Ok(_) => {},
        }
        let args: [u8; 16] = [
            b[16], b[17], b[18], b[19], b[20], b[21], b[22], b[23], b[24], b[25], b[26], b[27],
            b[28], b[29], b[30], b[31],
        ];
        proof {
            assert(args@ =~= b@.subrange(16, 32));
        }
        Ok(PicobootCmd { token, cmd_id, cmd_size, transfer_len, args })
    }
}

/// Law (fixed width): a command frame encodes to exactly 32 bytes,
/// whatever its field values.
pub proof fn lemma_cmd_frame_size(c: PicobootCmd)
    ensures
        c.spec_ser().len() == 32,
{
    lemma_auto_spec_u32_to_from_le_bytes();
}

/// Law (round trip, first half): the encoding of a well-formed command
/// frame always decodes.
pub proof fn lemma_ser_decodable(c: PicobootCmd)
    requires
        c.wf(),
    ensures
        spec_cmd_bytes_ok(c.spec_ser()),
{
    lemma_auto_spec_u32_to_from_le_bytes();
    let b = c.spec_ser();
    assert(b.subrange(0, 4) =~= spec_u32_to_le_bytes(PICOBOOT_MAGIC));
    assert(b[8] == c.spec_cmd_id());
}

/// Law (round trip, second half): decoding the encoding of a well-formed
/// command frame and encoding the result reproduces the original bytes;
/// with the first half, encode(decode(encode(c))) == encode(c).
pub proof fn lemma_codec_round_trip(c: PicobootCmd, d: PicobootCmd)
    requires
        c.wf(),
        spec_cmd_decode_matches(d, c.spec_ser()),
    ensures
        d.spec_ser() == c.spec_ser(),
        d.wf(),
{
    lemma_auto_spec_u32_to_from_le_bytes();
    let b = c.spec_ser();
    assert(b.subrange(4, 8) =~= spec_u32_to_le_bytes(c.spec_token()));
    assert(b.subrange(12, 16) =~= spec_u32_to_le_bytes(c.spec_transfer_len()));
    assert(b.subrange(16, 32) =~= c.spec_args());
    assert(b[8] == c.spec_cmd_id());
    assert(b[9] == c.spec_cmd_size());
}

} // verus!
