use picoboot_rs::cmd::{
    PicobootCmd, PicobootCmdId, PicobootError, PicobootRangeCmd, PicobootReboot2Cmd,
    PicobootRebootCmd, PicobootStatus, PicobootStatusCmd,
};
use picoboot_rs::PICOBOOT_MAGIC;

fn u32_le(x: u32) -> [u8; 4] {
    x.to_le_bytes()
}

fn all_cmd_ids() -> Vec<PicobootCmdId> {
    vec![
        PicobootCmdId::Unknown,
        PicobootCmdId::ExclusiveAccess,
        PicobootCmdId::Reboot,
        PicobootCmdId::FlashErase,
        PicobootCmdId::Read,
        PicobootCmdId::Write,
        PicobootCmdId::ExitXip,
        PicobootCmdId::EnterCmdXip,
        PicobootCmdId::Exec,
        PicobootCmdId::VectorizeFlash,
        PicobootCmdId::Reboot2,
        PicobootCmdId::GetInfo,
        PicobootCmdId::OtpRead,
        PicobootCmdId::OtpWrite,
    ]
}

#[test]
fn encode_decode_encode_is_stable() {
    // Round-trip stability for a representative spread of commands.
    let cases: Vec<PicobootCmd> = vec![
        PicobootCmd::new(
            PicobootCmdId::FlashErase,
            8,
            0,
            PicobootRangeCmd::ser(0x1000_0000, 4096),
        )
        .set_token(42),
        PicobootCmd::new(
            PicobootCmdId::Read,
            8,
            256,
            PicobootRangeCmd::ser(0x1000_0100, 256),
        )
        .set_token(0xffff_ffff),
        PicobootCmd::new(
            PicobootCmdId::Reboot,
            12,
            0,
            PicobootRebootCmd::ser(0, 0x2004_2000, 500),
        ),
        PicobootCmd::new(PicobootCmdId::ExitXip, 0, 0, [0u8; 16]).set_token(7),
        PicobootCmd::new(
            PicobootCmdId::Reboot2,
            0x10,
            0,
            PicobootReboot2Cmd::ser(0, 500, 0, 0),
        ),
    ];
    for c in cases {
        let e1 = c.ser();
        let d = PicobootCmd::deser(&e1).unwrap();
        let e2 = d.ser();
        assert_eq!(e1, e2);
    }
}

#[test]
fn every_command_kind_encodes_to_32_bytes() {
    for id in all_cmd_ids() {
        let c = PicobootCmd::new(id, 0xab, 0xdead_beef, [0x5a; 16]).set_token(99);
        assert_eq!(c.ser().len(), 32);
    }
}

#[test]
fn every_argument_payload_encodes_to_16_bytes() {
    let r: [u8; 16] = PicobootRangeCmd::ser(0xffff_ffff, 0);
    let b: [u8; 16] = PicobootRebootCmd::ser(1, 2, 3);
    let b2: [u8; 16] = PicobootReboot2Cmd::ser(4, 5, 6, 7);
    assert_eq!(r.len(), 16);
    assert_eq!(b.len(), 16);
    assert_eq!(b2.len(), 16);
}

#[test]
fn command_frame_layout_is_exact() {
    let args = PicobootRangeCmd::ser(0x1000_0000, 4096);
    let c = PicobootCmd::new(PicobootCmdId::FlashErase, 8, 0, args).set_token(3);
    let e = c.ser();
    assert_eq!(&e[0..4], &u32_le(PICOBOOT_MAGIC));
    assert_eq!(&e[4..8], &u32_le(3));
    assert_eq!(e[8], 0x03);
    assert_eq!(e[9], 8);
    assert_eq!(&e[10..12], &[0, 0]);
    assert_eq!(&e[12..16], &u32_le(0));
    assert_eq!(&e[16..32], &args);
}

#[test]
fn range_args_layout_is_exact() {
    let a = PicobootRangeCmd::ser(0x1000_0000, 4096);
    assert_eq!(&a[0..4], &u32_le(0x1000_0000));
    assert_eq!(&a[4..8], &u32_le(4096));
    assert_eq!(&a[8..16], &[0u8; 8]);
}

#[test]
fn reboot_args_layout_is_exact() {
    let a = PicobootRebootCmd::ser(0, 0x2004_2000, 500);
    assert_eq!(&a[0..4], &u32_le(0));
    assert_eq!(&a[4..8], &u32_le(0x2004_2000));
    assert_eq!(&a[8..12], &u32_le(500));
    assert_eq!(&a[12..16], &[0u8; 4]);
}

#[test]
fn reboot2_args_layout_is_exact() {
    let a = PicobootReboot2Cmd::ser(0, 500, 8, 9);
    assert_eq!(&a[0..4], &u32_le(0));
    assert_eq!(&a[4..8], &u32_le(500));
    assert_eq!(&a[8..12], &u32_le(8));
    assert_eq!(&a[12..16], &u32_le(9));
}

#[test]
fn cmd_deser_rejects_bad_magic() {
    let c = PicobootCmd::new(PicobootCmdId::ExitXip, 0, 0, [0u8; 16]);
    let mut e = c.ser();
    e[0] ^= 0xff;
    assert!(matches!(
        PicobootCmd::deser(&e),
        Err(PicobootError::DecodeError)
    ));
}

#[test]
fn cmd_deser_rejects_bad_length() {
    let c = PicobootCmd::new(PicobootCmdId::ExitXip, 0, 0, [0u8; 16]);
    let mut e = c.ser();
    e.pop();
    assert!(matches!(
        PicobootCmd::deser(&e),
        Err(PicobootError::DecodeError)
    ));
    assert!(matches!(
        PicobootCmd::deser(&[]),
        Err(PicobootError::DecodeError)
    ));
}

#[test]
fn cmd_deser_rejects_unknown_tag() {
    let c = PicobootCmd::new(PicobootCmdId::ExitXip, 0, 0, [0u8; 16]);
    let mut e = c.ser();
    e[8] = 0x7f;
    assert!(matches!(
        PicobootCmd::deser(&e),
        Err(PicobootError::DecodeError)
    ));
}

fn status_bytes(token: u32, status: u32, cmd_id: u8, in_progress: u8) -> Vec<u8> {
    let mut b = Vec::new();
    b.extend_from_slice(&token.to_le_bytes());
    b.extend_from_slice(&status.to_le_bytes());
    b.push(cmd_id);
    b.push(in_progress);
    b.extend_from_slice(&[0u8; 6]);
    b
}

#[test]
fn status_deser_reads_all_fields() {
    let b = status_bytes(7, 0, 0x03, 1);
    let s = PicobootStatusCmd::deser(&b).unwrap();
    assert_eq!(s.get_token(), 7);
    assert_eq!(s.get_status_code(), 0);
    assert_eq!(s.get_cmd_id(), 0x03);
    assert_eq!(s.get_in_progress(), 1);
}

#[test]
fn status_deser_rejects_unknown_status() {
    let b = status_bytes(7, 99, 0x03, 0);
    assert!(matches!(
        PicobootStatusCmd::deser(&b),
        Err(PicobootError::DecodeError)
    ));
}

#[test]
fn status_deser_rejects_unknown_cmd_id() {
    let b = status_bytes(7, 0, 0x7f, 0);
    assert!(matches!(
        PicobootStatusCmd::deser(&b),
        Err(PicobootError::DecodeError)
    ));
}

#[test]
fn status_deser_rejects_bad_length() {
    let mut b = status_bytes(7, 0, 0x03, 0);
    b.pop();
    assert!(matches!(
        PicobootStatusCmd::deser(&b),
        Err(PicobootError::DecodeError)
    ));
}

#[test]
fn cmd_id_try_from_covers_the_enumeration() {
    for id in all_cmd_ids() {
        assert_eq!(PicobootCmdId::try_from(id.to_u8()), Ok(id));
    }
    assert_eq!(PicobootCmdId::try_from(0x0e), Err(()));
    assert_eq!(PicobootCmdId::try_from(0x80), Err(()));
    assert_eq!(PicobootCmdId::try_from(0xff), Err(()));
}

#[test]
fn status_try_from_covers_the_enumeration() {
    assert_eq!(PicobootStatus::try_from(0), Ok(PicobootStatus::Success));
    assert_eq!(PicobootStatus::try_from(7), Ok(PicobootStatus::Rebooting));
    assert_eq!(
        PicobootStatus::try_from(17),
        Ok(PicobootStatus::UnsupportedModification)
    );
    assert_eq!(PicobootStatus::try_from(18), Err(()));
    assert_eq!(PicobootStatus::try_from(u32::MAX), Err(()));
}

#[test]
fn getters_echo_the_frame() {
    let c = PicobootCmd::new(PicobootCmdId::Read, 8, 512, [1u8; 16]);
    assert_eq!(c.get_transfer_len(), 512);
    assert_eq!(c.get_cmd_id(), 0x84);
}
