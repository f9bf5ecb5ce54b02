use snp_launch::ioctl::{
    Command, CommandId, Finish, FirmwareError, Init2, LaunchFinish, LaunchStart, LaunchUpdate,
    PageType, Start, Update, COMMAND_SIZE, SEV_SNP_VMSA_SHA384,
};

#[test]
fn command_codes_are_fixed() {
    assert_eq!(CommandId::Init2.code(), 22);
    assert_eq!(CommandId::LaunchStart.code(), 100);
    assert_eq!(CommandId::LaunchUpdate.code(), 101);
    assert_eq!(CommandId::LaunchFinish.code(), 102);
}

#[test]
fn command_layout() {
    let cmd = Command::from(CommandId::LaunchUpdate, 7, 0x1122_3344_5566_7788);
    assert_eq!(cmd.error, 0);
    let bytes = cmd.to_bytes();
    assert_eq!(
        bytes,
        vec![
            101, 0, 0, 0, 0, 0, 0, 0, 0x88, 0x77, 0x66, 0x55, 0x44, 0x33, 0x22, 0x11, 0, 0, 0, 0,
            7, 0, 0, 0
        ]
    );
    assert_eq!(bytes.len(), COMMAND_SIZE);
}

#[test]
fn command_error_read_back() {
    let mut bytes = Command::from(CommandId::LaunchStart, 3, 0).to_bytes();
    bytes[16] = 0x12;
    bytes[17] = 0x01;
    assert_eq!(Command::error_of(&bytes), 0x112);
}

#[test]
fn encapsulate_prefers_firmware_code() {
    let mut cmd = Command::from(CommandId::LaunchStart, 3, 0);
    assert_eq!(cmd.encapsulate(16), FirmwareError::Io(16));
    cmd.error = 9;
    assert_eq!(cmd.encapsulate(16), FirmwareError::Firmware(9));
}

#[test]
fn init2_layout() {
    let init = Init2::new();
    assert_eq!(init.ghcb_version, 2);
    let bytes = init.to_bytes();
    assert_eq!(bytes.len(), 48);
    let mut expected = vec![0u8; 48];
    expected[12] = 2;
    assert_eq!(bytes, expected);
}

#[test]
fn launch_start_layout() {
    let mut gosvw = [0u8; 16];
    gosvw[0] = 0xaa;
    gosvw[15] = 0xbb;
    let start = LaunchStart::from(Start { policy: 0x30000, gosvw });
    assert_eq!(start.policy, 0x30000);
    assert_eq!(start.flags, 0);
    let bytes = start.to_bytes();
    assert_eq!(bytes.len(), 64);
    assert_eq!(&bytes[0..8], &[0, 0, 3, 0, 0, 0, 0, 0]);
    assert_eq!(bytes[8], 0xaa);
    assert_eq!(bytes[23], 0xbb);
    assert!(bytes[24..].iter().all(|b| *b == 0));
}

#[test]
fn launch_update_layout() {
    let up = LaunchUpdate::from(Update {
        start_gfn: 0x10,
        uaddr: 0x7f00_0000_1000,
        len: 4096,
        page_type: PageType::Cpuid,
    });
    assert!(!up.is_done());
    assert_eq!(up.page_type, 6);
    let bytes = up.to_bytes();
    assert_eq!(bytes.len(), 64);
    assert_eq!(&bytes[0..8], &[0x10, 0, 0, 0, 0, 0, 0, 0]);
    assert_eq!(&bytes[8..16], &[0, 0x10, 0, 0, 0, 0x7f, 0, 0]);
    assert_eq!(&bytes[16..24], &[0, 0x10, 0, 0, 0, 0, 0, 0]);
    assert_eq!(bytes[24], 6);
    assert!(bytes[25..].iter().all(|b| *b == 0));
}

#[test]
fn launch_update_done_when_empty() {
    let up = LaunchUpdate::from(Update {
        start_gfn: 0,
        uaddr: 0,
        len: 0,
        page_type: PageType::Normal,
    });
    assert!(up.is_done());
    assert_eq!(up.page_type, 1);
    assert_eq!(PageType::Vmsa.code(), 2);
    assert_eq!(PageType::Secrets.code(), 5);
}

#[test]
fn launch_finish_unsigned() {
    let fin = LaunchFinish::from(Finish {
        id_block_n_auth: None,
        auth_key_en: false,
        vcek_disabled: false,
        host_data: [0u8; 32],
    });
    assert_eq!(fin.id_block_uaddr, 0);
    assert_eq!(fin.id_auth_uaddr, 0);
    assert_eq!(fin.id_block_en, 0);
    let bytes = fin.to_bytes();
    assert_eq!(bytes, vec![0u8; 88]);
}

#[test]
fn launch_finish_signed() {
    let mut host_data = [0u8; 32];
    host_data[0] = 0x5a;
    let fin = LaunchFinish::from(Finish {
        id_block_n_auth: Some((0x1000, 0x2000)),
        auth_key_en: true,
        vcek_disabled: true,
        host_data,
    });
    assert_eq!(fin.id_block_en, 1);
    assert_eq!(fin.auth_key_en, 1);
    assert_eq!(fin.vcek_disabled, 1);
    let bytes = fin.to_bytes();
    assert_eq!(bytes.len(), 88);
    assert_eq!(&bytes[0..8], &[0, 0x10, 0, 0, 0, 0, 0, 0]);
    assert_eq!(&bytes[8..16], &[0, 0x20, 0, 0, 0, 0, 0, 0]);
    assert_eq!(&bytes[16..20], &[1, 1, 1, 0x5a]);
    assert!(bytes[51..].iter().all(|b| *b == 0));
}

#[test]
fn vmsa_digest_constant() {
    assert_eq!(SEV_SNP_VMSA_SHA384.len(), 48);
    assert_eq!(&SEV_SNP_VMSA_SHA384[..4], &[0x64, 0x65, 0x7e, 0x8c]);
    assert_eq!(&SEV_SNP_VMSA_SHA384[44..], &[0x91, 0x4d, 0x98, 0x5d]);
}
