use snp_launch::ioctl::FirmwareError;
use snp_launch::launch::{
    finish_command, Builder, LaunchError, LaunchState, Signature, UpdateStep, CPUID, PAGE_SIZE, SALLYPORT, SECRETS,
};

const BLOCK: u64 = 0x1000;

fn started() -> Builder {
    let mut b = Builder::new(BLOCK);
    assert_eq!(b.start(0x30000, Ok(())), Ok(()));
    b
}

/// Maps a region and answers its update with success.
fn map_ok(b: &mut Builder, uaddr: u64, len: u64, to: u64, with: u32) {
    let up = b.map(uaddr, len, to, with).unwrap().unwrap();
    assert_eq!(up.uaddr, uaddr);
    assert_eq!(up.len, len);
    assert_eq!(up.start_gfn, to >> 12);
    assert_eq!(b.update_result(Ok(())), Ok(UpdateStep::Done));
}

#[test]
fn launch_end_to_end() {
    let mut b = started();
    assert_eq!(b.state(), LaunchState::Started);
    assert_eq!(b.policy(), 0x30000);
    map_ok(&mut b, 0x10_0000, 4 * PAGE_SIZE, 0x0, 0);
    map_ok(&mut b, 0x20_0000, PAGE_SIZE, 0x4000, CPUID);
    map_ok(&mut b, 0x30_0000, PAGE_SIZE, 0x5000, SECRETS);
    map_ok(&mut b, 0x40_0000, 2 * BLOCK, 0x6000, SALLYPORT);
    assert_eq!(b.prepare_finish(&None), Ok(()));
    let keep = b.finish(Ok(())).ok().unwrap();
    assert_eq!(b.state(), LaunchState::Finished);
    assert_eq!(keep.sallyports.iter().filter(|s| s.is_some()).count(), 2);
    assert_eq!(keep.sallyports, vec![Some(0x40_0000), Some(0x40_1000)]);
    assert_eq!(keep.regions.len(), 4);
    let slots: Vec<u32> = keep.regions.iter().map(|r| r.slot).collect();
    assert_eq!(slots, vec![0, 1, 2, 3]);
    assert_eq!(keep.sallyport_block_size, BLOCK);
}

#[test]
fn update_rejected_before_start() {
    let mut b = Builder::new(BLOCK);
    assert_eq!(b.map(0x1000, PAGE_SIZE, 0, 0), Err(LaunchError::OutOfOrder));
    assert_eq!(b.update_result(Ok(())), Err(LaunchError::OutOfOrder));
    assert_eq!(b.finish(Ok(())).err(), Some(LaunchError::OutOfOrder));
}

#[test]
fn update_rejected_after_finish() {
    let mut b = started();
    map_ok(&mut b, 0x40_0000, BLOCK, 0, SALLYPORT);
    assert!(b.finish(Ok(())).is_ok());
    assert_eq!(b.map(0x1000, PAGE_SIZE, 0x10000, 0), Err(LaunchError::OutOfOrder));
    assert_eq!(b.finish(Ok(())).err(), Some(LaunchError::OutOfOrder));
    assert_eq!(b.start(1, Ok(())), Err(LaunchError::OutOfOrder));
}

#[test]
fn start_refused_by_hardware() {
    let mut b = Builder::new(BLOCK);
    let e = FirmwareError::Firmware(7);
    assert_eq!(b.start(1, Err(e)), Err(LaunchError::HardwareRejected(e)));
    assert_eq!(b.state(), LaunchState::Failed);
    assert_eq!(b.start(1, Ok(())), Err(LaunchError::OutOfOrder));
    assert_eq!(b.map(0x1000, PAGE_SIZE, 0, 0), Err(LaunchError::OutOfOrder));
}

#[test]
fn finish_without_sallyport() {
    let mut b = started();
    map_ok(&mut b, 0x10_0000, PAGE_SIZE, 0, 0);
    assert_eq!(b.prepare_finish(&None), Err(LaunchError::NoSallyport));
    assert_eq!(b.state(), LaunchState::Failed);
    assert_eq!(b.finish(Ok(())).err(), Some(LaunchError::OutOfOrder));
    assert_eq!(b.map(0x30_0000, PAGE_SIZE, 0x8000, 0), Err(LaunchError::OutOfOrder));

    // A sallyport region smaller than one block holds no block.
    let mut b = started();
    map_ok(&mut b, 0x20_0000, BLOCK / 2, 0x1000, SALLYPORT);
    assert_eq!(b.finish(Ok(())).err(), Some(LaunchError::NoSallyport));
    assert_eq!(b.state(), LaunchState::Failed);
    assert_eq!(b.finish(Ok(())).err(), Some(LaunchError::OutOfOrder));
}

#[test]
fn single_page_regions_must_be_one_page() {
    let mut b = started();
    assert_eq!(b.map(0x1000, 2 * PAGE_SIZE, 0, CPUID), Err(LaunchError::BadPageSize));
    assert_eq!(b.map(0x1000, PAGE_SIZE / 2, 0, SECRETS), Err(LaunchError::BadPageSize));
    assert!(b.regions().is_empty());
    assert!(b.map(0x1000, PAGE_SIZE, 0, SECRETS).unwrap().is_some());
}

#[test]
fn cpuid_update_retried_once() {
    let mut b = started();
    b.map(0x1000, PAGE_SIZE, 0, CPUID).unwrap().unwrap();
    let e1 = FirmwareError::Firmware(1);
    let e2 = FirmwareError::Io(5);
    assert_eq!(b.update_result(Err(e1)), Ok(UpdateStep::Retry));
    assert_eq!(b.update_result(Err(e2)), Err(LaunchError::HardwareRejected(e2)));
    assert_eq!(b.update_result(Err(e2)), Err(LaunchError::OutOfOrder));
    assert!(b.regions().is_empty());
    assert_eq!(b.state(), LaunchState::Failed);
    assert_eq!(b.map(0x1000, PAGE_SIZE, 0, CPUID), Err(LaunchError::OutOfOrder));

    let mut b = started();
    b.map(0x1000, PAGE_SIZE, 0, CPUID).unwrap().unwrap();
    assert_eq!(b.update_result(Err(e1)), Ok(UpdateStep::Retry));
    assert_eq!(b.update_result(Ok(())), Ok(UpdateStep::Done));
    assert_eq!(b.regions().len(), 1);
}

#[test]
fn normal_update_failure_is_final() {
    let mut b = started();
    b.map(0x1000, PAGE_SIZE, 0, 0).unwrap().unwrap();
    let e = FirmwareError::Firmware(3);
    assert_eq!(b.update_result(Err(e)), Err(LaunchError::HardwareRejected(e)));
    assert!(b.regions().is_empty());
    assert_eq!(b.state(), LaunchState::Failed);
    assert_eq!(b.map(0x2000, PAGE_SIZE, 0x1000, SALLYPORT), Err(LaunchError::OutOfOrder));
    assert_eq!(b.prepare_finish(&None), Err(LaunchError::OutOfOrder));
}

#[test]
fn empty_region_is_ignored() {
    let mut b = started();
    assert_eq!(b.map(0x1000, 0, 0, SALLYPORT | CPUID), Ok(None));
    assert!(b.regions().is_empty());
    assert!(b.sallyports().is_empty());
    map_ok(&mut b, 0x1000, PAGE_SIZE, 0, 0);
    assert_eq!(b.regions()[0].slot, 0);
}

#[test]
fn overlapping_region_is_refused() {
    let mut b = started();
    map_ok(&mut b, 0x10_0000, 2 * PAGE_SIZE, 0x2000, 0);
    assert_eq!(b.map(0x20_0000, PAGE_SIZE, 0x3000, 0), Err(LaunchError::Overlap));
    assert_eq!(b.map(0x20_0000, 2 * PAGE_SIZE, 0x1000, 0), Err(LaunchError::Overlap));
    map_ok(&mut b, 0x20_0000, 2 * PAGE_SIZE, 0x0, 0);
    map_ok(&mut b, 0x30_0000, PAGE_SIZE, 0x4000, 0);
    let slots: Vec<u32> = b.regions().iter().map(|r| r.slot).collect();
    assert_eq!(slots, vec![0, 1, 2]);
}

#[test]
fn sallyport_table_order() {
    let mut b = started();
    map_ok(&mut b, 0x10_0000, PAGE_SIZE, 0x10000, 0);
    map_ok(&mut b, 0x50_0000, 3 * BLOCK + 5, 0x0, SALLYPORT);
    map_ok(&mut b, 0x20_0000, PAGE_SIZE, 0x20000, 0);
    assert_eq!(
        b.sallyports().clone(),
        vec![Some(0x50_0000), Some(0x50_1000), Some(0x50_2000)]
    );
}

#[test]
fn signature_sizes_checked() {
    let with_sallyport = || {
        let mut b = started();
        map_ok(&mut b, 0x40_0000, BLOCK, 0, SALLYPORT);
        b
    };
    let mut b = with_sallyport();
    let bad = Some(Signature { id_block: vec![0; 95], id_auth: vec![0; 4096] });
    assert_eq!(b.prepare_finish(&bad), Err(LaunchError::BadSignature));
    assert_eq!(b.state(), LaunchState::Failed);
    assert_eq!(b.finish(Ok(())).err(), Some(LaunchError::OutOfOrder));
    let mut b = with_sallyport();
    let bad = Some(Signature { id_block: vec![0; 96], id_auth: vec![] });
    assert_eq!(b.prepare_finish(&bad), Err(LaunchError::BadSignature));
    let mut b = with_sallyport();
    let good = Some(Signature { id_block: vec![0; 96], id_auth: vec![0; 4096] });
    assert_eq!(b.prepare_finish(&good), Ok(()));
}

#[test]
fn finish_refused_by_hardware() {
    let mut b = started();
    map_ok(&mut b, 0x40_0000, BLOCK, 0, SALLYPORT);
    let e = FirmwareError::Io(22);
    assert_eq!(b.finish(Err(e)).err(), Some(LaunchError::HardwareRejected(e)));
    assert_eq!(b.state(), LaunchState::Failed);
    assert_eq!(b.finish(Ok(())).err(), Some(LaunchError::OutOfOrder));
    assert_eq!(b.prepare_finish(&None), Err(LaunchError::OutOfOrder));
    assert_eq!(b.map(0x1000, PAGE_SIZE, 0x10000, 0), Err(LaunchError::OutOfOrder));
}

#[test]
fn finish_command_signed_and_unsigned() {
    let signed = finish_command(Some((0x1000, 0x2000)));
    assert_eq!(signed.id_block_n_auth, Some((0x1000, 0x2000)));
    assert!(signed.auth_key_en);
    assert!(!signed.vcek_disabled);
    assert_eq!(signed.host_data, [0u8; 32]);
    let unsigned = finish_command(None);
    assert_eq!(unsigned.id_block_n_auth, None);
    assert!(!unsigned.auth_key_en);
    assert!(!unsigned.vcek_disabled);
    assert_eq!(unsigned.host_data, [0u8; 32]);
}
