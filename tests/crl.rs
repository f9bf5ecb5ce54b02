use snp_launch::{sgx_crl, snp_crl};

#[test]
fn crl_sources() {
    let amd = snp_crl::CrlCache {}.urls();
    assert_eq!(amd, vec![snp_crl::GENOA, snp_crl::MILAN]);
    assert!(amd[0].ends_with("/Genoa/crl"));
    let intel = sgx_crl::CrlCache {}.urls();
    assert_eq!(intel.len(), 3);
    assert!(intel[1].contains("ca=processor"));
    assert!(intel[2].contains("ca=platform"));
    assert_eq!(snp_crl::CRL_FILE, "crls.der");
}
