//! The Intel certificate revocation lists that are cached for SGX
//! attestation.

use vstd::prelude::*;

verus! {

/// The CRL of Intel's SGX root certificate authority.
pub const CERT_CRL: &'static str = "https://certificates.trustedservices.intel.com/IntelSGXRootCA.der";

/// The CRL of the processor PCK certificate authority.
pub const PROCESSOR_CRL: &'static str =
    "https://api.trustedservices.intel.com/sgx/certification/v4/pckcrl?ca=processor&encoding=der";

/// The CRL of the platform PCK certificate authority.
pub const PLATFORM_CRL: &'static str =
    "https://api.trustedservices.intel.com/sgx/certification/v4/pckcrl?ca=platform&encoding=der";

/// Name of the cache file, in the SGX cache directory, that holds the lists.
pub const CRL_FILE: &'static str = "crls.der";

/// Fetches Intel's certificate revocation lists into the SGX cache directory.
pub struct CrlCache {}

impl CrlCache {
    /// The lists to fetch, in the order they are stored.
    pub fn urls(&self) -> (r: Vec<&'static str>)
        ensures
            r@ == seq![CERT_CRL, PROCESSOR_CRL, PLATFORM_CRL],
    {
        let mut r: Vec<&'static str> = Vec::new();
        r.push(CERT_CRL);
        r.push(PROCESSOR_CRL);
        r.push(PLATFORM_CRL);
        assert(r@ =~= seq![CERT_CRL, PROCESSOR_CRL, PLATFORM_CRL]);
        r
    }
}

} // verus!
