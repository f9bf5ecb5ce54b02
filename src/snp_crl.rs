//! The AMD certificate revocation lists that are cached for SEV-SNP
//! attestation.

use vstd::prelude::*;

verus! {

/// The CRL of the Genoa processor family.
pub const GENOA: &'static str = "https://kdsintf.amd.com/vcek/v1/Genoa/crl";

/// The CRL of the Milan processor family.
pub const MILAN: &'static str = "https://kdsintf.amd.com/vcek/v1/Milan/crl";

/// Name of the cache file, in the SEV cache directory, that holds the lists.
pub const CRL_FILE: &'static str = "crls.der";

/// Fetches AMD's certificate revocation lists into the SEV cache directory.
pub struct CrlCache {}

impl CrlCache {
    /// The lists to fetch, in the order they are stored.
    pub fn urls(&self) -> (r: Vec<&'static str>)
        ensures
            r@ == seq![GENOA, MILAN],
    {
        let mut r: Vec<&'static str> = Vec::new();
        r.push(GENOA);
        r.push(MILAN);
        assert(r@ =~= seq![GENOA, MILAN]);
        r
    }
}

} // verus!
