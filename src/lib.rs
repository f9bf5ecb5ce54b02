//! Launching AMD SEV-SNP guests under KVM: the ioctl command layouts, the
//! launch state machine with its region and slot bookkeeping, the retry
//! policy around transient setup failures, and the sallyport shared-memory
//! syscall proxy between guest and host.

mod wire;
pub mod ioctl;
pub mod retry;
pub mod launch;
pub mod sallyport;
pub mod fdenv;
pub mod sgx_crl;
pub mod snp_crl;
pub mod cpuid;
