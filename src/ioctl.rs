//! Wire structures for the KVM SEV-SNP guest management ioctls.
//!
//! Each structure is encoded explicitly, field by field, into the byte layout
//! that the kernel expects, reserved fields included.

use vstd::prelude::*;
use crate::wire::{le_bytes, zeros, from_le, push_le, push_zeros, push_all, read_le};

verus! {

/// Sub-command number of the platform initialisation command.
pub const INIT2_ID: u32 = 22;
/// Sub-command number of the launch-start command.
pub const LAUNCH_START_ID: u32 = 100;
/// Sub-command number of the launch-update command.
pub const LAUNCH_UPDATE_ID: u32 = 101;
/// Sub-command number of the launch-finish command.
pub const LAUNCH_FINISH_ID: u32 = 102;

/// Size in bytes of the opaque host data handed to launch finish.
pub const KVM_SEV_SNP_FINISH_DATA_SIZE: usize = 32;

/// Encoded size of a [`Command`].
pub const COMMAND_SIZE: usize = 24;

/// The four sub-commands of the encrypted-memory ioctl.
#[derive(Clone, Copy, Debug, PartialEq, Eq, Structural)]
pub enum CommandId {
    Init2,
    LaunchStart,
    LaunchUpdate,
    LaunchFinish,
}

impl CommandId {
    pub open spec fn spec_code(self) -> u32 {
        match self {
            CommandId::Init2 => INIT2_ID,
            CommandId::LaunchStart => LAUNCH_START_ID,
            CommandId::LaunchUpdate => LAUNCH_UPDATE_ID,
            CommandId::LaunchFinish => LAUNCH_FINISH_ID,
        }
    }

    /// The number the kernel assigns to this sub-command.
    pub fn code(self) -> (r: u32)
        ensures
            r == self.spec_code(),
    {
        match self {
            CommandId::Init2 => INIT2_ID,
            CommandId::LaunchStart => LAUNCH_START_ID,
            CommandId::LaunchUpdate => LAUNCH_UPDATE_ID,
            CommandId::LaunchFinish => LAUNCH_FINISH_ID,
        }
    }
}

/// An error of a launch operation: the firmware's own code when it reported
/// one, otherwise the operating system's error number.
#[derive(Clone, Copy, Debug, PartialEq, Eq, Structural)]
pub enum FirmwareError {
    Io(i32),
    Firmware(u32),
}

/// The generic SEV command envelope.
#[derive(Clone, Copy, Debug, PartialEq, Eq, Structural)]
pub struct Command {
    pub code: u32,
    pub data: u64,
    pub error: u32,
    pub sev_fd: u32,
}

impl Command {
    /// The envelope for sub-command `id`, whose structure lies at address
    /// `data`, addressed to the SEV device `sev_fd`.
    pub fn from(id: CommandId, sev_fd: u32, data: u64) -> (r: Command)
        ensures
            r == (Command { code: id.spec_code(), data, error: 0, sev_fd }),
    {
        Command { code: id.code(), data, error: 0, sev_fd }
    }

    /// The error of a failed ioctl: the firmware's code when it wrote one,
    /// otherwise the operating system's error `os_error`.
    pub fn encapsulate(&self, os_error: i32) -> (r: FirmwareError)
        ensures
            self.error == 0 ==> r == FirmwareError::Io(os_error),
            self.error != 0 ==> r == FirmwareError::Firmware(self.error),
    {
        match self.error {
            0 => FirmwareError::Io(os_error),
            _ => FirmwareError::Firmware(self.error),
        }
    }

    pub open spec fn spec_bytes(self) -> Seq<u8> {
        le_bytes(self.code as nat, 4) + zeros(4) + le_bytes(self.data as nat, 8) + le_bytes(
            self.error as nat,
            4,
        ) + le_bytes(self.sev_fd as nat, 4)
    }

    /// The envelope's 24-byte layout: code, 4 reserved bytes, data, error, fd.
    pub fn to_bytes(&self) -> (r: Vec<u8>)
        ensures
            r@ == self.spec_bytes(),
    {
        let mut out: Vec<u8> = Vec::new();
        push_le(&mut out, self.code as u64, 4);
        push_zeros(&mut out, 4);
        push_le(&mut out, self.data, 8);
        push_le(&mut out, self.error as u64, 4);
        push_le(&mut out, self.sev_fd as u64, 4);
        out
    }

    /// The error field of an encoded envelope, as the kernel left it.
    pub fn error_of(bytes: &[u8]) -> (r: u32)
        requires
            bytes@.len() == COMMAND_SIZE,
        ensures
            r as nat == from_le(bytes@.subrange(16, 20)),
    {
        let e = read_le(bytes, 16, 4);
        proof {
            lemma_from_le_bound(bytes@.subrange(16, 20));
        }
        e as u32
    }
}

proof fn lemma_from_le_bound(s: Seq<u8>)
    requires
        s.len() == 4,
    ensures
        from_le(s) < 0x1_0000_0000,
{
    reveal_with_fuel(from_le, 5);
    assert(s.drop_first().drop_first().drop_first().drop_first().len() == 0);
}

/// Initialises the SEV-SNP platform in KVM.
#[derive(Clone, Copy, Debug, PartialEq, Eq, Structural)]
pub struct Init2 {
    /// Initial value of the features field in the VMSA.
    pub vmsa_features: u64,
    /// Reserved; always zero.
    pub flags: u32,
    /// Highest GHCB protocol version that the guest may use.
    pub ghcb_version: u16,
}

impl Init2 {
    /// The initialisation command: no VMSA features, GHCB version 2.
    pub fn new() -> (r: Init2)
        ensures
            r == (Init2 { vmsa_features: 0, flags: 0, ghcb_version: 2 }),
    {
        Init2 { vmsa_features: 0, flags: 0, ghcb_version: 2 }
    }

    pub open spec fn spec_bytes(self) -> Seq<u8> {
        le_bytes(self.vmsa_features as nat, 8) + le_bytes(self.flags as nat, 4) + le_bytes(
            self.ghcb_version as nat,
            2,
        ) + zeros(34)
    }

    /// The packed 48-byte layout.
    pub fn to_bytes(&self) -> (r: Vec<u8>)
        ensures
            r@ == self.spec_bytes(),
    {
        let mut out: Vec<u8> = Vec::new();
        push_le(&mut out, self.vmsa_features, 8);
        push_le(&mut out, self.flags as u64, 4);
        push_le(&mut out, self.ghcb_version as u64, 2);
        push_zeros(&mut out, 34);
        out
    }
}

/// What a guest launch starts with.
#[derive(Clone, Copy, Debug)]
pub struct Start {
    /// Guest policy.
    pub policy: u64,
    /// Hypervisor-defined guest OS visible workarounds.
    pub gosvw: [u8; 16],
}

/// Starts the flow that launches a guest.
#[derive(Clone, Copy, Debug)]
pub struct LaunchStart {
    pub policy: u64,
    pub gosvw: [u8; 16],
    pub flags: u16,
}

impl LaunchStart {
    /// The launch-start command for `start`, with no flags.
    pub fn from(start: Start) -> (r: LaunchStart)
        ensures
            r == (LaunchStart { policy: start.policy, gosvw: start.gosvw, flags: 0 }),
    {
        LaunchStart { policy: start.policy, gosvw: start.gosvw, flags: 0 }
    }

    pub open spec fn spec_bytes(self) -> Seq<u8> {
        le_bytes(self.policy as nat, 8) + self.gosvw@ + le_bytes(self.flags as nat, 2) + zeros(
            38,
        )
    }

    /// The 64-byte layout: policy, workarounds, flags, reserved.
    pub fn to_bytes(&self) -> (r: Vec<u8>)
        ensures
            r@ == self.spec_bytes(),
    {
        let mut out: Vec<u8> = Vec::new();
        push_le(&mut out, self.policy, 8);
        push_all(&mut out, &self.gosvw);
        push_le(&mut out, self.flags as u64, 2);
        push_zeros(&mut out, 38);
        out
    }
}

/// How the firmware measures and encrypts a page inserted at launch.
#[derive(Clone, Copy, Debug, PartialEq, Eq, Structural)]
pub enum PageType {
    Normal,
    Vmsa,
    Secrets,
    Cpuid,
}

impl PageType {
    pub open spec fn spec_code(self) -> u8 {
        match self {
            PageType::Normal => 1,
            PageType::Vmsa => 2,
            PageType::Secrets => 5,
            PageType::Cpuid => 6,
        }
    }

    /// The firmware's encoding of the page type.
    pub fn code(self) -> (r: u8)
        ensures
            r == self.spec_code(),
    {
        match self {
            PageType::Normal => 1,
            PageType::Vmsa => 2,
            PageType::Secrets => 5,
            PageType::Cpuid => 6,
        }
    }
}

/// A run of host memory to insert into the guest at a guest frame.
#[derive(Clone, Copy, Debug, PartialEq, Eq, Structural)]
pub struct Update {
    /// Guest frame number of the first page.
    pub start_gfn: u64,
    /// Host address of the bytes.
    pub uaddr: u64,
    /// Number of bytes.
    pub len: u64,
    pub page_type: PageType,
}

/// Inserts pages into the guest physical address space.
#[derive(Clone, Copy, Debug, PartialEq, Eq, Structural)]
pub struct LaunchUpdate {
    pub start_gfn: u64,
    pub uaddr: u64,
    pub len: u64,
    pub page_type: u8,
    pub flags: u16,
}

impl LaunchUpdate {
    /// The update command for `update`.
    pub fn from(update: Update) -> (r: LaunchUpdate)
        ensures
            r == (LaunchUpdate {
                start_gfn: update.start_gfn,
                uaddr: update.uaddr,
                len: update.len,
                page_type: update.page_type.spec_code(),
                flags: 0,
            }),
    {
        LaunchUpdate {
            start_gfn: update.start_gfn,
            uaddr: update.uaddr,
            len: update.len,
            page_type: update.page_type.code(),
            flags: 0,
        }
    }

    /// Whether the kernel has consumed every byte of the update.
    pub fn is_done(&self) -> (r: bool)
        ensures
            r == (self.len == 0),
    {
        self.len == 0
    }

    pub open spec fn spec_bytes(self) -> Seq<u8> {
        le_bytes(self.start_gfn as nat, 8) + le_bytes(self.uaddr as nat, 8) + le_bytes(
            self.len as nat,
            8,
        ) + le_bytes(self.page_type as nat, 1) + zeros(1) + le_bytes(self.flags as nat, 2)
            + zeros(36)
    }

    /// The 64-byte layout: frame, address, length, type, flags, reserved.
    pub fn to_bytes(&self) -> (r: Vec<u8>)
        ensures
            r@ == self.spec_bytes(),
    {
        let mut out: Vec<u8> = Vec::new();
        push_le(&mut out, self.start_gfn, 8);
        push_le(&mut out, self.uaddr, 8);
        push_le(&mut out, self.len, 8);
        push_le(&mut out, self.page_type as u64, 1);
        push_zeros(&mut out, 1);
        push_le(&mut out, self.flags as u64, 2);
        push_zeros(&mut out, 36);
        out
    }
}

/// What a guest launch finishes with.
#[derive(Clone, Copy, Debug)]
pub struct Finish {
    /// Host addresses of the ID block and of its authentication information.
    pub id_block_n_auth: Option<(u64, u64)>,
    pub auth_key_en: bool,
    pub vcek_disabled: bool,
    pub host_data: [u8; 32],
}

/// Completes the guest launch flow.
#[derive(Clone, Copy, Debug)]
pub struct LaunchFinish {
    pub id_block_uaddr: u64,
    pub id_auth_uaddr: u64,
    pub id_block_en: u8,
    pub auth_key_en: u8,
    pub vcek_disabled: u8,
    pub host_data: [u8; 32],
    pub flags: u16,
}

pub open spec fn flag(b: bool) -> u8 {
    if b {
        1
    } else {
        0
    }
}

impl LaunchFinish {
    /// The finish command for `finish`: the ID block is enabled exactly when
    /// its addresses are given, and its addresses are zero otherwise.
    pub fn from(finish: Finish) -> (r: LaunchFinish)
        ensures
            r.id_block_uaddr == (match finish.id_block_n_auth {
                Some(p) => p.0,
                None => 0,
            }),
            r.id_auth_uaddr == (match finish.id_block_n_auth {
                Some(p) => p.1,
                None => 0,
            }),
            r.id_block_en == flag(finish.id_block_n_auth.is_some()),
            r.auth_key_en == flag(finish.auth_key_en),
            r.vcek_disabled == flag(finish.vcek_disabled),
            r.host_data == finish.host_data,
            r.flags == 0,
    {
        let (id_block_uaddr, id_auth_uaddr, id_block_en) = match finish.id_block_n_auth {
            Some((block, auth)) => (block, auth, 1u8),
            None => (0u64, 0u64, 0u8),
        };
        LaunchFinish {
            id_block_uaddr,
            id_auth_uaddr,
            id_block_en,
            auth_key_en: if finish.auth_key_en { 1 } else { 0 },
            vcek_disabled: if finish.vcek_disabled { 1 } else { 0 },
            host_data: finish.host_data,
            flags: 0,
        }
    }

    pub open spec fn spec_bytes(self) -> Seq<u8> {
        le_bytes(self.id_block_uaddr as nat, 8) + le_bytes(self.id_auth_uaddr as nat, 8)
            + le_bytes(self.id_block_en as nat, 1) + le_bytes(self.auth_key_en as nat, 1)
            + le_bytes(self.vcek_disabled as nat, 1) + self.host_data@ + zeros(3) + le_bytes(
            self.flags as nat,
            2,
        ) + zeros(32)
    }

    /// The 88-byte layout: addresses, three flag bytes, host data, reserved,
    /// flags, reserved.
    pub fn to_bytes(&self) -> (r: Vec<u8>)
        ensures
            r@ == self.spec_bytes(),
    {
        let mut out: Vec<u8> = Vec::new();
        push_le(&mut out, self.id_block_uaddr, 8);
        push_le(&mut out, self.id_auth_uaddr, 8);
        push_le(&mut out, self.id_block_en as u64, 1);
        push_le(&mut out, self.auth_key_en as u64, 1);
        push_le(&mut out, self.vcek_disabled as u64, 1);
        push_all(&mut out, &self.host_data);
        push_zeros(&mut out, 3);
        push_le(&mut out, self.flags as u64, 2);
        push_zeros(&mut out, 32);
        out
    }
}


/// SHA-384 of the VMSA page that Linux KVM measures in the final launch
/// update for an unmodified vCPU. It changes with the kernel's VMSA
/// contents; a launch-finish command that fixed the reset vector would make
/// it stable.
pub const SEV_SNP_VMSA_SHA384: [u8; 48] = [
    0x64, 0x65, 0x7e, 0x8c, 0xbf, 0xcb, 0x82, 0x71, 0x16, 0xbf, 0x6e, 0x1b, 0x2d, 0xcc, 0x27, 0x49,
    0x18, 0xe6, 0xa2, 0x17, 0xb7, 0x59, 0x97, 0xdf, 0x16, 0x45, 0x52, 0x5e, 0x71, 0x59, 0x58, 0x13,
    0xf8, 0x99, 0x13, 0xc4, 0x60, 0x62, 0x1d, 0xb2, 0xa2, 0xa2, 0xe2, 0xbc, 0x91, 0x4d, 0x98, 0x5d,
];

} // verus!
