//! The SEV-SNP launch state machine, with the bookkeeping of the guest
//! memory regions, their KVM slots and the sallyport address table.
//!
//! The machine decides; the caller issues the hardware operations and hands
//! their outcome back:
//! - [`Builder::start`] takes the answer to a `LaunchStart` command;
//! - [`Builder::map`] checks and classifies a region and gives the
//!   `LaunchUpdate` command to issue; [`Builder::update_result`] takes the
//!   answer and says whether to issue it again;
//! - [`Builder::prepare_finish`] checks that the launch may finish, and
//!   [`Builder::finish`] takes the answer to `LaunchFinish` and hands over
//!   the launched guest.

use vstd::prelude::*;
use crate::ioctl::{Finish, FirmwareError, LaunchUpdate, PageType, Update};

verus! {

/// Size of a hardware page.
pub const PAGE_SIZE: u64 = 4096;

/// Segment flag: the region holds sallyport blocks.
pub const SALLYPORT: u32 = 0x0040_0000;

/// Segment flag: the region is the CPUID page.
pub const CPUID: u32 = 0x0080_0000;

/// Segment flag: the region is the secrets page.
pub const SECRETS: u32 = 0x0100_0000;

/// Size in bytes of an ID block.
pub const ID_BLOCK_SIZE: usize = 96;

/// Size in bytes of the authentication information of an ID block.
pub const ID_AUTH_SIZE: usize = 4096;

/// The phase of a launch.
#[derive(Clone, Copy, Debug, PartialEq, Eq, Structural)]
pub enum LaunchState {
    Uninitialized,
    Started,
    Finished,
    /// The hardware refused a step; the launch is over.
    Failed,
}

/// Why a launch step was refused.
#[derive(Clone, Copy, Debug, PartialEq, Eq, Structural)]
pub enum LaunchError {
    /// The step is not valid in the current phase.
    OutOfOrder,
    /// A CPUID or secrets region is not exactly one page.
    BadPageSize,
    /// The region overlaps a region already mapped.
    Overlap,
    /// Every slot number is taken.
    SlotsExhausted,
    /// The launch would finish without any sallyport block.
    NoSallyport,
    /// A signature blob does not have its exact size.
    BadSignature,
    /// The hardware refused the operation.
    HardwareRejected(FirmwareError),
}

/// A region of guest physical memory backed by host pages.
#[derive(Clone, Copy, Debug, PartialEq, Eq, Structural)]
pub struct Region {
    /// KVM memory slot.
    pub slot: u32,
    /// Guest physical address of the first byte.
    pub gpa: u64,
    /// Size in bytes.
    pub len: u64,
    /// Host address of the backing pages.
    pub uaddr: u64,
    /// How the pages were measured.
    pub page_type: PageType,
}

/// Whether the guest ranges of `a` and `b` share no byte.
pub open spec fn disjoint(a: Region, b: Region) -> bool {
    a.gpa + a.len <= b.gpa || b.gpa + b.len <= a.gpa
}

/// How a region mapped with segment flags `with` is measured.
pub open spec fn page_type_of(with: u32) -> PageType {
    if with & CPUID != 0 {
        PageType::Cpuid
    } else if with & SECRETS != 0 {
        PageType::Secrets
    } else {
        PageType::Normal
    }
}

/// The sallyport table entries of a region at host address `addr` of `len`
/// bytes: one per whole block of `b` bytes, in ascending address order.
pub open spec fn sallyport_blocks(addr: u64, len: u64, b: u64) -> Seq<Option<u64>>
    decreases len,
{
    if b == 0 || len < b || addr + b > u64::MAX {
        seq![]
    } else {
        seq![Some(addr)] + sallyport_blocks((addr + b) as u64, (len - b) as u64, b)
    }
}

/// The content of a [`Builder`].
pub struct BuilderModel {
    pub state: LaunchState,
    pub policy: u64,
    pub block_size: u64,
    pub regions: Seq<Region>,
    pub sallyports: Seq<Option<u64>>,
    /// The region whose update is being issued.
    pub pending: Option<Region>,
    /// Whether the pending update has been issued again already.
    pub retried: bool,
}

impl BuilderModel {
    pub open spec fn region_ok(self, r: Region) -> bool {
        r.len > 0 && r.gpa + r.len <= u64::MAX && r.uaddr + r.len <= u64::MAX
    }

    pub open spec fn wf(self) -> bool {
        &&& self.block_size > 0
        &&& self.regions.len() <= u32::MAX
        &&& forall|i: int|
            0 <= i < self.regions.len() ==> (#[trigger] self.regions[i]).slot == i
                && self.region_ok(self.regions[i])
        &&& forall|i: int, j: int|
            0 <= i < j < self.regions.len() ==> disjoint(
                #[trigger] self.regions[i],
                #[trigger] self.regions[j],
            )
        &&& match self.pending {
            Some(p) => {
                &&& self.state == LaunchState::Started
                &&& p.slot == self.regions.len()
                &&& self.regions.len() < u32::MAX
                &&& self.region_ok(p)
                &&& forall|i: int|
                    0 <= i < self.regions.len() ==> disjoint(#[trigger] self.regions[i], p)
            },
            None => !self.retried,
        }
    }

    /// The region that a mapping of `len` bytes at host address `uaddr` to
    /// guest address `to` becomes.
    pub open spec fn new_region(self, uaddr: u64, len: u64, to: u64, with: u32) -> Region {
        Region {
            slot: self.regions.len() as u32,
            gpa: to,
            len,
            uaddr,
            page_type: page_type_of(with),
        }
    }

    pub open spec fn overlaps(self, r: Region) -> bool {
        exists|i: int| 0 <= i < self.regions.len() && !disjoint(#[trigger] self.regions[i], r)
    }

    /// What mapping a region answers.
    pub open spec fn map_result(self, uaddr: u64, len: u64, to: u64, with: u32) -> Result<
        Option<LaunchUpdate>,
        LaunchError,
    > {
        let r = self.new_region(uaddr, len, to, with);
        if self.state != LaunchState::Started || self.pending.is_some() {
            Err(LaunchError::OutOfOrder)
        } else if len == 0 {
            Ok(None)
        } else if r.page_type != PageType::Normal && len != PAGE_SIZE {
            Err(LaunchError::BadPageSize)
        } else if self.overlaps(r) {
            Err(LaunchError::Overlap)
        } else if self.regions.len() >= u32::MAX {
            Err(LaunchError::SlotsExhausted)
        } else {
            Ok(
                Some(
                    LaunchUpdate {
                        start_gfn: to / PAGE_SIZE,
                        uaddr,
                        len,
                        page_type: r.page_type.spec_code(),
                        flags: 0,
                    },
                ),
            )
        }
    }

    /// The content after mapping a region.
    pub open spec fn after_map(self, uaddr: u64, len: u64, to: u64, with: u32) -> BuilderModel {
        match self.map_result(uaddr, len, to, with) {
            Ok(Some(_)) => BuilderModel {
                sallyports: if with & SALLYPORT != 0 {
                    self.sallyports + sallyport_blocks(uaddr, len, self.block_size)
                } else {
                    self.sallyports
                },
                pending: Some(self.new_region(uaddr, len, to, with)),
                retried: false,
                ..self
            },
            _ => self,
        }
    }

    /// What the outcome of the pending update answers.
    pub open spec fn update_step(self, outcome: Result<(), FirmwareError>) -> Result<
        UpdateStep,
        LaunchError,
    > {
        match self.pending {
            None => Err(LaunchError::OutOfOrder),
            Some(p) => match outcome {
                Ok(()) => Ok(UpdateStep::Done),
                Err(e) => if p.page_type == PageType::Cpuid && !self.retried {
                    Ok(UpdateStep::Retry)
                } else {
                    Err(LaunchError::HardwareRejected(e))
                },
            },
        }
    }

    /// The content after the outcome of the pending update.
    pub open spec fn after_update(self, outcome: Result<(), FirmwareError>) -> BuilderModel {
        match self.pending {
            None => self,
            Some(p) => match self.update_step(outcome) {
                Ok(UpdateStep::Done) => BuilderModel {
                    regions: self.regions.push(p),
                    pending: None,
                    retried: false,
                    ..self
                },
                Ok(UpdateStep::Retry) => BuilderModel { retried: true, ..self },
                Err(_) => BuilderModel {
                    state: LaunchState::Failed,
                    pending: None,
                    retried: false,
                    ..self
                },
            },
        }
    }

    /// Whether the launch may finish now, and if not, why.
    pub open spec fn finish_check(self) -> Result<(), LaunchError> {
        if self.state != LaunchState::Started || self.pending.is_some() {
            Err(LaunchError::OutOfOrder)
        } else if self.sallyports.len() == 0 {
            Err(LaunchError::NoSallyport)
        } else {
            Ok(())
        }
    }
}

/// What to do after the outcome of an update.
#[derive(Clone, Copy, Debug, PartialEq, Eq, Structural)]
pub enum UpdateStep {
    /// The region is in the guest.
    Done,
    /// Issue the same update once more.
    Retry,
}

/// The ID block and its authentication information that sign a guest.
pub struct Signature {
    pub id_block: Vec<u8>,
    pub id_auth: Vec<u8>,
}

/// A launched guest: its regions and its sallyport address table.
pub struct Keep {
    pub regions: Vec<Region>,
    pub sallyport_block_size: u64,
    pub sallyports: Vec<Option<u64>>,
}

/// Builds the memory of an SEV-SNP guest through its launch.
pub struct Builder {
    state: LaunchState,
    policy: u64,
    block_size: u64,
    regions: Vec<Region>,
    sallyports: Vec<Option<u64>>,
    pending: Option<Region>,
    retried: bool,
}

impl View for Builder {
    type V = BuilderModel;

    closed spec fn view(&self) -> BuilderModel {
        BuilderModel {
            state: self.state,
            policy: self.policy,
            block_size: self.block_size,
            regions: self.regions@,
            sallyports: self.sallyports@,
            pending: self.pending,
            retried: self.retried,
        }
    }
}


/// Appends to `table` the address of each whole block of `b` bytes in the
/// `len` bytes at host address `addr`, in ascending order.
fn push_sallyports(table: &mut Vec<Option<u64>>, addr: u64, len: u64, b: u64)
    requires
        b > 0,
        addr + len <= u64::MAX,
    ensures
        final(table)@ == old(table)@ + sallyport_blocks(addr, len, b),
{
    let mut a: u64 = addr;
    let mut rest: u64 = len;
    while rest >= b
        invariant
            b > 0,
            a + rest <= u64::MAX,
            old(table)@ + sallyport_blocks(addr, len, b) == table@ + sallyport_blocks(a, rest, b),
        decreases rest,
    {
        let ghost before = table@;
        table.push(Some(a));
        assert(before + sallyport_blocks(a, rest, b) =~= table@ + sallyport_blocks(
            (a + b) as u64,
            (rest - b) as u64,
            b,
        ));
        a = a + b;
        rest = rest - b;
    }
    assert(table@ + sallyport_blocks(a, rest, b) =~= table@);
}

impl Builder {
    /// The content of the builder is well formed.
    pub open spec fn wf(&self) -> bool {
        self@.wf()
    }

    /// A builder whose sallyport blocks are `block_size` bytes, before the
    /// launch starts.
    pub fn new(block_size: u64) -> (r: Builder)
        requires
            block_size > 0,
        ensures
            r.wf(),
            r@ == (BuilderModel {
                state: LaunchState::Uninitialized,
                policy: 0,
                block_size,
                regions: seq![],
                sallyports: seq![],
                pending: None,
                retried: false,
            }),
    {
        let r = Builder {
            state: LaunchState::Uninitialized,
            policy: 0,
            block_size,
            regions: Vec::new(),
            sallyports: Vec::new(),
            pending: None,
            retried: false,
        };
        assert(r@.regions =~= seq![]);
        assert(r@.sallyports =~= seq![]);
        r
    }

    /// The phase of the launch.
    pub fn state(&self) -> (r: LaunchState)
        ensures
            r == self@.state,
    {
        self.state
    }

    /// The guest policy the launch started with.
    pub fn policy(&self) -> (r: u64)
        ensures
            r == self@.policy,
    {
        self.policy
    }

    /// The regions mapped so far, in slot order.
    pub fn regions(&self) -> (r: &Vec<Region>)
        ensures
            r@ == self@.regions,
    {
        &self.regions
    }

    /// The sallyport address table so far.
    pub fn sallyports(&self) -> (r: &Vec<Option<u64>>)
        ensures
            r@ == self@.sallyports,
    {
        &self.sallyports
    }

    /// Takes the hardware's answer to the launch-start command for `policy`.
    /// A launch starts once; a refusal ends it.
    pub fn start(&mut self, policy: u64, outcome: Result<(), FirmwareError>) -> (r: Result<
        (),
        LaunchError,
    >)
        requires
            old(self).wf(),
        ensures
            final(self).wf(),
            old(self)@.state != LaunchState::Uninitialized ==> r == Err::<(), LaunchError>(
                LaunchError::OutOfOrder,
            ) && final(self)@ == old(self)@,
            old(self)@.state == LaunchState::Uninitialized ==> match outcome {
                Err(e) => r == Err::<(), LaunchError>(LaunchError::HardwareRejected(e))
                    && final(self)@ == (BuilderModel { state: LaunchState::Failed, ..old(self)@ }),
                Ok(()) => r == Ok::<(), LaunchError>(()) && final(self)@ == (BuilderModel {
                    state: LaunchState::Started,
                    policy,
                    ..old(self)@
                }),
            },
    {
        if self.state != LaunchState::Uninitialized {
            return Err(LaunchError::OutOfOrder);
        }
        match outcome {
            Err(e) => {
                self.state = LaunchState::Failed;
                Err(LaunchError::HardwareRejected(e))
            },
            Ok(()) => {
                self.state = LaunchState::Started;
                self.policy = policy;
                Ok(())
            },
        }
    }

    /// Maps the `len` bytes at host address `uaddr` to guest physical address
    /// `to`, with segment flags `with`. An empty region is ignored. Otherwise
    /// the region is checked, its sallyport blocks are entered in the table,
    /// and the update command to issue for it is returned.
    pub fn map(&mut self, uaddr: u64, len: u64, to: u64, with: u32) -> (r: Result<
        Option<LaunchUpdate>,
        LaunchError,
    >)
        requires
            old(self).wf(),
            uaddr + len <= u64::MAX,
            to + len <= u64::MAX,
        ensures
            final(self).wf(),
            r == old(self)@.map_result(uaddr, len, to, with),
            final(self)@ == old(self)@.after_map(uaddr, len, to, with),
    {
        let ghost m = self@;
        if self.state != LaunchState::Started || self.pending.is_some() {
            return Err(LaunchError::OutOfOrder);
        }
        if len == 0 {
            return Ok(None);
        }
        let page_type = if with & CPUID != 0 {
            PageType::Cpuid
        } else if with & SECRETS != 0 {
            PageType::Secrets
        } else {
            PageType::Normal
        };
        if page_type != PageType::Normal && len != PAGE_SIZE {
            return Err(LaunchError::BadPageSize);
        }
        let ghost nr = m.new_region(uaddr, len, to, with);
        assert(page_type == nr.page_type);
        let mut i: usize = 0;
        while i < self.regions.len()
            invariant
                self@ == m,
                m.wf(),
                m.state == LaunchState::Started,
                m.pending.is_none(),
                len > 0,
                !(nr.page_type != PageType::Normal && len != PAGE_SIZE),
                to + len <= u64::MAX,
                nr == m.new_region(uaddr, len, to, with),
                i <= self.regions@.len(),
                forall|j: int| 0 <= j < i ==> disjoint(#[trigger] m.regions[j], nr),
            decreases self.regions@.len() - i,
        {
            let r = self.regions[i];
            assert(m.regions[i as int] == r);
            if !(to + len <= r.gpa || r.gpa + r.len <= to) {
                assert(!disjoint(m.regions[i as int], nr));
                assert(m.overlaps(nr));
                return Err(LaunchError::Overlap);
            }
            i = i + 1;
        }
        if self.regions.len() >= 0xffff_ffff {
            return Err(LaunchError::SlotsExhausted);
        }
        let region = Region { slot: self.regions.len() as u32, gpa: to, len, uaddr, page_type };
        assert(region == nr);
        if with & SALLYPORT != 0 {
            push_sallyports(&mut self.sallyports, uaddr, len, self.block_size);
        }
        self.pending = Some(region);
        self.retried = false;
        Ok(Some(LaunchUpdate::from(Update { start_gfn: to / PAGE_SIZE, uaddr, len, page_type })))
    }

    /// Takes the hardware's answer to the update of the pending region. On
    /// success the region joins the mapped regions. A refused CPUID update is
    /// issued once more, since the firmware corrects the CPUID values in the
    /// page; any other refusal, and a second one, is returned as it came and
    /// ends the launch.
    pub fn update_result(&mut self, outcome: Result<(), FirmwareError>) -> (r: Result<
        UpdateStep,
        LaunchError,
    >)
        requires
            old(self).wf(),
        ensures
            final(self).wf(),
            r == old(self)@.update_step(outcome),
            final(self)@ == old(self)@.after_update(outcome),
    {
        let p = match self.pending {
            None => {
                return Err(LaunchError::OutOfOrder);
            },
            Some(p) => p,
        };
        match outcome {
            Ok(()) => {
                let ghost before = self@;
                self.regions.push(p);
                self.pending = None;
                self.retried = false;
                proof {
                    let rs = self@.regions;
                    assert(rs == before.regions.push(p));
                    assert forall|i: int, j: int| 0 <= i < j < rs.len() implies disjoint(
                        #[trigger] rs[i],
                        #[trigger] rs[j],
                    ) by {
                        if j == rs.len() - 1 {
                            assert(rs[i] == before.regions[i]);
                        } else {
                            assert(rs[i] == before.regions[i]);
                            assert(rs[j] == before.regions[j]);
                        }
                    }
                    assert forall|i: int| 0 <= i < rs.len() implies (#[trigger] rs[i]).slot == i
                        && self@.region_ok(rs[i]) by {
                        if i < rs.len() - 1 {
                            assert(rs[i] == before.regions[i]);
                        }
                    }
                }
                Ok(UpdateStep::Done)
            },
            Err(e) => {
                if p.page_type == PageType::Cpuid && !self.retried {
                    self.retried = true;
                    Ok(UpdateStep::Retry)
                } else {
                    self.state = LaunchState::Failed;
                    self.pending = None;
                    self.retried = false;
                    Err(LaunchError::HardwareRejected(e))
                }
            },
        }
    }

    /// Checks that the launch may finish, signed by `signature` if given: a
    /// started launch with no update in flight, at least one sallyport block,
    /// and signature blobs of their exact sizes. A launch that fails this
    /// check for want of a sallyport block or for a bad signature is over.
    pub fn prepare_finish(&mut self, signature: &Option<Signature>) -> (r: Result<
        (),
        LaunchError,
    >)
        requires
            old(self).wf(),
        ensures
            final(self).wf(),
            match r {
                Ok(()) | Err(LaunchError::OutOfOrder) => final(self)@ == old(self)@,
                Err(_) => final(self)@ == (BuilderModel {
                    state: LaunchState::Failed,
                    ..old(self)@
                }),
            },
            r == match old(self)@.finish_check() {
                Err(e) => Err(e),
                Ok(()) => match signature {
                    Some(s) => if s.id_block@.len() == ID_BLOCK_SIZE && s.id_auth@.len()
                        == ID_AUTH_SIZE {
                        Ok(())
                    } else {
                        Err(LaunchError::BadSignature)
                    },
                    None => Ok(()),
                },
            },
    {
        if self.state != LaunchState::Started || self.pending.is_some() {
            return Err(LaunchError::OutOfOrder);
        }
        if self.sallyports.len() == 0 {
            self.state = LaunchState::Failed;
            return Err(LaunchError::NoSallyport);
        }
        match signature {
            Some(s) => {
                if s.id_auth.len() != ID_AUTH_SIZE || s.id_block.len() != ID_BLOCK_SIZE {
                    self.state = LaunchState::Failed;
                    Err(LaunchError::BadSignature)
                } else {
                    Ok(())
                }
            },
            None => Ok(()),
        }
    }

    /// Takes the hardware's answer to the launch-finish command. On success
    /// the launch is over for good and the guest's regions and sallyport
    /// table move to the returned [`Keep`]. A refusal ends the launch too,
    /// whether the hardware refused or no sallyport block was mapped: a
    /// launch finishes once.
    pub fn finish(&mut self, outcome: Result<(), FirmwareError>) -> (r: Result<Keep, LaunchError>)
        requires
            old(self).wf(),
        ensures
            final(self).wf(),
            match old(self)@.finish_check() {
                Err(e) => r is Err && r->Err_0 == e && final(self)@ == (if e
                    == LaunchError::OutOfOrder {
                    old(self)@
                } else {
                    BuilderModel { state: LaunchState::Failed, ..old(self)@ }
                }),
                Ok(()) => match outcome {
                    Err(e) => r is Err && r->Err_0 == LaunchError::HardwareRejected(e)
                        && final(self)@ == (BuilderModel {
                        state: LaunchState::Failed,
                        ..old(self)@
                    }),
                    Ok(()) => {
                        &&& r is Ok
                        &&& r->Ok_0.regions@ == old(self)@.regions
                        &&& r->Ok_0.sallyports@ == old(self)@.sallyports
                        &&& r->Ok_0.sallyport_block_size == old(self)@.block_size
                        &&& final(self)@ == (BuilderModel {
                            state: LaunchState::Finished,
                            regions: seq![],
                            sallyports: seq![],
                            ..old(self)@
                        })
                    },
                },
            },
    {
        if self.state != LaunchState::Started || self.pending.is_some() {
            return Err(LaunchError::OutOfOrder);
        }
        if self.sallyports.len() == 0 {
            self.state = LaunchState::Failed;
            return Err(LaunchError::NoSallyport);
        }
        match outcome {
            Err(e) => {
                self.state = LaunchState::Failed;
                Err(LaunchError::HardwareRejected(e))
            },
            Ok(()) => {
                let mut regions: Vec<Region> = Vec::new();
                let mut sallyports: Vec<Option<u64>> = Vec::new();
                core::mem::swap(&mut regions, &mut self.regions);
                core::mem::swap(&mut sallyports, &mut self.sallyports);
                self.state = LaunchState::Finished;
                assert(self@.regions =~= seq![]);
                assert(self@.sallyports =~= seq![]);
                Ok(Keep { regions, sallyport_block_size: self.block_size, sallyports })
            },
        }
    }
}


/// The launch-finish request for a guest signed by the ID block and its
/// authentication information at host addresses `signature`, if given. A
/// signed launch enables the ID block and the author key; an unsigned one
/// enables neither. The VCEK stays enabled and the host data is zero.
pub fn finish_command(signature: Option<(u64, u64)>) -> (r: Finish)
    ensures
        r.id_block_n_auth == signature,
        r.auth_key_en == signature.is_some(),
        !r.vcek_disabled,
        r.host_data@ == Seq::new(32, |_i: int| 0u8),
{
    let r = Finish {
        id_block_n_auth: signature,
        auth_key_en: signature.is_some(),
        vcek_disabled: false,
        host_data: [0u8; 32],
    };
    assert(r.host_data@ =~= Seq::new(32, |_i: int| 0u8));
    r
}

/// Outside the started phase (before the launch starts, after it finished,
/// or after the hardware refused a step) a region is refused and nothing
/// changes, an update outcome with no update in flight is refused, and the
/// launch cannot finish.
pub proof fn lemma_update_needs_started(
    m: BuilderModel,
    uaddr: u64,
    len: u64,
    to: u64,
    with: u32,
    outcome: Result<(), FirmwareError>,
)
    requires
        m.wf(),
        m.state != LaunchState::Started,
    ensures
        m.map_result(uaddr, len, to, with) == Err::<Option<LaunchUpdate>, LaunchError>(
            LaunchError::OutOfOrder,
        ),
        m.after_map(uaddr, len, to, with) == m,
        m.update_step(outcome) == Err::<UpdateStep, LaunchError>(LaunchError::OutOfOrder),
        m.after_update(outcome) == m,
        m.finish_check() == Err::<(), LaunchError>(LaunchError::OutOfOrder),
{
}

/// A launch with an empty sallyport table cannot finish; a region mapped
/// without the sallyport flag leaves the table as it was.
pub proof fn lemma_finish_needs_sallyport(m: BuilderModel, uaddr: u64, len: u64, to: u64, with: u32)
    requires
        m.wf(),
    ensures
        m.state == LaunchState::Started && m.pending.is_none() && m.sallyports.len() == 0
            ==> m.finish_check() == Err::<(), LaunchError>(LaunchError::NoSallyport),
        with & SALLYPORT == 0 ==> m.after_map(uaddr, len, to, with).sallyports == m.sallyports,
{
}

/// A CPUID or secrets region that is not exactly one page is refused, and
/// nothing changes.
pub proof fn lemma_single_page_regions(m: BuilderModel, uaddr: u64, len: u64, to: u64, with: u32)
    requires
        m.wf(),
        m.state == LaunchState::Started,
        m.pending.is_none(),
        with & CPUID != 0 || with & SECRETS != 0,
        len != PAGE_SIZE,
        len != 0,
    ensures
        m.map_result(uaddr, len, to, with) == Err::<Option<LaunchUpdate>, LaunchError>(
            LaunchError::BadPageSize,
        ),
        m.after_map(uaddr, len, to, with) == m,
{
}

/// A refused CPUID update is issued exactly once more: a second refusal is
/// returned as the hardware gave it and ends the launch, so a third outcome
/// finds nothing in flight. Any other refused update ends the launch at
/// once.
pub proof fn lemma_cpuid_retried_once(
    m: BuilderModel,
    e1: FirmwareError,
    e2: FirmwareError,
    outcome: Result<(), FirmwareError>,
)
    requires
        m.wf(),
        m.pending.is_some(),
        !m.retried,
    ensures
        m.pending.unwrap().page_type == PageType::Cpuid ==> {
            let m2 = m.after_update(Err(e1));
            let m3 = m2.after_update(Err(e2));
            &&& m.update_step(Err(e1)) == Ok::<UpdateStep, LaunchError>(UpdateStep::Retry)
            &&& m2.update_step(Err(e2)) == Err::<UpdateStep, LaunchError>(
                LaunchError::HardwareRejected(e2),
            )
            &&& m3.pending.is_none()
            &&& m3.state == LaunchState::Failed
            &&& m3.update_step(outcome) == Err::<UpdateStep, LaunchError>(LaunchError::OutOfOrder)
        },
        m.pending.unwrap().page_type != PageType::Cpuid ==> {
            &&& m.update_step(Err(e1)) == Err::<UpdateStep, LaunchError>(
                LaunchError::HardwareRejected(e1),
            )
            &&& m.after_update(Err(e1)).pending.is_none()
            &&& m.after_update(Err(e1)).state == LaunchState::Failed
        },
{
}

/// Mapping an empty range changes nothing and is no error; the mapped
/// regions have strictly increasing slots and pairwise disjoint guest ranges.
pub proof fn lemma_regions_ordered(m: BuilderModel, uaddr: u64, to: u64, with: u32)
    requires
        m.wf(),
    ensures
        m.state == LaunchState::Started && m.pending.is_none() ==> m.map_result(uaddr, 0, to, with)
            == Ok::<Option<LaunchUpdate>, LaunchError>(None),
        m.after_map(uaddr, 0, to, with) == m,
        forall|i: int, j: int|
            0 <= i < j < m.regions.len() ==> (#[trigger] m.regions[i]).slot < (
            #[trigger] m.regions[j]).slot && disjoint(m.regions[i], m.regions[j]),
{
}

/// A sallyport region of `len` bytes with blocks of `b` bytes enters exactly
/// `len / b` addresses in the table, the `i`-th at `addr + i * b`, so in
/// ascending order.
pub proof fn lemma_sallyport_blocks(addr: u64, len: u64, b: u64)
    requires
        b > 0,
        addr + len <= u64::MAX,
    ensures
        sallyport_blocks(addr, len, b).len() == len / b,
        forall|i: int|
            0 <= i < sallyport_blocks(addr, len, b).len() ==> #[trigger] sallyport_blocks(
                addr,
                len,
                b,
            )[i] == Some((addr + i * b) as u64),
        forall|i: int, j: int|
            0 <= i < j < sallyport_blocks(addr, len, b).len() ==> (#[trigger] sallyport_blocks(
                addr,
                len,
                b,
            )[i]).unwrap() < (#[trigger] sallyport_blocks(addr, len, b)[j]).unwrap(),
    decreases len,
{
    let s = sallyport_blocks(addr, len, b);
    if len < b {
        assert(len / b == 0) by (nonlinear_arith)
            requires
                len < b,
                b > 0,
        ;
    } else {
        let a2 = (addr + b) as u64;
        let l2 = (len - b) as u64;
        lemma_sallyport_blocks(a2, l2, b);
        let t = sallyport_blocks(a2, l2, b);
        assert(s == seq![Some(addr)] + t);
        assert(l2 / b + 1 == len / b) by (nonlinear_arith)
            requires
                l2 == len - b,
                len >= b,
                b > 0,
        ;
        assert forall|i: int| 0 <= i < s.len() implies #[trigger] s[i] == Some(
            (addr + i * b) as u64,
        ) by {
            if i > 0 {
                assert(s[i] == t[i - 1]);
                assert(a2 + (i - 1) * b == addr + i * b) by (nonlinear_arith)
                    requires
                        a2 == addr + b,
                ;
            }
        }
        assert forall|i: int, j: int| 0 <= i < j < s.len() implies (#[trigger] s[i]).unwrap() < (
        #[trigger] s[j]).unwrap() by {
            assert(s[i] == Some((addr + i * b) as u64));
            assert(s[j] == Some((addr + j * b) as u64));
            assert(i * b < j * b) by (nonlinear_arith)
                requires
                    i < j,
                    b > 0,
            ;
            assert(addr + j * b <= addr + len) by {
                assert(j * b + b <= s.len() * b) by (nonlinear_arith)
                    requires
                        j < s.len(),
                        b > 0,
                ;
                assert(s.len() * b <= len) by (nonlinear_arith)
                    requires
                        s.len() == len / b,
                        b > 0,
                ;
            }
        }
    }
}

} // verus!
