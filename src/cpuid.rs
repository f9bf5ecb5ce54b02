//! The CPUID page: the host CPU's leaf table in the layout the SEV-SNP
//! firmware reads. A 16-byte header holds the entry count; each 48-byte
//! entry holds the leaf and sub-leaf asked for and the four registers
//! answered; the rest of the page is zero.

use vstd::prelude::*;
use crate::launch::PAGE_SIZE;
use crate::wire::{le_bytes, zeros, push_le, push_zeros, lemma_le_bytes_len};

verus! {

/// The most entries a CPUID page holds.
pub const CPUID_MAX_ENTRIES: usize = 64;

/// Size in bytes of one entry.
pub const CPUID_ENTRY_SIZE: usize = 48;

/// Size in bytes of the page header.
pub const CPUID_HEADER_SIZE: usize = 16;

/// One CPUID leaf as the host answers it.
#[derive(Clone, Copy, Debug, PartialEq, Eq, Structural)]
pub struct CpuidEntry {
    pub function: u32,
    pub index: u32,
    pub eax: u32,
    pub ebx: u32,
    pub ecx: u32,
    pub edx: u32,
}

/// The 48 bytes of an entry.
pub open spec fn entry_bytes(e: CpuidEntry) -> Seq<u8> {
    le_bytes(e.function as nat, 4) + le_bytes(e.index as nat, 4) + zeros(16) + le_bytes(
        e.eax as nat,
        4,
    ) + le_bytes(e.ebx as nat, 4) + le_bytes(e.ecx as nat, 4) + le_bytes(e.edx as nat, 4)
        + zeros(8)
}

/// The entries' bytes, one after the other.
pub open spec fn entries_bytes(es: Seq<CpuidEntry>) -> Seq<u8>
    decreases es.len(),
{
    if es.len() == 0 {
        seq![]
    } else {
        entries_bytes(es.drop_last()) + entry_bytes(es.last())
    }
}

/// The CPUID page holding `es`.
pub open spec fn page_bytes(es: Seq<CpuidEntry>) -> Seq<u8> {
    le_bytes(es.len(), 4) + zeros(12) + entries_bytes(es) + zeros(
        (PAGE_SIZE - CPUID_HEADER_SIZE - CPUID_ENTRY_SIZE * es.len()) as nat,
    )
}

proof fn lemma_entry_len(e: CpuidEntry)
    ensures
        entry_bytes(e).len() == CPUID_ENTRY_SIZE,
{
    lemma_le_bytes_len(e.function as nat, 4);
    lemma_le_bytes_len(e.index as nat, 4);
    lemma_le_bytes_len(e.eax as nat, 4);
    lemma_le_bytes_len(e.ebx as nat, 4);
    lemma_le_bytes_len(e.ecx as nat, 4);
    lemma_le_bytes_len(e.edx as nat, 4);
}

proof fn lemma_entries_len(es: Seq<CpuidEntry>)
    ensures
        entries_bytes(es).len() == CPUID_ENTRY_SIZE * es.len(),
    decreases es.len(),
{
    if es.len() > 0 {
        lemma_entries_len(es.drop_last());
        lemma_entry_len(es.last());
    }
}

fn push_entry(out: &mut Vec<u8>, e: CpuidEntry)
    ensures
        final(out)@ == old(out)@ + entry_bytes(e),
{
    let ghost o = out@;
    push_le(out, e.function as u64, 4);
    push_le(out, e.index as u64, 4);
    push_zeros(out, 16);
    push_le(out, e.eax as u64, 4);
    push_le(out, e.ebx as u64, 4);
    push_le(out, e.ecx as u64, 4);
    push_le(out, e.edx as u64, 4);
    push_zeros(out, 8);
    assert(out@ =~= o + entry_bytes(e));
}

/// The CPUID page holding `entries`, or `None` when there are more of them
/// than a page holds.
pub fn cpuid_page(entries: &Vec<CpuidEntry>) -> (r: Option<Vec<u8>>)
    ensures
        entries@.len() > CPUID_MAX_ENTRIES ==> r.is_none(),
        entries@.len() <= CPUID_MAX_ENTRIES ==> r.is_some() && r.unwrap()@ == page_bytes(
            entries@,
        ) && r.unwrap()@.len() == PAGE_SIZE,
{
    if entries.len() > CPUID_MAX_ENTRIES {
        return None;
    }
    let mut out: Vec<u8> = Vec::new();
    push_le(&mut out, entries.len() as u64, 4);
    push_zeros(&mut out, 12);
    let ghost head = out@;
    proof {
        lemma_le_bytes_len(entries@.len(), 4);
    }
    let mut i: usize = 0;
    while i < entries.len()
        invariant
            i <= entries@.len() <= CPUID_MAX_ENTRIES,
            head.len() == CPUID_HEADER_SIZE,
            out@ == head + entries_bytes(entries@.subrange(0, i as int)),
        decreases entries@.len() - i,
    {
        push_entry(&mut out, entries[i]);
        proof {
            let now = entries@.subrange(0, i + 1);
            assert(now.drop_last() =~= entries@.subrange(0, i as int));
            assert(now.last() == entries@[i as int]);
        }
        i = i + 1;
        assert(out@ =~= head + entries_bytes(entries@.subrange(0, i as int)));
    }
    assert(entries@.subrange(0, i as int) =~= entries@);
    proof {
        lemma_entries_len(entries@);
    }
    let used: usize = CPUID_HEADER_SIZE + CPUID_ENTRY_SIZE * entries.len();
    push_zeros(&mut out, 4096 - used);
    assert(out@ =~= page_bytes(entries@));
    Some(out)
}

} // verus!
