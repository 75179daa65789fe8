//! The hardware steps that go with the tables: stores into the memory the table walker reads,
//! register writes, barriers and cache and translation-cache maintenance. The library orders
//! them; the caller performs them.
use crate::registers::{ControlRegister, RegisterWrite};
use crate::tables::{TableSetView, TABLE_BYTES};
use vstd::prelude::*;

verus! {

/// One hardware step, in the order the library hands them out.
#[derive(Clone, Copy, Debug, PartialEq, Eq, Structural)]
pub enum Step {
    /// Write a control register of the current exception level: the bits of `mask` take those
    /// of `value`, the others stay.
    WriteRegister(ControlRegister, RegisterWrite),
    /// Invalidate every translation cache entry of the current address space.
    InvalidateTlbAll,
    /// Copy the table sets into the memory that the table walker reads.
    PublishTables,
    /// Copy the page table of a pool, at this physical address, into that memory.
    PublishPoolTable(u64),
    /// Store one table entry: the word, at its physical address.
    StoreEntry(u64, u64),
    /// Barrier that orders earlier stores before later ones (inner shareable).
    StoreBarrier,
    /// Barrier that completes earlier memory accesses (inner shareable).
    FullBarrier,
    /// Instruction synchronisation barrier.
    InstructionBarrier,
    /// A no-operation instruction.
    Nop,
    /// Clean and invalidate the data cache line at a physical address.
    CleanEntry(u64),
    /// Invalidate the translation cache entries of one virtual address.
    InvalidateTlbEntry(u64),
    /// Invalidate the instruction cache.
    InvalidateInstructionCache,
}

/// Physical address of level-2 entry `i` of a table set.
pub open spec fn level2_entry_address(tables: TableSetView, i: int) -> int {
    tables.base + TABLE_BYTES + i * 8
}

/// The steps after the level-2 entry at `entry_address` maps `va` with `word`: the store,
/// the barriers, the cache line of the entry, then the translation cache entries of `va`.
pub open spec fn mapping_steps(entry_address: u64, word: u64, va: u64) -> Seq<Step> {
    seq![
        Step::StoreEntry(entry_address, word),
        Step::StoreBarrier,
        Step::FullBarrier,
        Step::InstructionBarrier,
        Step::CleanEntry(entry_address),
        Step::InvalidateTlbEntry(va),
    ]
}

/// Physical address of level-2 entry `i`.
pub(crate) fn entry_address(base: u64, i: usize) -> (r: u64)
    requires
        base + TABLE_BYTES + i * 8 <= u64::MAX,
    ensures
        r == base + TABLE_BYTES + i * 8,
{
    base + TABLE_BYTES + i as u64 * 8
}

} // verus!
