//! # Memory management unit tables
//!
//! Builds and extends the translation tables of an Aarch64 core before heap, threads or atomics
//! exist: an identity map of all usable memory and the peripheral region, a set of virtual 2
//! MB slots handed out on request, and the splitting of a block into pages where a range of
//! them needs attributes of its own.
//!
//! The tables are plain arrays owned by the caller. Every operation also tells, as a list of
//! [`sequence::Step`]s, which register writes, barriers and invalidations the hardware needs,
//! and in which order; performing them is left to the caller.
use vstd::prelude::*;

mod config;
pub mod el1;
pub mod el2;
pub mod entry;
pub mod registers;
mod field;
pub mod sequence;
pub mod split;
pub mod tables;
pub mod ttbr0;
pub mod ttbr1;

pub use config::{PAGE_MASK, PAGE_SIZE, SECTION_SIZE};

verus! {

use crate::sequence::Step;
use crate::tables::{TableSet, LEVEL2_ENTRIES};
use crate::ttbr0::identity_map_post;
use crate::sequence::{level2_entry_address, mapping_steps};
use crate::ttbr1::{map_post, slot_word, slots_exhausted, NON_ATTRIBUTE_BITS, TOP_LEVEL1_ENTRY};

/// The exception levels at which translation can be brought up.
#[derive(Clone, Copy, Debug, PartialEq, Eq, Structural)]
pub enum ExceptionLevel {
    /// Two table base registers: the identity map and the virtual slots.
    El1,
    /// One table base register: the identity map only.
    El2,
}

pub open spec fn level_of(el: u64) -> Option<ExceptionLevel> {
    if el == 1 {
        Some(ExceptionLevel::El1)
    } else if el == 2 {
        Some(ExceptionLevel::El2)
    } else {
        None
    }
}

/// The exception level for the value of the current-level field.
pub fn exception_level(el: u64) -> (r: Option<ExceptionLevel>)
    ensures
        r == level_of(el),
{
    if el == 1 {
        Some(ExceptionLevel::El1)
    } else if el == 2 {
        Some(ExceptionLevel::El2)
    } else {
        None
    }
}

/// The steps of a bring-up at level `el`, with the physical table set at `ttbr0_addr` and the
/// virtual one at `ttbr1_addr`.
pub open spec fn bring_up_steps(el: ExceptionLevel, ttbr0_addr: u64, ttbr1_addr: u64) -> Seq<
    Step,
> {
    match el {
        ExceptionLevel::El1 => el1::disable_steps() + seq![Step::PublishTables, Step::StoreBarrier]
            + el1::enable_steps(ttbr0_addr, ttbr1_addr),
        ExceptionLevel::El2 => el2::disable_steps() + seq![Step::PublishTables, Step::StoreBarrier]
            + el2::enable_steps(ttbr0_addr),
    }
}

/// Bring translation up at exception level `el`: turn it off, build the identity map in
/// `physical` (on core 0 only) and, at level 1, set up the virtual slots in `dynamic` (on core
/// 0 only), then turn translation on with both. The steps to perform come back in order; the
/// table sets are published at `PublishTables`. Only levels 1 and 2 are supported: the caller
/// checks the level with `exception_level` first and stops on any other.
pub fn initialize(
    physical: &mut TableSet,
    dynamic: &mut TableSet,
    el: u64,
    core: u32,
    vc_mem_start: u32,
    vc_mem_size: u32,
) -> (r: [Step; 14])
    requires
        level_of(el) is Some,
        old(physical)@.wf(),
        old(dynamic)@.wf(),
        vc_mem_start % 0x20_0000 == 0,
        vc_mem_size % 0x20_0000 == 0,
        vc_mem_start + vc_mem_size <= LEVEL2_ENTRIES * 0x20_0000,
    ensures
        final(physical)@.wf(),
        final(dynamic)@.wf(),
        r@ == bring_up_steps(level_of(el)->Some_0, old(physical)@.base, old(dynamic)@.base),
        identity_map_post(old(physical)@, final(physical)@, core, vc_mem_start, vc_mem_size),
        level_of(el) == Some(ExceptionLevel::El2) ==> final(dynamic)@ == old(dynamic)@,
        level_of(el) == Some(ExceptionLevel::El1) && core != 0 ==> final(dynamic)@ == old(
            dynamic,
        )@,
        level_of(el) == Some(ExceptionLevel::El1) && core == 0 ==> final(dynamic)@.level1 == old(
            dynamic,
        )@.level1.update(
            TOP_LEVEL1_ENTRY as int,
            entry::table_word(ttbr0::level2_pointer(old(dynamic)@.level2_address(0))),
        ) && final(dynamic)@.level2 == old(dynamic)@.level2 && final(dynamic)@.pool == old(
            dynamic,
        )@.pool && final(dynamic)@.pool_used == old(dynamic)@.pool_used && final(dynamic)@.base
            == old(dynamic)@.base,
{
    let level = if el == 1 {
        ExceptionLevel::El1
    } else {
        ExceptionLevel::El2
    };
    let off = match level {
        ExceptionLevel::El1 => el1::disable_mmu(),
        ExceptionLevel::El2 => el2::disable_mmu(),
    };
    let ttbr0_addr = ttbr0::setup_translation_tables(physical, core, vc_mem_start, vc_mem_size);
    let on = match level {
        ExceptionLevel::El1 => {
            let ttbr1_addr = ttbr1::setup_translation_tables(dynamic, core);
            el1::enable_mmu(ttbr0_addr, ttbr1_addr)
        },
        ExceptionLevel::El2 => el2::enable_mmu(ttbr0_addr),
    };
    let steps = [
        off[0],
        off[1],
        Step::PublishTables,
        Step::StoreBarrier,
        on[0],
        on[1],
        on[2],
        on[3],
        on[4],
        on[5],
        on[6],
        on[7],
        on[8],
        on[9],
    ];
    assert(steps@ =~= bring_up_steps(level, old(physical)@.base, old(dynamic)@.base));
    steps
}

/// Map the 2 MB block that holds `origin` into the next free virtual slot of `dynamic` with
/// the given attribute bits, and return the virtual address of `origin` there, with the steps
/// that make the mapping visible. At an exception level other than 1 there are no virtual
/// slots: `origin` comes back unchanged, with no steps, and nothing changes. At level 1 a slot
/// must be free (`ttbr1::has_free_slot`): when none is, the caller stops.
pub fn map_memory(dynamic: &mut TableSet, el: u64, origin: u64, size: u64, attributes: u64) -> (r:
    (u64, Option<[Step; 6]>))
    requires
        old(dynamic)@.wf(),
        el == 1 ==> !slots_exhausted(old(dynamic)@.level2),
        el == 1 ==> attributes & NON_ATTRIBUTE_BITS == 0,
        el == 1 ==> origin < 0x1_0000_0000_0000,
    ensures
        final(dynamic)@.wf(),
        el == 1 ==> map_post(old(dynamic)@, final(dynamic)@, origin, attributes, r.0),
        el == 1 ==> r.1 is Some && r.1->Some_0@ == mapping_steps(
            level2_entry_address(old(dynamic)@, ((r.0 >> 21) & 0x1ff) as int) as u64,
            slot_word(origin, attributes),
            r.0,
        ),
        el != 1 ==> r.0 == origin && r.1 is None && final(dynamic)@ == old(dynamic)@,
{
    if el == 1 {
        let (va, steps) = ttbr1::maintain_pages(dynamic, origin, size, attributes);
        (va, Some(steps))
    } else {
        (origin, None)
    }
}

/// Align a given address up to the next page boundary.
pub fn page_align(addr: usize) -> (r: usize)
    requires
        addr + PAGE_MASK <= usize::MAX,
    ensures
        r % PAGE_SIZE == 0,
        addr <= r < addr + PAGE_SIZE,
{
    let x: usize = addr + PAGE_MASK;
    let r = x & !PAGE_MASK;
    assert((x & !0xfffusize) % 0x1000 == 0 && (x & !0xfffusize) <= x && x - (x & !0xfffusize)
        <= 0xfff) by (bit_vector);
    r
}

/// The granule size of the translation tables: one page.
pub fn page_size() -> (r: usize)
    ensures
        r == PAGE_SIZE,
{
    PAGE_SIZE
}

} // verus!
