//! The physical table set: an identity (virtual = physical) map of the first 2 GB.
use crate::entry::{
    block_page_of, block_page_word, lemma_block_page_round_trip, wf_block_page, encode_block_page, encode_table, table_word, BlockAttributes,
    BlockPageEntry, EntryKind, TableEntry, MAIR_DEVICE, MAIR_NON_CACHEABLE, MAIR_NORMAL,
    SH_INNER,
};
use crate::tables::{TableSet, TableSetView, LEVEL2_ENTRIES, TABLE_BYTES};
use vstd::prelude::*;

verus! {

/// First level-2 block of the peripheral region (0x3F00_0000).
pub const DEVICE_FIRST_BLOCK: usize = 504;

/// The level-2 block after the peripheral region (0x4020_0000).
pub const DEVICE_END_BLOCK: usize = 513;

/// Attributes of ordinary memory: cacheable, inner shareable, non-secure.
pub open spec fn normal_attributes() -> BlockAttributes {
    BlockAttributes {
        mem_attr: MAIR_NORMAL,
        non_secure: true,
        access_permission: 0,
        shareability: SH_INNER,
        access_flag: true,
        not_global: false,
        contiguous: false,
        privileged_execute_never: false,
        execute_never: false,
    }
}

/// Attributes of the device region carved out of ordinary memory: not cacheable.
pub open spec fn carve_out_attributes() -> BlockAttributes {
    BlockAttributes {
        mem_attr: MAIR_NON_CACHEABLE,
        non_secure: false,
        access_permission: 0,
        shareability: SH_INNER,
        access_flag: true,
        not_global: false,
        contiguous: false,
        privileged_execute_never: false,
        execute_never: false,
    }
}

/// Attributes of the peripheral region: device memory.
pub open spec fn device_attributes() -> BlockAttributes {
    BlockAttributes {
        mem_attr: MAIR_DEVICE,
        non_secure: false,
        access_permission: 0,
        shareability: SH_INNER,
        access_flag: true,
        not_global: false,
        contiguous: false,
        privileged_execute_never: false,
        execute_never: false,
    }
}

/// The attributes of level-2 block `i`, for a carve-out of blocks `[start, end)`, in three
/// passes: ordinary memory below the carve-out, non-cacheable memory inside it, device memory
/// from its end up to the end of the peripheral region. The peripheral blocks stay device
/// memory even where the carve-out reaches them.
pub open spec fn identity_attributes(i: int, start: int, end: int) -> BlockAttributes {
    if DEVICE_FIRST_BLOCK <= i < DEVICE_END_BLOCK {
        device_attributes()
    } else if start <= i < end {
        carve_out_attributes()
    } else if i < start {
        normal_attributes()
    } else {
        device_attributes()
    }
}

/// The block entry that maps block `i` onto itself with the given attributes.
pub open spec fn identity_block(i: int, attributes: BlockAttributes) -> BlockPageEntry {
    BlockPageEntry {
        kind: EntryKind::Block,
        attributes,
        output_address: (i * 0x20_0000) as u64,
    }
}

/// The level-1 entry that points at a half of the level-2 array.
pub open spec fn level2_pointer(address: int) -> TableEntry {
    TableEntry {
        valid: true,
        next_table: address as u64,
        privileged_execute_never: false,
        execute_never: false,
        access_permission: 0,
        non_secure: true,
    }
}

/// Level-2 blocks that the identity map writes: every block up to the end of the
/// peripheral region, and the carve-out wherever it ends.
pub open spec fn identity_written(i: int, end: int) -> bool {
    i < DEVICE_END_BLOCK || i < end
}

/// What building the identity map does to a table set, for the carve-out
/// `[start, start + size)`: only core 0 builds it.
pub open spec fn identity_map_post(
    before: TableSetView,
    after: TableSetView,
    core: u32,
    start: u32,
    size: u32,
) -> bool {
    let sb = start as int / 0x20_0000;
    let eb = (start + size) / 0x20_0000;
    if core != 0 {
        after == before
    } else {
        &&& after.base == before.base
        &&& after.pool == before.pool
        &&& after.pool_used == before.pool_used
        &&& after.level1 == before.level1.update(
            0,
            table_word(level2_pointer(before.level2_address(0))),
        ).update(1, table_word(level2_pointer(before.level2_address(1))))
        &&& after.level2.len() == before.level2.len()
        &&& forall|i: int|
            0 <= i < after.level2.len() ==> #[trigger] after.level2[i] == if identity_written(
                i,
                eb,
            ) {
                block_page_word(identity_block(i, identity_attributes(i, sb, eb)))
            } else {
                before.level2[i]
            }
    }
}

fn normal() -> (r: BlockAttributes)
    ensures
        r == normal_attributes(),
{
    BlockAttributes {
        mem_attr: MAIR_NORMAL,
        non_secure: true,
        access_permission: 0,
        shareability: SH_INNER,
        access_flag: true,
        not_global: false,
        contiguous: false,
        privileged_execute_never: false,
        execute_never: false,
    }
}

fn carve_out() -> (r: BlockAttributes)
    ensures
        r == carve_out_attributes(),
{
    BlockAttributes {
        mem_attr: MAIR_NON_CACHEABLE,
        non_secure: false,
        access_permission: 0,
        shareability: SH_INNER,
        access_flag: true,
        not_global: false,
        contiguous: false,
        privileged_execute_never: false,
        execute_never: false,
    }
}

fn device() -> (r: BlockAttributes)
    ensures
        r == device_attributes(),
{
    BlockAttributes {
        mem_attr: MAIR_DEVICE,
        non_secure: false,
        access_permission: 0,
        shareability: SH_INNER,
        access_flag: true,
        not_global: false,
        contiguous: false,
        privileged_execute_never: false,
        execute_never: false,
    }
}

fn block_attributes(i: usize, start: usize, end: usize) -> (r: BlockAttributes)
    ensures
        r == identity_attributes(i as int, start as int, end as int),
{
    if DEVICE_FIRST_BLOCK <= i && i < DEVICE_END_BLOCK {
        device()
    } else if start <= i && i < end {
        carve_out()
    } else if i < start {
        normal()
    } else {
        device()
    }
}

/// Build the identity map of the physical table set and return the address of its level-1
/// table. The level-1 entries 0 and 1 point at the two halves of the level-2 array; the
/// level-2 blocks map ordinary memory, the carve-out `[vc_mem_start, vc_mem_start +
/// vc_mem_size)` as non-cacheable memory, and the peripheral region as device memory.
/// Only core 0 builds the map; on every other core the tables stay as they are.
pub fn setup_translation_tables(
    tables: &mut TableSet,
    core: u32,
    vc_mem_start: u32,
    vc_mem_size: u32,
) -> (r: u64)
    requires
        old(tables)@.wf(),
        vc_mem_start % 0x20_0000 == 0,
        vc_mem_size % 0x20_0000 == 0,
        vc_mem_start + vc_mem_size <= LEVEL2_ENTRIES * 0x20_0000,
    ensures
        r == old(tables)@.base,
        final(tables)@.wf(),
        identity_map_post(old(tables)@, final(tables)@, core, vc_mem_start, vc_mem_size),
{
    if core == 0 {
        let ghost before = tables@;
        let base = tables.root_address();
        let low = TableEntry {
            valid: true,
            next_table: base + TABLE_BYTES,
            privileged_execute_never: false,
            execute_never: false,
            access_permission: 0,
            non_secure: true,
        };
        let high = TableEntry { next_table: base + 2 * TABLE_BYTES, ..low };
        tables.set_level1(0, encode_table(&low));
        tables.set_level1(1, encode_table(&high));
        let ghost mid = tables@;
        let start = (vc_mem_start / 0x20_0000) as usize;
        let end = ((vc_mem_start + vc_mem_size) / 0x20_0000) as usize;
        let limit = if end > DEVICE_END_BLOCK {
            end
        } else {
            DEVICE_END_BLOCK
        };
        for i in 0..limit
            invariant
                tables@.wf(),
                tables@.base == before.base,
                tables@.pool == before.pool,
                tables@.pool_used == before.pool_used,
                tables@.level1 == mid.level1,
                mid.level2 == before.level2,
                limit <= LEVEL2_ENTRIES,
                start <= end,
                start == vc_mem_start / 0x20_0000,
                end == (vc_mem_start + vc_mem_size) / 0x20_0000,
                limit == if end > DEVICE_END_BLOCK {
                    end
                } else {
                    DEVICE_END_BLOCK
                },
                forall|j: int|
                    0 <= j < i ==> #[trigger] tables@.level2[j] == block_page_word(
                        identity_block(j, identity_attributes(j, start as int, end as int)),
                    ),
                forall|j: int| i <= j < LEVEL2_ENTRIES ==> #[trigger] tables@.level2[j] == before.level2[j],
        {
            let e = BlockPageEntry {
                kind: EntryKind::Block,
                attributes: block_attributes(i, start, end),
                output_address: i as u64 * 0x20_0000,
            };
            tables.set_level2(i, encode_block_page(&e));
        }
        base
    } else {
        tables.root_address()
    }
}

/// The identity block entry of block `i` has fields that fit their widths.
proof fn lemma_identity_block_wf(i: int, attributes: BlockAttributes)
    requires
        0 <= i < LEVEL2_ENTRIES,
        attributes.mem_attr < 8,
        attributes.access_permission < 4,
        attributes.shareability < 4,
    ensures
        wf_block_page(identity_block(i, attributes)),
        block_page_of(block_page_word(identity_block(i, attributes))) == identity_block(
            i,
            attributes,
        ),
{
    assert((i * 0x20_0000) % 0x1000 == 0) by (nonlinear_arith)
        requires
            0 <= i,
    ;
    lemma_block_page_round_trip(identity_block(i, attributes));
}

/// For a carve-out aligned to 2 MB that ends at or below the peripheral region, the identity
/// map built on core 0 decodes, below the carve-out, to blocks of ordinary memory, inside it,
/// to blocks of non-cacheable memory, and from its end through the peripheral region, to
/// blocks of device memory: each block maps its own 2 MB onto itself, so the blocks leave no
/// gap and do not overlap.
pub proof fn lemma_identity_map_regions(
    before: TableSetView,
    after: TableSetView,
    start: u32,
    size: u32,
)
    requires
        before.wf(),
        identity_map_post(before, after, 0, start, size),
        start % 0x20_0000 == 0,
        size % 0x20_0000 == 0,
        start + size <= DEVICE_FIRST_BLOCK * 0x20_0000,
    ensures
        forall|i: int|
            0 <= i < start / 0x20_0000 ==> #[trigger] block_page_of(after.level2[i])
                == identity_block(i, normal_attributes()),
        forall|i: int|
            start / 0x20_0000 <= i < (start + size) / 0x20_0000 ==> #[trigger] block_page_of(
                after.level2[i],
            ) == identity_block(i, carve_out_attributes()),
        forall|i: int|
            (start + size) / 0x20_0000 <= i < DEVICE_END_BLOCK ==> #[trigger] block_page_of(
                after.level2[i],
            ) == identity_block(i, device_attributes()),
{
    assert forall|i: int| 0 <= i < start / 0x20_0000 implies #[trigger] block_page_of(
        after.level2[i],
    ) == identity_block(i, normal_attributes()) by {
        lemma_identity_block_wf(i, normal_attributes());
    }
    assert forall|i: int| start / 0x20_0000 <= i < (start + size) / 0x20_0000 implies
        #[trigger] block_page_of(after.level2[i]) == identity_block(i, carve_out_attributes()) by {
        lemma_identity_block_wf(i, carve_out_attributes());
    }
    assert forall|i: int| (start + size) / 0x20_0000 <= i < DEVICE_END_BLOCK implies
        #[trigger] block_page_of(after.level2[i]) == identity_block(i, device_attributes()) by {
        lemma_identity_block_wf(i, device_attributes());
    }
}

} // verus!
