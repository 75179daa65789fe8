//! Splitting 2 MB blocks into 4 KB pages, so that a range of pages can take attributes of
//! its own while the rest of the block keeps the attributes it had.
use crate::entry::{
    attributes_of, block_page_of, block_page_word, encode_block_page, encode_table,
    lemma_block_page_round_trip, table_word, wf_attributes, BlockAttributes, BlockPageEntry,
    EntryKind, TableEntry, ADDR_MASK, ADDR_SHIFT,
};
use crate::sequence::{entry_address, level2_entry_address, Step};
use crate::field::{extract_field, field_value, raw_field_bits};
use crate::tables::{TableSet, TableSetView, LEVEL2_ENTRIES, POOL_TABLES, TABLE_ENTRIES};
use vstd::prelude::*;

verus! {

/// The bits of a block entry that a page keeps: the upper and the lower attributes.
pub const PRESERVED_BITS: u64 = 0xfff0_0000_0000_0ffc;

/// Type bits of a page entry.
pub const PAGE_TYPE: u64 = 0b11;

/// Bytes of one page.
pub const PAGE_BYTES: u64 = 0x1000;

/// A level-2 word is a block entry whose output address is 2 MB aligned.
pub open spec fn is_block(w: u64) -> bool {
    &&& block_page_of(w).kind == EntryKind::Block
    &&& block_page_of(w).output_address % 0x20_0000 == 0
}

/// The page word that keeps the attribute bits of the block word `w`.
pub open spec fn preserved_page_word(w: u64, addr: u64) -> u64 {
    (w & PRESERVED_BITS) | addr | PAGE_TYPE
}

/// The table entry that points at a page table.
pub open spec fn page_table_pointer(address: int) -> TableEntry {
    TableEntry {
        valid: true,
        next_table: address as u64,
        privileged_execute_never: false,
        execute_never: false,
        access_permission: 0,
        non_secure: false,
    }
}

/// The number of blocks that pages `[start, start + count)` of a block reach into.
pub open spec fn blocks_spanned(start: int, count: int) -> int {
    if start + count > TABLE_ENTRIES {
        2
    } else {
        1
    }
}

/// The output address of page `p` of the block `w`.
pub open spec fn page_address(w: u64, p: int) -> u64 {
    (block_page_of(w).output_address + p * 0x1000) as u64
}

/// The entry of page `p` of block `b` (counted from the first block of the request), when
/// pages `[start, start + count)` take `attributes` and the others keep those of the block
/// word `w`.
pub open spec fn split_page_word(
    w: u64,
    b: int,
    p: int,
    start: int,
    count: int,
    attributes: BlockAttributes,
) -> u64 {
    let g = b * TABLE_ENTRIES + p;
    if start <= g < start + count {
        block_page_word(
            BlockPageEntry {
                kind: EntryKind::Page,
                attributes,
                output_address: page_address(w, p),
            },
        )
    } else {
        preserved_page_word(w, page_address(w, p))
    }
}

/// What splitting blocks `block_index` and on, for pages `[start, start + count)` of the
/// first of them, does to a table set.
pub open spec fn split_post(
    before: TableSetView,
    after: TableSetView,
    block_index: int,
    start: int,
    count: int,
    attributes: BlockAttributes,
) -> bool {
    let n = blocks_spanned(start, count);
    let used = before.pool_used as int;
    &&& used + n <= POOL_TABLES
    &&& after.base == before.base
    &&& after.level1 == before.level1
    &&& after.pool_used == used + n
    &&& after.pool.len() == before.pool.len()
    &&& after.level2.len() == before.level2.len()
    &&& forall|b: int, p: int|
        0 <= b < n && 0 <= p < TABLE_ENTRIES ==> #[trigger] after.pool[(used + b)
            * TABLE_ENTRIES + p] == split_page_word(
            before.level2[block_index + b],
            b,
            p,
            start,
            count,
            attributes,
        )
    &&& forall|q: int|
        0 <= q < before.pool.len() && !(used * TABLE_ENTRIES <= q < (used + n)
            * TABLE_ENTRIES) ==> #[trigger] after.pool[q] == before.pool[q]
    &&& forall|i: int|
        0 <= i < before.level2.len() ==> #[trigger] after.level2[i] == if block_index
            <= i < block_index + n {
            table_word(page_table_pointer(before.pool_address(used + i - block_index)))
        } else {
            before.level2[i]
        }
}

/// The pool has a free page table for each block that pages `[start, start + count)` reach.
pub open spec fn pool_room(tables: TableSetView, start: int, count: int) -> bool {
    tables.pool_used + blocks_spanned(start, count) <= POOL_TABLES
}

/// The steps that make a split visible, for blocks `block_index` and on (`n` of them) taking
/// the next page tables of the pool: the page tables first, a barrier, then the level-2
/// entries that now point at them; then the barriers, the cache lines of those entries, the
/// instruction cache where the pages may hold code, and every translation cache entry, since
/// a block became a table. Places that a single block leaves unused hold no-operations.
pub open spec fn split_steps(before: TableSetView, block_index: int, n: int, executable: bool) -> Seq<
    Step,
> {
    let used = before.pool_used as int;
    let a0 = level2_entry_address(before, block_index) as u64;
    let a1 = level2_entry_address(before, block_index + 1) as u64;
    seq![
        Step::PublishPoolTable(before.pool_address(used) as u64),
        if n == 2 {
            Step::PublishPoolTable(before.pool_address(used + 1) as u64)
        } else {
            Step::Nop
        },
        Step::StoreBarrier,
        Step::StoreEntry(a0, table_word(page_table_pointer(before.pool_address(used)))),
        if n == 2 {
            Step::StoreEntry(a1, table_word(page_table_pointer(before.pool_address(used + 1))))
        } else {
            Step::Nop
        },
        Step::StoreBarrier,
        Step::FullBarrier,
        Step::InstructionBarrier,
        Step::CleanEntry(a0),
        if n == 2 {
            Step::CleanEntry(a1)
        } else {
            Step::Nop
        },
        if executable {
            Step::InvalidateInstructionCache
        } else {
            Step::Nop
        },
        Step::InvalidateTlbAll,
    ]
}

/// Pages with these attributes may hold code, unless both execute-never flags are set.
pub open spec fn may_execute(attributes: BlockAttributes) -> bool {
    !(attributes.execute_never && attributes.privileged_execute_never)
}

/// Whether the pool still has a page table for each block that pages `[page_offset_start,
/// page_offset_start + page_count)` reach.
pub fn pool_has_room(tables: &TableSet, page_offset_start: usize, page_count: usize) -> (r: bool)
    requires
        tables@.wf(),
        page_offset_start + page_count <= 2 * TABLE_ENTRIES,
    ensures
        r == pool_room(tables@, page_offset_start as int, page_count as int),
{
    let blocks: usize = if page_offset_start + page_count > TABLE_ENTRIES {
        2
    } else {
        1
    };
    tables.pool_tables_used() + blocks <= POOL_TABLES
}

/// The table entry that points at page table `k` of the pool of the set at `base`.
fn pool_pointer(base: u64, k: usize) -> (r: u64)
    requires
        base + 0x5000 <= 0x1_0000_0000_0000,
        base % 0x1000 == 0,
        k < POOL_TABLES,
    ensures
        r == table_word(page_table_pointer(base + 3 * 0x1000 + k * 0x1000)),
{
    let pointer = TableEntry {
        valid: true,
        next_table: base + 0x3000 + k as u64 * 0x1000,
        privileged_execute_never: false,
        execute_never: false,
        access_permission: 0,
        non_secure: false,
    };
    encode_table(&pointer)
}

proof fn lemma_block_address(w: u64)
    by (bit_vector)
    ensures
        raw_field_bits(w, 0xf_ffff_ffff, 12) % 0x1000 == 0,
        raw_field_bits(w, 0xf_ffff_ffff, 12) < 0x1_0000_0000_0000,
{
}

proof fn lemma_preserved_bits(w: u64, addr: u64)
    by (bit_vector)
    requires
        addr % 0x1000 == 0,
        addr < 0x1_0000_0000_0000,
    ensures
        field_value((w & 0xfff0_0000_0000_0ffc) | addr | 3, 3, 0) == 3,
        field_value((w & 0xfff0_0000_0000_0ffc) | addr | 3, 7, 2) == field_value(w, 7, 2),
        field_value((w & 0xfff0_0000_0000_0ffc) | addr | 3, 1, 5) == field_value(w, 1, 5),
        field_value((w & 0xfff0_0000_0000_0ffc) | addr | 3, 3, 6) == field_value(w, 3, 6),
        field_value((w & 0xfff0_0000_0000_0ffc) | addr | 3, 3, 8) == field_value(w, 3, 8),
        field_value((w & 0xfff0_0000_0000_0ffc) | addr | 3, 1, 10) == field_value(w, 1, 10),
        field_value((w & 0xfff0_0000_0000_0ffc) | addr | 3, 1, 11) == field_value(w, 1, 11),
        raw_field_bits((w & 0xfff0_0000_0000_0ffc) | addr | 3, 0xf_ffff_ffff, 12) == addr,
        field_value((w & 0xfff0_0000_0000_0ffc) | addr | 3, 1, 52) == field_value(w, 1, 52),
        field_value((w & 0xfff0_0000_0000_0ffc) | addr | 3, 1, 53) == field_value(w, 1, 53),
        field_value((w & 0xfff0_0000_0000_0ffc) | addr | 3, 1, 54) == field_value(w, 1, 54),
{
}

/// A page that keeps the bits of its block decodes to a page with the block's attributes.
proof fn lemma_preserved_page(w: u64, addr: u64)
    requires
        addr % 0x1000 == 0,
        addr < 0x1_0000_0000_0000,
    ensures
        block_page_of(preserved_page_word(w, addr)) == (BlockPageEntry {
            kind: EntryKind::Page,
            attributes: attributes_of(w),
            output_address: addr,
        }),
{
    lemma_preserved_bits(w, addr);
}

/// The page addresses of a 2 MB aligned block are page aligned and stay below 2^48.
proof fn lemma_page_address(w: u64, p: int)
    requires
        is_block(w),
        0 <= p < TABLE_ENTRIES,
    ensures
        page_address(w, p) == block_page_of(w).output_address + p * 0x1000,
        page_address(w, p) % 0x1000 == 0,
        page_address(w, p) < 0x1_0000_0000_0000,
{
    lemma_block_address(w);
    let a = block_page_of(w).output_address as int;
    assert(a + 0x20_0000 <= 0x1_0000_0000_0000) by {
        assert(a % 0x20_0000 == 0);
        assert(a < 0x1_0000_0000_0000);
    }
    assert((a + p * 0x1000) % 0x1000 == 0) by (nonlinear_arith)
        requires
            a % 0x1000 == 0,
    ;
}

/// Split block `block_index` of the level-2 array into 4 KB pages: pages `[page_offset_start,
/// page_offset_start + page_count)` of it take `page_attributes`, and every other page keeps
/// the attribute bits of its block. Where the range reaches into the next block, that block
/// is split too. Each split block takes the next page table of the pool, and its level-2 entry
/// becomes a table entry pointing there. The steps that make the split visible come back in
/// order. The pool must have a page table for each split block (`pool_has_room`): when it has
/// not, the caller stops.
pub fn maintain_pages(
    tables: &mut TableSet,
    block_index: usize,
    page_offset_start: usize,
    page_count: usize,
    page_attributes: BlockAttributes,
) -> (r: [Step; 12])
    requires
        old(tables)@.wf(),
        pool_room(old(tables)@, page_offset_start as int, page_count as int),
        page_offset_start < TABLE_ENTRIES,
        page_offset_start + page_count <= 2 * TABLE_ENTRIES,
        block_index + blocks_spanned(page_offset_start as int, page_count as int)
            <= LEVEL2_ENTRIES,
        forall|b: int|
            0 <= b < blocks_spanned(page_offset_start as int, page_count as int) ==> is_block(
                #[trigger] old(tables)@.level2[block_index + b],
            ),
        wf_attributes(page_attributes),
    ensures
        final(tables)@.wf(),
        split_post(
            old(tables)@,
            final(tables)@,
            block_index as int,
            page_offset_start as int,
            page_count as int,
            page_attributes,
        ),
        r@ == split_steps(
            old(tables)@,
            block_index as int,
            blocks_spanned(page_offset_start as int, page_count as int),
            may_execute(page_attributes),
        ),
{
    let ghost before = tables@;
    let blocks: usize = if page_offset_start + page_count > TABLE_ENTRIES {
        2
    } else {
        1
    };
    let used = tables.pool_tables_used();
    let base = tables.root_address();
    let mut b: usize = 0;
    while b < blocks
        invariant
            before == old(tables)@,
            before.wf(),
            tables@.wf(),
            b <= blocks,
            blocks == blocks_spanned(page_offset_start as int, page_count as int),
            used == before.pool_used,
            used + blocks <= POOL_TABLES,
            base == before.base,
            page_offset_start < TABLE_ENTRIES,
            page_offset_start + page_count <= 2 * TABLE_ENTRIES,
            block_index + blocks <= LEVEL2_ENTRIES,
            forall|c: int| 0 <= c < blocks ==> is_block(#[trigger] before.level2[block_index + c]),
            wf_attributes(page_attributes),
            tables@.base == before.base,
            tables@.level1 == before.level1,
            tables@.pool_used == before.pool_used,
            forall|c: int, p: int|
                0 <= c < b && 0 <= p < TABLE_ENTRIES ==> #[trigger] tables@.pool[(used + c)
                    * TABLE_ENTRIES + p] == split_page_word(
                    before.level2[block_index + c],
                    c,
                    p,
                    page_offset_start as int,
                    page_count as int,
                    page_attributes,
                ),
            forall|q: int|
                0 <= q < before.pool.len() && !(used * TABLE_ENTRIES <= q < (used + b)
                    * TABLE_ENTRIES) ==> #[trigger] tables@.pool[q] == before.pool[q],
            forall|i: int|
                0 <= i < before.level2.len() ==> #[trigger] tables@.level2[i] == if block_index
                    <= i < block_index + b {
                    table_word(page_table_pointer(before.pool_address(used + i - block_index)))
                } else {
                    before.level2[i]
                },
        decreases blocks - b,
    {
        let k = used + b;
        let w = tables.level2_entry(block_index + b);
        let block_address = extract_field(ADDR_MASK, ADDR_SHIFT, w);
        let preserved = w & PRESERVED_BITS;
        let mut p: usize = 0;
        while p < TABLE_ENTRIES
            invariant
                before.wf(),
                tables@.wf(),
                b < blocks,
                k == used + b,
                used + blocks <= POOL_TABLES,
                blocks == blocks_spanned(page_offset_start as int, page_count as int),
                w == before.level2[block_index + b],
                is_block(w),
                block_address == block_page_of(w).output_address,
                preserved == w & PRESERVED_BITS,
                page_offset_start < TABLE_ENTRIES,
                page_offset_start + page_count <= 2 * TABLE_ENTRIES,
                wf_attributes(page_attributes),
                tables@.base == before.base,
                tables@.level1 == before.level1,
                tables@.pool_used == before.pool_used,
                p <= TABLE_ENTRIES,
                forall|c: int, pg: int|
                    0 <= c < b && 0 <= pg < TABLE_ENTRIES ==> #[trigger] tables@.pool[(used + c)
                        * TABLE_ENTRIES + pg] == split_page_word(
                        before.level2[block_index + c],
                        c,
                        pg,
                        page_offset_start as int,
                        page_count as int,
                        page_attributes,
                    ),
                forall|pg: int|
                    0 <= pg < p ==> #[trigger] tables@.pool[k * TABLE_ENTRIES + pg]
                        == split_page_word(
                        w,
                        b as int,
                        pg,
                        page_offset_start as int,
                        page_count as int,
                        page_attributes,
                    ),
                forall|q: int|
                    0 <= q < before.pool.len() && !(used * TABLE_ENTRIES <= q < (used + b)
                        * TABLE_ENTRIES + p) ==> #[trigger] tables@.pool[q] == before.pool[q],
                forall|i: int|
                    0 <= i < before.level2.len() ==> #[trigger] tables@.level2[i] == if block_index
                        <= i < block_index + b {
                        table_word(
                            page_table_pointer(before.pool_address(used + i - block_index)),
                        )
                    } else {
                        before.level2[i]
                    },
            decreases TABLE_ENTRIES - p,
        {
            proof {
                lemma_page_address(w, p as int);
            }
            let addr = block_address + p as u64 * PAGE_BYTES;
            let g = b * TABLE_ENTRIES + p;
            let word = if page_offset_start <= g && g < page_offset_start + page_count {
                let e = BlockPageEntry {
                    kind: EntryKind::Page,
                    attributes: page_attributes,
                    output_address: addr,
                };
                encode_block_page(&e)
            } else {
                preserved | addr | PAGE_TYPE
            };
            assert(word == split_page_word(
                w,
                b as int,
                p as int,
                page_offset_start as int,
                page_count as int,
                page_attributes,
            ));
            tables.set_pool(k * TABLE_ENTRIES + p, word);
            p = p + 1;
        }
        tables.set_level2(block_index + b, pool_pointer(base, k));
        b = b + 1;
    }
    tables.set_pool_used(used + blocks);
    let a0 = entry_address(base, block_index);
    let w0 = pool_pointer(base, used);
    let two = blocks == 2;
    let (publish_second, store_second, clean_second) = if two {
        let a1 = entry_address(base, block_index + 1);
        (
            Step::PublishPoolTable(base + 0x3000 + (used as u64 + 1) * 0x1000),
            Step::StoreEntry(a1, pool_pointer(base, used + 1)),
            Step::CleanEntry(a1),
        )
    } else {
        (Step::Nop, Step::Nop, Step::Nop)
    };
    let icache = if !(page_attributes.execute_never && page_attributes.privileged_execute_never) {
        Step::InvalidateInstructionCache
    } else {
        Step::Nop
    };
    let steps = [
        Step::PublishPoolTable(base + 0x3000 + used as u64 * 0x1000),
        publish_second,
        Step::StoreBarrier,
        Step::StoreEntry(a0, w0),
        store_second,
        Step::StoreBarrier,
        Step::FullBarrier,
        Step::InstructionBarrier,
        Step::CleanEntry(a0),
        clean_second,
        icache,
        Step::InvalidateTlbAll,
    ];
    assert(steps@ =~= split_steps(
        before,
        block_index as int,
        blocks as int,
        may_execute(page_attributes),
    ));
    steps
}

/// Splitting one block leaves the attributes of every page outside the requested range as
/// they were: each such page decodes to a page entry with exactly the attributes of the
/// block (memory type, shareability, access flag and the rest), at its own address inside
/// the block.
pub proof fn lemma_split_keeps_other_pages(
    before: TableSetView,
    after: TableSetView,
    block_index: int,
    start: int,
    count: int,
    attributes: BlockAttributes,
)
    requires
        before.wf(),
        0 <= start,
        0 <= count,
        start + count <= TABLE_ENTRIES,
        0 <= block_index < LEVEL2_ENTRIES,
        is_block(before.level2[block_index]),
        split_post(before, after, block_index, start, count, attributes),
    ensures
        forall|p: int|
            0 <= p < TABLE_ENTRIES && !(start <= p < start + count) ==> #[trigger] block_page_of(
                after.pool[before.pool_used * TABLE_ENTRIES + p],
            ) == (BlockPageEntry {
                kind: EntryKind::Page,
                attributes: attributes_of(before.level2[block_index]),
                output_address: (block_page_of(before.level2[block_index]).output_address + p
                    * 0x1000) as u64,
            }),
{
    let w = before.level2[block_index];
    let used = before.pool_used as int;
    assert forall|p: int| 0 <= p < TABLE_ENTRIES && !(start <= p < start + count) implies
        #[trigger] block_page_of(after.pool[before.pool_used * TABLE_ENTRIES + p])
        == (BlockPageEntry {
        kind: EntryKind::Page,
        attributes: attributes_of(w),
        output_address: (block_page_of(w).output_address + p * 0x1000) as u64,
    }) by {
        assert(after.pool[(used + 0) * TABLE_ENTRIES + p] == split_page_word(
            w,
            0,
            p,
            start,
            count,
            attributes,
        ));
        lemma_page_address(w, p);
        lemma_preserved_page(w, page_address(w, p));
    }
}

/// Splitting one block gives every page inside the requested range exactly the requested
/// attributes: each decodes to a page entry with those attributes, at its own address inside
/// the block.
pub proof fn lemma_split_sets_requested_pages(
    before: TableSetView,
    after: TableSetView,
    block_index: int,
    start: int,
    count: int,
    attributes: BlockAttributes,
)
    requires
        before.wf(),
        0 <= start,
        0 <= count,
        start + count <= TABLE_ENTRIES,
        0 <= block_index < LEVEL2_ENTRIES,
        is_block(before.level2[block_index]),
        wf_attributes(attributes),
        split_post(before, after, block_index, start, count, attributes),
    ensures
        forall|p: int|
            start <= p < start + count ==> #[trigger] block_page_of(
                after.pool[before.pool_used * TABLE_ENTRIES + p],
            ) == (BlockPageEntry {
                kind: EntryKind::Page,
                attributes,
                output_address: (block_page_of(before.level2[block_index]).output_address + p
                    * 0x1000) as u64,
            }),
{
    let w = before.level2[block_index];
    let used = before.pool_used as int;
    assert forall|p: int| start <= p < start + count implies #[trigger] block_page_of(
        after.pool[before.pool_used * TABLE_ENTRIES + p],
    ) == (BlockPageEntry {
        kind: EntryKind::Page,
        attributes,
        output_address: (block_page_of(w).output_address + p * 0x1000) as u64,
    }) by {
        assert(after.pool[(used + 0) * TABLE_ENTRIES + p] == split_page_word(
            w,
            0,
            p,
            start,
            count,
            attributes,
        ));
        lemma_page_address(w, p);
        lemma_block_page_round_trip(
            BlockPageEntry { kind: EntryKind::Page, attributes, output_address: page_address(w, p) },
        );
    }
}

} // verus!
