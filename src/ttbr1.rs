//! The virtual table set: 2 MB slots at the top of the address space, handed out on request
//! and never given back.
use crate::entry::{encode_table, table_word, TableEntry};
use crate::sequence::{entry_address, level2_entry_address, mapping_steps, Step};
use crate::tables::{TableSet, TableSetView, TABLE_BYTES, TABLE_ENTRIES};
use crate::ttbr0::level2_pointer;
use vstd::prelude::*;

verus! {

/// Virtual slots: the level-2 entries reachable through the last level-1 entry. Slot `i` is
/// the `i`-th 2 MB block down from the top of the address space, so it stands in level-2
/// entry `511 - i`.
pub const VIRTUAL_SLOTS: usize = 512;

/// The level-1 entry that covers the top 1 GB of the address space.
pub const TOP_LEVEL1_ENTRY: usize = 511;

/// Bit 63 of a freshly mapped block entry.
pub const FRESH_BLOCK: u64 = 0x8000_0000_0000_0000;

/// Access flag of a block entry.
pub const ACCESS_FLAG: u64 = 0x400;

/// Type bits of a block entry.
pub const BLOCK_TYPE: u64 = 0b01;

/// Address bits that lie inside one 2 MB block.
pub const SECTION_OFFSET_MASK: u64 = 0x1f_ffff;

/// Bits of a block entry that the attributes of a mapping may not touch: the type and the
/// output address.
pub const NON_ATTRIBUTE_BITS: u64 = 0x0000_ffff_ffff_f003;

/// The first address of virtual slot `i`: slots go down from the top of the address space.
pub open spec fn slot_base(i: int) -> int {
    0x1_0000_0000_0000_0000 - (i + 1) * 0x20_0000
}

/// The level-2 entry of virtual slot `i`: the one the table walker reads for its addresses.
pub open spec fn slot_index(i: int) -> int {
    VIRTUAL_SLOTS - 1 - i
}

/// The level-2 word of virtual slot `i`.
pub open spec fn slot_entry(level2: Seq<u64>, i: int) -> u64 {
    level2[slot_index(i)]
}

/// The block entry that maps a slot onto the 2 MB block holding `origin`.
pub open spec fn slot_word(origin: u64, attributes: u64) -> u64 {
    FRESH_BLOCK | attributes | (origin & !SECTION_OFFSET_MASK) | ACCESS_FLAG | BLOCK_TYPE
}

/// Slot `i` is the first free one, counting from the top.
pub open spec fn first_free_slot(level2: Seq<u64>, i: int) -> bool {
    &&& 0 <= i < VIRTUAL_SLOTS
    &&& slot_entry(level2, i) == 0
    &&& forall|j: int| 0 <= j < i ==> #[trigger] slot_entry(level2, j) != 0
}

/// No slot is free.
pub open spec fn slots_exhausted(level2: Seq<u64>) -> bool {
    forall|j: int| 0 <= j < VIRTUAL_SLOTS ==> #[trigger] slot_entry(level2, j) != 0
}

/// What mapping `origin` with `attributes` does to the virtual table set, and the virtual
/// address `va` it returns. The table walker reaches the new entry from `va`: level-1 entry
/// `(va >> 30) & 0x1ff` is the one that points at the level-2 array, and level-2 entry
/// `(va >> 21) & 0x1ff` now maps the block of `origin`, at the same offset.
pub open spec fn map_post(
    before: TableSetView,
    after: TableSetView,
    origin: u64,
    attributes: u64,
    va: u64,
) -> bool {
    &&& after.same_but_level2(before)
    &&& exists|i: int|
        first_free_slot(before.level2, i) && after.level2 == before.level2.update(
            slot_index(i),
            slot_word(origin, attributes),
        ) && va == slot_base(i) + origin % 0x20_0000
    &&& (va >> 30) & 0x1ff == TOP_LEVEL1_ENTRY
    &&& after.level2[((va >> 21) & 0x1ff) as int] == slot_word(origin, attributes)
    &&& va & 0x1f_ffff == origin & 0x1f_ffff
}

/// Set up the virtual table set and return the address of its level-1 table: the last
/// level-1 entry points at the level-2 array, whose entries all stay invalid until they are
/// mapped. Only core 0 sets it up; on every other core the tables stay as they are.
pub fn setup_translation_tables(tables: &mut TableSet, core: u32) -> (r: u64)
    requires
        old(tables)@.wf(),
    ensures
        r == old(tables)@.base,
        final(tables)@.wf(),
        core != 0 ==> final(tables)@ == old(tables)@,
        core == 0 ==> final(tables)@.level1 == old(tables)@.level1.update(
            TOP_LEVEL1_ENTRY as int,
            table_word(level2_pointer(old(tables)@.level2_address(0))),
        ),
        core == 0 ==> final(tables)@.level2 == old(tables)@.level2,
        core == 0 ==> final(tables)@.pool == old(tables)@.pool,
        core == 0 ==> final(tables)@.pool_used == old(tables)@.pool_used,
        core == 0 ==> final(tables)@.base == old(tables)@.base,
{
    let base = tables.root_address();
    if core == 0 {
        let e = TableEntry {
            valid: true,
            next_table: base + TABLE_BYTES,
            privileged_execute_never: false,
            execute_never: false,
            access_permission: 0,
            non_secure: true,
        };
        tables.set_level1(TOP_LEVEL1_ENTRY, encode_table(&e));
    }
    base
}

proof fn lemma_slot_address(k: u64, origin: u64)
    by (bit_vector)
    requires
        1 <= k <= 512,
    ensures
        k << 21 == k * 0x20_0000,
        (0xffff_ffff_ffff_ffffu64 - ((k << 21) - 1) as u64) as u64 & 0x1f_ffff == 0,
        ((0xffff_ffff_ffff_ffffu64 - ((k << 21) - 1) as u64) as u64 | (origin & 0x1f_ffff))
            == (0xffff_ffff_ffff_ffffu64 - ((k << 21) - 1) as u64) as u64 + (origin & 0x1f_ffff),
        origin & 0x1f_ffff == origin % 0x20_0000,
        (((0xffff_ffff_ffff_ffffu64 - ((k << 21) - 1) as u64) as u64 | (origin & 0x1f_ffff)) >> 30)
            & 0x1ff == 511,
        (((0xffff_ffff_ffff_ffffu64 - ((k << 21) - 1) as u64) as u64 | (origin & 0x1f_ffff)) >> 21)
            & 0x1ff == 512 - k,
        ((0xffff_ffff_ffff_ffffu64 - ((k << 21) - 1) as u64) as u64 | (origin & 0x1f_ffff))
            & 0x1f_ffff == origin & 0x1f_ffff,
{
}

/// The entry of a mapped slot is never zero, so a mapped slot is never handed out again.
pub proof fn lemma_slot_word_taken(origin: u64, attributes: u64)
    ensures
        slot_word(origin, attributes) != 0,
{
    assert(((((0x8000_0000_0000_0000u64 | attributes) | (origin & !0x1f_ffffu64)) | 0x400u64)
        | 1u64) != 0) by (bit_vector);
}

/// Whether a virtual slot is still free.
pub fn has_free_slot(tables: &TableSet) -> (r: bool)
    requires
        tables@.wf(),
    ensures
        r == !slots_exhausted(tables@.level2),
{
    let mut i: usize = 0;
    while i < VIRTUAL_SLOTS
        invariant
            i <= VIRTUAL_SLOTS,
            tables@.wf(),
            forall|j: int| 0 <= j < i ==> #[trigger] slot_entry(tables@.level2, j) != 0,
        decreases VIRTUAL_SLOTS - i,
    {
        if tables.level2_entry(VIRTUAL_SLOTS - 1 - i) == 0 {
            assert(slot_entry(tables@.level2, i as int) == 0);
            return true;
        }
        i = i + 1;
    }
    false
}

/// Map the first free virtual slot, counting down from the top of the address space, onto
/// the 2 MB block that holds `origin`, with the given attribute bits, and return the virtual
/// address of `origin` through it together with the steps that make the new entry visible:
/// its store, the barriers, the clean of its cache line and the invalidation of the
/// translation cache entries of the address. A free slot must be left: when none is, the
/// caller stops.
pub fn maintain_pages(tables: &mut TableSet, origin: u64, _size: u64, attributes: u64) -> (r: (
    u64,
    [Step; 6],
))
    requires
        old(tables)@.wf(),
        !slots_exhausted(old(tables)@.level2),
        attributes & NON_ATTRIBUTE_BITS == 0,
        origin < 0x1_0000_0000_0000,
    ensures
        final(tables)@.wf(),
        map_post(old(tables)@, final(tables)@, origin, attributes, r.0),
        r.1@ == mapping_steps(
            level2_entry_address(old(tables)@, ((r.0 >> 21) & 0x1ff) as int) as u64,
            slot_word(origin, attributes),
            r.0,
        ),
{
    let ghost before = tables@;
    let mut idx: usize = 0;
    while idx < VIRTUAL_SLOTS
        invariant
            idx <= VIRTUAL_SLOTS,
            tables@ == before,
            before == old(tables)@,
            before.wf(),
            !slots_exhausted(before.level2),
            forall|j: int| 0 <= j < idx ==> #[trigger] slot_entry(before.level2, j) != 0,
        decreases VIRTUAL_SLOTS - idx,
    {
        let e = VIRTUAL_SLOTS - 1 - idx;
        if tables.level2_entry(e) == 0 {
            let w = FRESH_BLOCK | attributes | (origin & !SECTION_OFFSET_MASK) | ACCESS_FLAG
                | BLOCK_TYPE;
            tables.set_level2(e, w);
            let k = idx as u64 + 1;
            proof {
                lemma_slot_address(k, origin);
            }
            let top = 0xffff_ffff_ffff_ffffu64 - ((k << 21) - 1);
            let va = top | (origin & SECTION_OFFSET_MASK);
            assert(first_free_slot(before.level2, idx as int));
            let address = entry_address(tables.root_address(), e);
            let steps = [
                Step::StoreEntry(address, w),
                Step::StoreBarrier,
                Step::FullBarrier,
                Step::InstructionBarrier,
                Step::CleanEntry(address),
                Step::InvalidateTlbEntry(va),
            ];
            assert(steps@ =~= mapping_steps(
                level2_entry_address(before, ((va >> 21) & 0x1ff) as int) as u64,
                slot_word(origin, attributes),
                va,
            ));
            return (va, steps);
        }
        idx = idx + 1;
    }
    proof {
        assert(slots_exhausted(before.level2));
    }
    (0, [Step::Nop; 6])
}

/// A run of mapping calls on the virtual table set: call `k` maps `origins[k]` with
/// `attributes[k]` on `states[k]`, leaves `states[k + 1]` and returns `results[k]`.
pub open spec fn map_run(
    states: Seq<TableSetView>,
    origins: Seq<u64>,
    attributes: Seq<u64>,
    results: Seq<u64>,
) -> bool {
    &&& states.len() == results.len() + 1
    &&& origins.len() == results.len()
    &&& attributes.len() == results.len()
    &&& forall|k: int| 0 <= k < states.len() ==> (#[trigger] states[k]).wf()
    &&& forall|k: int|
        0 <= k < results.len() ==> map_post(
            states[k],
            states[k + 1],
            origins[k],
            attributes[k],
            #[trigger] results[k],
        )
}

/// The slot that a call took.
proof fn lemma_taken_slot(
    before: TableSetView,
    after: TableSetView,
    origin: u64,
    attributes: u64,
    va: u64,
) -> (i: int)
    requires
        before.wf(),
        map_post(before, after, origin, attributes, va),
    ensures
        first_free_slot(before.level2, i),
        after.level2 == before.level2.update(slot_index(i), slot_word(origin, attributes)),
        va == slot_base(i) + origin % 0x20_0000,
        forall|j: int| 0 <= j <= i ==> #[trigger] slot_entry(after.level2, j) != 0,
        forall|j: int|
            0 <= j < VIRTUAL_SLOTS && slot_entry(before.level2, j) != 0 ==> #[trigger] slot_entry(
                after.level2,
                j,
            ) != 0,
{
    let i = choose|i: int|
        first_free_slot(before.level2, i) && after.level2 == before.level2.update(
            slot_index(i),
            slot_word(origin, attributes),
        ) && va == slot_base(i) + origin % 0x20_0000;
    lemma_slot_word_taken(origin, attributes);
    assert forall|j: int| 0 <= j <= i implies #[trigger] slot_entry(after.level2, j) != 0 by {
        if j < i {
            assert(slot_entry(before.level2, j) != 0);
        }
    }
    i
}

/// Slots that are taken stay taken along a run.
proof fn lemma_taken_stay_taken(
    states: Seq<TableSetView>,
    origins: Seq<u64>,
    attributes: Seq<u64>,
    results: Seq<u64>,
    from: int,
    to: int,
    i: int,
)
    requires
        map_run(states, origins, attributes, results),
        0 <= from <= to < states.len(),
        i < VIRTUAL_SLOTS,
        forall|j: int| 0 <= j <= i ==> #[trigger] slot_entry(states[from].level2, j) != 0,
    ensures
        forall|j: int| 0 <= j <= i ==> #[trigger] slot_entry(states[to].level2, j) != 0,
    decreases to - from,
{
    if from < to {
        let k = to - 1;
        lemma_taken_stay_taken(states, origins, attributes, results, from, k, i);
        assert(map_post(states[k], states[k + 1], origins[k], attributes[k], results[k]));
        assert(states[k].wf());
        lemma_taken_slot(states[k], states[to], origins[k], attributes[k], results[k]);
        assert forall|j: int| 0 <= j <= i implies #[trigger] slot_entry(states[to].level2, j)
            != 0 by {
            assert(slot_entry(states[k].level2, j) != 0);
        }
    }
}

/// Along any run of mapping calls, a later call returns an address below that of an earlier
/// one, and the whole 2 MB slot that holds it lies below the slot of the earlier one: two
/// calls never hand out overlapping virtual ranges.
pub proof fn lemma_mappings_descend(
    states: Seq<TableSetView>,
    origins: Seq<u64>,
    attributes: Seq<u64>,
    results: Seq<u64>,
    a: int,
    b: int,
)
    requires
        map_run(states, origins, attributes, results),
        0 <= a < b < results.len(),
    ensures
        results[b] < results[a],
        results[b] - origins[b] % 0x20_0000 + 0x20_0000 <= results[a] - origins[a] % 0x20_0000,
{
    assert(map_post(states[a], states[a + 1], origins[a], attributes[a], results[a]));
    assert(map_post(states[b], states[b + 1], origins[b], attributes[b], results[b]));
    assert(states[a].wf() && states[b].wf());
    let ia = lemma_taken_slot(states[a], states[a + 1], origins[a], attributes[a], results[a]);
    lemma_taken_stay_taken(states, origins, attributes, results, a + 1, b, ia);
    let ib = lemma_taken_slot(states[b], states[b + 1], origins[b], attributes[b], results[b]);
    if ib <= ia {
        assert(slot_entry(states[b].level2, ib) != 0);
    }
}

/// Along a run from a virtual table set with every slot free, call `k` takes slot `k`.
proof fn lemma_fresh_run_prefix(
    states: Seq<TableSetView>,
    origins: Seq<u64>,
    attributes: Seq<u64>,
    results: Seq<u64>,
    k: int,
)
    requires
        map_run(states, origins, attributes, results),
        forall|j: int| 0 <= j < VIRTUAL_SLOTS ==> #[trigger] slot_entry(states[0].level2, j) == 0,
        0 <= k <= results.len(),
        k <= VIRTUAL_SLOTS,
    ensures
        forall|j: int| 0 <= j < k ==> #[trigger] slot_entry(states[k].level2, j) != 0,
        forall|j: int| k <= j < VIRTUAL_SLOTS ==> #[trigger] slot_entry(states[k].level2, j) == 0,
        forall|m: int| 0 <= m < k ==> #[trigger] results[m] == slot_base(m) + origins[m] % 0x20_0000,
    decreases k,
{
    if k > 0 {
        let m = k - 1;
        lemma_fresh_run_prefix(states, origins, attributes, results, m);
        assert(map_post(states[m], states[k], origins[m], attributes[m], results[m]));
        assert(states[m].wf());
        let i = lemma_taken_slot(states[m], states[k], origins[m], attributes[m], results[m]);
        if i < m {
            assert(slot_entry(states[m].level2, i) != 0);
        }
        if i > m {
            assert(slot_entry(states[m].level2, m) == 0);
        }
        assert(i == m);
        assert forall|j: int| k <= j < VIRTUAL_SLOTS implies #[trigger] slot_entry(
            states[k].level2,
            j,
        ) == 0 by {
            assert(slot_entry(states[m].level2, j) == 0);
        }
    }
}

/// From a virtual table set with every slot free, 512 calls take the slots one by one from
/// the top, call `k` returning an address in the `k`-th 2 MB block down from the top; then
/// every slot is taken, so no further call is admitted and `has_free_slot` says so: a 513th
/// mapping can only stop, it never wraps around to a slot in use.
pub proof fn lemma_fresh_slots_run_out(
    states: Seq<TableSetView>,
    origins: Seq<u64>,
    attributes: Seq<u64>,
    results: Seq<u64>,
)
    requires
        map_run(states, origins, attributes, results),
        forall|j: int| 0 <= j < VIRTUAL_SLOTS ==> #[trigger] slot_entry(states[0].level2, j) == 0,
        results.len() == VIRTUAL_SLOTS,
    ensures
        forall|m: int|
            0 <= m < VIRTUAL_SLOTS ==> #[trigger] results[m] == slot_base(m) + origins[m] % 0x20_0000,
        slots_exhausted(states[VIRTUAL_SLOTS as int].level2),
{
    lemma_fresh_run_prefix(states, origins, attributes, results, VIRTUAL_SLOTS as int);
}

} // verus!
