//! A translation table set: one level-1 table, the level-2 array behind it, and a pool of
//! page tables for blocks that are split into pages. All of them are fixed arrays: nothing here
//! needs a heap.
//!
//! The set stands at a fixed physical address. Its parts follow each other there, each
//! 4 KB aligned: the level-1 table (512 entries), the two halves of the level-2 array (512
//! entries each) and the page tables of the pool (512 entries each).
use vstd::prelude::*;

verus! {

/// Entries of one table: a level-1 table, a half of the level-2 array, or a page table.
pub const TABLE_ENTRIES: usize = 512;

/// Entries of the level-2 array.
pub const LEVEL2_ENTRIES: usize = 1024;

/// Page tables in the pool.
pub const POOL_TABLES: usize = 2;

/// Bytes of one table.
pub const TABLE_BYTES: u64 = 0x1000;

/// Bytes of the whole set, from its base to the end of its last page table.
pub const SET_BYTES: u64 = 0x5000;

/// What a table set holds.
pub struct TableSetView {
    /// Physical address of the level-1 table, where the set begins.
    pub base: u64,
    pub level1: Seq<u64>,
    pub level2: Seq<u64>,
    /// The page tables of the pool, one after the other.
    pub pool: Seq<u64>,
    /// How many page tables of the pool are taken.
    pub pool_used: nat,
}

impl TableSetView {
    pub open spec fn wf(self) -> bool {
        &&& self.level1.len() == TABLE_ENTRIES
        &&& self.level2.len() == LEVEL2_ENTRIES
        &&& self.pool.len() == POOL_TABLES * TABLE_ENTRIES
        &&& self.pool_used <= POOL_TABLES
        &&& self.base % 0x1000 == 0
        &&& self.base + SET_BYTES <= 0x1_0000_0000_0000
    }

    /// Physical address of one half of the level-2 array.
    pub open spec fn level2_address(self, half: int) -> int {
        self.base + TABLE_BYTES + half * TABLE_BYTES
    }

    /// Physical address of one page table of the pool.
    pub open spec fn pool_address(self, k: int) -> int {
        self.base + 3 * TABLE_BYTES + k * TABLE_BYTES
    }

    /// Nothing but the level-2 array differs between the two sets.
    pub open spec fn same_but_level2(self, other: TableSetView) -> bool {
        &&& self.base == other.base
        &&& self.level1 == other.level1
        &&& self.pool == other.pool
        &&& self.pool_used == other.pool_used
    }
}

/// A translation table set, owned by the one component that writes to it.
pub struct TableSet {
    base: u64,
    level1: [u64; 512],
    level2: [u64; 1024],
    pool: [u64; 1024],
    pool_used: usize,
}

impl View for TableSet {
    type V = TableSetView;

    closed spec fn view(&self) -> TableSetView {
        TableSetView {
            base: self.base,
            level1: self.level1@,
            level2: self.level2@,
            pool: self.pool@,
            pool_used: self.pool_used as nat,
        }
    }
}

impl TableSet {
    /// A table set at physical address `base` with every entry zero (invalid) and no page
    /// table taken.
    pub fn new(base: u64) -> (r: TableSet)
        requires
            base % 0x1000 == 0,
            base + SET_BYTES <= 0x1_0000_0000_0000,
        ensures
            r@.wf(),
            r@.base == base,
            r@.level1 == Seq::new(TABLE_ENTRIES as nat, |i: int| 0u64),
            r@.level2 == Seq::new(LEVEL2_ENTRIES as nat, |i: int| 0u64),
            r@.pool == Seq::new((POOL_TABLES * TABLE_ENTRIES) as nat, |i: int| 0u64),
            r@.pool_used == 0,
    {
        let r = TableSet {
            base,
            level1: [0u64; 512],
            level2: [0u64; 1024],
            pool: [0u64; 1024],
            pool_used: 0,
        };
        assert(r.level1@ =~= Seq::new(TABLE_ENTRIES as nat, |i: int| 0u64));
        assert(r.level2@ =~= Seq::new(LEVEL2_ENTRIES as nat, |i: int| 0u64));
        assert(r.pool@ =~= Seq::new((POOL_TABLES * TABLE_ENTRIES) as nat, |i: int| 0u64));
        r
    }

    /// Physical address of the level-1 table: the value for a table base register.
    pub fn root_address(&self) -> (r: u64)
        ensures
            r == self@.base,
    {
        self.base
    }

    pub fn level1_entry(&self, i: usize) -> (r: u64)
        requires
            i < self@.level1.len(),
        ensures
            r == self@.level1[i as int],
    {
        self.level1[i]
    }

    pub fn level2_entry(&self, i: usize) -> (r: u64)
        requires
            i < self@.level2.len(),
        ensures
            r == self@.level2[i as int],
    {
        self.level2[i]
    }

    pub fn pool_entry(&self, i: usize) -> (r: u64)
        requires
            i < self@.pool.len(),
        ensures
            r == self@.pool[i as int],
    {
        self.pool[i]
    }

    /// How many page tables of the pool are taken.
    pub fn pool_tables_used(&self) -> (r: usize)
        ensures
            r == self@.pool_used,
    {
        self.pool_used
    }

    pub(crate) fn set_level1(&mut self, i: usize, w: u64)
        requires
            i < old(self)@.level1.len(),
        ensures
            final(self)@.level1 == old(self)@.level1.update(i as int, w),
            final(self)@.level2 == old(self)@.level2,
            final(self)@.pool == old(self)@.pool,
            final(self)@.base == old(self)@.base,
            final(self)@.pool_used == old(self)@.pool_used,
    {
        self.level1[i] = w;
    }

    pub(crate) fn set_level2(&mut self, i: usize, w: u64)
        requires
            i < old(self)@.level2.len(),
        ensures
            final(self)@.level2 == old(self)@.level2.update(i as int, w),
            final(self)@.same_but_level2(old(self)@),
    {
        self.level2[i] = w;
    }

    pub(crate) fn set_pool(&mut self, i: usize, w: u64)
        requires
            i < old(self)@.pool.len(),
        ensures
            final(self)@.pool == old(self)@.pool.update(i as int, w),
            final(self)@.level1 == old(self)@.level1,
            final(self)@.level2 == old(self)@.level2,
            final(self)@.base == old(self)@.base,
            final(self)@.pool_used == old(self)@.pool_used,
    {
        self.pool[i] = w;
    }

    pub(crate) fn set_pool_used(&mut self, n: usize)
        ensures
            final(self)@.pool_used == n,
            final(self)@.level1 == old(self)@.level1,
            final(self)@.level2 == old(self)@.level2,
            final(self)@.pool == old(self)@.pool,
            final(self)@.base == old(self)@.base,
    {
        self.pool_used = n;
    }
}

} // verus!
