use vstd::prelude::*;

verus! {

/// Size of the memory range one level-2 block entry covers (2 MB).
pub const SECTION_SIZE: usize = 0x20_0000;

/// Size of the memory range one page entry covers (4 KB).
pub const PAGE_SIZE: usize = 0x1000;

/// The low bits of an address that lie inside one page.
pub const PAGE_MASK: usize = 0xfff;

} // verus!
