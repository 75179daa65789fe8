//! Translation table entries: the 64-bit words that the hardware table walker reads.
//!
//! A table entry points at a next-level table. A block entry maps 2 MB at level 2, and a page
//! entry maps 4 KB at the leaf level; both carry the same attribute fields.
//!
//! | Bits        | Table entry   | Block / page entry  |
//! |-------------|---------------|---------------------|
//! | 1:0         | type          | type                |
//! | 4:2         |               | memory attribute    |
//! | 5           |               | non-secure          |
//! | 7:6         |               | access permission   |
//! | 9:8         |               | shareability        |
//! | 10          |               | access flag         |
//! | 11          |               | not global          |
//! | 47:12       | table address | output address      |
//! | 52          |               | contiguous hint     |
//! | 53          |               | privileged XN       |
//! | 54          |               | execute never       |
//! | 59          | privileged XN |                     |
//! | 60          | execute never |                     |
//! | 62:61       | access perm.  |                     |
//! | 63          | non-secure    |                     |
use crate::field::{
    encode_field, extract_field, field_bits, field_value, raw_field_bits, read_field,
};
use vstd::prelude::*;

verus! {

/// Mask of the address field (bits 47:12), before it is shifted into place.
pub const ADDR_MASK: u64 = 0xf_ffff_ffff;

/// Offset of the address field.
pub const ADDR_SHIFT: u64 = 12;

/// Memory attribute index of device memory (non-gathering, non-reordering, no early write
/// acknowledgement).
pub const MAIR_DEVICE: u8 = 0;

/// Memory attribute index of non-cacheable normal memory.
pub const MAIR_NON_CACHEABLE: u8 = 3;

/// Memory attribute index of write-back cacheable normal memory.
pub const MAIR_NORMAL: u8 = 4;

/// Shareability code of inner-shareable memory.
pub const SH_INNER: u8 = 3;

/// The type of a block or page entry, from its low two bits.
#[derive(Clone, Copy, Debug, PartialEq, Eq, Structural)]
pub enum EntryKind {
    /// Bits 1:0 are `00` (or the reserved `10`): the entry maps nothing.
    Invalid,
    /// Bits 1:0 are `01`: a 2 MB block at level 2.
    Block,
    /// Bits 1:0 are `11`: a 4 KB page at the leaf level.
    Page,
}

/// The attribute fields shared by block and page entries.
#[derive(Clone, Copy, Debug, PartialEq, Eq, Structural)]
pub struct BlockAttributes {
    /// Index into the memory attribute register (3 bits).
    pub mem_attr: u8,
    /// The output address lies in the non-secure address map.
    pub non_secure: bool,
    /// Data access permission, AP\[2:1\] (2 bits).
    pub access_permission: u8,
    /// Shareability (2 bits).
    pub shareability: u8,
    /// Access flag.
    pub access_flag: bool,
    /// The entry holds for the current address space identifier only.
    pub not_global: bool,
    /// Contiguous hint.
    pub contiguous: bool,
    /// Never executable at the privileged level.
    pub privileged_execute_never: bool,
    /// Never executable.
    pub execute_never: bool,
}

/// The fields of a block or page entry.
#[derive(Clone, Copy, Debug, PartialEq, Eq, Structural)]
pub struct BlockPageEntry {
    pub kind: EntryKind,
    pub attributes: BlockAttributes,
    /// The output address; only bits 47:12 are held.
    pub output_address: u64,
}

/// The fields of a table entry.
#[derive(Clone, Copy, Debug, PartialEq, Eq, Structural)]
pub struct TableEntry {
    /// Bits 1:0 are `11`; otherwise they are `00`.
    pub valid: bool,
    /// The address of the next-level table; only bits 47:12 are held.
    pub next_table: u64,
    pub privileged_execute_never: bool,
    pub execute_never: bool,
    /// Access permission limit for the next levels (2 bits).
    pub access_permission: u8,
    pub non_secure: bool,
}

pub open spec fn bit(b: bool) -> u64 {
    if b {
        1
    } else {
        0
    }
}

pub open spec fn kind_code(k: EntryKind) -> u64 {
    match k {
        EntryKind::Invalid => 0,
        EntryKind::Block => 1,
        EntryKind::Page => 3,
    }
}

pub open spec fn kind_of_code(c: u64) -> EntryKind {
    if c == 1 {
        EntryKind::Block
    } else if c == 3 {
        EntryKind::Page
    } else {
        EntryKind::Invalid
    }
}

/// An address that the address field can hold: page aligned, below 2^48.
pub open spec fn is_table_address(a: u64) -> bool {
    a % 0x1000 == 0 && a < 0x1_0000_0000_0000
}

pub open spec fn wf_attributes(a: BlockAttributes) -> bool {
    a.mem_attr < 8 && a.access_permission < 4 && a.shareability < 4
}

/// The fields fit their widths, so that the word holds all of them.
pub open spec fn wf_block_page(e: BlockPageEntry) -> bool {
    wf_attributes(e.attributes) && is_table_address(e.output_address)
}

pub open spec fn wf_table(e: TableEntry) -> bool {
    e.access_permission < 4 && is_table_address(e.next_table)
}

/// The word of a block or page entry, field by field.
pub open spec fn block_page_bits(
    t: u64,
    ma: u64,
    ns: u64,
    ap: u64,
    sh: u64,
    af: u64,
    ng: u64,
    addr: u64,
    c: u64,
    pxn: u64,
    xn: u64,
) -> u64 {
    field_bits(t, 3, 0) | field_bits(ma, 7, 2) | field_bits(ns, 1, 5) | field_bits(ap, 3, 6)
        | field_bits(sh, 3, 8) | field_bits(af, 1, 10) | field_bits(ng, 1, 11) | raw_field_bits(
        addr,
        0xf_ffff_ffff,
        12,
    ) | field_bits(c, 1, 52) | field_bits(pxn, 1, 53) | field_bits(xn, 1, 54)
}

pub open spec fn block_page_word(e: BlockPageEntry) -> u64 {
    block_page_bits(
        kind_code(e.kind),
        e.attributes.mem_attr as u64,
        bit(e.attributes.non_secure),
        e.attributes.access_permission as u64,
        e.attributes.shareability as u64,
        bit(e.attributes.access_flag),
        bit(e.attributes.not_global),
        e.output_address,
        bit(e.attributes.contiguous),
        bit(e.attributes.privileged_execute_never),
        bit(e.attributes.execute_never),
    )
}

/// The attribute fields of a block or page word.
pub open spec fn attributes_of(w: u64) -> BlockAttributes {
    BlockAttributes {
        mem_attr: field_value(w, 7, 2) as u8,
        non_secure: field_value(w, 1, 5) == 1,
        access_permission: field_value(w, 3, 6) as u8,
        shareability: field_value(w, 3, 8) as u8,
        access_flag: field_value(w, 1, 10) == 1,
        not_global: field_value(w, 1, 11) == 1,
        contiguous: field_value(w, 1, 52) == 1,
        privileged_execute_never: field_value(w, 1, 53) == 1,
        execute_never: field_value(w, 1, 54) == 1,
    }
}

/// The fields of a block or page word.
pub open spec fn block_page_of(w: u64) -> BlockPageEntry {
    BlockPageEntry {
        kind: kind_of_code(field_value(w, 3, 0)),
        attributes: attributes_of(w),
        output_address: raw_field_bits(w, 0xf_ffff_ffff, 12),
    }
}

/// The word of a table entry, field by field.
pub open spec fn table_bits(t: u64, addr: u64, pxn: u64, xn: u64, ap: u64, ns: u64) -> u64 {
    field_bits(t, 3, 0) | raw_field_bits(addr, 0xf_ffff_ffff, 12) | field_bits(pxn, 1, 59)
        | field_bits(xn, 1, 60) | field_bits(ap, 3, 61) | field_bits(ns, 1, 63)
}

pub open spec fn table_word(e: TableEntry) -> u64 {
    table_bits(
        if e.valid {
            3
        } else {
            0
        },
        e.next_table,
        bit(e.privileged_execute_never),
        bit(e.execute_never),
        e.access_permission as u64,
        bit(e.non_secure),
    )
}

pub open spec fn table_of(w: u64) -> TableEntry {
    TableEntry {
        valid: field_value(w, 3, 0) == 3,
        next_table: raw_field_bits(w, 0xf_ffff_ffff, 12),
        privileged_execute_never: field_value(w, 1, 59) == 1,
        execute_never: field_value(w, 1, 60) == 1,
        access_permission: field_value(w, 3, 61) as u8,
        non_secure: field_value(w, 1, 63) == 1,
    }
}

fn flag(b: bool) -> (r: u64)
    ensures
        r == bit(b),
{
    if b {
        1
    } else {
        0
    }
}

fn kind_to_code(k: EntryKind) -> (r: u64)
    ensures
        r == kind_code(k),
{
    match k {
        EntryKind::Invalid => 0,
        EntryKind::Block => 1,
        EntryKind::Page => 3,
    }
}

fn code_to_kind(c: u64) -> (r: EntryKind)
    ensures
        r == kind_of_code(c),
{
    if c == 1 {
        EntryKind::Block
    } else if c == 3 {
        EntryKind::Page
    } else {
        EntryKind::Invalid
    }
}

/// Encode a block or page entry into its word.
pub fn encode_block_page(e: &BlockPageEntry) -> (r: u64)
    ensures
        r == block_page_word(*e),
{
    let a = &e.attributes;
    encode_field(3, 0, kind_to_code(e.kind)) | encode_field(7, 2, a.mem_attr as u64)
        | encode_field(1, 5, flag(a.non_secure)) | encode_field(3, 6, a.access_permission as u64)
        | encode_field(3, 8, a.shareability as u64) | encode_field(1, 10, flag(a.access_flag))
        | encode_field(1, 11, flag(a.not_global)) | extract_field(
        ADDR_MASK,
        ADDR_SHIFT,
        e.output_address,
    ) | encode_field(1, 52, flag(a.contiguous)) | encode_field(
        1,
        53,
        flag(a.privileged_execute_never),
    ) | encode_field(1, 54, flag(a.execute_never))
}

/// Read the attribute fields of a block or page word.
pub fn decode_attributes(w: u64) -> (r: BlockAttributes)
    ensures
        r == attributes_of(w),
{
    BlockAttributes {
        mem_attr: read_field(7, 2, w) as u8,
        non_secure: read_field(1, 5, w) == 1,
        access_permission: read_field(3, 6, w) as u8,
        shareability: read_field(3, 8, w) as u8,
        access_flag: read_field(1, 10, w) == 1,
        not_global: read_field(1, 11, w) == 1,
        contiguous: read_field(1, 52, w) == 1,
        privileged_execute_never: read_field(1, 53, w) == 1,
        execute_never: read_field(1, 54, w) == 1,
    }
}

/// Decode a block or page word into its fields.
pub fn decode_block_page(w: u64) -> (r: BlockPageEntry)
    ensures
        r == block_page_of(w),
{
    BlockPageEntry {
        kind: code_to_kind(read_field(3, 0, w)),
        attributes: decode_attributes(w),
        output_address: extract_field(ADDR_MASK, ADDR_SHIFT, w),
    }
}

/// Encode a table entry into its word.
pub fn encode_table(e: &TableEntry) -> (r: u64)
    ensures
        r == table_word(*e),
{
    let t: u64 = if e.valid {
        3
    } else {
        0
    };
    encode_field(3, 0, t) | extract_field(ADDR_MASK, ADDR_SHIFT, e.next_table) | encode_field(
        1,
        59,
        flag(e.privileged_execute_never),
    ) | encode_field(1, 60, flag(e.execute_never)) | encode_field(
        3,
        61,
        e.access_permission as u64,
    ) | encode_field(1, 63, flag(e.non_secure))
}

/// Decode a table word into its fields.
pub fn decode_table(w: u64) -> (r: TableEntry)
    ensures
        r == table_of(w),
{
    TableEntry {
        valid: read_field(3, 0, w) == 3,
        next_table: extract_field(ADDR_MASK, ADDR_SHIFT, w),
        privileged_execute_never: read_field(1, 59, w) == 1,
        execute_never: read_field(1, 60, w) == 1,
        access_permission: read_field(3, 61, w) as u8,
        non_secure: read_field(1, 63, w) == 1,
    }
}

proof fn lemma_block_page_bits(
    t: u64,
    ma: u64,
    ns: u64,
    ap: u64,
    sh: u64,
    af: u64,
    ng: u64,
    addr: u64,
    c: u64,
    pxn: u64,
    xn: u64,
)
    by (bit_vector)
    requires
        t < 4,
        ma < 8,
        ns < 2,
        ap < 4,
        sh < 4,
        af < 2,
        ng < 2,
        addr % 0x1000 == 0,
        addr < 0x1_0000_0000_0000,
        c < 2,
        pxn < 2,
        xn < 2,
    ensures
        field_value(block_page_bits(t, ma, ns, ap, sh, af, ng, addr, c, pxn, xn), 3, 0) == t,
        field_value(block_page_bits(t, ma, ns, ap, sh, af, ng, addr, c, pxn, xn), 7, 2) == ma,
        field_value(block_page_bits(t, ma, ns, ap, sh, af, ng, addr, c, pxn, xn), 1, 5) == ns,
        field_value(block_page_bits(t, ma, ns, ap, sh, af, ng, addr, c, pxn, xn), 3, 6) == ap,
        field_value(block_page_bits(t, ma, ns, ap, sh, af, ng, addr, c, pxn, xn), 3, 8) == sh,
        field_value(block_page_bits(t, ma, ns, ap, sh, af, ng, addr, c, pxn, xn), 1, 10) == af,
        field_value(block_page_bits(t, ma, ns, ap, sh, af, ng, addr, c, pxn, xn), 1, 11) == ng,
        raw_field_bits(
            block_page_bits(t, ma, ns, ap, sh, af, ng, addr, c, pxn, xn),
            0xf_ffff_ffff,
            12,
        ) == addr,
        field_value(block_page_bits(t, ma, ns, ap, sh, af, ng, addr, c, pxn, xn), 1, 52) == c,
        field_value(block_page_bits(t, ma, ns, ap, sh, af, ng, addr, c, pxn, xn), 1, 53) == pxn,
        field_value(block_page_bits(t, ma, ns, ap, sh, af, ng, addr, c, pxn, xn), 1, 54) == xn,
{
}

proof fn lemma_table_bits(t: u64, addr: u64, pxn: u64, xn: u64, ap: u64, ns: u64)
    by (bit_vector)
    requires
        t < 4,
        addr % 0x1000 == 0,
        addr < 0x1_0000_0000_0000,
        pxn < 2,
        xn < 2,
        ap < 4,
        ns < 2,
    ensures
        field_value(table_bits(t, addr, pxn, xn, ap, ns), 3, 0) == t,
        raw_field_bits(table_bits(t, addr, pxn, xn, ap, ns), 0xf_ffff_ffff, 12) == addr,
        field_value(table_bits(t, addr, pxn, xn, ap, ns), 1, 59) == pxn,
        field_value(table_bits(t, addr, pxn, xn, ap, ns), 1, 60) == xn,
        field_value(table_bits(t, addr, pxn, xn, ap, ns), 3, 61) == ap,
        field_value(table_bits(t, addr, pxn, xn, ap, ns), 1, 63) == ns,
{
}

/// Decoding the word of a block or page entry gives back every field of it, for every entry
/// whose fields fit their widths.
pub proof fn lemma_block_page_round_trip(e: BlockPageEntry)
    requires
        wf_block_page(e),
    ensures
        block_page_of(block_page_word(e)) == e,
{
    let a = e.attributes;
    lemma_block_page_bits(
        kind_code(e.kind),
        a.mem_attr as u64,
        bit(a.non_secure),
        a.access_permission as u64,
        a.shareability as u64,
        bit(a.access_flag),
        bit(a.not_global),
        e.output_address,
        bit(a.contiguous),
        bit(a.privileged_execute_never),
        bit(a.execute_never),
    );
}

/// Decoding the word of a table entry gives back every field of it, for every entry whose
/// fields fit their widths.
pub proof fn lemma_table_round_trip(e: TableEntry)
    requires
        wf_table(e),
    ensures
        table_of(table_word(e)) == e,
{
    lemma_table_bits(
        if e.valid {
            3
        } else {
            0
        },
        e.next_table,
        bit(e.privileged_execute_never),
        bit(e.execute_never),
        e.access_permission as u64,
        bit(e.non_secure),
    );
}

} // verus!
