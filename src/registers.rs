//! The words that the control registers take when translation is turned on or off. Each
//! word is built field by field; a write changes the bits of its mask only.
use crate::field::{encode_field, field_bits};
use vstd::prelude::*;

verus! {

/// A control register of the current exception level.
#[derive(Clone, Copy, Debug, PartialEq, Eq, Structural)]
pub enum ControlRegister {
    /// The memory attribute register: the eight profiles that entries select by index.
    MemoryAttributes,
    /// The translation control register.
    TranslationControl,
    /// The system control register.
    SystemControl,
    /// The hypervisor configuration register (exception level 2).
    HypervisorControl,
    /// Table base register 0.
    TableBase0,
    /// Table base register 1 (exception level 1).
    TableBase1,
}

/// What a register write sets: the bits of `mask` take those of `value`.
#[derive(Clone, Copy, Debug, PartialEq, Eq, Structural)]
pub struct RegisterWrite {
    pub value: u64,
    pub mask: u64,
}

/// Device memory, non-gathering, non-reordering, no early write acknowledgement.
pub const PROFILE_DEVICE_NGNRNE: u64 = 0x00;
/// Device memory, non-gathering, non-reordering, early write acknowledgement.
pub const PROFILE_DEVICE_NGNRE: u64 = 0x04;
/// Device memory, gathering, reordering, early write acknowledgement.
pub const PROFILE_DEVICE_GRE: u64 = 0x0c;
/// Normal memory, inner and outer non-cacheable.
pub const PROFILE_NON_CACHEABLE: u64 = 0x44;
/// Normal memory, inner and outer write-back, read and write allocate.
pub const PROFILE_NORMAL: u64 = 0xff;
/// Normal memory, outer write-through transient, inner write-through transient.
pub const PROFILE_WT_TRANSIENT: u64 = 0x33;
/// Normal memory, outer and inner write-through non-transient.
pub const PROFILE_WT: u64 = 0xbb;
/// Normal memory, outer and inner write-back transient.
pub const PROFILE_WB_TRANSIENT: u64 = 0x55;

/// Memory profiles of exception level 1: indices 0 to 7.
pub open spec fn mair_el1() -> RegisterWrite {
    RegisterWrite {
        value: field_bits(PROFILE_DEVICE_NGNRNE, 0xff, 0) | field_bits(PROFILE_DEVICE_NGNRE, 0xff, 8)
            | field_bits(PROFILE_DEVICE_GRE, 0xff, 16) | field_bits(PROFILE_NON_CACHEABLE, 0xff, 24)
            | field_bits(PROFILE_NORMAL, 0xff, 32) | field_bits(PROFILE_WT_TRANSIENT, 0xff, 40)
            | field_bits(PROFILE_WT, 0xff, 48) | field_bits(PROFILE_WB_TRANSIENT, 0xff, 56),
        mask: 0xffff_ffff_ffff_ffff,
    }
}

/// Memory profiles of exception level 2: indices 0 to 4.
pub open spec fn mair_el2() -> RegisterWrite {
    RegisterWrite {
        value: field_bits(PROFILE_DEVICE_NGNRNE, 0xff, 0) | field_bits(PROFILE_DEVICE_NGNRE, 0xff, 8)
            | field_bits(PROFILE_DEVICE_GRE, 0xff, 16) | field_bits(PROFILE_NON_CACHEABLE, 0xff, 24)
            | field_bits(PROFILE_NORMAL, 0xff, 32),
        mask: 0xff_ffff_ffff,
    }
}

/// Translation control of exception level 1, for both table base registers: regions of
/// 2^39 bytes (T0SZ = T1SZ = 25), walks enabled, write-back cacheable and inner shareable
/// table walks, 4 KB granules (TG0 = 0b00, TG1 = 0b10), 32-bit physical addresses, top byte
/// ignored for table base register 0.
pub open spec fn tcr_el1() -> RegisterWrite {
    RegisterWrite {
        value: field_bits(25, 0x3f, 0) | field_bits(0, 1, 7) | field_bits(1, 3, 8) | field_bits(1, 3, 10)
            | field_bits(3, 3, 12) | field_bits(0, 3, 14) | field_bits(25, 0x3f, 16) | field_bits(0, 1, 23)
            | field_bits(1, 3, 24) | field_bits(1, 3, 26) | field_bits(3, 3, 28) | field_bits(2, 3, 30)
            | field_bits(0, 7, 32) | field_bits(1, 1, 37),
        mask: field_bits(0x3f, 0x3f, 0) | field_bits(1, 1, 7) | field_bits(3, 3, 8) | field_bits(3, 3, 10)
            | field_bits(3, 3, 12) | field_bits(3, 3, 14) | field_bits(0x3f, 0x3f, 16) | field_bits(1, 1, 23)
            | field_bits(3, 3, 24) | field_bits(3, 3, 26) | field_bits(3, 3, 28) | field_bits(3, 3, 30)
            | field_bits(7, 7, 32) | field_bits(1, 1, 37),
    }
}

/// Translation control of exception level 2: a region of 2^39 bytes (T0SZ = 25),
/// non-cacheable outer shareable table walks, 4 KB granule, 32-bit physical addresses, top
/// byte ignored.
pub open spec fn tcr_el2() -> RegisterWrite {
    RegisterWrite {
        value: field_bits(25, 0x3f, 0) | field_bits(0, 3, 8) | field_bits(0, 3, 10) | field_bits(2, 3, 12)
            | field_bits(0, 3, 14) | field_bits(0, 7, 16) | field_bits(1, 1, 20),
        mask: field_bits(0x3f, 0x3f, 0) | field_bits(3, 3, 8) | field_bits(3, 3, 10) | field_bits(3, 3, 12)
            | field_bits(3, 3, 14) | field_bits(7, 7, 16) | field_bits(1, 1, 20),
    }
}

/// System control that turns translation (M), the data cache (C) and the instruction cache
/// (I) on, and alignment checks (A) and stack alignment checks (SA) off.
pub open spec fn sctlr_enable() -> RegisterWrite {
    RegisterWrite {
        value: field_bits(1, 1, 0) | field_bits(0, 1, 1) | field_bits(1, 1, 2) | field_bits(0, 1, 3)
            | field_bits(1, 1, 12),
        mask: field_bits(1, 1, 0) | field_bits(1, 1, 1) | field_bits(1, 1, 2) | field_bits(1, 1, 3)
            | field_bits(1, 1, 12),
    }
}

/// System control that turns translation and both caches off.
pub open spec fn sctlr_disable() -> RegisterWrite {
    RegisterWrite {
        value: field_bits(0, 1, 0) | field_bits(0, 1, 2) | field_bits(0, 1, 12),
        mask: field_bits(1, 1, 0) | field_bits(1, 1, 2) | field_bits(1, 1, 12),
    }
}

/// Hypervisor configuration without a second translation stage (VM) and without default
/// cacheability (DC).
pub open spec fn hcr_single_stage() -> RegisterWrite {
    RegisterWrite {
        value: field_bits(0, 1, 0) | field_bits(0, 1, 12),
        mask: field_bits(1, 1, 0) | field_bits(1, 1, 12),
    }
}

/// A table base register that holds the address of a level-1 table (BADDR, bits 47:0).
pub open spec fn table_base(address: u64) -> RegisterWrite {
    RegisterWrite { value: field_bits(address, 0xffff_ffff_ffff, 0), mask: 0xffff_ffff_ffff }
}

pub fn build_mair_el1() -> (r: RegisterWrite)
    ensures
        r == mair_el1(),
{
    RegisterWrite {
        value: encode_field(0xff, 0, PROFILE_DEVICE_NGNRNE) | encode_field(0xff, 8, PROFILE_DEVICE_NGNRE)
            | encode_field(0xff, 16, PROFILE_DEVICE_GRE) | encode_field(0xff, 24, PROFILE_NON_CACHEABLE)
            | encode_field(0xff, 32, PROFILE_NORMAL) | encode_field(0xff, 40, PROFILE_WT_TRANSIENT)
            | encode_field(0xff, 48, PROFILE_WT) | encode_field(0xff, 56, PROFILE_WB_TRANSIENT),
        mask: 0xffff_ffff_ffff_ffff,
    }
}

pub fn build_mair_el2() -> (r: RegisterWrite)
    ensures
        r == mair_el2(),
{
    RegisterWrite {
        value: encode_field(0xff, 0, PROFILE_DEVICE_NGNRNE) | encode_field(0xff, 8, PROFILE_DEVICE_NGNRE)
            | encode_field(0xff, 16, PROFILE_DEVICE_GRE) | encode_field(0xff, 24, PROFILE_NON_CACHEABLE)
            | encode_field(0xff, 32, PROFILE_NORMAL),
        mask: 0xff_ffff_ffff,
    }
}

pub fn build_tcr_el1() -> (r: RegisterWrite)
    ensures
        r == tcr_el1(),
{
    RegisterWrite {
        value: encode_field(0x3f, 0, 25) | encode_field(1, 7, 0) | encode_field(3, 8, 1) | encode_field(3, 10, 1)
            | encode_field(3, 12, 3) | encode_field(3, 14, 0) | encode_field(0x3f, 16, 25) | encode_field(1, 23, 0)
            | encode_field(3, 24, 1) | encode_field(3, 26, 1) | encode_field(3, 28, 3) | encode_field(3, 30, 2)
            | encode_field(7, 32, 0) | encode_field(1, 37, 1),
        mask: encode_field(0x3f, 0, 0x3f) | encode_field(1, 7, 1) | encode_field(3, 8, 3) | encode_field(3, 10, 3)
            | encode_field(3, 12, 3) | encode_field(3, 14, 3) | encode_field(0x3f, 16, 0x3f) | encode_field(1, 23, 1)
            | encode_field(3, 24, 3) | encode_field(3, 26, 3) | encode_field(3, 28, 3) | encode_field(3, 30, 3)
            | encode_field(7, 32, 7) | encode_field(1, 37, 1),
    }
}

pub fn build_tcr_el2() -> (r: RegisterWrite)
    ensures
        r == tcr_el2(),
{
    RegisterWrite {
        value: encode_field(0x3f, 0, 25) | encode_field(3, 8, 0) | encode_field(3, 10, 0) | encode_field(3, 12, 2)
            | encode_field(3, 14, 0) | encode_field(7, 16, 0) | encode_field(1, 20, 1),
        mask: encode_field(0x3f, 0, 0x3f) | encode_field(3, 8, 3) | encode_field(3, 10, 3) | encode_field(3, 12, 3)
            | encode_field(3, 14, 3) | encode_field(7, 16, 7) | encode_field(1, 20, 1),
    }
}

pub fn build_sctlr_enable() -> (r: RegisterWrite)
    ensures
        r == sctlr_enable(),
{
    RegisterWrite {
        value: encode_field(1, 0, 1) | encode_field(1, 1, 0) | encode_field(1, 2, 1) | encode_field(1, 3, 0)
            | encode_field(1, 12, 1),
        mask: encode_field(1, 0, 1) | encode_field(1, 1, 1) | encode_field(1, 2, 1) | encode_field(1, 3, 1)
            | encode_field(1, 12, 1),
    }
}

pub fn build_sctlr_disable() -> (r: RegisterWrite)
    ensures
        r == sctlr_disable(),
{
    RegisterWrite {
        value: encode_field(1, 0, 0) | encode_field(1, 2, 0) | encode_field(1, 12, 0),
        mask: encode_field(1, 0, 1) | encode_field(1, 2, 1) | encode_field(1, 12, 1),
    }
}

pub fn build_hcr_single_stage() -> (r: RegisterWrite)
    ensures
        r == hcr_single_stage(),
{
    RegisterWrite {
        value: encode_field(1, 0, 0) | encode_field(1, 12, 0),
        mask: encode_field(1, 0, 1) | encode_field(1, 12, 1),
    }
}

pub fn build_table_base(address: u64) -> (r: RegisterWrite)
    ensures
        r == table_base(address),
{
    RegisterWrite { value: encode_field(0xffff_ffff_ffff, 0, address), mask: 0xffff_ffff_ffff }
}

} // verus!
