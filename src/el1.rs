//! Turning translation on and off at exception level 1, where two table base registers hold
//! the physical and the virtual table set.
use crate::registers::{
    build_mair_el1, build_sctlr_disable, build_sctlr_enable, build_table_base, build_tcr_el1,
    mair_el1, sctlr_disable, sctlr_enable, table_base, tcr_el1, ControlRegister,
};
use crate::sequence::Step;
use vstd::prelude::*;

verus! {

/// The steps that turn translation on at exception level 1.
pub open spec fn enable_steps(ttbr0_addr: u64, ttbr1_addr: u64) -> Seq<Step> {
    seq![
        Step::WriteRegister(ControlRegister::MemoryAttributes, mair_el1()),
        Step::WriteRegister(ControlRegister::TableBase0, table_base(ttbr0_addr)),
        Step::WriteRegister(ControlRegister::TableBase1, table_base(ttbr1_addr)),
        Step::WriteRegister(ControlRegister::TranslationControl, tcr_el1()),
        Step::InstructionBarrier,
        Step::WriteRegister(ControlRegister::SystemControl, sctlr_enable()),
        Step::Nop,
        Step::Nop,
        Step::InstructionBarrier,
        Step::InvalidateTlbAll,
    ]
}

/// The steps that turn translation off at exception level 1; the tables stay as they are.
pub open spec fn disable_steps() -> Seq<Step> {
    seq![Step::WriteRegister(ControlRegister::SystemControl, sctlr_disable()), Step::InvalidateTlbAll]
}

/// Turn translation on: write the memory attribute profiles, both table base registers and
/// the translation control, make them visible, turn translation and the caches on, let the
/// pipeline settle, and drop stale translation cache entries.
pub fn enable_mmu(ttbr0_addr: u64, ttbr1_addr: u64) -> (r: [Step; 10])
    ensures
        r@ == enable_steps(ttbr0_addr, ttbr1_addr),
{
    let r = [
        Step::WriteRegister(ControlRegister::MemoryAttributes, build_mair_el1()),
        Step::WriteRegister(ControlRegister::TableBase0, build_table_base(ttbr0_addr)),
        Step::WriteRegister(ControlRegister::TableBase1, build_table_base(ttbr1_addr)),
        Step::WriteRegister(ControlRegister::TranslationControl, build_tcr_el1()),
        Step::InstructionBarrier,
        Step::WriteRegister(ControlRegister::SystemControl, build_sctlr_enable()),
        Step::Nop,
        Step::Nop,
        Step::InstructionBarrier,
        Step::InvalidateTlbAll,
    ];
    assert(r@ =~= enable_steps(ttbr0_addr, ttbr1_addr));
    r
}

/// Turn translation and the caches off and drop the translation cache entries.
pub fn disable_mmu() -> (r: [Step; 2])
    ensures
        r@ == disable_steps(),
{
    let r = [
        Step::WriteRegister(ControlRegister::SystemControl, build_sctlr_disable()),
        Step::InvalidateTlbAll,
    ];
    assert(r@ =~= disable_steps());
    r
}

} // verus!
