//! Turning translation on and off at exception level 2, where one table base register holds
//! the physical table set.
use crate::registers::{
    build_hcr_single_stage, build_mair_el2, build_sctlr_disable, build_sctlr_enable,
    build_table_base, build_tcr_el2, hcr_single_stage, mair_el2, sctlr_disable, sctlr_enable,
    table_base, tcr_el2, ControlRegister,
};
use crate::sequence::Step;
use vstd::prelude::*;

verus! {

/// The steps that turn translation on at exception level 2.
pub open spec fn enable_steps(ttbr0_addr: u64) -> Seq<Step> {
    seq![
        Step::WriteRegister(ControlRegister::MemoryAttributes, mair_el2()),
        Step::WriteRegister(ControlRegister::TableBase0, table_base(ttbr0_addr)),
        Step::WriteRegister(ControlRegister::TranslationControl, tcr_el2()),
        Step::WriteRegister(ControlRegister::HypervisorControl, hcr_single_stage()),
        Step::InstructionBarrier,
        Step::WriteRegister(ControlRegister::SystemControl, sctlr_enable()),
        Step::Nop,
        Step::Nop,
        Step::InstructionBarrier,
        Step::InvalidateTlbAll,
    ]
}

/// The steps that turn translation off at exception level 2; the tables stay as they are.
pub open spec fn disable_steps() -> Seq<Step> {
    seq![Step::WriteRegister(ControlRegister::SystemControl, sctlr_disable()), Step::InvalidateTlbAll]
}

/// Turn translation on: write the memory attribute profiles, the table base register and the
/// translation control, turn the second translation stage off, make them visible, turn
/// translation and the caches on, let the pipeline settle, and drop stale translation cache
/// entries.
pub fn enable_mmu(ttlb_base_addr: u64) -> (r: [Step; 10])
    ensures
        r@ == enable_steps(ttlb_base_addr),
{
    let r = [
        Step::WriteRegister(ControlRegister::MemoryAttributes, build_mair_el2()),
        Step::WriteRegister(ControlRegister::TableBase0, build_table_base(ttlb_base_addr)),
        Step::WriteRegister(ControlRegister::TranslationControl, build_tcr_el2()),
        Step::WriteRegister(ControlRegister::HypervisorControl, build_hcr_single_stage()),
        Step::InstructionBarrier,
        Step::WriteRegister(ControlRegister::SystemControl, build_sctlr_enable()),
        Step::Nop,
        Step::Nop,
        Step::InstructionBarrier,
        Step::InvalidateTlbAll,
    ];
    assert(r@ =~= enable_steps(ttlb_base_addr));
    r
}

/// Turn translation and the caches off and drop the translation cache entries.
pub fn disable_mmu() -> (r: [Step; 2])
    ensures
        r@ == disable_steps(),
{
    let r = [
        Step::WriteRegister(ControlRegister::SystemControl, build_sctlr_disable()),
        Step::InvalidateTlbAll,
    ];
    assert(r@ =~= disable_steps());
    r
}

} // verus!
