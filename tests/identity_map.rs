use ruspiro_mmu::el1;
use ruspiro_mmu::el2;
use ruspiro_mmu::entry::{decode_block_page, decode_table, EntryKind};
use ruspiro_mmu::registers::{ControlRegister, RegisterWrite};
use ruspiro_mmu::sequence::Step;
use ruspiro_mmu::tables::TableSet;
use ruspiro_mmu::{exception_level, initialize, ttbr0, ttbr1, ExceptionLevel};

const PHYS_BASE: u64 = 0x8_0000;
const VIRT_BASE: u64 = 0x9_0000;

#[test]
fn initialize_maps_peripherals_as_device_memory() {
    let mut physical = TableSet::new(PHYS_BASE);
    let mut dynamic = TableSet::new(VIRT_BASE);
    let steps = initialize(&mut physical, &mut dynamic, 1, 0, 0x3F00_0000, 0x0020_0000);
    assert!(!steps.is_empty());
    let device = decode_block_page(physical.level2_entry(504));
    assert_eq!(device.kind, EntryKind::Block);
    assert_eq!(device.attributes.mem_attr, 0);
    assert!(device.attributes.access_flag);
    assert_eq!(device.output_address, 504 * 0x20_0000);
    let first = decode_block_page(physical.level2_entry(0));
    assert_eq!(first.kind, EntryKind::Block);
    assert_eq!(first.attributes.mem_attr, 4);
    assert_eq!(first.output_address, 0);
}

#[test]
fn identity_map_regions_and_peripherals() {
    let mut physical = TableSet::new(PHYS_BASE);
    let root = ttbr0::setup_translation_tables(&mut physical, 0, 0x3E00_0000, 0x0100_0000);
    assert_eq!(root, PHYS_BASE);
    for i in 0..1024usize {
        let e = decode_block_page(physical.level2_entry(i));
        if i < 513 {
            assert_eq!(e.kind, EntryKind::Block);
            assert_eq!(e.output_address, i as u64 * 0x20_0000);
            assert!(e.attributes.access_flag);
            assert_eq!(e.attributes.shareability, 3);
        }
        if i < 496 {
            assert_eq!(e.attributes.mem_attr, 4);
            assert!(e.attributes.non_secure);
        } else if i < 504 {
            assert_eq!(e.attributes.mem_attr, 3);
            assert!(!e.attributes.non_secure);
        } else if i < 513 {
            assert_eq!(e.attributes.mem_attr, 0);
            assert!(!e.attributes.non_secure);
        } else {
            assert_eq!(physical.level2_entry(i), 0);
        }
    }
    assert_eq!(physical.level2_entry(0), 0x0000_0000_0000_0731);
    assert_eq!(physical.level2_entry(496), 0x0000_0000_3e00_070d);
    assert_eq!(physical.level2_entry(512), 0x0000_0000_4000_0701);
}

#[test]
fn identity_map_level1_points_at_level2_halves() {
    let mut physical = TableSet::new(PHYS_BASE);
    ttbr0::setup_translation_tables(&mut physical, 0, 0x3C00_0000, 0x0400_0000);
    let low = decode_table(physical.level1_entry(0));
    let high = decode_table(physical.level1_entry(1));
    assert!(low.valid && high.valid);
    assert!(low.non_secure && high.non_secure);
    assert_eq!(low.next_table, PHYS_BASE + 0x1000);
    assert_eq!(high.next_table, PHYS_BASE + 0x2000);
    assert_eq!(physical.level1_entry(0), 0x8000_0000_0008_1003);
    assert_eq!(physical.level1_entry(2), 0);
}

#[test]
fn carve_out_above_peripherals_stays_device_there() {
    let mut physical = TableSet::new(PHYS_BASE);
    ttbr0::setup_translation_tables(&mut physical, 0, 0x3F00_0000, 0x0200_0000);
    assert_eq!(decode_block_page(physical.level2_entry(504)).attributes.mem_attr, 0);
    assert_eq!(decode_block_page(physical.level2_entry(512)).attributes.mem_attr, 0);
    assert_eq!(decode_block_page(physical.level2_entry(513)).attributes.mem_attr, 3);
    assert_eq!(decode_block_page(physical.level2_entry(519)).attributes.mem_attr, 3);
    assert_eq!(physical.level2_entry(520), 0);
}

#[test]
fn other_cores_leave_the_tables_alone() {
    let mut physical = TableSet::new(PHYS_BASE);
    let root = ttbr0::setup_translation_tables(&mut physical, 2, 0x3E00_0000, 0x0100_0000);
    assert_eq!(root, PHYS_BASE);
    for i in 0..1024usize {
        assert_eq!(physical.level2_entry(i), 0);
    }
    assert_eq!(physical.level1_entry(0), 0);
}

#[test]
fn virtual_set_points_top_entry_at_level2() {
    let mut dynamic = TableSet::new(VIRT_BASE);
    assert_eq!(ttbr1::setup_translation_tables(&mut dynamic, 0), VIRT_BASE);
    let top = decode_table(dynamic.level1_entry(511));
    assert!(top.valid && top.non_secure);
    assert_eq!(top.next_table, VIRT_BASE + 0x1000);
    assert_eq!(dynamic.level1_entry(0), 0);
    assert_eq!(dynamic.level2_entry(0), 0);
}

#[test]
fn only_levels_one_and_two_are_supported() {
    assert_eq!(exception_level(1), Some(ExceptionLevel::El1));
    assert_eq!(exception_level(2), Some(ExceptionLevel::El2));
    assert_eq!(exception_level(0), None);
    assert_eq!(exception_level(3), None);
}

fn write(register: ControlRegister, value: u64, mask: u64) -> Step {
    Step::WriteRegister(register, RegisterWrite { value, mask })
}

#[test]
fn bring_up_order_at_level_1() {
    let mut physical = TableSet::new(PHYS_BASE);
    let mut dynamic = TableSet::new(VIRT_BASE);
    let steps = initialize(&mut physical, &mut dynamic, 1, 0, 0x3F00_0000, 0x0020_0000);
    let expected = [
        write(ControlRegister::SystemControl, 0, 0x1005),
        Step::InvalidateTlbAll,
        Step::PublishTables,
        Step::StoreBarrier,
        write(ControlRegister::MemoryAttributes, 0x55bb_33ff_440c_0400, u64::MAX),
        write(ControlRegister::TableBase0, PHYS_BASE, 0xffff_ffff_ffff),
        write(ControlRegister::TableBase1, VIRT_BASE, 0xffff_ffff_ffff),
        write(ControlRegister::TranslationControl, 0x20_b519_3519, 0x27_ffbf_ffbf),
        Step::InstructionBarrier,
        write(ControlRegister::SystemControl, 0x1005, 0x100f),
        Step::Nop,
        Step::Nop,
        Step::InstructionBarrier,
        Step::InvalidateTlbAll,
    ];
    assert_eq!(steps, expected);
    assert_eq!(decode_table(dynamic.level1_entry(511)).next_table, VIRT_BASE + 0x1000);
}

#[test]
fn bring_up_order_at_level_2() {
    let mut physical = TableSet::new(PHYS_BASE);
    let mut dynamic = TableSet::new(VIRT_BASE);
    let steps = initialize(&mut physical, &mut dynamic, 2, 0, 0x3F00_0000, 0x0020_0000);
    let off = el2::disable_mmu();
    let on = el2::enable_mmu(PHYS_BASE);
    assert_eq!(steps[..2], off[..]);
    assert_eq!(steps[2], Step::PublishTables);
    assert_eq!(steps[3], Step::StoreBarrier);
    assert_eq!(steps[4..], on[..]);
    assert_eq!(
        on,
        [
            write(ControlRegister::MemoryAttributes, 0xff_440c_0400, 0xff_ffff_ffff),
            write(ControlRegister::TableBase0, PHYS_BASE, 0xffff_ffff_ffff),
            write(ControlRegister::TranslationControl, 0x10_2019, 0x17_ff3f),
            write(ControlRegister::HypervisorControl, 0, 0x1001),
            Step::InstructionBarrier,
            write(ControlRegister::SystemControl, 0x1005, 0x100f),
            Step::Nop,
            Step::Nop,
            Step::InstructionBarrier,
            Step::InvalidateTlbAll,
        ]
    );
    assert_eq!(dynamic.level1_entry(511), 0);
}

#[test]
fn disable_leaves_tables_and_drops_tlb() {
    let off = [write(ControlRegister::SystemControl, 0, 0x1005), Step::InvalidateTlbAll];
    assert_eq!(el1::disable_mmu(), off);
    assert_eq!(el2::disable_mmu(), off);
}
#[test]
fn empty_carve_out_leaves_all_memory_normal() {
    let mut physical = TableSet::new(PHYS_BASE);
    ttbr0::setup_translation_tables(&mut physical, 0, 0x3F00_0000, 0);
    for i in 0..504usize {
        assert_eq!(decode_block_page(physical.level2_entry(i)).attributes.mem_attr, 4);
    }
    assert_eq!(decode_block_page(physical.level2_entry(504)).attributes.mem_attr, 0);
}

#[test]
fn blocks_after_carve_out_are_device_memory() {
    let mut physical = TableSet::new(PHYS_BASE);
    ttbr0::setup_translation_tables(&mut physical, 0, 0x0040_0000, 0x0040_0000);
    let kinds: Vec<u8> = (0..6usize)
        .map(|i| decode_block_page(physical.level2_entry(i)).attributes.mem_attr)
        .collect();
    assert_eq!(kinds, vec![4, 4, 3, 3, 0, 0]);
    let after = decode_block_page(physical.level2_entry(503));
    assert_eq!(after.kind, EntryKind::Block);
    assert_eq!(after.attributes.mem_attr, 0);
    assert!(!after.attributes.non_secure);
    assert!(after.attributes.access_flag);
    assert_eq!(after.attributes.shareability, 3);
    assert_eq!(after.output_address, 503 * 0x20_0000);
    assert_eq!(physical.level2_entry(503), 0x3ee0_0701);
    assert_eq!(physical.level2_entry(513), 0);
}
