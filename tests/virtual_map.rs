use ruspiro_mmu::entry::{decode_block_page, EntryKind};
use ruspiro_mmu::sequence::Step;
use ruspiro_mmu::tables::TableSet;
use ruspiro_mmu::{map_memory, ttbr1};

const VIRT_BASE: u64 = 0x9_0000;

fn fresh() -> TableSet {
    let mut dynamic = TableSet::new(VIRT_BASE);
    ttbr1::setup_translation_tables(&mut dynamic, 0);
    dynamic
}

/// The level-2 entry that the table walker reads for `va`.
fn walked_entry(dynamic: &TableSet, va: u64) -> u64 {
    assert_eq!((va >> 30) & 0x1ff, 511);
    dynamic.level2_entry(((va >> 21) & 0x1ff) as usize)
}

#[test]
fn two_mappings_then_exhaustion() {
    let mut dynamic = fresh();
    let (va1, _) = map_memory(&mut dynamic, 1, 0x0010_1234, 0x100, 0);
    let (va2, _) = map_memory(&mut dynamic, 1, 0x0840_0010, 0x100, 0);
    assert_eq!(va1, 0xFFFF_FFFF_FFF0_1234);
    assert_eq!(va2, 0xFFFF_FFFF_FFC0_0010);
    assert_ne!(va1, va2);
    assert!((va2 & !0x1F_FFFF) + 0x20_0000 <= (va1 & !0x1F_FFFF));
    for _ in 2..512 {
        assert!(ttbr1::has_free_slot(&dynamic));
        map_memory(&mut dynamic, 1, 0x0100_0000, 0x1000, 0);
    }
    assert!(!ttbr1::has_free_slot(&dynamic));
    assert!(!ttbr1::has_free_slot(&dynamic));
}

#[test]
fn mapped_address_walks_to_its_block() {
    let mut dynamic = fresh();
    let (va, _) = map_memory(&mut dynamic, 1, 0x3A1F_FFFF, 0x10, 0x10);
    assert_eq!(va, 0xFFFF_FFFF_FFFF_FFFF);
    assert_eq!(walked_entry(&dynamic, va), 0x8000_0000_3A00_0411);
    assert_eq!(dynamic.level2_entry(511), 0x8000_0000_3A00_0411);
    assert_eq!(dynamic.level2_entry(0), 0);
    let (va2, _) = map_memory(&mut dynamic, 1, 0x0060_0042, 0x10, 0x40);
    let e = decode_block_page(walked_entry(&dynamic, va2));
    assert_eq!(e.kind, EntryKind::Block);
    assert_eq!(e.output_address, 0x0060_0000);
    assert!(e.attributes.access_flag);
    assert_eq!(e.attributes.access_permission, 1);
    assert_eq!(va2 & 0x1F_FFFF, 0x42);
    assert_eq!(dynamic.level2_entry(510), walked_entry(&dynamic, va2));
}

#[test]
fn addresses_descend_slot_by_slot() {
    let mut dynamic = fresh();
    let mut last = u64::MAX;
    for i in 0..512u64 {
        let (va, _) = ttbr1::maintain_pages(&mut dynamic, 0x2000_0000 + i * 0x20_0000, 0x1000, 0);
        assert_eq!(va, 0u64.wrapping_sub((i + 1) * 0x20_0000));
        assert!(va < last);
        let e = decode_block_page(walked_entry(&dynamic, va));
        assert_eq!(e.output_address, 0x2000_0000 + i * 0x20_0000);
        last = va;
    }
    for i in 0..512usize {
        assert_ne!(dynamic.level2_entry(i), 0);
    }
    assert_eq!(dynamic.level2_entry(512), 0);
    assert!(!ttbr1::has_free_slot(&dynamic));
}

#[test]
fn other_levels_return_origin_unchanged() {
    let mut dynamic = fresh();
    assert_eq!(map_memory(&mut dynamic, 2, 0x1234_5678, 0x10, 0), (0x1234_5678, None));
    assert_eq!(map_memory(&mut dynamic, 3, 0x1234_5678, 0x10, 0), (0x1234_5678, None));
    assert_eq!(dynamic.level2_entry(511), 0);
}

#[test]
fn mapping_steps_store_then_maintain() {
    let mut dynamic = fresh();
    map_memory(&mut dynamic, 1, 0x0010_0000, 0x10, 0);
    let (va, steps) = map_memory(&mut dynamic, 1, 0x0010_0000, 0x10, 0);
    let entry = VIRT_BASE + 0x1000 + 510 * 8;
    assert_eq!(
        steps,
        Some([
            Step::StoreEntry(entry, 0x8000_0000_0000_0401),
            Step::StoreBarrier,
            Step::FullBarrier,
            Step::InstructionBarrier,
            Step::CleanEntry(entry),
            Step::InvalidateTlbEntry(va),
        ])
    );
}
