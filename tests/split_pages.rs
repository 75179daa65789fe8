use ruspiro_mmu::entry::{decode_block_page, decode_table, BlockAttributes, EntryKind};
use ruspiro_mmu::sequence::Step;
use ruspiro_mmu::split::{maintain_pages, pool_has_room};
use ruspiro_mmu::tables::TableSet;
use ruspiro_mmu::ttbr0;

const PHYS_BASE: u64 = 0x8_0000;

fn identity() -> TableSet {
    let mut physical = TableSet::new(PHYS_BASE);
    ttbr0::setup_translation_tables(&mut physical, 0, 0x3E00_0000, 0x0100_0000);
    physical
}

fn requested() -> BlockAttributes {
    BlockAttributes {
        mem_attr: 3,
        non_secure: false,
        access_permission: 1,
        shareability: 2,
        access_flag: true,
        not_global: true,
        contiguous: false,
        privileged_execute_never: true,
        execute_never: true,
    }
}

#[test]
fn split_inside_one_block() {
    let mut physical = identity();
    let block = decode_block_page(physical.level2_entry(3));
    maintain_pages(&mut physical, 3, 10, 20, requested());
    assert_eq!(physical.pool_tables_used(), 1);
    for p in 0..512usize {
        let e = decode_block_page(physical.pool_entry(p));
        assert_eq!(e.kind, EntryKind::Page);
        assert_eq!(e.output_address, 3 * 0x20_0000 + p as u64 * 0x1000);
        if (10..30).contains(&p) {
            assert_eq!(e.attributes, requested());
        } else {
            assert_eq!(e.attributes, block.attributes);
        }
    }
    assert_eq!(physical.pool_entry(0), 0x0060_0733);
    let parent = decode_table(physical.level2_entry(3));
    assert!(parent.valid);
    assert_eq!(parent.next_table, PHYS_BASE + 0x3000);
    assert_eq!(physical.level2_entry(3), PHYS_BASE + 0x3003);
    assert_eq!(decode_block_page(physical.level2_entry(4)).kind, EntryKind::Block);
    assert_eq!(physical.pool_entry(512), 0);
}

#[test]
fn split_keeps_carve_out_attributes() {
    let mut physical = identity();
    maintain_pages(&mut physical, 500, 0, 1, requested());
    let kept = decode_block_page(physical.pool_entry(1));
    assert_eq!(kept.attributes.mem_attr, 3);
    assert!(!kept.attributes.non_secure);
    assert_eq!(kept.output_address, 500 * 0x20_0000 + 0x1000);
}

#[test]
fn split_across_two_blocks() {
    let mut physical = identity();
    let second = decode_block_page(physical.level2_entry(8));
    let steps = maintain_pages(&mut physical, 7, 500, 20, requested());
    assert_eq!(physical.pool_tables_used(), 2);
    for g in 0..1024usize {
        let e = decode_block_page(physical.pool_entry(g));
        assert_eq!(e.kind, EntryKind::Page);
        assert_eq!(e.output_address, 7 * 0x20_0000 + g as u64 * 0x1000);
        if (500..520).contains(&g) {
            assert_eq!(e.attributes, requested());
        } else {
            assert_eq!(e.attributes.mem_attr, 4);
        }
    }
    assert_eq!(decode_block_page(physical.pool_entry(1023)).attributes, second.attributes);
    assert_eq!(decode_table(physical.level2_entry(7)).next_table, PHYS_BASE + 0x3000);
    assert_eq!(decode_table(physical.level2_entry(8)).next_table, PHYS_BASE + 0x4000);
    let a7 = PHYS_BASE + 0x1000 + 7 * 8;
    let a8 = PHYS_BASE + 0x1000 + 8 * 8;
    assert_eq!(
        steps,
        [
            Step::PublishPoolTable(PHYS_BASE + 0x3000),
            Step::PublishPoolTable(PHYS_BASE + 0x4000),
            Step::StoreBarrier,
            Step::StoreEntry(a7, PHYS_BASE + 0x3003),
            Step::StoreEntry(a8, PHYS_BASE + 0x4003),
            Step::StoreBarrier,
            Step::FullBarrier,
            Step::InstructionBarrier,
            Step::CleanEntry(a7),
            Step::CleanEntry(a8),
            Step::Nop,
            Step::InvalidateTlbAll,
        ]
    );
}

#[test]
fn range_ending_at_block_end_stays_in_one_block() {
    let mut physical = identity();
    maintain_pages(&mut physical, 5, 500, 12, requested());
    assert_eq!(physical.pool_tables_used(), 1);
    assert_eq!(decode_block_page(physical.level2_entry(6)).kind, EntryKind::Block);
}

#[test]
fn pool_room_runs_out() {
    let mut physical = identity();
    assert!(pool_has_room(&physical, 0, 4));
    assert!(pool_has_room(&physical, 510, 4));
    maintain_pages(&mut physical, 1, 0, 4, requested());
    assert!(!pool_has_room(&physical, 510, 4));
    assert!(pool_has_room(&physical, 0, 4));
    maintain_pages(&mut physical, 2, 0, 4, requested());
    assert!(!pool_has_room(&physical, 0, 4));
    assert_eq!(physical.pool_tables_used(), 2);
    assert_eq!(decode_table(physical.level2_entry(1)).next_table, PHYS_BASE + 0x3000);
    assert_eq!(decode_table(physical.level2_entry(2)).next_table, PHYS_BASE + 0x4000);
}

#[test]
fn split_steps_for_code_pages() {
    let mut physical = identity();
    let mut code = requested();
    code.execute_never = false;
    let a3 = PHYS_BASE + 0x1000 + 3 * 8;
    assert_eq!(
        maintain_pages(&mut physical, 3, 0, 8, code),
        [
            Step::PublishPoolTable(PHYS_BASE + 0x3000),
            Step::Nop,
            Step::StoreBarrier,
            Step::StoreEntry(a3, PHYS_BASE + 0x3003),
            Step::Nop,
            Step::StoreBarrier,
            Step::FullBarrier,
            Step::InstructionBarrier,
            Step::CleanEntry(a3),
            Step::Nop,
            Step::InvalidateInstructionCache,
            Step::InvalidateTlbAll,
        ]
    );
}

#[test]
fn empty_range_keeps_every_page() {
    let mut physical = identity();
    let block = decode_block_page(physical.level2_entry(0));
    maintain_pages(&mut physical, 0, 100, 0, requested());
    for p in 0..512usize {
        let e = decode_block_page(physical.pool_entry(p));
        assert_eq!(e.kind, EntryKind::Page);
        assert_eq!(e.attributes, block.attributes);
        assert_eq!(e.output_address, p as u64 * 0x1000);
    }
}

#[test]
fn whole_block_takes_requested_attributes() {
    let mut physical = identity();
    maintain_pages(&mut physical, 9, 0, 512, requested());
    assert_eq!(physical.pool_tables_used(), 1);
    for p in 0..512usize {
        assert_eq!(decode_block_page(physical.pool_entry(p)).attributes, requested());
    }
}
