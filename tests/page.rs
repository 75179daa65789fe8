use ruspiro_mmu::{page_align, page_size};

#[test]
fn page_align_rounds_up() {
    assert_eq!(page_align(0), 0);
    assert_eq!(page_align(1), 0x1000);
    assert_eq!(page_align(0x1000), 0x1000);
    assert_eq!(page_align(0x1001), 0x2000);
    assert_eq!(page_align(0x3F00_0FFF), 0x3F00_1000);
}

#[test]
fn page_size_is_four_kilobytes() {
    assert_eq!(page_size(), 4096);
}
