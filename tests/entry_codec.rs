use ruspiro_mmu::entry::{
    decode_attributes, decode_block_page, decode_table, encode_block_page, encode_table,
    BlockAttributes, BlockPageEntry, EntryKind, TableEntry,
};

fn attributes(mem_attr: u8, flags: bool) -> BlockAttributes {
    BlockAttributes {
        mem_attr,
        non_secure: flags,
        access_permission: 2,
        shareability: 3,
        access_flag: true,
        not_global: flags,
        contiguous: !flags,
        privileged_execute_never: flags,
        execute_never: !flags,
    }
}

#[test]
fn block_entry_word_is_bit_exact() {
    let e = BlockPageEntry {
        kind: EntryKind::Block,
        attributes: BlockAttributes {
            mem_attr: 4,
            non_secure: true,
            access_permission: 0,
            shareability: 3,
            access_flag: true,
            not_global: false,
            contiguous: false,
            privileged_execute_never: false,
            execute_never: false,
        },
        output_address: 0x20_0000,
    };
    assert_eq!(encode_block_page(&e), 0x0020_0731);
}

#[test]
fn page_entry_word_is_bit_exact() {
    let e = BlockPageEntry {
        kind: EntryKind::Page,
        attributes: BlockAttributes {
            mem_attr: 7,
            non_secure: false,
            access_permission: 3,
            shareability: 2,
            access_flag: false,
            not_global: true,
            contiguous: true,
            privileged_execute_never: true,
            execute_never: true,
        },
        output_address: 0xffff_ffff_f000,
    };
    assert_eq!(encode_block_page(&e), 0x0070_ffff_ffff_fadf);
}

#[test]
fn table_entry_word_is_bit_exact() {
    let e = TableEntry {
        valid: true,
        next_table: 0x8_1000,
        privileged_execute_never: false,
        execute_never: true,
        access_permission: 1,
        non_secure: true,
    };
    assert_eq!(encode_table(&e), 0xb000_0000_0008_1003);
}

#[test]
fn block_round_trip() {
    for &flags in &[false, true] {
        for mem_attr in 0..8u8 {
            let e = BlockPageEntry {
                kind: EntryKind::Block,
                attributes: attributes(mem_attr, flags),
                output_address: 0x3f00_0000,
            };
            assert_eq!(decode_block_page(encode_block_page(&e)), e);
        }
    }
}

#[test]
fn page_round_trip() {
    for &flags in &[false, true] {
        let e = BlockPageEntry {
            kind: EntryKind::Page,
            attributes: attributes(3, flags),
            output_address: 0x1234_5000,
        };
        assert_eq!(decode_block_page(encode_block_page(&e)), e);
    }
}

#[test]
fn invalid_round_trip() {
    let e = BlockPageEntry {
        kind: EntryKind::Invalid,
        attributes: attributes(0, false),
        output_address: 0,
    };
    assert_eq!(decode_block_page(encode_block_page(&e)), e);
}

#[test]
fn table_round_trip() {
    for &flag in &[false, true] {
        for ap in 0..4u8 {
            let e = TableEntry {
                valid: flag,
                next_table: 0xabc_def0_1000,
                privileged_execute_never: !flag,
                execute_never: flag,
                access_permission: ap,
                non_secure: !flag,
            };
            assert_eq!(decode_table(encode_table(&e)), e);
        }
    }
}

#[test]
fn reserved_type_decodes_as_invalid() {
    assert_eq!(decode_block_page(0b10).kind, EntryKind::Invalid);
    assert_eq!(decode_block_page(0b01).kind, EntryKind::Block);
    assert_eq!(decode_block_page(0b11).kind, EntryKind::Page);
}

#[test]
fn decode_reads_fields_of_raw_word() {
    let a = decode_attributes(0x0060_0000_0000_0e4c);
    assert_eq!(a.mem_attr, 3);
    assert!(a.non_secure == false);
    assert_eq!(a.access_permission, 1);
    assert_eq!(a.shareability, 2);
    assert!(a.access_flag);
    assert!(a.not_global);
    assert!(!a.contiguous);
    assert!(a.privileged_execute_never);
    assert!(a.execute_never);
    let e = decode_block_page(0xffff_0000_1234_5fff);
    assert_eq!(e.output_address, 0x0000_1234_5000);
}
