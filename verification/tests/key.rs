use pg_bm25::key::{RowKey, SLOTS_PER_BLOCK};

#[test]
fn encode_places_block_above_offset() {
    assert_eq!(RowKey { block: 3, offset: 5 }.encode(), 196_613);
    assert_eq!(RowKey { block: 0, offset: 0 }.encode(), 0);
    assert_eq!(RowKey { block: 0, offset: 1 }.encode(), 1);
    assert_eq!(RowKey { block: 1, offset: 0 }.encode(), SLOTS_PER_BLOCK);
}

#[test]
fn encode_of_largest_key_fits() {
    let key = RowKey { block: u32::MAX, offset: u16::MAX };
    assert_eq!(key.encode(), 281_474_976_710_655);
    assert_eq!(key.encode(), (1u64 << 48) - 1);
}

#[test]
fn encode_tells_neighbouring_keys_apart() {
    let last_of_block = RowKey { block: 7, offset: u16::MAX };
    let first_of_next = RowKey { block: 8, offset: 0 };
    assert_ne!(last_of_block.encode(), first_of_next.encode());
    assert_eq!(last_of_block.encode() + 1, first_of_next.encode());
    let swapped_a = RowKey { block: 2, offset: 9 };
    let swapped_b = RowKey { block: 9, offset: 2 };
    assert_ne!(swapped_a.encode(), swapped_b.encode());
}

#[test]
fn keys_are_equal_when_both_fields_are() {
    assert_eq!(RowKey { block: 3, offset: 5 }, RowKey { block: 3, offset: 5 });
    assert_ne!(RowKey { block: 3, offset: 5 }, RowKey { block: 3, offset: 6 });
    assert_ne!(RowKey { block: 3, offset: 5 }, RowKey { block: 4, offset: 5 });
    assert_ne!(RowKey { block: 3, offset: 5 }, RowKey { block: 5, offset: 3 });
}
