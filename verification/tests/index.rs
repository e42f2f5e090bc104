use anystore::address::Address;
use anystore::index::SlotIndex;
use std::any::TypeId;

#[test]
fn new_index_resolves_nothing() {
    let index = SlotIndex::new();
    assert_eq!(index.get(Address::new(TypeId::of::<u64>(), 0)), None);
    assert_eq!(index.get(Address::new(TypeId::of::<()>(), u64::MAX)), None);
}

#[test]
fn insert_then_get() {
    let mut index = SlotIndex::new();
    let at = Address::new(TypeId::of::<u64>(), 5);
    index.insert(at, 17);
    assert_eq!(index.get(at), Some(17));
    assert_eq!(index.get(Address::new(TypeId::of::<u64>(), 6)), None);
    assert_eq!(index.get(Address::new(TypeId::of::<i64>(), 5)), None);
}

#[test]
fn insert_overwrites_one_address_only() {
    let mut index = SlotIndex::new();
    let a = Address::new(TypeId::of::<u64>(), 5);
    let b = Address::new(TypeId::of::<u64>(), 6);
    let c = Address::new(TypeId::of::<String>(), 5);
    index.insert(a, 0);
    index.insert(b, 1);
    index.insert(c, 2);
    index.insert(a, 3);
    assert_eq!(index.get(a), Some(3));
    assert_eq!(index.get(b), Some(1));
    assert_eq!(index.get(c), Some(2));
    index.insert(c, usize::MAX);
    assert_eq!(index.get(c), Some(usize::MAX));
    assert_eq!(index.get(a), Some(3));
}

#[test]
fn many_types_keep_apart() {
    let mut index = SlotIndex::new();
    let tags = [
        TypeId::of::<u8>(),
        TypeId::of::<u16>(),
        TypeId::of::<u32>(),
        TypeId::of::<u64>(),
        TypeId::of::<i8>(),
        TypeId::of::<String>(),
        TypeId::of::<Vec<u8>>(),
        TypeId::of::<(u8, u8)>(),
    ];
    for (position, tag) in tags.iter().enumerate() {
        for hash in 0u64..4 {
            index.insert(Address::new(*tag, hash), position * 4 + hash as usize);
        }
    }
    for (position, tag) in tags.iter().enumerate() {
        for hash in 0u64..4 {
            assert_eq!(
                index.get(Address::new(*tag, hash)),
                Some(position * 4 + hash as usize)
            );
        }
        assert_eq!(index.get(Address::new(*tag, 4)), None);
    }
    assert_eq!(index.get(Address::new(TypeId::of::<bool>(), 0)), None);
}
