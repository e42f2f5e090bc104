use anystore::address::Address;
use anystore::error::StoreError;
use anystore::Database;
use anystore::A;
use anystore::B;
use serde::ser::SerializeSeq;
use serde::Deserialize;
use serde::Deserializer;
use serde::Serialize;
use serde::Serializer;
use std::any::TypeId;

/// `A` as the codec sees it: its one byte.
#[derive(Debug, PartialEq)]
struct RecA(A);

impl Serialize for RecA {
    fn serialize<S: Serializer>(&self, serializer: S) -> Result<S::Ok, S::Error> {
        serializer.serialize_u8(self.0.vala)
    }
}

impl<'de> Deserialize<'de> for RecA {
    fn deserialize<D: Deserializer<'de>>(deserializer: D) -> Result<Self, D::Error> {
        u8::deserialize(deserializer).map(|vala| RecA(A { vala }))
    }
}

/// `B` as the codec sees it: its one byte.
#[derive(Debug, PartialEq)]
struct RecB(B);

impl Serialize for RecB {
    fn serialize<S: Serializer>(&self, serializer: S) -> Result<S::Ok, S::Error> {
        serializer.serialize_u8(self.0.valb)
    }
}

impl<'de> Deserialize<'de> for RecB {
    fn deserialize<D: Deserializer<'de>>(deserializer: D) -> Result<Self, D::Error> {
        u8::deserialize(deserializer).map(|valb| RecB(B { valb }))
    }
}

/// A value that the codec cannot encode: a sequence that does not know its
/// length.
struct Endless;

impl Serialize for Endless {
    fn serialize<S: Serializer>(&self, serializer: S) -> Result<S::Ok, S::Error> {
        serializer.serialize_seq(None)?.end()
    }
}

impl<'de> Deserialize<'de> for Endless {
    fn deserialize<D: Deserializer<'de>>(deserializer: D) -> Result<Self, D::Error> {
        u8::deserialize(deserializer).map(|_| Endless)
    }
}

#[test]
fn store_and_fetch() -> Result<(), StoreError> {
    let mut db = Database::new();
    let a = A { vala: 1 };
    let b = B { valb: 2 };
    db.store(1, &RecA(A { vala: 1 }))?;
    db.store(1, &RecB(B { valb: 2 }))?;
    assert_eq!(a, db.fetch::<_, RecA>(1)?.0);
    assert_eq!(b, db.fetch::<_, RecB>(1)?.0);
    Ok(())
}

#[test]
fn fetch_bad_key() -> Result<(), StoreError> {
    let mut db = Database::new();
    let a = RecA(A { vala: 1 });
    db.store(1, &a)?;
    assert!(db.fetch::<u64, RecA>(2).is_err());
    Ok(())
}

#[test]
fn fetch_bad_key_type() -> Result<(), StoreError> {
    let mut db = Database::new();
    let a = RecA(A { vala: 1 });
    db.store::<u64, RecA>(1, &a)?;
    assert!(db.fetch::<u8, RecA>(1).is_err());
    Ok(())
}

#[test]
fn records_compare_by_field() {
    assert_eq!(A { vala: 3 }, A { vala: 3 });
    assert_ne!(A { vala: 3 }, A { vala: 4 });
    assert_eq!(B { valb: 3 }, B { valb: 3 });
    assert_ne!(B { valb: 3 }, B { valb: 4 });
}

#[test]
fn serialized_different_types_under_one_key() {
    let mut db = Database::new();
    db.store(1u64, &2i64).unwrap();
    db.store(1u64, &1u64).unwrap();
    assert_eq!(db.fetch::<_, u64>(1u64).unwrap(), 1u64);
    assert_eq!(db.fetch::<_, i64>(1u64).unwrap(), 2i64);
}

#[test]
fn serialized_second_store_replaces_first() {
    let mut db = Database::new();
    db.store("k", &String::from("old")).unwrap();
    db.store("k", &String::from("new")).unwrap();
    assert_eq!(db.fetch::<_, String>("k").unwrap(), "new");
}

#[test]
fn missing_key_is_not_found_and_names_the_key() {
    let mut db = Database::new();
    db.store(1u64, &1u64).unwrap();
    match db.fetch::<u64, u64>(2) {
        Err(StoreError::NotFound(key)) => assert_eq!(key, "2"),
        other => panic!("expected NotFound, got {:?}", other),
    }
    match db.fetch::<&str, u64>("two") {
        Err(StoreError::NotFound(key)) => assert_eq!(key, "\"two\""),
        other => panic!("expected NotFound, got {:?}", other),
    }
}

#[test]
fn not_found_message() {
    let db = Database::new();
    let error = db.fetch::<u64, u64>(2).unwrap_err();
    assert_eq!(error.message(), "No such key: 2");
    let error = db.fetch::<(u8, &str), u64>((1, "x")).unwrap_err();
    assert_eq!(error.message(), "No such key: (1, \"x\")");
    assert_eq!(StoreError::NotFound(String::new()).message(), "No such key: ");
}

#[test]
fn missing_wraps_the_debug_text() {
    match StoreError::missing(&Some(5u8)) {
        StoreError::NotFound(key) => assert_eq!(key, "Some(5)"),
        other => panic!("expected NotFound, got {:?}", other),
    }
}

#[test]
fn serialized_other_type_is_not_found() {
    let mut db = Database::new();
    db.store(1u64, &1u64).unwrap();
    assert!(matches!(db.fetch::<u64, i64>(1), Err(StoreError::NotFound(_))));
    assert!(matches!(db.fetch::<u64, RecA>(1), Err(StoreError::NotFound(_))));
}

#[test]
fn undecodable_bytes_are_a_decode_error() {
    let mut db = Database::new();
    let at = db.address::<u64, u64>(1);
    db.store_at(at, vec![1, 2, 3]);
    let error = db.fetch::<u64, u64>(1).unwrap_err();
    assert!(matches!(error, StoreError::Decode(_)));
    assert_eq!(
        error.message(),
        bincode::deserialize::<u64>(&[1, 2, 3]).unwrap_err().to_string()
    );
}

#[test]
fn invalid_bool_is_a_decode_error() {
    let mut db = Database::new();
    let at = db.address::<u64, bool>(1);
    db.store_at(at, vec![7]);
    match db.fetch::<u64, bool>(1) {
        Err(StoreError::Decode(cause)) => {
            assert!(matches!(*cause, bincode::ErrorKind::InvalidBoolEncoding(7)))
        }
        other => panic!("expected Decode, got {:?}", other),
    }
}

#[test]
fn unencodable_value_is_an_encode_error_and_stores_nothing() {
    let mut db = Database::new();
    db.store(1u64, &5u64).unwrap();
    let error = db.store(2u64, &Endless).unwrap_err();
    match &error {
        StoreError::Encode(cause) => {
            assert!(matches!(**cause, bincode::ErrorKind::SequenceMustHaveLength))
        }
        other => panic!("expected Encode, got {:?}", other),
    }
    assert_eq!(
        error.message(),
        bincode::ErrorKind::SequenceMustHaveLength.to_string()
    );
    assert!(matches!(db.fetch::<u64, Endless>(2), Err(StoreError::NotFound(_))));
    assert_eq!(db.fetch::<u64, u64>(1).unwrap(), 5);
    let next = db.address::<u64, u8>(3);
    db.store_at(next, vec![9]);
    assert_eq!(db.bytes_at(next), Some(&vec![9u8]));
    assert_eq!(db.fetch::<u64, u8>(3).unwrap(), 9);
}

#[test]
fn encoded_and_decoded_keep_success_and_wrap_failure() {
    assert!(matches!(StoreError::encoded(Ok(vec![1, 2])), Ok(bytes) if bytes == vec![1, 2]));
    assert!(matches!(
        StoreError::encoded(Err(Box::new(bincode::ErrorKind::SizeLimit))),
        Err(StoreError::Encode(cause)) if matches!(*cause, bincode::ErrorKind::SizeLimit)
    ));
    assert!(matches!(StoreError::decoded(Ok(5u8)), Ok(5u8)));
    assert!(matches!(
        StoreError::decoded::<u8>(Err(Box::new(bincode::ErrorKind::InvalidCharEncoding))),
        Err(StoreError::Decode(cause)) if matches!(*cause, bincode::ErrorKind::InvalidCharEncoding)
    ));
}

#[test]
fn stored_bytes_are_the_codec_bytes() {
    let mut db = Database::new();
    db.store(1u64, &0x0102_0304_0506_0708u64).unwrap();
    let at = db.address::<u64, u64>(1);
    assert_eq!(db.bytes_at(at), Some(&vec![8u8, 7, 6, 5, 4, 3, 2, 1]));
    db.store(1u64, &RecA(A { vala: 9 })).unwrap();
    let at = db.address::<u64, RecA>(1);
    assert_eq!(db.bytes_at(at), Some(&vec![9u8]));
}

#[test]
fn bytes_by_address() {
    let mut db = Database::new();
    let a = Address::new(TypeId::of::<u64>(), 1);
    let b = Address::new(TypeId::of::<i64>(), 1);
    assert_eq!(db.bytes_at(a), None);
    db.store_at(a, vec![1]);
    db.store_at(b, vec![2, 2]);
    db.store_at(a, vec![3, 3, 3]);
    assert_eq!(db.bytes_at(a), Some(&vec![3u8, 3, 3]));
    assert_eq!(db.bytes_at(b), Some(&vec![2u8, 2]));
    assert_eq!(db.bytes_at(Address::new(TypeId::of::<u64>(), 2)), None);
}

#[test]
fn round_trip_of_numbers_and_records() {
    let mut db = Database::new();
    db.store(1u8, &u64::MAX).unwrap();
    db.store(1u8, &i64::MIN).unwrap();
    db.store(1u8, &0u8).unwrap();
    db.store(1u8, &-1i16).unwrap();
    db.store(1u8, &true).unwrap();
    db.store(1u8, &String::from("text")).unwrap();
    db.store(1u8, &(1u8, -2i32, String::from("three"))).unwrap();
    db.store(1u8, &vec![1u32, 2, 3]).unwrap();
    db.store(1u8, &Some(7u16)).unwrap();
    db.store(1u8, &RecA(A { vala: 255 })).unwrap();
    db.store(1u8, &RecB(B { valb: 0 })).unwrap();
    assert_eq!(db.fetch::<_, u64>(1u8).unwrap(), u64::MAX);
    assert_eq!(db.fetch::<_, i64>(1u8).unwrap(), i64::MIN);
    assert_eq!(db.fetch::<_, u8>(1u8).unwrap(), 0);
    assert_eq!(db.fetch::<_, i16>(1u8).unwrap(), -1);
    assert_eq!(db.fetch::<_, bool>(1u8).unwrap(), true);
    assert_eq!(db.fetch::<_, String>(1u8).unwrap(), "text");
    assert_eq!(
        db.fetch::<_, (u8, i32, String)>(1u8).unwrap(),
        (1u8, -2i32, String::from("three"))
    );
    assert_eq!(db.fetch::<_, Vec<u32>>(1u8).unwrap(), vec![1u32, 2, 3]);
    assert_eq!(db.fetch::<_, Option<u16>>(1u8).unwrap(), Some(7u16));
    assert_eq!(db.fetch::<_, RecA>(1u8).unwrap(), RecA(A { vala: 255 }));
    assert_eq!(db.fetch::<_, RecB>(1u8).unwrap(), RecB(B { valb: 0 }));
}

#[test]
fn fetch_at_absent_address_is_not_found_and_names_the_key() {
    let mut db = Database::new();
    let stored = Address::new(TypeId::of::<u64>(), 1);
    db.store_at(stored, bincode::serialize(&5u64).unwrap());
    let absent = Address::new(TypeId::of::<u64>(), 2);
    match db.fetch_at::<&str, u64>(absent, &"two") {
        Err(StoreError::NotFound(key)) => assert_eq!(key, "\"two\""),
        other => panic!("expected NotFound, got {:?}", other),
    }
    let other_type = Address::new(TypeId::of::<i64>(), 1);
    assert!(matches!(
        db.fetch_at::<u8, i64>(other_type, &1),
        Err(StoreError::NotFound(key)) if key == "1"
    ));
}

#[test]
fn fetch_at_present_address_gives_the_codec_result() {
    let mut db = Database::new();
    let good = Address::new(TypeId::of::<u64>(), 1);
    let short = Address::new(TypeId::of::<u64>(), 2);
    db.store_at(good, vec![7, 0, 0, 0, 0, 0, 0, 0]);
    db.store_at(short, vec![7, 0, 0]);
    assert_eq!(db.fetch_at::<u8, u64>(good, &0).unwrap(), 7);
    assert!(matches!(db.fetch_at::<u8, u64>(short, &0), Err(StoreError::Decode(_))));
    assert_eq!(db.fetch_at::<u8, (u8, u8, u8)>(short, &0).unwrap(), (7, 0, 0));
}

#[test]
fn fetch_at_reads_the_buffer_of_its_own_address() {
    let mut db = Database::new();
    let a = Address::new(TypeId::of::<u8>(), 1);
    let b = Address::new(TypeId::of::<u16>(), 2);
    let c = Address::new(TypeId::of::<u32>(), 3);
    db.store_at(a, vec![7]);
    db.store_at(b, vec![44, 1]);
    db.store_at(c, vec![112, 17, 1, 0]);
    assert_eq!(db.fetch_at::<u8, u8>(a, &1).unwrap(), 7);
    assert_eq!(db.fetch_at::<u8, u16>(b, &2).unwrap(), 300);
    assert_eq!(db.fetch_at::<u8, u32>(c, &3).unwrap(), 70000);
}

#[test]
fn fetch_is_fetch_at_of_the_address() {
    let mut db = Database::new();
    db.store(1u64, &10u64).unwrap();
    db.store(1u64, &20i64).unwrap();
    db.store(2u64, &30u64).unwrap();
    db.store(1u64, &40u64).unwrap();
    assert_eq!(db.fetch::<u64, u64>(1).unwrap(), 40);
    assert_eq!(db.fetch::<u64, i64>(1).unwrap(), 20);
    assert_eq!(db.fetch::<u64, u64>(2).unwrap(), 30);
    let at = db.address::<u64, u64>(1);
    assert_eq!(db.fetch_at::<u64, u64>(at, &1).unwrap(), 40);
    let at = db.address::<u64, i64>(2);
    assert!(matches!(db.fetch_at::<u64, i64>(at, &2), Err(StoreError::NotFound(_))));
    assert!(matches!(db.fetch::<u64, i64>(2), Err(StoreError::NotFound(key)) if key == "2"));
}

#[test]
fn bytes_of_one_type_are_not_found_as_another() {
    let mut db = Database::new();
    db.store(1u64, &1u64).unwrap();
    assert!(matches!(db.fetch::<u64, i64>(1), Err(StoreError::NotFound(_))));
    assert_eq!(db.fetch::<u64, u64>(1).unwrap(), 1);
}
