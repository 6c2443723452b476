use wolfram_library_link::codec::{
    bool_from_mbool, decode, encode, narrow_integer_32, narrow_unsigned_32, widen_integer_32,
    widen_unsigned_32, ElementType, NativeValue, OwnershipMode, RawArgument, RecordValue,
    StructuredRecord, TypedArray, ValueType,
};

#[test]
fn round_trip_boolean() {
    let decoded = decode(encode(NativeValue::Boolean(true)), ValueType::Boolean);
    assert_eq!(decoded, NativeValue::Boolean(true));
    let decoded = decode(encode(NativeValue::Boolean(false)), ValueType::Boolean);
    assert_eq!(decoded, NativeValue::Boolean(false));
}

#[test]
fn round_trip_integer() {
    for v in [0i64, 1, -1, i64::MAX, i64::MIN, 123_456_789] {
        let decoded = decode(encode(NativeValue::Integer(v)), ValueType::Integer);
        assert_eq!(decoded, NativeValue::Integer(v));
    }
}

#[test]
fn round_trip_real_bits() {
    // The bit pattern of a double crosses the boundary unchanged.
    let bits = 0x4009_21FB_5444_2D18u64; // a pattern with all regions populated
    let decoded = decode(encode(NativeValue::Real(bits)), ValueType::Real);
    assert_eq!(decoded, NativeValue::Real(bits));
}

#[test]
fn round_trip_complex_bits() {
    let decoded = decode(encode(NativeValue::Complex(7, 9)), ValueType::Complex);
    assert_eq!(decoded, NativeValue::Complex(7, 9));
}

#[test]
fn round_trip_text() {
    let decoded = decode(
        encode(NativeValue::Text(String::from("hello"))),
        ValueType::Text,
    );
    assert_eq!(decoded, NativeValue::Text(String::from("hello")));
}

#[test]
fn round_trip_array() {
    let array = TypedArray::new(
        ElementType::Int64,
        OwnershipMode::LibraryOwned,
        vec![1, 2, 3],
    );
    let expected = TypedArray::new(
        ElementType::Int64,
        OwnershipMode::LibraryOwned,
        vec![1, 2, 3],
    );
    let decoded = decode(encode(NativeValue::Array(array)), ValueType::Array);
    assert_eq!(decoded, NativeValue::Array(expected));
}

#[test]
fn round_trip_record() {
    let mut record = StructuredRecord::new();
    record.add(String::from("answer"), RecordValue::Integer(42));
    let mut expected = StructuredRecord::new();
    expected.add(String::from("answer"), RecordValue::Integer(42));
    let decoded = decode(encode(NativeValue::Record(record)), ValueType::Record);
    assert_eq!(decoded, NativeValue::Record(expected));
}

#[test]
fn boolean_flag_any_nonzero_is_true() {
    assert!(!bool_from_mbool(0));
    assert!(bool_from_mbool(1));
    assert!(bool_from_mbool(-1));
    assert!(bool_from_mbool(255));
    let decoded = decode(RawArgument::Boolean(5), ValueType::Boolean);
    assert_eq!(decoded, NativeValue::Boolean(true));
}

#[test]
fn narrowing_in_range_is_exact() {
    assert_eq!(narrow_integer_32(2_147_483_647), 2_147_483_647i32);
    assert_eq!(narrow_integer_32(-2_147_483_648), -2_147_483_648i32);
    assert_eq!(narrow_unsigned_32(4_294_967_295), 4_294_967_295u32);
    assert_eq!(widen_integer_32(-5), -5i64);
    assert_eq!(widen_unsigned_32(4_294_967_295), 4_294_967_295i64);
}

#[test]
fn narrowing_out_of_range_truncates_low_bits() {
    // 0x1_2345_6789 keeps its low 32 bits.
    assert_eq!(narrow_integer_32(0x1_2345_6789), 0x2345_6789i32);
    assert_eq!(narrow_unsigned_32(0x1_2345_6789), 0x2345_6789u32);
    // 2^31 wraps to the most negative 32-bit integer.
    assert_eq!(narrow_integer_32(0x8000_0000), i32::MIN);
    // -1 keeps all low bits set.
    assert_eq!(narrow_unsigned_32(-1), u32::MAX);
    assert_eq!(narrow_integer_32(i64::MIN), 0i32);
}

#[test]
fn typed_array_reads_and_writes() {
    let mut array = TypedArray::new(
        ElementType::UInt64,
        OwnershipMode::Shared,
        vec![10, 20, 30],
    );
    assert_eq!(array.len(), 3);
    assert_eq!(array.get(1), 20);
    assert_eq!(array.element_type(), ElementType::UInt64);
    assert_eq!(array.mode(), OwnershipMode::Shared);
    array.set(1, 99);
    assert_eq!(array.get(1), 99);
    assert_eq!(array.get(0), 10);
    assert_eq!(array.get(2), 30);
}

#[test]
fn structured_record_keeps_insertion_order() {
    let mut record = StructuredRecord::new();
    assert_eq!(record.len(), 0);
    record.add(String::from("first"), RecordValue::Boolean(true));
    record.add(String::from("second"), RecordValue::Text(String::from("x")));
    let mut nested = StructuredRecord::new();
    nested.add(String::from("inner"), RecordValue::Real(3));
    record.add(String::from("third"), RecordValue::Record(Box::new(nested)));
    assert_eq!(record.len(), 3);
    assert_eq!(record.node_at(0).name, "first");
    assert_eq!(record.node_at(0).value, RecordValue::Boolean(true));
    assert_eq!(record.node_at(1).name, "second");
    assert_eq!(record.node_at(2).name, "third");
}
