use vortex::TypeMismatch;
use vortex::Value;

#[test]
fn same_variant_sums_for_each_width() {
    assert_eq!(Value::U8(3).add(Value::U8(4)), Ok(Value::U8(7)));
    assert_eq!(Value::U16(300).add(Value::U16(700)), Ok(Value::U16(1000)));
    assert_eq!(Value::U32(70_000).add(Value::U32(1)), Ok(Value::U32(70_001)));
    assert_eq!(
        Value::U64(5_000_000_000).add(Value::U64(1)),
        Ok(Value::U64(5_000_000_001))
    );
    assert_eq!(Value::I8(-3).add(Value::I8(4)), Ok(Value::I8(1)));
    assert_eq!(Value::I16(-300).add(Value::I16(-1)), Ok(Value::I16(-301)));
    assert_eq!(Value::I32(-70_000).add(Value::I32(70_000)), Ok(Value::I32(0)));
    assert_eq!(
        Value::I64(-5_000_000_000).add(Value::I64(-1)),
        Ok(Value::I64(-5_000_000_001))
    );
}

#[test]
fn differing_variants_are_a_type_mismatch() {
    assert_eq!(Value::U8(1).add(Value::I32(1)), Err(TypeMismatch));
    assert_eq!(Value::U8(1).add(Value::U16(1)), Err(TypeMismatch));
    assert_eq!(Value::I64(1).add(Value::I8(1)), Err(TypeMismatch));
}

#[test]
fn null_and_bool_are_not_operands() {
    assert_eq!(Value::Null.add(Value::Null), Err(TypeMismatch));
    assert_eq!(Value::Null.add(Value::U8(1)), Err(TypeMismatch));
    assert_eq!(Value::Bool(true).add(Value::Bool(false)), Err(TypeMismatch));
    assert_eq!(Value::U64(1).add(Value::Bool(true)), Err(TypeMismatch));
}

#[test]
fn addition_is_commutative() {
    let pairs = [
        (Value::U8(37), Value::U8(1)),
        (Value::I32(-5), Value::I32(11)),
        (Value::U64(u64::MAX), Value::U64(2)),
        (Value::U8(1), Value::I32(1)),
        (Value::Null, Value::Bool(true)),
    ];
    for (a, b) in pairs {
        assert_eq!(a.add(b), b.add(a));
    }
}

#[test]
fn unsigned_overflow_wraps() {
    assert_eq!(Value::U8(255).add(Value::U8(1)), Ok(Value::U8(0)));
    assert_eq!(Value::U16(u16::MAX).add(Value::U16(3)), Ok(Value::U16(2)));
    assert_eq!(Value::U64(u64::MAX).add(Value::U64(u64::MAX)), Ok(Value::U64(u64::MAX - 1)));
}

#[test]
fn signed_overflow_wraps() {
    assert_eq!(Value::I8(127).add(Value::I8(1)), Ok(Value::I8(-128)));
    assert_eq!(Value::I8(-128).add(Value::I8(-1)), Ok(Value::I8(127)));
    assert_eq!(Value::I32(i32::MIN).add(Value::I32(-1)), Ok(Value::I32(i32::MAX)));
}

#[test]
fn add_assign_updates_in_place() {
    let mut v = Value::U8(37);
    assert_eq!(v.add_assign(Value::U8(1)), Ok(()));
    assert_eq!(v, Value::U8(38));
}

#[test]
fn add_assign_leaves_value_on_mismatch() {
    let mut v = Value::U8(37);
    assert_eq!(v.add_assign(Value::I32(1)), Err(TypeMismatch));
    assert_eq!(v, Value::U8(37));
}

#[test]
fn rendering_is_canonical() {
    assert_eq!(Value::Null.render(), "null");
    assert_eq!(Value::Bool(true).render(), "true");
    assert_eq!(Value::Bool(false).render(), "false");
    assert_eq!(Value::U8(37).render(), "37u8");
    assert_eq!(Value::U8(0).render(), "0u8");
    assert_eq!(Value::U16(65535).render(), "65535u16");
    assert_eq!(Value::U32(1024).render(), "1024u32");
    assert_eq!(Value::U64(u64::MAX).render(), "18446744073709551615u64");
    assert_eq!(Value::I8(-128).render(), "-128i8");
    assert_eq!(Value::I16(7).render(), "7i16");
    assert_eq!(Value::I32(-1).render(), "-1i32");
    assert_eq!(Value::I64(i64::MIN).render(), "-9223372036854775808i64");
}

#[test]
fn chained_addition_keeps_the_variant() {
    let first = Value::U8(37).add(Value::U8(1)).expect("same variant");
    assert_eq!(first, Value::U8(38));
    let second = first.add(Value::U8(2)).expect("same variant");
    assert_eq!(second, Value::U8(40));
    assert_eq!(second.render(), "40u8");
}
