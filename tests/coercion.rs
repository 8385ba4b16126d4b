use sertools::{conversion, is_default, Conversion, EventKind, TargetKind, TypedVisitor, VisitError};

#[test]
fn u8_accepts_small_u64() {
    assert_eq!(TypedVisitor::<u8>::default().visit_u64(10), Ok(10u8));
}

#[test]
fn i16_rejects_large_u64() {
    assert_eq!(TypedVisitor::<i16>::default().visit_u64(100000), Err(VisitError::Overflow));
}

#[test]
fn f64_accepts_negative_i64() {
    assert_eq!(conversion(EventKind::I64, TargetKind::F64), Conversion::Approximate);
    assert_eq!(-5i64 as f64, -5.0f64);
}

#[test]
fn string_rejects_bytes() {
    let r = TypedVisitor::<String>::default().visit_bytes(&[1, 2, 3]);
    let e = r.unwrap_err();
    assert_eq!(e, VisitError::InvalidType { event: EventKind::Bytes, expected: TargetKind::Str });
    assert_eq!(e.message(), "a string");
    let r = TypedVisitor::<String>::default().visit_byte_buf(vec![1, 2, 3]);
    assert_eq!(r.unwrap_err().message(), "a string");
}

#[test]
fn is_default_on_usize() {
    assert!(is_default(&0usize));
    assert!(!is_default(&1usize));
}

#[test]
fn is_default_after_change() {
    let mut s = String::default();
    assert!(is_default(&s));
    s.push('x');
    assert!(!is_default(&s));
    let mut v: Vec<u8> = Vec::default();
    assert!(is_default(&v));
    v.push(0);
    assert!(!is_default(&v));
    let mut b = bool::default();
    assert!(is_default(&b));
    b = true;
    assert!(!is_default(&b));
}

#[test]
fn integer_targets_accept_their_range() {
    assert_eq!(TypedVisitor::<u8>::default().visit_u8(255), Ok(255u8));
    assert_eq!(TypedVisitor::<u8>::default().visit_i64(0), Ok(0u8));
    assert_eq!(TypedVisitor::<i8>::default().visit_i128(-128), Ok(-128i8));
    assert_eq!(TypedVisitor::<i8>::default().visit_u128(127), Ok(127i8));
    assert_eq!(TypedVisitor::<u16>::default().visit_u32(65535), Ok(65535u16));
    assert_eq!(TypedVisitor::<i16>::default().visit_i16(-32768), Ok(-32768i16));
    assert_eq!(TypedVisitor::<i16>::default().visit_u8(200), Ok(200i16));
    assert_eq!(TypedVisitor::<u32>::default().visit_u64(4294967295), Ok(4294967295u32));
    assert_eq!(TypedVisitor::<i32>::default().visit_i64(-2147483648), Ok(i32::MIN));
    assert_eq!(TypedVisitor::<i32>::default().visit_i8(-1), Ok(-1i32));
    assert_eq!(TypedVisitor::<u32>::default().visit_u16(7), Ok(7u32));
}

#[test]
fn integer_targets_overflow_outside_their_range() {
    assert_eq!(TypedVisitor::<u8>::default().visit_u64(256), Err(VisitError::Overflow));
    assert_eq!(TypedVisitor::<u8>::default().visit_i64(-1), Err(VisitError::Overflow));
    assert_eq!(TypedVisitor::<u8>::default().visit_i8(-1), Err(VisitError::Overflow));
    assert_eq!(TypedVisitor::<i8>::default().visit_i128(-129), Err(VisitError::Overflow));
    assert_eq!(TypedVisitor::<i8>::default().visit_u8(128), Err(VisitError::Overflow));
    assert_eq!(TypedVisitor::<u16>::default().visit_u128(u128::MAX), Err(VisitError::Overflow));
    assert_eq!(TypedVisitor::<i16>::default().visit_i32(32768), Err(VisitError::Overflow));
    assert_eq!(TypedVisitor::<u32>::default().visit_i128(i128::MIN), Err(VisitError::Overflow));
    assert_eq!(TypedVisitor::<i32>::default().visit_u64(2147483648), Err(VisitError::Overflow));
    assert_eq!(TypedVisitor::<u32>::default().visit_u64(u64::MAX), Err(VisitError::Overflow));
}

#[test]
fn integer_targets_reject_bytes_and_strings() {
    assert_eq!(
        TypedVisitor::<u8>::default().visit_str("10"),
        Err(VisitError::InvalidType { event: EventKind::Str, expected: TargetKind::U8 })
    );
    assert_eq!(
        TypedVisitor::<i32>::default().visit_bytes(&[1]),
        Err(VisitError::InvalidType { event: EventKind::Bytes, expected: TargetKind::I32 })
    );
}

#[test]
fn bytes_target_accepts_bytes_only() {
    assert_eq!(TypedVisitor::<Vec<u8>>::default().visit_bytes(&[1, 2, 3]), Ok(vec![1, 2, 3]));
    assert_eq!(TypedVisitor::<Vec<u8>>::default().visit_bytes(&[]), Ok(vec![]));
    assert_eq!(TypedVisitor::<Vec<u8>>::default().visit_byte_buf(vec![9]), Ok(vec![9]));
    let e = TypedVisitor::<Vec<u8>>::default().visit_str("abc").unwrap_err();
    assert_eq!(e, VisitError::InvalidType { event: EventKind::Str, expected: TargetKind::Bytes });
    assert_eq!(e.message(), "bytes");
    assert!(TypedVisitor::<Vec<u8>>::default().visit_string(String::from("abc")).is_err());
}

#[test]
fn string_target_accepts_strings() {
    assert_eq!(TypedVisitor::<String>::default().visit_str("héllo"), Ok(String::from("héllo")));
    assert_eq!(TypedVisitor::<String>::default().visit_string(String::new()), Ok(String::new()));
}

#[test]
fn expecting_descriptions() {
    assert_eq!(TypedVisitor::<u8>::default().expecting(), "a u8");
    assert_eq!(TypedVisitor::<i8>::default().expecting(), "a i8");
    assert_eq!(TypedVisitor::<u16>::default().expecting(), "a u16");
    assert_eq!(TypedVisitor::<i16>::default().expecting(), "a i16");
    assert_eq!(TypedVisitor::<u32>::default().expecting(), "a u32");
    assert_eq!(TypedVisitor::<i32>::default().expecting(), "a i32");
    assert_eq!(TypedVisitor::<Vec<u8>>::default().expecting(), "bytes");
    assert_eq!(TypedVisitor::<String>::default().expecting(), "a string");
    assert_eq!(TargetKind::F32.description(), "a float");
    assert_eq!(TargetKind::F64.description(), "a float");
}

#[test]
fn overflow_message() {
    assert_eq!(VisitError::Overflow.message(), "overflow");
}

#[test]
fn matrix_integer_rules() {
    assert_eq!(conversion(EventKind::U8, TargetKind::U8), Conversion::Exact);
    assert_eq!(conversion(EventKind::U8, TargetKind::I16), Conversion::Widen);
    assert_eq!(conversion(EventKind::U16, TargetKind::I16), Conversion::Narrow);
    assert_eq!(conversion(EventKind::I8, TargetKind::U32), Conversion::Narrow);
    assert_eq!(conversion(EventKind::U64, TargetKind::U8), Conversion::Narrow);
    assert_eq!(conversion(EventKind::I128, TargetKind::I32), Conversion::Narrow);
    assert_eq!(conversion(EventKind::F32, TargetKind::U8), Conversion::Reject);
    assert_eq!(conversion(EventKind::Str, TargetKind::I8), Conversion::Reject);
}

#[test]
fn matrix_float_rules() {
    for e in [EventKind::U8, EventKind::U64, EventKind::U128, EventKind::I8, EventKind::I128] {
        assert_eq!(conversion(e, TargetKind::F32), Conversion::Approximate);
        assert_eq!(conversion(e, TargetKind::F64), Conversion::Approximate);
    }
    assert_eq!(conversion(EventKind::F32, TargetKind::F64), Conversion::Widen);
    assert_eq!(conversion(EventKind::F64, TargetKind::F32), Conversion::Approximate);
    assert_eq!(conversion(EventKind::F64, TargetKind::F64), Conversion::Exact);
    assert_eq!(conversion(EventKind::Bytes, TargetKind::F32), Conversion::Reject);
    let x = 0.1f32;
    assert_eq!(x as f64 as f32, x);
    assert_eq!(f64::MAX as f32, f32::INFINITY);
}

#[test]
fn matrix_bytes_and_strings() {
    assert_eq!(conversion(EventKind::Bytes, TargetKind::Bytes), Conversion::Exact);
    assert_eq!(conversion(EventKind::Str, TargetKind::Bytes), Conversion::Reject);
    assert_eq!(conversion(EventKind::U8, TargetKind::Bytes), Conversion::Reject);
    assert_eq!(conversion(EventKind::Str, TargetKind::Str), Conversion::Exact);
    assert_eq!(conversion(EventKind::Bytes, TargetKind::Str), Conversion::Reject);
    assert_eq!(conversion(EventKind::F64, TargetKind::Str), Conversion::Reject);
}
