use typechecker::constants::{IntegerConstant, NumericConstant};
use typechecker::types::Type;

fn described(ty: &Type) -> String {
    let mut out = String::new();
    ty.write_text(&mut out);
    out
}

#[test]
fn is_integer_holds_of_the_eight_integer_types_only() {
    for ty in [
        Type::I8,
        Type::I16,
        Type::I32,
        Type::I64,
        Type::U8,
        Type::U16,
        Type::U32,
        Type::U64,
    ] {
        assert!(ty.is_integer());
        assert!(ty.is_numeric());
    }
    for ty in [
        Type::Bool,
        Type::String,
        Type::F32,
        Type::F64,
        Type::Void,
        Type::Unknown,
        Type::CChar,
        Type::CInt,
        Type::Struct(0),
        Type::Vector(Box::new(Type::I8)),
        Type::Tuple(vec![Type::I8]),
        Type::Optional(Box::new(Type::I8)),
        Type::RawPtr(Box::new(Type::I8)),
    ] {
        assert!(!ty.is_integer());
    }
    assert!(Type::F32.is_numeric());
    assert!(Type::F64.is_numeric());
    assert!(!Type::Bool.is_numeric());
}

#[test]
fn equality_is_structural_and_nominal_on_records() {
    assert_eq!(Type::Struct(3), Type::Struct(3));
    assert_ne!(Type::Struct(3), Type::Struct(4));
    assert_eq!(
        Type::Tuple(vec![Type::I8, Type::Vector(Box::new(Type::Bool))]),
        Type::Tuple(vec![Type::I8, Type::Vector(Box::new(Type::Bool))])
    );
    assert_ne!(
        Type::Tuple(vec![Type::I8, Type::I16]),
        Type::Tuple(vec![Type::I8])
    );
    assert_ne!(
        Type::Tuple(vec![Type::I8, Type::I16]),
        Type::Tuple(vec![Type::I8, Type::I32])
    );
    assert_ne!(Type::Vector(Box::new(Type::I8)), Type::Optional(Box::new(Type::I8)));
    assert_ne!(Type::RawPtr(Box::new(Type::I8)), Type::RawPtr(Box::new(Type::U8)));
    assert!(Type::Unknown.same_as(&Type::Unknown));
    assert!(!Type::Unknown.same_as(&Type::Void));
    assert!(Type::Unknown.is_unknown());
    assert!(!Type::Void.is_unknown());
}

#[test]
fn clone_gives_an_equal_type() {
    let ty = Type::Tuple(vec![
        Type::Optional(Box::new(Type::Struct(12))),
        Type::RawPtr(Box::new(Type::Vector(Box::new(Type::CInt)))),
    ]);
    assert_eq!(ty.clone(), ty);
}

#[test]
fn written_text_matches_the_debug_form() {
    for ty in [
        Type::Bool,
        Type::String,
        Type::I8,
        Type::I16,
        Type::I32,
        Type::I64,
        Type::U8,
        Type::U16,
        Type::U32,
        Type::U64,
        Type::F32,
        Type::F64,
        Type::Void,
        Type::Unknown,
        Type::CChar,
        Type::CInt,
        Type::Struct(0),
        Type::Struct(7),
        Type::Struct(10),
        Type::Struct(1234567890),
        Type::Vector(Box::new(Type::I32)),
        Type::Optional(Box::new(Type::Vector(Box::new(Type::Bool)))),
        Type::RawPtr(Box::new(Type::Struct(42))),
        Type::Tuple(vec![]),
        Type::Tuple(vec![Type::I8]),
        Type::Tuple(vec![Type::I8, Type::String, Type::Tuple(vec![Type::U64, Type::Void])]),
    ] {
        assert_eq!(described(&ty), format!("{:?}", ty));
    }
}

#[test]
fn written_text_of_a_nested_type() {
    let ty = Type::Tuple(vec![Type::I8, Type::Vector(Box::new(Type::Struct(305)))]);
    assert_eq!(described(&ty), "Tuple([I8, Vector(Struct(305))])");
}

#[test]
fn can_fit_integer_signed_constant_in_signed_type() {
    assert!(Type::I8.can_fit_integer(&IntegerConstant::Signed(-128)));
    assert!(Type::I8.can_fit_integer(&IntegerConstant::Signed(127)));
    assert!(!Type::I8.can_fit_integer(&IntegerConstant::Signed(128)));
    assert!(!Type::I8.can_fit_integer(&IntegerConstant::Signed(-129)));
    assert!(Type::I16.can_fit_integer(&IntegerConstant::Signed(-32768)));
    assert!(!Type::I16.can_fit_integer(&IntegerConstant::Signed(32768)));
    assert!(Type::I32.can_fit_integer(&IntegerConstant::Signed(2147483647)));
    assert!(!Type::I32.can_fit_integer(&IntegerConstant::Signed(2147483648)));
    assert!(Type::I64.can_fit_integer(&IntegerConstant::Signed(i64::MIN)));
    assert!(Type::I64.can_fit_integer(&IntegerConstant::Signed(i64::MAX)));
}

#[test]
fn can_fit_integer_unsigned_constant_in_signed_type() {
    assert!(Type::I8.can_fit_integer(&IntegerConstant::Unsigned(127)));
    assert!(!Type::I8.can_fit_integer(&IntegerConstant::Unsigned(128)));
    assert!(Type::I64.can_fit_integer(&IntegerConstant::Unsigned(9223372036854775807)));
    assert!(!Type::I64.can_fit_integer(&IntegerConstant::Unsigned(9223372036854775808)));
}

#[test]
fn can_fit_integer_signed_constant_in_unsigned_type() {
    assert!(Type::U8.can_fit_integer(&IntegerConstant::Signed(0)));
    assert!(Type::U8.can_fit_integer(&IntegerConstant::Signed(255)));
    assert!(!Type::U8.can_fit_integer(&IntegerConstant::Signed(256)));
    assert!(!Type::U8.can_fit_integer(&IntegerConstant::Signed(-1)));
    assert!(Type::U16.can_fit_integer(&IntegerConstant::Signed(65535)));
    assert!(!Type::U16.can_fit_integer(&IntegerConstant::Signed(65536)));
    assert!(Type::U32.can_fit_integer(&IntegerConstant::Signed(4294967295)));
    assert!(!Type::U32.can_fit_integer(&IntegerConstant::Signed(4294967296)));
    assert!(Type::U64.can_fit_integer(&IntegerConstant::Signed(i64::MAX)));
    assert!(!Type::U64.can_fit_integer(&IntegerConstant::Signed(-1)));
}

#[test]
fn can_fit_integer_unsigned_constant_in_unsigned_type() {
    assert!(Type::U8.can_fit_integer(&IntegerConstant::Unsigned(255)));
    assert!(!Type::U8.can_fit_integer(&IntegerConstant::Unsigned(256)));
    assert!(Type::U32.can_fit_integer(&IntegerConstant::Unsigned(4294967295)));
    assert!(!Type::U32.can_fit_integer(&IntegerConstant::Unsigned(4294967296)));
    assert!(Type::U64.can_fit_integer(&IntegerConstant::Unsigned(u64::MAX)));
}

#[test]
fn no_integer_fits_a_type_that_is_not_an_integer_type() {
    for ty in [Type::Bool, Type::F32, Type::F64, Type::String, Type::Unknown, Type::Struct(0)] {
        assert!(!ty.can_fit_integer(&IntegerConstant::Signed(0)));
        assert!(!ty.can_fit_integer(&IntegerConstant::Unsigned(0)));
    }
}

#[test]
fn promote_keeps_the_value_and_takes_the_width() {
    assert_eq!(
        IntegerConstant::Signed(100).promote(&Type::U8),
        (Some(NumericConstant::U8(100)), Type::U8)
    );
    assert_eq!(
        IntegerConstant::Signed(-5).promote(&Type::I8),
        (Some(NumericConstant::I8(-5)), Type::I8)
    );
    assert_eq!(
        IntegerConstant::Unsigned(40000).promote(&Type::U16),
        (Some(NumericConstant::U16(40000)), Type::U16)
    );
    assert_eq!(
        IntegerConstant::Unsigned(7).promote(&Type::I64),
        (Some(NumericConstant::I64(7)), Type::I64)
    );
    assert_eq!(
        IntegerConstant::Signed(i64::MAX).promote(&Type::U64),
        (Some(NumericConstant::U64(9223372036854775807)), Type::U64)
    );
    assert_eq!(
        IntegerConstant::Unsigned(u64::MAX).promote(&Type::U64),
        (Some(NumericConstant::U64(u64::MAX)), Type::U64)
    );
    assert_eq!(
        IntegerConstant::Signed(-2147483648).promote(&Type::I32),
        (Some(NumericConstant::I32(-2147483648)), Type::I32)
    );
    assert_eq!(
        IntegerConstant::Signed(1).promote(&Type::I16),
        (Some(NumericConstant::I16(1)), Type::I16)
    );
    assert_eq!(
        IntegerConstant::Unsigned(1).promote(&Type::U32),
        (Some(NumericConstant::U32(1)), Type::U32)
    );
}

#[test]
fn promote_fails_outside_the_range() {
    assert_eq!(IntegerConstant::Signed(300).promote(&Type::U8), (None, Type::Unknown));
    assert_eq!(IntegerConstant::Signed(-1).promote(&Type::U64), (None, Type::Unknown));
    assert_eq!(IntegerConstant::Unsigned(u64::MAX).promote(&Type::I64), (None, Type::Unknown));
    assert_eq!(IntegerConstant::Signed(1).promote(&Type::Bool), (None, Type::Unknown));
}

#[test]
fn promoted_constant_widens_back_to_the_same_value() {
    let (promoted, _) = IntegerConstant::Signed(77).promote(&Type::U16);
    assert_eq!(
        promoted.unwrap().integer_constant(),
        Some(IntegerConstant::Unsigned(77))
    );
    let (promoted, _) = IntegerConstant::Unsigned(77).promote(&Type::I32);
    assert_eq!(promoted.unwrap().integer_constant(), Some(IntegerConstant::Signed(77)));
}

#[test]
fn integer_constant_forgets_the_width() {
    assert_eq!(NumericConstant::I8(-3).integer_constant(), Some(IntegerConstant::Signed(-3)));
    assert_eq!(NumericConstant::I16(-3).integer_constant(), Some(IntegerConstant::Signed(-3)));
    assert_eq!(NumericConstant::I32(-3).integer_constant(), Some(IntegerConstant::Signed(-3)));
    assert_eq!(NumericConstant::I64(-3).integer_constant(), Some(IntegerConstant::Signed(-3)));
    assert_eq!(NumericConstant::U8(3).integer_constant(), Some(IntegerConstant::Unsigned(3)));
    assert_eq!(NumericConstant::U16(3).integer_constant(), Some(IntegerConstant::Unsigned(3)));
    assert_eq!(NumericConstant::U32(3).integer_constant(), Some(IntegerConstant::Unsigned(3)));
    assert_eq!(NumericConstant::U64(3).integer_constant(), Some(IntegerConstant::Unsigned(3)));
}

#[test]
fn numeric_constant_type_follows_the_width_tag() {
    assert_eq!(NumericConstant::I8(0).ty(), Type::I8);
    assert_eq!(NumericConstant::I16(0).ty(), Type::I16);
    assert_eq!(NumericConstant::I32(0).ty(), Type::I32);
    assert_eq!(NumericConstant::I64(0).ty(), Type::I64);
    assert_eq!(NumericConstant::U8(0).ty(), Type::U8);
    assert_eq!(NumericConstant::U16(0).ty(), Type::U16);
    assert_eq!(NumericConstant::U32(0).ty(), Type::U32);
    assert_eq!(NumericConstant::U64(0).ty(), Type::U64);
}
