//! Integer literals before and after they are given a width.

use crate::types::{Type, TypeView};
use vstd::prelude::*;

verus! {

/// An integer literal whose width is still open.
#[derive(Clone, Copy, Debug, PartialEq, Eq, Structural)]
pub enum IntegerConstant {
    Signed(i64),
    Unsigned(u64),
}

/// An integer literal of one of the eight sized integer types.
#[derive(Clone, Copy, Debug, PartialEq, Eq, Structural)]
pub enum NumericConstant {
    I8(i8),
    I16(i16),
    I32(i32),
    I64(i64),
    U8(u8),
    U16(u16),
    U32(u32),
    U64(u64),
}

impl IntegerConstant {
    /// The integer that the literal denotes.
    pub open spec fn value(self) -> int {
        match self {
            IntegerConstant::Signed(v) => v as int,
            IntegerConstant::Unsigned(v) => v as int,
        }
    }
}

impl NumericConstant {
    /// The integer that the literal denotes.
    pub open spec fn value(self) -> int {
        match self {
            NumericConstant::I8(v) => v as int,
            NumericConstant::I16(v) => v as int,
            NumericConstant::I32(v) => v as int,
            NumericConstant::I64(v) => v as int,
            NumericConstant::U8(v) => v as int,
            NumericConstant::U16(v) => v as int,
            NumericConstant::U32(v) => v as int,
            NumericConstant::U64(v) => v as int,
        }
    }

    /// The type that the literal's width tag stands for.
    pub open spec fn type_of(self) -> TypeView {
        match self {
            NumericConstant::I8(_) => TypeView::I8,
            NumericConstant::I16(_) => TypeView::I16,
            NumericConstant::I32(_) => TypeView::I32,
            NumericConstant::I64(_) => TypeView::I64,
            NumericConstant::U8(_) => TypeView::U8,
            NumericConstant::U16(_) => TypeView::U16,
            NumericConstant::U32(_) => TypeView::U32,
            NumericConstant::U64(_) => TypeView::U64,
        }
    }

    /// The literal with its width forgotten: signed widths become a signed
    /// constant, unsigned widths an unsigned one.
    pub open spec fn widened(self) -> IntegerConstant {
        match self {
            NumericConstant::I8(v) => IntegerConstant::Signed(v as i64),
            NumericConstant::I16(v) => IntegerConstant::Signed(v as i64),
            NumericConstant::I32(v) => IntegerConstant::Signed(v as i64),
            NumericConstant::I64(v) => IntegerConstant::Signed(v),
            NumericConstant::U8(v) => IntegerConstant::Unsigned(v as u64),
            NumericConstant::U16(v) => IntegerConstant::Unsigned(v as u64),
            NumericConstant::U32(v) => IntegerConstant::Unsigned(v as u64),
            NumericConstant::U64(v) => IntegerConstant::Unsigned(v),
        }
    }

    /// The literal with its width forgotten.
    pub fn integer_constant(&self) -> (constant: Option<IntegerConstant>)
        ensures
            constant == Some(self.widened()),
            self.widened().value() == self.value(),
    {
        match self {
            NumericConstant::I8(value) => Some(IntegerConstant::Signed(*value as i64)),
            NumericConstant::I16(value) => Some(IntegerConstant::Signed(*value as i64)),
            NumericConstant::I32(value) => Some(IntegerConstant::Signed(*value as i64)),
            NumericConstant::I64(value) => Some(IntegerConstant::Signed(*value)),
            NumericConstant::U8(value) => Some(IntegerConstant::Unsigned(*value as u64)),
            NumericConstant::U16(value) => Some(IntegerConstant::Unsigned(*value as u64)),
            NumericConstant::U32(value) => Some(IntegerConstant::Unsigned(*value as u64)),
            NumericConstant::U64(value) => Some(IntegerConstant::Unsigned(*value)),
        }
    }

    /// The type that the literal's width tag stands for.
    pub fn ty(&self) -> (ty: Type)
        ensures
            ty@ == self.type_of(),
    {
        match self {
            NumericConstant::I8(_) => Type::I8,
            NumericConstant::I16(_) => Type::I16,
            NumericConstant::I32(_) => Type::I32,
            NumericConstant::I64(_) => Type::I64,
            NumericConstant::U8(_) => Type::U8,
            NumericConstant::U16(_) => Type::U16,
            NumericConstant::U32(_) => Type::U32,
            NumericConstant::U64(_) => Type::U64,
        }
    }
}

/// The literal of type `ty` that denotes `value`. Only meaningful where `ty`
/// holds `value`.
pub open spec fn narrowed(value: int, ty: TypeView) -> NumericConstant {
    match ty {
        TypeView::I8 => NumericConstant::I8(value as i8),
        TypeView::I16 => NumericConstant::I16(value as i16),
        TypeView::I32 => NumericConstant::I32(value as i32),
        TypeView::I64 => NumericConstant::I64(value as i64),
        TypeView::U8 => NumericConstant::U8(value as u8),
        TypeView::U16 => NumericConstant::U16(value as u16),
        TypeView::U32 => NumericConstant::U32(value as u32),
        _ => NumericConstant::U64(value as u64),
    }
}

/// Narrowing keeps the value and yields the width asked for, and it is the
/// only literal that does both.
pub proof fn lemma_narrowed_preserves_value(value: int, ty: TypeView)
    requires
        ty.holds(value),
    ensures
        narrowed(value, ty).value() == value,
        narrowed(value, ty).type_of() == ty,
        forall|c: NumericConstant|
            c.value() == value && c.type_of() == ty ==> c == narrowed(value, ty),
{
}

impl Type {
    /// Whether `value` lies within the range of this type. No integer fits a
    /// type that is not an integer type.
    pub fn can_fit_integer(&self, value: &IntegerConstant) -> (fits: bool)
        ensures
            fits == self@.holds(value.value()),
    {
        match *value {
            IntegerConstant::Signed(value) => match self {
                Type::I8 => value >= -0x80 && value <= 0x7f,
                Type::I16 => value >= -0x8000 && value <= 0x7fff,
                Type::I32 => value >= -0x8000_0000 && value <= 0x7fff_ffff,
                Type::I64 => true,
                Type::U8 => value >= 0 && value <= 0xff,
                Type::U16 => value >= 0 && value <= 0xffff,
                Type::U32 => value >= 0 && value <= 0xffff_ffff,
                Type::U64 => value >= 0,
                _ => false,
            },
            IntegerConstant::Unsigned(value) => match self {
                Type::I8 => value <= 0x7f,
                Type::I16 => value <= 0x7fff,
                Type::I32 => value <= 0x7fff_ffff,
                Type::I64 => value <= 0x7fff_ffff_ffff_ffff,
                Type::U8 => value <= 0xff,
                Type::U16 => value <= 0xffff,
                Type::U32 => value <= 0xffff_ffff,
                Type::U64 => true,
                _ => false,
            },
        }
    }
}

impl IntegerConstant {
    /// Narrows the literal to `ty`. Where `ty` holds the value, the result is
    /// the literal of that width with the same value, together with `ty`;
    /// otherwise nothing, together with `Unknown`.
    pub fn promote(&self, ty: &Type) -> (promoted: (Option<NumericConstant>, Type))
        ensures
            ty@.holds(self.value()) ==> promoted.0 == Some(narrowed(self.value(), ty@))
                && promoted.1@ == ty@,
            ty@.holds(self.value()) ==> promoted.0.unwrap().value() == self.value()
                && promoted.0.unwrap().type_of() == ty@,
            !ty@.holds(self.value()) ==> promoted.0 is None && promoted.1@ is Unknown,
    {
        if !ty.can_fit_integer(self) {
            return (None, Type::Unknown);
        }
        let new_constant = match self {
            IntegerConstant::Signed(value) => match ty {
                Type::I8 => NumericConstant::I8(*value as i8),
                Type::I16 => NumericConstant::I16(*value as i16),
                Type::I32 => NumericConstant::I32(*value as i32),
                Type::I64 => NumericConstant::I64(*value),
                Type::U8 => NumericConstant::U8(*value as u8),
                Type::U16 => NumericConstant::U16(*value as u16),
                Type::U32 => NumericConstant::U32(*value as u32),
                _ => NumericConstant::U64(*value as u64),
            },
            IntegerConstant::Unsigned(value) => match ty {
                Type::I8 => NumericConstant::I8(*value as i8),
                Type::I16 => NumericConstant::I16(*value as i16),
                Type::I32 => NumericConstant::I32(*value as i32),
                Type::I64 => NumericConstant::I64(*value as i64),
                Type::U8 => NumericConstant::U8(*value as u8),
                Type::U16 => NumericConstant::U16(*value as u16),
                Type::U32 => NumericConstant::U32(*value as u32),
                _ => NumericConstant::U64(*value),
            },
        };
        (Some(new_constant), ty.clone())
    }
}

} // verus!
