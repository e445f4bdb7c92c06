//! The closed vocabulary of types that the checker assigns.

use vstd::prelude::*;
use vstd::string::*;

verus! {

/// The index of a record in the project's table of records.
pub type StructId = usize;

/// The index of a function in the project's table of functions.
pub type FunctionId = usize;

/// The index of a scope in the project's table of scopes.
pub type ScopeId = usize;

/// Whether the code being checked lies inside an unsafe block.
#[derive(Clone, Copy, Debug, PartialEq, Eq, Structural)]
pub enum SafetyMode {
    Safe,
    Unsafe,
}

/// A resolved type. `Unknown` stands both for "to be inferred" and for the
/// type of something that failed to check.
#[derive(Debug)]
pub enum Type {
    Bool,
    String,
    I8,
    I16,
    I32,
    I64,
    U8,
    U16,
    U32,
    U64,
    F32,
    F64,
    Void,
    Vector(Box<Type>),
    Tuple(Vec<Type>),
    Optional(Box<Type>),
    Struct(StructId),
    RawPtr(Box<Type>),
    Unknown,
    CChar,
    CInt,
}

/// The mathematical content of a [`Type`]: the same sum, with a sequence in
/// place of the vector of tuple members.
pub enum TypeView {
    Bool,
    String,
    I8,
    I16,
    I32,
    I64,
    U8,
    U16,
    U32,
    U64,
    F32,
    F64,
    Void,
    Vector(Box<TypeView>),
    Tuple(Seq<TypeView>),
    Optional(Box<TypeView>),
    Struct(StructId),
    RawPtr(Box<TypeView>),
    Unknown,
    CChar,
    CInt,
}

/// The model of a type, by recursion on its structure.
pub open spec fn type_view(ty: Type) -> TypeView
    decreases ty,
{
    match ty {
        Type::Bool => TypeView::Bool,
        Type::String => TypeView::String,
        Type::I8 => TypeView::I8,
        Type::I16 => TypeView::I16,
        Type::I32 => TypeView::I32,
        Type::I64 => TypeView::I64,
        Type::U8 => TypeView::U8,
        Type::U16 => TypeView::U16,
        Type::U32 => TypeView::U32,
        Type::U64 => TypeView::U64,
        Type::F32 => TypeView::F32,
        Type::F64 => TypeView::F64,
        Type::Void => TypeView::Void,
        Type::Vector(inner) => TypeView::Vector(Box::new(type_view(*inner))),
        Type::Tuple(members) => TypeView::Tuple(
            Seq::new(
                members@.len(),
                |i: int|
                    if 0 <= i < members@.len() {
                        type_view(members@[i])
                    } else {
                        TypeView::Unknown
                    },
            ),
        ),
        Type::Optional(inner) => TypeView::Optional(Box::new(type_view(*inner))),
        Type::Struct(id) => TypeView::Struct(id),
        Type::RawPtr(inner) => TypeView::RawPtr(Box::new(type_view(*inner))),
        Type::Unknown => TypeView::Unknown,
        Type::CChar => TypeView::CChar,
        Type::CInt => TypeView::CInt,
    }
}

impl View for Type {
    type V = TypeView;

    open spec fn view(&self) -> TypeView {
        type_view(*self)
    }
}

impl TypeView {
    /// True exactly of the eight sized integer types.
    pub open spec fn is_integer(self) -> bool {
        self is I8 || self is I16 || self is I32 || self is I64 || self is U8 || self is U16
            || self is U32 || self is U64
    }

    /// True of the integer types and the two float types.
    pub open spec fn is_numeric(self) -> bool {
        self.is_integer() || self is F32 || self is F64
    }

    /// The least value of an integer type. Only meaningful on integer types.
    pub open spec fn min_value(self) -> int {
        match self {
            TypeView::I8 => -0x80,
            TypeView::I16 => -0x8000,
            TypeView::I32 => -0x8000_0000,
            TypeView::I64 => -0x8000_0000_0000_0000,
            _ => 0,
        }
    }

    /// The greatest value of an integer type. Only meaningful on integer types.
    pub open spec fn max_value(self) -> int {
        match self {
            TypeView::I8 => 0x7f,
            TypeView::I16 => 0x7fff,
            TypeView::I32 => 0x7fff_ffff,
            TypeView::I64 => 0x7fff_ffff_ffff_ffff,
            TypeView::U8 => 0xff,
            TypeView::U16 => 0xffff,
            TypeView::U32 => 0xffff_ffff,
            TypeView::U64 => 0xffff_ffff_ffff_ffff,
            _ => 0,
        }
    }

    /// An integer type holds a value when the value lies within its range; no
    /// other type holds any integer.
    pub open spec fn holds(self, value: int) -> bool {
        self.is_integer() && self.min_value() <= value <= self.max_value()
    }

    /// Every record that the type mentions, at any depth, has an id below
    /// `records`.
    pub open spec fn in_range(self, records: nat) -> bool
        decreases self,
    {
        match self {
            TypeView::Vector(inner) => inner.in_range(records),
            TypeView::Optional(inner) => inner.in_range(records),
            TypeView::RawPtr(inner) => inner.in_range(records),
            TypeView::Tuple(members) => forall|i: int|
                0 <= i < members.len() ==> (#[trigger] members[i]).in_range(records),
            TypeView::Struct(id) => id < records,
            _ => true,
        }
    }

    /// `Unknown` occurs nowhere in the type, at any depth.
    pub open spec fn fully_known(self) -> bool
        decreases self,
    {
        match self {
            TypeView::Vector(inner) => inner.fully_known(),
            TypeView::Optional(inner) => inner.fully_known(),
            TypeView::RawPtr(inner) => inner.fully_known(),
            TypeView::Tuple(members) => forall|i: int|
                0 <= i < members.len() ==> (#[trigger] members[i]).fully_known(),
            TypeView::Unknown => false,
            _ => true,
        }
    }
}

/// A type whose records lie below one bound also lies below any larger one.
pub proof fn lemma_in_range_grows(ty: TypeView, fewer: nat, more: nat)
    requires
        ty.in_range(fewer),
        fewer <= more,
    ensures
        ty.in_range(more),
    decreases ty,
{
    match ty {
        TypeView::Vector(inner) => lemma_in_range_grows(*inner, fewer, more),
        TypeView::Optional(inner) => lemma_in_range_grows(*inner, fewer, more),
        TypeView::RawPtr(inner) => lemma_in_range_grows(*inner, fewer, more),
        TypeView::Tuple(members) => {
            assert forall|i: int| 0 <= i < members.len() implies (#[trigger] members[i]).in_range(
                more,
            ) by {
                lemma_in_range_grows(members[i], fewer, more);
            }
        },
        _ => {},
    }
}

impl Clone for Type {
    fn clone(&self) -> (copy: Self)
        ensures
            copy@ == self@,
        decreases self,
    {
        match self {
            Type::Bool => Type::Bool,
            Type::String => Type::String,
            Type::I8 => Type::I8,
            Type::I16 => Type::I16,
            Type::I32 => Type::I32,
            Type::I64 => Type::I64,
            Type::U8 => Type::U8,
            Type::U16 => Type::U16,
            Type::U32 => Type::U32,
            Type::U64 => Type::U64,
            Type::F32 => Type::F32,
            Type::F64 => Type::F64,
            Type::Void => Type::Void,
            Type::Vector(inner) => Type::Vector(Box::new((**inner).clone())),
            Type::Tuple(members) => {
                let mut copies: Vec<Type> = Vec::new();
                let mut i: usize = 0;
                while i < members.len()
                    invariant
                        i <= members.len(),
                        copies@.len() == i,
                        forall|j: int| 0 <= j < i ==> copies@[j]@ == members@[j]@,
                        self matches Type::Tuple(own) && own == members,
                    decreases members.len() - i,
                {
                    copies.push(members[i].clone());
                    i += 1;
                }
                assert(Type::Tuple(copies)@->Tuple_0 =~= self@->Tuple_0);
                Type::Tuple(copies)
            },
            Type::Optional(inner) => Type::Optional(Box::new((**inner).clone())),
            Type::Struct(id) => Type::Struct(*id),
            Type::RawPtr(inner) => Type::RawPtr(Box::new((**inner).clone())),
            Type::Unknown => Type::Unknown,
            Type::CChar => Type::CChar,
            Type::CInt => Type::CInt,
        }
    }
}

impl Type {
    /// Structural equality; two record types are equal when their ids are.
    pub fn same_as(&self, other: &Type) -> (same: bool)
        ensures
            same == (self@ == other@),
        decreases self,
    {
        match (self, other) {
            (Type::Bool, Type::Bool) => true,
            (Type::String, Type::String) => true,
            (Type::I8, Type::I8) => true,
            (Type::I16, Type::I16) => true,
            (Type::I32, Type::I32) => true,
            (Type::I64, Type::I64) => true,
            (Type::U8, Type::U8) => true,
            (Type::U16, Type::U16) => true,
            (Type::U32, Type::U32) => true,
            (Type::U64, Type::U64) => true,
            (Type::F32, Type::F32) => true,
            (Type::F64, Type::F64) => true,
            (Type::Void, Type::Void) => true,
            (Type::Vector(a), Type::Vector(b)) => a.same_as(b),
            (Type::Tuple(a), Type::Tuple(b)) => {
                if a.len() != b.len() {
                    assert(self@->Tuple_0.len() != other@->Tuple_0.len());
                    return false;
                }
                let mut i: usize = 0;
                while i < a.len()
                    invariant
                        i <= a.len(),
                        a.len() == b.len(),
                        forall|j: int| 0 <= j < i ==> a@[j]@ == b@[j]@,
                        self matches Type::Tuple(own) && own == a,
                        other matches Type::Tuple(own) && own == b,
                    decreases a.len() - i,
                {
                    if !a[i].same_as(&b[i]) {
                        assert(self@->Tuple_0[i as int] == a@[i as int]@);
                        assert(other@->Tuple_0[i as int] == b@[i as int]@);
                        return false;
                    }
                    i += 1;
                }
                assert(self@->Tuple_0 =~= other@->Tuple_0);
                true
            },
            (Type::Optional(a), Type::Optional(b)) => a.same_as(b),
            (Type::Struct(a), Type::Struct(b)) => *a == *b,
            (Type::RawPtr(a), Type::RawPtr(b)) => a.same_as(b),
            (Type::Unknown, Type::Unknown) => true,
            (Type::CChar, Type::CChar) => true,
            (Type::CInt, Type::CInt) => true,
            _ => false,
        }
    }

    /// Whether the type is `Unknown` itself.
    pub fn is_unknown(&self) -> (unknown: bool)
        ensures
            unknown == (self@ is Unknown),
    {
        match self {
            Type::Unknown => true,
            _ => false,
        }
    }

    /// True exactly of the eight sized integer types.
    pub fn is_integer(&self) -> (integer: bool)
        ensures
            integer == self@.is_integer(),
    {
        match self {
            Type::I8
            | Type::I16
            | Type::I32
            | Type::I64
            | Type::U8
            | Type::U16
            | Type::U32
            | Type::U64 => true,
            _ => false,
        }
    }

    /// True of the integer types and the two float types.
    pub fn is_numeric(&self) -> (numeric: bool)
        ensures
            numeric == self@.is_numeric(),
    {
        match self {
            Type::I8
            | Type::I16
            | Type::I32
            | Type::I64
            | Type::U8
            | Type::U16
            | Type::U32
            | Type::U64
            | Type::F32
            | Type::F64 => true,
            _ => false,
        }
    }
}

impl PartialEq for Type {
    fn eq(&self, other: &Self) -> (same: bool) {
        self.same_as(other)
    }
}

impl vstd::std_specs::cmp::PartialEqSpecImpl for Type {
    open spec fn obeys_eq_spec() -> bool {
        true
    }

    open spec fn eq_spec(&self, other: &Self) -> bool {
        self@ == other@
    }
}

/// The decimal digit `d` as text.
pub open spec fn digit_text(d: nat) -> Seq<char> {
    if d == 0 {
        "0"@
    } else if d == 1 {
        "1"@
    } else if d == 2 {
        "2"@
    } else if d == 3 {
        "3"@
    } else if d == 4 {
        "4"@
    } else if d == 5 {
        "5"@
    } else if d == 6 {
        "6"@
    } else if d == 7 {
        "7"@
    } else if d == 8 {
        "8"@
    } else {
        "9"@
    }
}

/// The number `n` in decimal, without leading zeros.
pub open spec fn decimal_text(n: nat) -> Seq<char>
    decreases n,
{
    if n < 10 {
        digit_text(n)
    } else {
        decimal_text(n / 10) + digit_text(n % 10)
    }
}

/// The texts of the first `n` members, separated by a comma and a space.
pub open spec fn member_texts(members: Seq<TypeView>, n: nat) -> Seq<char>
    decreases members, n,
{
    if n == 0 || n > members.len() {
        Seq::empty()
    } else if n == 1 {
        members[0].text()
    } else {
        member_texts(members, (n - 1) as nat) + ", "@ + members[n - 1].text()
    }
}

impl TypeView {
    /// The type written out: the name of its constructor, and its arguments
    /// in parentheses where it has any.
    pub open spec fn text(self) -> Seq<char>
        decreases self, 0nat,
    {
        match self {
            TypeView::Bool => "Bool"@,
            TypeView::String => "String"@,
            TypeView::I8 => "I8"@,
            TypeView::I16 => "I16"@,
            TypeView::I32 => "I32"@,
            TypeView::I64 => "I64"@,
            TypeView::U8 => "U8"@,
            TypeView::U16 => "U16"@,
            TypeView::U32 => "U32"@,
            TypeView::U64 => "U64"@,
            TypeView::F32 => "F32"@,
            TypeView::F64 => "F64"@,
            TypeView::Void => "Void"@,
            TypeView::Vector(inner) => "Vector("@ + inner.text() + ")"@,
            TypeView::Tuple(members) => "Tuple(["@ + member_texts(members, members.len()) + "])"@,
            TypeView::Optional(inner) => "Optional("@ + inner.text() + ")"@,
            TypeView::Struct(id) => "Struct("@ + decimal_text(id as nat) + ")"@,
            TypeView::RawPtr(inner) => "RawPtr("@ + inner.text() + ")"@,
            TypeView::Unknown => "Unknown"@,
            TypeView::CChar => "CChar"@,
            TypeView::CInt => "CInt"@,
        }
    }
}

fn digit_str(d: usize) -> (text: &'static str)
    requires
        d < 10,
    ensures
        text@ == digit_text(d as nat),
{
    if d == 0 {
        "0"
    } else if d == 1 {
        "1"
    } else if d == 2 {
        "2"
    } else if d == 3 {
        "3"
    } else if d == 4 {
        "4"
    } else if d == 5 {
        "5"
    } else if d == 6 {
        "6"
    } else if d == 7 {
        "7"
    } else if d == 8 {
        "8"
    } else {
        "9"
    }
}

fn write_decimal(out: &mut String, n: usize)
    ensures
        final(out)@ == old(out)@ + decimal_text(n as nat),
    decreases n,
{
    if n >= 10 {
        write_decimal(out, n / 10);
    }
    out.append(digit_str(n % 10));
}

impl Type {
    /// Appends the type, written out, to `out`.
    pub fn write_text(&self, out: &mut String)
        ensures
            final(out)@ == old(out)@ + self@.text(),
        decreases self,
    {
        match self {
            Type::Bool => out.append("Bool"),
            Type::String => out.append("String"),
            Type::I8 => out.append("I8"),
            Type::I16 => out.append("I16"),
            Type::I32 => out.append("I32"),
            Type::I64 => out.append("I64"),
            Type::U8 => out.append("U8"),
            Type::U16 => out.append("U16"),
            Type::U32 => out.append("U32"),
            Type::U64 => out.append("U64"),
            Type::F32 => out.append("F32"),
            Type::F64 => out.append("F64"),
            Type::Void => out.append("Void"),
            Type::Vector(inner) => {
                out.append("Vector(");
                inner.write_text(out);
                out.append(")");
            },
            Type::Tuple(members) => {
                out.append("Tuple([");
                let ghost start = out@;
                let mut i: usize = 0;
                while i < members.len()
                    invariant
                        i <= members.len(),
                        self matches Type::Tuple(own) && own == members,
                        out@ == start + member_texts(self@->Tuple_0, i as nat),
                    decreases members.len() - i,
                {
                    if i > 0 {
                        out.append(", ");
                    }
                    members[i].write_text(out);
                    i += 1;
                }
                out.append("])");
            },
            Type::Optional(inner) => {
                out.append("Optional(");
                inner.write_text(out);
                out.append(")");
            },
            Type::Struct(id) => {
                out.append("Struct(");
                write_decimal(out, *id);
                out.append(")");
            },
            Type::RawPtr(inner) => {
                out.append("RawPtr(");
                inner.write_text(out);
                out.append(")");
            },
            Type::Unknown => out.append("Unknown"),
            Type::CChar => out.append("CChar"),
            Type::CInt => out.append("CInt"),
        }
    }
}

} // verus!
