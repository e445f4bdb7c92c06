//! The parsed form of a source file, as the checker receives it.
//!
//! Nothing here is resolved: types are written as they appear in the source,
//! names are plain strings, and every node carries the span it came from.

use crate::constants::NumericConstant;
use crate::error::Span;
use vstd::prelude::*;

verus! {

/// A type as written in the source, before any name in it is resolved.
#[derive(Debug)]
pub enum UncheckedType {
    Name(String, Span),
    Vector(Box<UncheckedType>, Span),
    Optional(Box<UncheckedType>, Span),
    RawPtr(Box<UncheckedType>, Span),
    /// No type was written: the checker is asked to infer one.
    Empty,
}

impl Clone for UncheckedType {
    fn clone(&self) -> (copy: Self)
        ensures
            copy == *self,
        decreases self,
    {
        match self {
            UncheckedType::Name(name, span) => UncheckedType::Name(name.clone(), *span),
            UncheckedType::Vector(inner, span) => UncheckedType::Vector(
                Box::new((**inner).clone()),
                *span,
            ),
            UncheckedType::Optional(inner, span) => UncheckedType::Optional(
                Box::new((**inner).clone()),
                *span,
            ),
            UncheckedType::RawPtr(inner, span) => UncheckedType::RawPtr(
                Box::new((**inner).clone()),
                *span,
            ),
            UncheckedType::Empty => UncheckedType::Empty,
        }
    }
}

/// A prefix or postfix operator, or a cast to a written type.
#[derive(Debug)]
pub enum UnaryOperator {
    PreIncrement,
    PostIncrement,
    PreDecrement,
    PostDecrement,
    Negate,
    Dereference,
    RawAddress,
    LogicalNot,
    BitwiseNot,
    TypeCast(UncheckedType),
}

impl Clone for UnaryOperator {
    fn clone(&self) -> (copy: Self)
        ensures
            copy == *self,
    {
        match self {
            UnaryOperator::PreIncrement => UnaryOperator::PreIncrement,
            UnaryOperator::PostIncrement => UnaryOperator::PostIncrement,
            UnaryOperator::PreDecrement => UnaryOperator::PreDecrement,
            UnaryOperator::PostDecrement => UnaryOperator::PostDecrement,
            UnaryOperator::Negate => UnaryOperator::Negate,
            UnaryOperator::Dereference => UnaryOperator::Dereference,
            UnaryOperator::RawAddress => UnaryOperator::RawAddress,
            UnaryOperator::LogicalNot => UnaryOperator::LogicalNot,
            UnaryOperator::BitwiseNot => UnaryOperator::BitwiseNot,
            UnaryOperator::TypeCast(target) => UnaryOperator::TypeCast(target.clone()),
        }
    }
}

/// An infix operator.
#[derive(Clone, Copy, Debug, PartialEq, Eq, Structural)]
pub enum BinaryOperator {
    Add,
    Subtract,
    Multiply,
    Divide,
    Modulo,
    Equal,
    NotEqual,
    LessThan,
    GreaterThan,
    LessThanOrEqual,
    GreaterThanOrEqual,
    BitwiseAnd,
    BitwiseXor,
    BitwiseOr,
    BitwiseLeftShift,
    BitwiseRightShift,
    LogicalAnd,
    LogicalOr,
    Assign,
    AddAssign,
    SubtractAssign,
    MultiplyAssign,
    DivideAssign,
    BitwiseAndAssign,
    BitwiseOrAssign,
    BitwiseXorAssign,
    BitwiseLeftShiftAssign,
    BitwiseRightShiftAssign,
}

impl BinaryOperator {
    /// True of plain assignment and of the nine compound assignments.
    pub open spec fn is_assignment(self) -> bool {
        self is Assign || self is AddAssign || self is SubtractAssign || self is MultiplyAssign
            || self is DivideAssign || self is BitwiseAndAssign || self is BitwiseOrAssign
            || self is BitwiseXorAssign || self is BitwiseLeftShiftAssign
            || self is BitwiseRightShiftAssign
    }

    /// True of the two short-circuit operators.
    pub open spec fn is_logical(self) -> bool {
        self is LogicalAnd || self is LogicalOr
    }
}

/// Whether a record is defined in the program or elsewhere.
#[derive(Clone, Copy, Debug, PartialEq, Eq, Structural)]
pub enum DefinitionLinkage {
    Internal,
    External,
}

/// The two kinds of record.
#[derive(Clone, Copy, Debug, PartialEq, Eq, Structural)]
pub enum DefinitionType {
    Class,
    Struct,
}

/// Where a function comes from: the program, elsewhere, or a record that
/// it constructs.
#[derive(Clone, Copy, Debug, PartialEq, Eq, Structural)]
pub enum FunctionLinkage {
    Internal,
    External,
    ImplicitConstructor,
}

/// A call as written: an optional record name in front, the callee's name,
/// and the arguments, each with the label it was given (empty for none).
#[derive(Debug)]
pub struct Call {
    pub namespace: Vec<String>,
    pub name: String,
    pub args: Vec<(String, Expression)>,
}

/// An expression as parsed.
#[derive(Debug)]
pub enum Expression {
    Boolean(bool, Span),
    NumericConstant(NumericConstant, Span),
    QuotedString(String, Span),
    CharacterLiteral(char, Span),
    /// The elements, and the fill size of `[value; size]` where one is given.
    Vector(Vec<Expression>, Option<Box<Expression>>, Span),
    IndexedExpression(Box<Expression>, Box<Expression>, Span),
    UnaryOp(Box<Expression>, UnaryOperator, Span),
    BinaryOp(Box<Expression>, BinaryOperator, Box<Expression>, Span),
    Var(String, Span),
    Tuple(Vec<Expression>, Span),
    IndexedTuple(Box<Expression>, usize, Span),
    IndexedStruct(Box<Expression>, String, Span),
    Call(Call, Span),
    MethodCall(Box<Expression>, Call, Span),
    ForcedUnwrap(Box<Expression>, Span),
    OptionalNone(Span),
    OptionalSome(Box<Expression>, Span),
    /// An operator left alone by the parser.
    Operator(BinaryOperator, Span),
    /// What the parser could not make sense of.
    Garbage(Span),
}

impl Expression {
    /// The span of the node.
    pub open spec fn spec_span(&self) -> Span {
        match self {
            Expression::Boolean(_, span) => *span,
            Expression::NumericConstant(_, span) => *span,
            Expression::QuotedString(_, span) => *span,
            Expression::CharacterLiteral(_, span) => *span,
            Expression::Vector(_, _, span) => *span,
            Expression::IndexedExpression(_, _, span) => *span,
            Expression::UnaryOp(_, _, span) => *span,
            Expression::BinaryOp(_, _, _, span) => *span,
            Expression::Var(_, span) => *span,
            Expression::Tuple(_, span) => *span,
            Expression::IndexedTuple(_, _, span) => *span,
            Expression::IndexedStruct(_, _, span) => *span,
            Expression::Call(_, span) => *span,
            Expression::MethodCall(_, _, span) => *span,
            Expression::ForcedUnwrap(_, span) => *span,
            Expression::OptionalNone(span) => *span,
            Expression::OptionalSome(_, span) => *span,
            Expression::Operator(_, span) => *span,
            Expression::Garbage(span) => *span,
        }
    }

    /// The span of the node.
    #[verifier::when_used_as_spec(spec_span)]
    pub fn span(&self) -> (span: Span)
        ensures
            span == self.spec_span(),
    {
        match self {
            Expression::Boolean(_, span) => *span,
            Expression::NumericConstant(_, span) => *span,
            Expression::QuotedString(_, span) => *span,
            Expression::CharacterLiteral(_, span) => *span,
            Expression::Vector(_, _, span) => *span,
            Expression::IndexedExpression(_, _, span) => *span,
            Expression::UnaryOp(_, _, span) => *span,
            Expression::BinaryOp(_, _, _, span) => *span,
            Expression::Var(_, span) => *span,
            Expression::Tuple(_, span) => *span,
            Expression::IndexedTuple(_, _, span) => *span,
            Expression::IndexedStruct(_, _, span) => *span,
            Expression::Call(_, span) => *span,
            Expression::MethodCall(_, _, span) => *span,
            Expression::ForcedUnwrap(_, span) => *span,
            Expression::OptionalNone(span) => *span,
            Expression::OptionalSome(_, span) => *span,
            Expression::Operator(_, span) => *span,
            Expression::Garbage(span) => *span,
        }
    }
}

/// A declared variable or record field as written.
#[derive(Clone, Debug)]
pub struct VarDecl {
    pub name: String,
    pub ty: UncheckedType,
    pub mutable: bool,
    pub span: Span,
}

/// The variable of a parameter as written.
#[derive(Clone, Debug)]
pub struct Variable {
    pub name: String,
    pub ty: UncheckedType,
    pub mutable: bool,
}

/// A parameter as written, with whether call sites must label it.
#[derive(Clone, Debug)]
pub struct Parameter {
    pub requires_label: bool,
    pub variable: Variable,
}

/// A sequence of statements in braces.
#[derive(Debug)]
pub struct Block {
    pub stmts: Vec<Statement>,
}

/// A statement as parsed.
#[derive(Debug)]
pub enum Statement {
    Expression(Expression),
    Defer(Box<Statement>),
    UnsafeBlock(Block),
    VarDecl(VarDecl, Expression),
    /// Condition, body, and the `else` part where there is one.
    If(Expression, Block, Option<Box<Statement>>),
    Block(Block),
    While(Expression, Block),
    Return(Expression),
    Garbage,
}

/// A function or method as parsed.
#[derive(Debug)]
pub struct Function {
    pub name: String,
    pub name_span: Span,
    pub params: Vec<Parameter>,
    pub block: Block,
    pub return_type: UncheckedType,
    pub linkage: FunctionLinkage,
}

/// A record as parsed: its fields and its methods.
#[derive(Debug)]
pub struct Struct {
    pub name: String,
    pub fields: Vec<VarDecl>,
    pub methods: Vec<Function>,
    pub span: Span,
    pub definition_linkage: DefinitionLinkage,
    pub definition_type: DefinitionType,
}

/// The records and the free functions of one source file.
#[derive(Debug)]
pub struct ParsedFile {
    pub funs: Vec<Function>,
    pub structs: Vec<Struct>,
}

} // verus!
