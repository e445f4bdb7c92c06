//! The checked program: what the checker produces from the syntax tree.
//!
//! Checked entities never own one another in a cycle. Records, functions and
//! scopes live in flat tables of the project and refer to each other by index.

use crate::constants::{IntegerConstant, NumericConstant};
use crate::error::Span;
use crate::text::str_eq;
use crate::syntax::{
    BinaryOperator, DefinitionLinkage, DefinitionType, FunctionLinkage, UnaryOperator,
};
use crate::types::{lemma_in_range_grows, ScopeId, Type, TypeView};
use vstd::prelude::*;

verus! {

/// The models of a sequence of values, member by member.
pub open spec fn views<T: View>(items: Seq<T>) -> Seq<T::V> {
    Seq::new(items.len(), |i: int| items[i]@)
}

/// Appending a value appends its model.
pub proof fn lemma_views_push<T: View>(items: Seq<T>, last: T)
    ensures
        views(items.push(last)) == views(items).push(last@),
{
    assert(views(items.push(last)) =~= views(items).push(last@));
}

/// The models of a sequence of strings.
pub open spec fn string_views(items: Seq<String>) -> Seq<Seq<char>> {
    Seq::new(items.len(), |i: int| items[i]@)
}

/// Copies a vector of strings.
pub fn clone_strings(items: &Vec<String>) -> (copies: Vec<String>)
    ensures
        string_views(copies@) == string_views(items@),
{
    let mut copies: Vec<String> = Vec::new();
    let mut i: usize = 0;
    while i < items.len()
        invariant
            i <= items.len(),
            copies@.len() == i,
            forall|j: int| 0 <= j < i ==> copies@[j]@ == items@[j]@,
        decreases items.len() - i,
    {
        copies.push(items[i].clone());
        i += 1;
    }
    assert(string_views(copies@) =~= string_views(items@));
    copies
}

/// A variable as a scope knows it.
#[derive(Debug)]
pub struct CheckedVariable {
    pub name: String,
    pub ty: Type,
    pub mutable: bool,
}

/// The mathematical content of a [`CheckedVariable`].
pub struct CheckedVariableView {
    pub name: Seq<char>,
    pub ty: TypeView,
    pub mutable: bool,
}

impl View for CheckedVariable {
    type V = CheckedVariableView;

    open spec fn view(&self) -> CheckedVariableView {
        CheckedVariableView { name: self.name@, ty: self.ty@, mutable: self.mutable }
    }
}

impl Clone for CheckedVariable {
    fn clone(&self) -> (copy: Self)
        ensures
            copy@ == self@,
    {
        CheckedVariable { name: self.name.clone(), ty: self.ty.clone(), mutable: self.mutable }
    }
}

/// A declared variable or record field, with the place of its declaration.
#[derive(Debug)]
pub struct CheckedVarDecl {
    pub name: String,
    pub ty: Type,
    pub mutable: bool,
    pub span: Span,
}

/// The mathematical content of a [`CheckedVarDecl`].
pub struct CheckedVarDeclView {
    pub name: Seq<char>,
    pub ty: TypeView,
    pub mutable: bool,
    pub span: Span,
}

impl View for CheckedVarDecl {
    type V = CheckedVarDeclView;

    open spec fn view(&self) -> CheckedVarDeclView {
        CheckedVarDeclView {
            name: self.name@,
            ty: self.ty@,
            mutable: self.mutable,
            span: self.span,
        }
    }
}

impl Clone for CheckedVarDecl {
    fn clone(&self) -> (copy: Self)
        ensures
            copy@ == self@,
    {
        CheckedVarDecl {
            name: self.name.clone(),
            ty: self.ty.clone(),
            mutable: self.mutable,
            span: self.span,
        }
    }
}

impl CheckedVarDeclView {
    /// The variable that the declaration introduces.
    pub open spec fn variable(self) -> CheckedVariableView {
        CheckedVariableView { name: self.name, ty: self.ty, mutable: self.mutable }
    }
}

/// A parameter of a checked function. The receiver `this` never asks for a
/// label and takes no argument at a call site.
#[derive(Debug)]
pub struct CheckedParameter {
    pub requires_label: bool,
    pub variable: CheckedVariable,
}

/// The mathematical content of a [`CheckedParameter`].
pub struct CheckedParameterView {
    pub requires_label: bool,
    pub variable: CheckedVariableView,
}

impl View for CheckedParameter {
    type V = CheckedParameterView;

    open spec fn view(&self) -> CheckedParameterView {
        CheckedParameterView { requires_label: self.requires_label, variable: self.variable@ }
    }
}

impl Clone for CheckedParameter {
    fn clone(&self) -> (copy: Self)
        ensures
            copy@ == self@,
    {
        CheckedParameter { requires_label: self.requires_label, variable: self.variable.clone() }
    }
}

/// A call whose callee and arguments have been checked.
#[derive(Debug)]
pub struct CheckedCall {
    pub namespace: Vec<String>,
    pub name: String,
    pub args: Vec<(String, CheckedExpression)>,
    pub ty: Type,
}

/// The mathematical content of a [`CheckedCall`].
pub struct CheckedCallView {
    pub namespace: Seq<Seq<char>>,
    pub name: Seq<char>,
    pub args: Seq<(Seq<char>, CheckedExpressionView)>,
    pub ty: TypeView,
}

/// An expression annotated with its type.
#[derive(Debug)]
pub enum CheckedExpression {
    Boolean(bool),
    NumericConstant(NumericConstant, Type),
    QuotedString(String),
    CharacterConstant(char),
    UnaryOp(Box<CheckedExpression>, UnaryOperator, Type),
    BinaryOp(Box<CheckedExpression>, BinaryOperator, Box<CheckedExpression>, Type),
    Tuple(Vec<CheckedExpression>, Type),
    Vector(Vec<CheckedExpression>, Option<Box<CheckedExpression>>, Type),
    IndexedExpression(Box<CheckedExpression>, Box<CheckedExpression>, Type),
    IndexedTuple(Box<CheckedExpression>, usize, Type),
    IndexedStruct(Box<CheckedExpression>, String, Type),
    Call(CheckedCall, Type),
    MethodCall(Box<CheckedExpression>, CheckedCall, Type),
    Var(CheckedVariable),
    OptionalNone(Type),
    OptionalSome(Box<CheckedExpression>, Type),
    ForcedUnwrap(Box<CheckedExpression>, Type),
    /// What is left of an expression that the parser rejected.
    Garbage,
}

/// The mathematical content of a [`CheckedExpression`].
pub enum CheckedExpressionView {
    Boolean(bool),
    NumericConstant(NumericConstant, TypeView),
    QuotedString(Seq<char>),
    CharacterConstant(char),
    UnaryOp(Box<CheckedExpressionView>, UnaryOperator, TypeView),
    BinaryOp(Box<CheckedExpressionView>, BinaryOperator, Box<CheckedExpressionView>, TypeView),
    Tuple(Seq<CheckedExpressionView>, TypeView),
    Vector(Seq<CheckedExpressionView>, Option<Box<CheckedExpressionView>>, TypeView),
    IndexedExpression(Box<CheckedExpressionView>, Box<CheckedExpressionView>, TypeView),
    IndexedTuple(Box<CheckedExpressionView>, usize, TypeView),
    IndexedStruct(Box<CheckedExpressionView>, Seq<char>, TypeView),
    Call(CheckedCallView, TypeView),
    MethodCall(Box<CheckedExpressionView>, CheckedCallView, TypeView),
    Var(CheckedVariableView),
    OptionalNone(TypeView),
    OptionalSome(Box<CheckedExpressionView>, TypeView),
    ForcedUnwrap(Box<CheckedExpressionView>, TypeView),
    Garbage,
}

/// The models of a sequence of checked expressions.
pub open spec fn expression_views(items: Seq<CheckedExpression>) -> Seq<CheckedExpressionView>
    decreases items, 1nat,
{
    Seq::new(
        items.len(),
        |i: int|
            if 0 <= i < items.len() {
                expression_view(items[i])
            } else {
                CheckedExpressionView::Garbage
            },
    )
}

/// The models of a sequence of labelled arguments.
pub open spec fn argument_views(items: Seq<(String, CheckedExpression)>) -> Seq<
    (Seq<char>, CheckedExpressionView),
>
    decreases items, 1nat,
{
    Seq::new(
        items.len(),
        |i: int|
            if 0 <= i < items.len() {
                (items[i].0@, expression_view(items[i].1))
            } else {
                (Seq::empty(), CheckedExpressionView::Garbage)
            },
    )
}

/// The model of a checked call.
pub open spec fn call_view(call: CheckedCall) -> CheckedCallView
    decreases call, 0nat,
{
    CheckedCallView {
        namespace: string_views(call.namespace@),
        name: call.name@,
        args: argument_views(call.args@),
        ty: call.ty@,
    }
}

/// The model of a checked expression, by recursion on its structure.
pub open spec fn expression_view(expr: CheckedExpression) -> CheckedExpressionView
    decreases expr, 0nat,
{
    match expr {
        CheckedExpression::Boolean(b) => CheckedExpressionView::Boolean(b),
        CheckedExpression::NumericConstant(c, ty) => CheckedExpressionView::NumericConstant(c, ty@),
        CheckedExpression::QuotedString(s) => CheckedExpressionView::QuotedString(s@),
        CheckedExpression::CharacterConstant(c) => CheckedExpressionView::CharacterConstant(c),
        CheckedExpression::UnaryOp(e, op, ty) => CheckedExpressionView::UnaryOp(
            Box::new(expression_view(*e)),
            op,
            ty@,
        ),
        CheckedExpression::BinaryOp(l, op, r, ty) => CheckedExpressionView::BinaryOp(
            Box::new(expression_view(*l)),
            op,
            Box::new(expression_view(*r)),
            ty@,
        ),
        CheckedExpression::Tuple(items, ty) => CheckedExpressionView::Tuple(
            expression_views(items@),
            ty@,
        ),
        CheckedExpression::Vector(items, fill, ty) => CheckedExpressionView::Vector(
            expression_views(items@),
            match fill {
                Some(f) => Some(Box::new(expression_view(*f))),
                None => None,
            },
            ty@,
        ),
        CheckedExpression::IndexedExpression(e, i, ty) => CheckedExpressionView::IndexedExpression(
            Box::new(expression_view(*e)),
            Box::new(expression_view(*i)),
            ty@,
        ),
        CheckedExpression::IndexedTuple(e, k, ty) => CheckedExpressionView::IndexedTuple(
            Box::new(expression_view(*e)),
            k,
            ty@,
        ),
        CheckedExpression::IndexedStruct(e, name, ty) => CheckedExpressionView::IndexedStruct(
            Box::new(expression_view(*e)),
            name@,
            ty@,
        ),
        CheckedExpression::Call(call, ty) => CheckedExpressionView::Call(call_view(call), ty@),
        CheckedExpression::MethodCall(e, call, ty) => CheckedExpressionView::MethodCall(
            Box::new(expression_view(*e)),
            call_view(call),
            ty@,
        ),
        CheckedExpression::Var(v) => CheckedExpressionView::Var(v@),
        CheckedExpression::OptionalNone(ty) => CheckedExpressionView::OptionalNone(ty@),
        CheckedExpression::OptionalSome(e, ty) => CheckedExpressionView::OptionalSome(
            Box::new(expression_view(*e)),
            ty@,
        ),
        CheckedExpression::ForcedUnwrap(e, ty) => CheckedExpressionView::ForcedUnwrap(
            Box::new(expression_view(*e)),
            ty@,
        ),
        CheckedExpression::Garbage => CheckedExpressionView::Garbage,
    }
}

impl View for CheckedExpression {
    type V = CheckedExpressionView;

    open spec fn view(&self) -> CheckedExpressionView {
        expression_view(*self)
    }
}

impl View for CheckedCall {
    type V = CheckedCallView;

    open spec fn view(&self) -> CheckedCallView {
        call_view(*self)
    }
}

/// Appending an expression appends its model.
pub proof fn lemma_expression_views_push(items: Seq<CheckedExpression>, last: CheckedExpression)
    ensures
        expression_views(items.push(last)) == expression_views(items).push(last@),
{
    assert(expression_views(items.push(last)) =~= expression_views(items).push(last@));
}

/// Appending a labelled argument appends its model.
pub proof fn lemma_argument_views_push(
    items: Seq<(String, CheckedExpression)>,
    label: String,
    last: CheckedExpression,
)
    ensures
        argument_views(items.push((label, last))) == argument_views(items).push((label@, last@)),
{
    assert(argument_views(items.push((label, last))) =~= argument_views(items).push(
        (label@, last@),
    ));
}

impl CheckedExpressionView {
    /// The type that the expression was annotated with.
    pub open spec fn ty(self) -> TypeView {
        match self {
            CheckedExpressionView::Boolean(_) => TypeView::Bool,
            CheckedExpressionView::Call(_, ty) => ty,
            CheckedExpressionView::NumericConstant(_, ty) => ty,
            CheckedExpressionView::QuotedString(_) => TypeView::String,
            CheckedExpressionView::CharacterConstant(_) => TypeView::CChar,
            CheckedExpressionView::UnaryOp(_, _, ty) => ty,
            CheckedExpressionView::BinaryOp(_, _, _, ty) => ty,
            CheckedExpressionView::Vector(_, _, ty) => ty,
            CheckedExpressionView::Tuple(_, ty) => ty,
            CheckedExpressionView::IndexedExpression(_, _, ty) => ty,
            CheckedExpressionView::IndexedTuple(_, _, ty) => ty,
            CheckedExpressionView::IndexedStruct(_, _, ty) => ty,
            CheckedExpressionView::MethodCall(_, _, ty) => ty,
            CheckedExpressionView::Var(v) => v.ty,
            CheckedExpressionView::OptionalNone(ty) => ty,
            CheckedExpressionView::OptionalSome(_, ty) => ty,
            CheckedExpressionView::ForcedUnwrap(_, ty) => ty,
            CheckedExpressionView::Garbage => TypeView::Unknown,
        }
    }

    /// The integer literal that the expression is, if it is one.
    pub open spec fn to_integer_constant(self) -> Option<IntegerConstant> {
        match self {
            CheckedExpressionView::NumericConstant(c, _) => Some(c.widened()),
            _ => None,
        }
    }

    /// Whether the expression may be assigned to: a mutable variable, or a
    /// field or an element of something that may be assigned to.
    pub open spec fn is_mutable(self) -> bool
        decreases self,
    {
        match self {
            CheckedExpressionView::Var(v) => v.mutable,
            CheckedExpressionView::IndexedStruct(e, _, _) => e.is_mutable(),
            CheckedExpressionView::IndexedExpression(e, _, _) => e.is_mutable(),
            _ => false,
        }
    }

    /// Every record mentioned by a type annotation of the expression, at any
    /// depth, has an id below `records`.
    pub open spec fn in_range(self, records: nat) -> bool
        decreases self, 0nat,
    {
        match self {
            CheckedExpressionView::Boolean(_) => true,
            CheckedExpressionView::NumericConstant(_, ty) => ty.in_range(records),
            CheckedExpressionView::QuotedString(_) => true,
            CheckedExpressionView::CharacterConstant(_) => true,
            CheckedExpressionView::UnaryOp(e, _, ty) => e.in_range(records) && ty.in_range(
                records,
            ),
            CheckedExpressionView::BinaryOp(l, _, r, ty) => l.in_range(records) && r.in_range(
                records,
            ) && ty.in_range(records),
            CheckedExpressionView::Tuple(items, ty) => expressions_in_range(items, records)
                && ty.in_range(records),
            CheckedExpressionView::Vector(items, fill, ty) => expressions_in_range(items, records)
                && (fill matches Some(f) ==> f.in_range(records)) && ty.in_range(records),
            CheckedExpressionView::IndexedExpression(e, i, ty) => e.in_range(records)
                && i.in_range(records) && ty.in_range(records),
            CheckedExpressionView::IndexedTuple(e, _, ty) => e.in_range(records) && ty.in_range(
                records,
            ),
            CheckedExpressionView::IndexedStruct(e, _, ty) => e.in_range(records) && ty.in_range(
                records,
            ),
            CheckedExpressionView::Call(call, ty) => call.in_range(records) && ty.in_range(
                records,
            ),
            CheckedExpressionView::MethodCall(e, call, ty) => e.in_range(records) && call.in_range(
                records,
            ) && ty.in_range(records),
            CheckedExpressionView::Var(v) => v.ty.in_range(records),
            CheckedExpressionView::OptionalNone(ty) => ty.in_range(records),
            CheckedExpressionView::OptionalSome(e, ty) => e.in_range(records) && ty.in_range(
                records,
            ),
            CheckedExpressionView::ForcedUnwrap(e, ty) => e.in_range(records) && ty.in_range(
                records,
            ),
            CheckedExpressionView::Garbage => true,
        }
    }
}

/// Every expression of the sequence is in range.
pub open spec fn expressions_in_range(items: Seq<CheckedExpressionView>, records: nat) -> bool
    decreases items, 1nat,
{
    forall|i: int| 0 <= i < items.len() ==> (#[trigger] items[i]).in_range(records)
}

impl CheckedCallView {
    /// The call's type and every argument are in range.
    pub open spec fn in_range(self, records: nat) -> bool
        decreases self, 0nat,
    {
        self.ty.in_range(records) && forall|i: int|
            0 <= i < self.args.len() ==> (#[trigger] self.args[i]).1.in_range(records)
    }
}

impl CheckedExpression {
    /// The type that the expression was annotated with.
    pub fn ty(&self) -> (ty: Type)
        ensures
            ty@ == self@.ty(),
    {
        match self {
            CheckedExpression::Boolean(_) => Type::Bool,
            CheckedExpression::Call(_, ty) => ty.clone(),
            CheckedExpression::NumericConstant(_, ty) => ty.clone(),
            CheckedExpression::QuotedString(_) => Type::String,
            CheckedExpression::CharacterConstant(_) => Type::CChar,
            CheckedExpression::UnaryOp(_, _, ty) => ty.clone(),
            CheckedExpression::BinaryOp(_, _, _, ty) => ty.clone(),
            CheckedExpression::Vector(_, _, ty) => ty.clone(),
            CheckedExpression::Tuple(_, ty) => ty.clone(),
            CheckedExpression::IndexedExpression(_, _, ty) => ty.clone(),
            CheckedExpression::IndexedTuple(_, _, ty) => ty.clone(),
            CheckedExpression::IndexedStruct(_, _, ty) => ty.clone(),
            CheckedExpression::MethodCall(_, _, ty) => ty.clone(),
            CheckedExpression::Var(variable) => variable.ty.clone(),
            CheckedExpression::OptionalNone(ty) => ty.clone(),
            CheckedExpression::OptionalSome(_, ty) => ty.clone(),
            CheckedExpression::ForcedUnwrap(_, ty) => ty.clone(),
            CheckedExpression::Garbage => Type::Unknown,
        }
    }

    /// The integer literal that the expression is, if it is one.
    pub fn to_integer_constant(&self) -> (constant: Option<IntegerConstant>)
        ensures
            constant == self@.to_integer_constant(),
    {
        match self {
            CheckedExpression::NumericConstant(constant, _) => constant.integer_constant(),
            _ => None,
        }
    }

    /// Whether the expression may be assigned to.
    pub fn is_mutable(&self) -> (mutable: bool)
        ensures
            mutable == self@.is_mutable(),
        decreases self,
    {
        match self {
            CheckedExpression::Var(var) => var.mutable,
            CheckedExpression::IndexedStruct(expr, _, _) => expr.is_mutable(),
            CheckedExpression::IndexedExpression(expr, _, _) => expr.is_mutable(),
            _ => false,
        }
    }
}

/// A sequence of checked statements with a scope of its own.
#[derive(Debug)]
pub struct CheckedBlock {
    pub stmts: Vec<CheckedStatement>,
}

/// The mathematical content of a [`CheckedBlock`].
pub struct CheckedBlockView {
    pub stmts: Seq<CheckedStatementView>,
}

/// A statement whose expressions have been checked.
#[derive(Debug)]
pub enum CheckedStatement {
    Expression(CheckedExpression),
    Defer(Box<CheckedStatement>),
    VarDecl(CheckedVarDecl, CheckedExpression),
    /// Condition, body, and the `else` part where there is one.
    If(CheckedExpression, CheckedBlock, Option<Box<CheckedStatement>>),
    Block(CheckedBlock),
    While(CheckedExpression, CheckedBlock),
    Return(CheckedExpression),
    Garbage,
}

/// The mathematical content of a [`CheckedStatement`].
pub enum CheckedStatementView {
    Expression(CheckedExpressionView),
    Defer(Box<CheckedStatementView>),
    VarDecl(CheckedVarDeclView, CheckedExpressionView),
    If(CheckedExpressionView, CheckedBlockView, Option<Box<CheckedStatementView>>),
    Block(CheckedBlockView),
    While(CheckedExpressionView, CheckedBlockView),
    Return(CheckedExpressionView),
    Garbage,
}

/// The models of a sequence of checked statements.
pub open spec fn statement_views(items: Seq<CheckedStatement>) -> Seq<CheckedStatementView>
    decreases items, 1nat,
{
    Seq::new(
        items.len(),
        |i: int|
            if 0 <= i < items.len() {
                statement_view(items[i])
            } else {
                CheckedStatementView::Garbage
            },
    )
}

/// The model of a checked block.
pub open spec fn block_view(block: CheckedBlock) -> CheckedBlockView
    decreases block, 0nat,
{
    CheckedBlockView { stmts: statement_views(block.stmts@) }
}

/// The model of a checked statement, by recursion on its structure.
pub open spec fn statement_view(stmt: CheckedStatement) -> CheckedStatementView
    decreases stmt, 0nat,
{
    match stmt {
        CheckedStatement::Expression(e) => CheckedStatementView::Expression(e@),
        CheckedStatement::Defer(s) => CheckedStatementView::Defer(Box::new(statement_view(*s))),
        CheckedStatement::VarDecl(decl, init) => CheckedStatementView::VarDecl(decl@, init@),
        CheckedStatement::If(cond, body, otherwise) => CheckedStatementView::If(
            cond@,
            block_view(body),
            match otherwise {
                Some(s) => Some(Box::new(statement_view(*s))),
                None => None,
            },
        ),
        CheckedStatement::Block(body) => CheckedStatementView::Block(block_view(body)),
        CheckedStatement::While(cond, body) => CheckedStatementView::While(cond@, block_view(body)),
        CheckedStatement::Return(e) => CheckedStatementView::Return(e@),
        CheckedStatement::Garbage => CheckedStatementView::Garbage,
    }
}

impl View for CheckedStatement {
    type V = CheckedStatementView;

    open spec fn view(&self) -> CheckedStatementView {
        statement_view(*self)
    }
}

impl View for CheckedBlock {
    type V = CheckedBlockView;

    open spec fn view(&self) -> CheckedBlockView {
        block_view(*self)
    }
}

/// Appending a statement appends its model.
pub proof fn lemma_statement_views_push(items: Seq<CheckedStatement>, last: CheckedStatement)
    ensures
        statement_views(items.push(last)) == statement_views(items).push(last@),
{
    assert(statement_views(items.push(last)) =~= statement_views(items).push(last@));
}

impl CheckedStatementView {
    /// Every record mentioned by a type annotation of the statement, at any
    /// depth, has an id below `records`.
    pub open spec fn in_range(self, records: nat) -> bool
        decreases self, 0nat,
    {
        match self {
            CheckedStatementView::Expression(e) => e.in_range(records),
            CheckedStatementView::Defer(s) => s.in_range(records),
            CheckedStatementView::VarDecl(decl, init) => decl.ty.in_range(records)
                && init.in_range(records),
            CheckedStatementView::If(cond, body, otherwise) => cond.in_range(records)
                && body.in_range(records) && (otherwise matches Some(s) ==> s.in_range(records)),
            CheckedStatementView::Block(body) => body.in_range(records),
            CheckedStatementView::While(cond, body) => cond.in_range(records) && body.in_range(
                records,
            ),
            CheckedStatementView::Return(e) => e.in_range(records),
            CheckedStatementView::Garbage => true,
        }
    }
}

impl CheckedBlockView {
    /// Every statement of the block is in range.
    pub open spec fn in_range(self, records: nat) -> bool
        decreases self, 0nat,
    {
        forall|i: int| 0 <= i < self.stmts.len() ==> (#[trigger] self.stmts[i]).in_range(records)
    }
}

impl CheckedBlock {
    /// The block without statements.
    pub fn new() -> (block: Self)
        ensures
            block.stmts@ == Seq::<CheckedStatement>::empty(),
            block@.stmts == Seq::<CheckedStatementView>::empty(),
    {
        let block = CheckedBlock { stmts: Vec::new() };
        assert(block@.stmts =~= Seq::<CheckedStatementView>::empty());
        block
    }
}

/// A record type. Its fields are empty between predeclaration and checking.
#[derive(Debug)]
pub struct CheckedStruct {
    pub name: String,
    pub fields: Vec<CheckedVarDecl>,
    /// The scope that holds the record's methods and constructor.
    pub scope_id: ScopeId,
    pub definition_linkage: DefinitionLinkage,
    pub definition_type: DefinitionType,
}

/// The mathematical content of a [`CheckedStruct`].
pub struct CheckedStructView {
    pub name: Seq<char>,
    pub fields: Seq<CheckedVarDeclView>,
    pub scope_id: ScopeId,
    pub definition_linkage: DefinitionLinkage,
    pub definition_type: DefinitionType,
}

impl View for CheckedStruct {
    type V = CheckedStructView;

    open spec fn view(&self) -> CheckedStructView {
        CheckedStructView {
            name: self.name@,
            fields: views(self.fields@),
            scope_id: self.scope_id,
            definition_linkage: self.definition_linkage,
            definition_type: self.definition_type,
        }
    }
}

/// A function or method. Its return type and body are filled in when the
/// body is checked; before that the return type is `Unknown` and the body
/// empty.
#[derive(Debug)]
pub struct CheckedFunction {
    pub name: String,
    pub return_type: Type,
    pub params: Vec<CheckedParameter>,
    pub block: CheckedBlock,
    pub linkage: FunctionLinkage,
}

/// The mathematical content of a [`CheckedFunction`].
pub struct CheckedFunctionView {
    pub name: Seq<char>,
    pub return_type: TypeView,
    pub params: Seq<CheckedParameterView>,
    pub block: CheckedBlockView,
    pub linkage: FunctionLinkage,
}

impl View for CheckedFunction {
    type V = CheckedFunctionView;

    open spec fn view(&self) -> CheckedFunctionView {
        CheckedFunctionView {
            name: self.name@,
            return_type: self.return_type@,
            params: views(self.params@),
            block: self.block@,
            linkage: self.linkage,
        }
    }
}

impl CheckedFunctionView {
    /// A function is static when none of its parameters is the receiver.
    pub open spec fn is_static(self) -> bool {
        forall|i: int|
            0 <= i < self.params.len() ==> (#[trigger] self.params[i]).variable.name != "this"@
    }
}

impl CheckedFunction {
    /// Whether the function takes no receiver.
    pub fn is_static(&self) -> (is_static: bool)
        ensures
            is_static == self@.is_static(),
    {
        let mut i: usize = 0;
        while i < self.params.len()
            invariant
                i <= self.params.len(),
                forall|j: int| 0 <= j < i ==> (#[trigger] self@.params[j]).variable.name != "this"@,
            decreases self.params.len() - i,
        {
            if str_eq(self.params[i].variable.name.as_str(), "this") {
                assert(self@.params[i as int].variable.name == "this"@);
                return false;
            }
            i += 1;
        }
        true
    }
}

/// The type of an expression that is in range is in range.
pub proof fn lemma_type_in_range(expr: CheckedExpressionView, records: nat)
    requires
        expr.in_range(records),
    ensures
        expr.ty().in_range(records),
{
}

/// An expression whose records lie below one bound also lies below any
/// larger one.
pub proof fn lemma_expression_in_range_grows(expr: CheckedExpressionView, fewer: nat, more: nat)
    requires
        expr.in_range(fewer),
        fewer <= more,
    ensures
        expr.in_range(more),
    decreases expr, 0nat,
{
    lemma_type_in_range(expr, fewer);
    lemma_in_range_grows(expr.ty(), fewer, more);
    match expr {
        CheckedExpressionView::UnaryOp(e, _, _) => {
            lemma_expression_in_range_grows(*e, fewer, more);
        },
        CheckedExpressionView::BinaryOp(l, _, r, _) => {
            lemma_expression_in_range_grows(*l, fewer, more);
            lemma_expression_in_range_grows(*r, fewer, more);
        },
        CheckedExpressionView::Tuple(items, _) => {
            lemma_expressions_in_range_grow(items, fewer, more);
        },
        CheckedExpressionView::Vector(items, fill, _) => {
            lemma_expressions_in_range_grow(items, fewer, more);
            match fill {
                Some(f) => lemma_expression_in_range_grows(*f, fewer, more),
                None => {},
            }
        },
        CheckedExpressionView::IndexedExpression(e, i, _) => {
            lemma_expression_in_range_grows(*e, fewer, more);
            lemma_expression_in_range_grows(*i, fewer, more);
        },
        CheckedExpressionView::IndexedTuple(e, _, _) => {
            lemma_expression_in_range_grows(*e, fewer, more);
        },
        CheckedExpressionView::IndexedStruct(e, _, _) => {
            lemma_expression_in_range_grows(*e, fewer, more);
        },
        CheckedExpressionView::Call(call, _) => {
            lemma_call_in_range_grows(call, fewer, more);
        },
        CheckedExpressionView::MethodCall(e, call, _) => {
            lemma_expression_in_range_grows(*e, fewer, more);
            lemma_call_in_range_grows(call, fewer, more);
        },
        CheckedExpressionView::OptionalSome(e, _) => {
            lemma_expression_in_range_grows(*e, fewer, more);
        },
        CheckedExpressionView::ForcedUnwrap(e, _) => {
            lemma_expression_in_range_grows(*e, fewer, more);
        },
        _ => {},
    }
}

/// The same, for every expression of a sequence.
pub proof fn lemma_expressions_in_range_grow(
    items: Seq<CheckedExpressionView>,
    fewer: nat,
    more: nat,
)
    requires
        expressions_in_range(items, fewer),
        fewer <= more,
    ensures
        expressions_in_range(items, more),
    decreases items, 1nat,
{
    assert forall|i: int| 0 <= i < items.len() implies (#[trigger] items[i]).in_range(more) by {
        lemma_expression_in_range_grows(items[i], fewer, more);
    }
}

/// The same, for a call.
pub proof fn lemma_call_in_range_grows(call: CheckedCallView, fewer: nat, more: nat)
    requires
        call.in_range(fewer),
        fewer <= more,
    ensures
        call.in_range(more),
    decreases call, 0nat,
{
    lemma_in_range_grows(call.ty, fewer, more);
    assert forall|i: int| 0 <= i < call.args.len() implies (#[trigger] call.args[i]).1.in_range(
        more,
    ) by {
        lemma_expression_in_range_grows(call.args[i].1, fewer, more);
    }
}

/// The same, for a statement.
pub proof fn lemma_statement_in_range_grows(stmt: CheckedStatementView, fewer: nat, more: nat)
    requires
        stmt.in_range(fewer),
        fewer <= more,
    ensures
        stmt.in_range(more),
    decreases stmt, 0nat,
{
    match stmt {
        CheckedStatementView::Expression(e) => lemma_expression_in_range_grows(e, fewer, more),
        CheckedStatementView::Defer(s) => lemma_statement_in_range_grows(*s, fewer, more),
        CheckedStatementView::VarDecl(decl, init) => {
            lemma_in_range_grows(decl.ty, fewer, more);
            lemma_expression_in_range_grows(init, fewer, more);
        },
        CheckedStatementView::If(cond, body, otherwise) => {
            lemma_expression_in_range_grows(cond, fewer, more);
            lemma_block_in_range_grows(body, fewer, more);
            match otherwise {
                Some(s) => lemma_statement_in_range_grows(*s, fewer, more),
                None => {},
            }
        },
        CheckedStatementView::Block(body) => lemma_block_in_range_grows(body, fewer, more),
        CheckedStatementView::While(cond, body) => {
            lemma_expression_in_range_grows(cond, fewer, more);
            lemma_block_in_range_grows(body, fewer, more);
        },
        CheckedStatementView::Return(e) => lemma_expression_in_range_grows(e, fewer, more),
        CheckedStatementView::Garbage => {},
    }
}

/// The same, for a block.
pub proof fn lemma_block_in_range_grows(block: CheckedBlockView, fewer: nat, more: nat)
    requires
        block.in_range(fewer),
        fewer <= more,
    ensures
        block.in_range(more),
    decreases block, 0nat,
{
    assert forall|i: int| 0 <= i < block.stmts.len() implies (#[trigger] block.stmts[i]).in_range(
        more,
    ) by {
        lemma_statement_in_range_grows(block.stmts[i], fewer, more);
    }
}

/// Copies a sequence of checked expressions.
fn copy_expressions(items: &Vec<CheckedExpression>) -> (copies: Vec<CheckedExpression>)
    ensures
        expression_views(copies@) == expression_views(items@),
    decreases items, 0nat,
{
    let mut copies: Vec<CheckedExpression> = Vec::new();
    let mut i: usize = 0;
    while i < items.len()
        invariant
            i <= items.len(),
            copies@.len() == i,
            forall|j: int| 0 <= j < i ==> copies@[j]@ == items@[j]@,
        decreases items.len() - i,
    {
        copies.push(copy_expression(&items[i]));
        i += 1;
    }
    assert(expression_views(copies@) =~= expression_views(items@));
    copies
}

/// Copies a checked call.
fn copy_call(call: &CheckedCall) -> (copy: CheckedCall)
    ensures
        copy@ == call@,
    decreases call, 0nat,
{
    let mut args: Vec<(String, CheckedExpression)> = Vec::new();
    let mut i: usize = 0;
    while i < call.args.len()
        invariant
            i <= call.args.len(),
            args@.len() == i,
            forall|j: int|
                0 <= j < i ==> args@[j].0@ == call.args@[j].0@ && args@[j].1@ == call.args@[j].1@,
        decreases call.args.len() - i,
    {
        args.push((call.args[i].0.clone(), copy_expression(&call.args[i].1)));
        i += 1;
    }
    assert(argument_views(args@) =~= argument_views(call.args@));
    CheckedCall {
        namespace: clone_strings(&call.namespace),
        name: call.name.clone(),
        args,
        ty: call.ty.clone(),
    }
}

/// Copies a checked expression.
fn copy_expression(expr: &CheckedExpression) -> (copy: CheckedExpression)
    ensures
        copy@ == expr@,
    decreases expr, 0nat,
{
    match expr {
        CheckedExpression::Boolean(b) => CheckedExpression::Boolean(*b),
        CheckedExpression::NumericConstant(c, ty) => CheckedExpression::NumericConstant(
            *c,
            ty.clone(),
        ),
        CheckedExpression::QuotedString(text) => CheckedExpression::QuotedString(text.clone()),
        CheckedExpression::CharacterConstant(c) => CheckedExpression::CharacterConstant(*c),
        CheckedExpression::UnaryOp(e, op, ty) => CheckedExpression::UnaryOp(
            Box::new(copy_expression(e)),
            op.clone(),
            ty.clone(),
        ),
        CheckedExpression::BinaryOp(l, op, r, ty) => CheckedExpression::BinaryOp(
            Box::new(copy_expression(l)),
            *op,
            Box::new(copy_expression(r)),
            ty.clone(),
        ),
        CheckedExpression::Tuple(items, ty) => CheckedExpression::Tuple(
            copy_expressions(items),
            ty.clone(),
        ),
        CheckedExpression::Vector(items, fill, ty) => {
            let fill_copy = match fill {
                Some(f) => Some(Box::new(copy_expression(f))),
                None => None,
            };
            CheckedExpression::Vector(copy_expressions(items), fill_copy, ty.clone())
        },
        CheckedExpression::IndexedExpression(e, i, ty) => CheckedExpression::IndexedExpression(
            Box::new(copy_expression(e)),
            Box::new(copy_expression(i)),
            ty.clone(),
        ),
        CheckedExpression::IndexedTuple(e, k, ty) => CheckedExpression::IndexedTuple(
            Box::new(copy_expression(e)),
            *k,
            ty.clone(),
        ),
        CheckedExpression::IndexedStruct(e, name, ty) => CheckedExpression::IndexedStruct(
            Box::new(copy_expression(e)),
            name.clone(),
            ty.clone(),
        ),
        CheckedExpression::Call(call, ty) => CheckedExpression::Call(copy_call(call), ty.clone()),
        CheckedExpression::MethodCall(e, call, ty) => CheckedExpression::MethodCall(
            Box::new(copy_expression(e)),
            copy_call(call),
            ty.clone(),
        ),
        CheckedExpression::Var(v) => CheckedExpression::Var(v.clone()),
        CheckedExpression::OptionalNone(ty) => CheckedExpression::OptionalNone(ty.clone()),
        CheckedExpression::OptionalSome(e, ty) => CheckedExpression::OptionalSome(
            Box::new(copy_expression(e)),
            ty.clone(),
        ),
        CheckedExpression::ForcedUnwrap(e, ty) => CheckedExpression::ForcedUnwrap(
            Box::new(copy_expression(e)),
            ty.clone(),
        ),
        CheckedExpression::Garbage => CheckedExpression::Garbage,
    }
}

impl Clone for CheckedExpression {
    fn clone(&self) -> (copy: Self)
        ensures
            copy@ == self@,
    {
        copy_expression(self)
    }
}

impl Clone for CheckedCall {
    fn clone(&self) -> (copy: Self)
        ensures
            copy@ == self@,
    {
        copy_call(self)
    }
}

/// Copies a checked block.
fn copy_block(block: &CheckedBlock) -> (copy: CheckedBlock)
    ensures
        copy@ == block@,
    decreases block, 0nat,
{
    let mut stmts: Vec<CheckedStatement> = Vec::new();
    let mut i: usize = 0;
    while i < block.stmts.len()
        invariant
            i <= block.stmts.len(),
            stmts@.len() == i,
            forall|j: int| 0 <= j < i ==> stmts@[j]@ == block.stmts@[j]@,
        decreases block.stmts.len() - i,
    {
        stmts.push(copy_statement(&block.stmts[i]));
        i += 1;
    }
    assert(statement_views(stmts@) =~= statement_views(block.stmts@));
    CheckedBlock { stmts }
}

/// Copies a checked statement.
fn copy_statement(stmt: &CheckedStatement) -> (copy: CheckedStatement)
    ensures
        copy@ == stmt@,
    decreases stmt, 0nat,
{
    match stmt {
        CheckedStatement::Expression(e) => CheckedStatement::Expression(e.clone()),
        CheckedStatement::Defer(s) => CheckedStatement::Defer(Box::new(copy_statement(s))),
        CheckedStatement::VarDecl(decl, init) => CheckedStatement::VarDecl(
            decl.clone(),
            init.clone(),
        ),
        CheckedStatement::If(cond, body, otherwise) => {
            let otherwise_copy = match otherwise {
                Some(s) => Some(Box::new(copy_statement(s))),
                None => None,
            };
            CheckedStatement::If(cond.clone(), copy_block(body), otherwise_copy)
        },
        CheckedStatement::Block(body) => CheckedStatement::Block(copy_block(body)),
        CheckedStatement::While(cond, body) => CheckedStatement::While(
            cond.clone(),
            copy_block(body),
        ),
        CheckedStatement::Return(e) => CheckedStatement::Return(e.clone()),
        CheckedStatement::Garbage => CheckedStatement::Garbage,
    }
}

impl Clone for CheckedStatement {
    fn clone(&self) -> (copy: Self)
        ensures
            copy@ == self@,
    {
        copy_statement(self)
    }
}

impl Clone for CheckedBlock {
    fn clone(&self) -> (copy: Self)
        ensures
            copy@ == self@,
    {
        copy_block(self)
    }
}

impl Clone for CheckedFunction {
    fn clone(&self) -> (copy: Self)
        ensures
            copy@ == self@,
    {
        let mut params: Vec<CheckedParameter> = Vec::new();
        let mut i: usize = 0;
        while i < self.params.len()
            invariant
                i <= self.params.len(),
                params@.len() == i,
                forall|j: int| 0 <= j < i ==> params@[j]@ == self.params@[j]@,
            decreases self.params.len() - i,
        {
            params.push(self.params[i].clone());
            i += 1;
        }
        assert(views(params@) =~= views(self.params@));
        CheckedFunction {
            name: self.name.clone(),
            return_type: self.return_type.clone(),
            params,
            block: self.block.clone(),
            linkage: self.linkage,
        }
    }
}

impl Clone for CheckedStruct {
    fn clone(&self) -> (copy: Self)
        ensures
            copy@ == self@,
    {
        let mut fields: Vec<CheckedVarDecl> = Vec::new();
        let mut i: usize = 0;
        while i < self.fields.len()
            invariant
                i <= self.fields.len(),
                fields@.len() == i,
                forall|j: int| 0 <= j < i ==> fields@[j]@ == self.fields@[j]@,
            decreases self.fields.len() - i,
        {
            fields.push(self.fields[i].clone());
            i += 1;
        }
        assert(views(fields@) =~= views(self.fields@));
        CheckedStruct {
            name: self.name.clone(),
            fields,
            scope_id: self.scope_id,
            definition_linkage: self.definition_linkage,
            definition_type: self.definition_type,
        }
    }
}

} // verus!
