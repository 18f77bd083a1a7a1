//! The checked source program that code generation consumes.
use vstd::prelude::*;

verus! {

/// A byte range of a source file.
#[derive(Debug, Clone, Copy, PartialEq, Eq, Default)]
pub struct Span {
    pub start: usize,
    pub end: usize,
}

/// A source-level type.
#[derive(Debug, PartialEq, Eq)]
pub enum Type {
    Unit,
    Bool,
    Int,
    Usize,
    I8,
    I16,
    I32,
    I64,
    U8,
    U16,
    U32,
    U64,
    Char,
    String,
    Named(String),
    Array(Box<Type>),
    Slice(Box<Type>),
    Pointer(Box<Type>),
    Reference { mutable: bool, inner: Box<Type> },
}

/// Two types with the same structure, whose names have the same text.
pub open spec fn same_type(a: Type, b: Type) -> bool
    decreases a,
{
    match (a, b) {
        (Type::Named(x), Type::Named(y)) => x@ == y@,
        (Type::Array(x), Type::Array(y)) => same_type(*x, *y),
        (Type::Slice(x), Type::Slice(y)) => same_type(*x, *y),
        (Type::Pointer(x), Type::Pointer(y)) => same_type(*x, *y),
        (Type::Reference { mutable: m, inner: x }, Type::Reference { mutable: n, inner: y }) => m == n && same_type(*x, *y),
        (Type::Unit, Type::Unit) | (Type::Bool, Type::Bool) | (Type::Int, Type::Int) | (Type::Usize, Type::Usize)
        | (Type::I8, Type::I8) | (Type::I16, Type::I16) | (Type::I32, Type::I32) | (Type::I64, Type::I64)
        | (Type::U8, Type::U8) | (Type::U16, Type::U16) | (Type::U32, Type::U32) | (Type::U64, Type::U64)
        | (Type::Char, Type::Char) | (Type::String, Type::String) => true,
        _ => false,
    }
}

impl Type {
    /// An owned copy of this type.
    pub fn copy(&self) -> (r: Type)
        ensures
            r == *self,
        decreases self,
    {
        match self {
            Type::Unit => Type::Unit,
            Type::Bool => Type::Bool,
            Type::Int => Type::Int,
            Type::Usize => Type::Usize,
            Type::I8 => Type::I8,
            Type::I16 => Type::I16,
            Type::I32 => Type::I32,
            Type::I64 => Type::I64,
            Type::U8 => Type::U8,
            Type::U16 => Type::U16,
            Type::U32 => Type::U32,
            Type::U64 => Type::U64,
            Type::Char => Type::Char,
            Type::String => Type::String,
            Type::Named(name) => Type::Named(name.clone()),
            Type::Array(inner) => Type::Array(Box::new(inner.copy())),
            Type::Slice(inner) => Type::Slice(Box::new(inner.copy())),
            Type::Pointer(inner) => Type::Pointer(Box::new(inner.copy())),
            Type::Reference { mutable, inner } => Type::Reference { mutable: *mutable, inner: Box::new(inner.copy()) },
        }
    }

    /// Structural equality of two types, names compared by their text.
    pub fn same(&self, other: &Type) -> (r: bool)
        ensures
            r == same_type(*self, *other),
        decreases self,
    {
        match (self, other) {
            (Type::Unit, Type::Unit) => true,
            (Type::Bool, Type::Bool) => true,
            (Type::Int, Type::Int) => true,
            (Type::Usize, Type::Usize) => true,
            (Type::I8, Type::I8) => true,
            (Type::I16, Type::I16) => true,
            (Type::I32, Type::I32) => true,
            (Type::I64, Type::I64) => true,
            (Type::U8, Type::U8) => true,
            (Type::U16, Type::U16) => true,
            (Type::U32, Type::U32) => true,
            (Type::U64, Type::U64) => true,
            (Type::Char, Type::Char) => true,
            (Type::String, Type::String) => true,
            (Type::Named(a), Type::Named(b)) => crate::text::str_eq(a.as_str(), b.as_str()),
            (Type::Array(a), Type::Array(b)) => a.same(b),
            (Type::Slice(a), Type::Slice(b)) => a.same(b),
            (Type::Pointer(a), Type::Pointer(b)) => a.same(b),
            (Type::Reference { mutable: m, inner: a }, Type::Reference { mutable: n, inner: b }) => *m == *n && a.same(b),
            _ => false,
        }
    }
}

/// Binary operators.
#[derive(Debug, Clone, Copy, PartialEq, Eq, Structural)]
pub enum BinaryOp {
    And,
    Or,
    BitAnd,
    BitOr,
    BitXor,
    ShiftLeft,
    ShiftRight,
    Add,
    Sub,
    Mul,
    Div,
    Rem,
    Equal,
    NotEqual,
    Less,
    LessEqual,
    Greater,
    GreaterEqual,
}

/// Unary operators.
#[derive(Debug, Clone, Copy, PartialEq, Eq, Structural)]
pub enum UnaryOp {
    Neg,
    Not,
    BitNot,
    AddressOf,
    MutableAddressOf,
    Deref,
}

/// A pattern of a `match` arm.
#[derive(Debug, PartialEq, Eq)]
pub enum MatchPattern {
    Wildcard,
    Int(i64),
    Bool(bool),
    EnumVariant { enum_name: String, variant: String },
}

/// One arm of a `match` expression.
#[derive(Debug, PartialEq, Eq)]
pub struct MatchArm {
    pub pattern: MatchPattern,
    pub value: Expr,
}

/// Expressions.
#[allow(inconsistent_fields)]
#[derive(Debug, PartialEq, Eq)]
pub enum Expr {
    Int(i64),
    TypedInt { value: i64, ty: Type },
    Bool(bool),
    Char(char),
    String(String),
    Null,
    Var(String),
    Binary { op: BinaryOp, left: Box<Expr>, right: Box<Expr> },
    Unary { op: UnaryOp, expr: Box<Expr> },
    Cast { expr: Box<Expr>, ty: Type },
    SizeOf(Type),
    AlignOf(Type),
    OffsetOf { ty: Type, field: String },
    Match { value: Box<Expr>, arms: Vec<MatchArm> },
    If { condition: Box<Expr>, then_value: Box<Expr>, else_value: Box<Expr> },
    Block { statements: Vec<Stmt>, value: Box<Expr> },
    Call { name: String, args: Vec<Expr> },
    Index { base: Box<Expr>, index: Box<Expr> },
    Field { base: Box<Expr>, name: String },
    Struct { name: String, fields: Vec<(String, Expr)> },
    Array(Vec<Expr>),
}

/// Statements.
#[allow(inconsistent_fields)]
#[derive(Debug, PartialEq, Eq)]
pub enum Stmt {
    Return(Option<Expr>),
    Let { name: String, mutable: bool, ty: Option<Type>, value: Expr },
    Assign { name: String, op: Option<BinaryOp>, value: Expr },
    PointerAssign { pointer: Expr, op: Option<BinaryOp>, value: Expr },
    PlaceAssign { target: Expr, op: Option<BinaryOp>, value: Expr },
    If { condition: Expr, then_body: Vec<Stmt>, else_body: Vec<Stmt> },
    While { condition: Expr, body: Vec<Stmt> },
    For { name: String, start: Expr, end: Expr, inclusive: bool, body: Vec<Stmt> },
    Loop(Vec<Stmt>),
    Unsafe(Vec<Stmt>),
    Break,
    Continue,
    Expr(Expr),
}

/// A function parameter.
#[derive(Debug, PartialEq, Eq)]
pub struct Param {
    pub name: String,
    pub ty: Type,
}

/// A struct field.
#[derive(Debug, PartialEq, Eq)]
pub struct Field {
    pub name: String,
    pub ty: Type,
}

/// A struct declaration.
#[derive(Debug, PartialEq, Eq)]
pub struct StructDecl {
    pub name: String,
    pub fields: Vec<Field>,
}

/// An enum variant, with its explicit discriminant if it has one.
#[derive(Debug, PartialEq, Eq)]
pub struct EnumVariant {
    pub name: String,
    pub value: Option<i64>,
}

/// An enum declaration.
#[derive(Debug, PartialEq, Eq)]
pub struct EnumDecl {
    pub name: String,
    pub variants: Vec<EnumVariant>,
}

/// A constant declaration.
#[derive(Debug, PartialEq, Eq)]
pub struct ConstDecl {
    pub name: String,
    pub ty: Type,
    pub value: Expr,
}

/// A type alias declaration.
#[derive(Debug, PartialEq, Eq)]
pub struct TypeAlias {
    pub name: String,
    pub ty: Type,
}

/// A declaration of a function defined outside the program.
#[derive(Debug, PartialEq, Eq)]
pub struct ExternFunction {
    pub name: String,
    pub params: Vec<Param>,
    pub return_type: Type,
}

/// An import of a module by path.
#[derive(Debug, PartialEq, Eq)]
pub struct Import {
    pub path: String,
}

/// A function definition.
#[derive(Debug, PartialEq, Eq)]
pub struct Function {
    pub name: String,
    pub params: Vec<Param>,
    pub return_type: Type,
    pub body: Vec<Stmt>,
    pub span: Span,
    pub statement_spans: Vec<Span>,
    pub expression_spans: Vec<Span>,
    pub statement_expression_ranges: Vec<(usize, usize)>,
    pub source_path: Option<String>,
}

/// A whole checked program.
#[derive(Debug, PartialEq, Eq)]
pub struct Program {
    pub imports: Vec<Import>,
    pub type_aliases: Vec<TypeAlias>,
    pub consts: Vec<ConstDecl>,
    pub structs: Vec<StructDecl>,
    pub enums: Vec<EnumDecl>,
    pub externs: Vec<ExternFunction>,
    pub functions: Vec<Function>,
}

} // verus!
