//! The syntax tree that the front end hands to the code generator, and the
//! facts about source types that code generation relies on.
use vstd::prelude::*;

verus! {

/// A value type of the source language.
pub enum Type {
    I8,
    I16,
    I32,
    I64,
    U8,
    U16,
    U32,
    U64,
    F32,
    F64,
    Bool,
    Char,
    Void,
    Array(Box<Type>, u32),
    Pointer(Box<Type>),
}

/// A token of the source language, as far as the code generator reads it.
/// A floating-point literal is carried as the IEEE-754 bit pattern of its
/// double-precision value.
pub enum Token {
    Int(u32),
    Float(u64),
    Bool(bool),
    String(String),
    Array(Box<Vec<Expr>>),
    Call(String, Box<Vec<Expr>>),
    Identifier(String),
    Plus,
    Minus,
    Star,
    Slash,
    Greater,
    Less,
    GreaterEqual,
    LessEqual,
    EqualEqual,
    NotEqual,
    Ampersand,
    LParen,
    RParen,
    LBracket,
    RBracket,
}

/// An expression: a single operand, an operator applied to its operands, or
/// `sizeof(type)`.
pub enum Expr {
    Operand(Token),
    Operation(Token, Vec<Expr>),
    SizeOf(Type),
}

/// `name = value;`, `ty: name = value;`, `*name = value;` or `name[index] = value;`.
pub struct AssignmentStmt {
    pub name: String,
    pub ty: Option<Type>,
    pub value: Option<Expr>,
    pub index: Option<Expr>,
    pub dereference: bool,
}

pub struct IfStmt {
    pub condition: Expr,
    pub then_branch: Vec<Stmt>,
    pub else_branch: Option<Vec<Stmt>>,
}

pub struct WhileStmt {
    pub condition: Expr,
    pub body: Vec<Stmt>,
}

pub enum Stmt {
    Assignment(AssignmentStmt),
    Return(Option<Expr>),
    Expr(Expr),
    If(IfStmt),
    While(WhileStmt),
    Break,
    Continue,
}

pub struct Param {
    pub name: String,
    pub ty: Type,
}

pub struct FunctionDecl {
    pub name: String,
    pub params: Vec<Param>,
    pub return_type: Type,
    pub body: Vec<Stmt>,
}

pub struct GlobalDecl {
    pub name: String,
    pub ty: Type,
    pub value: Option<Expr>,
    pub pointer: bool,
}

/// A top-level item. Only functions and globals produce code; a statement
/// at the top level is skipped.
pub enum Item {
    Function(FunctionDecl),
    Global(GlobalDecl),
    Statement(Stmt),
}

pub struct Program {
    pub items: Vec<Item>,
}

impl Type {
    pub open spec fn spec_is_signed(self) -> bool {
        self is I8 || self is I16 || self is I32 || self is I64
    }

    /// True exactly for the signed integer types; unsigned integers, `bool`,
    /// `char`, floats, pointers and arrays are not signed.
    pub fn is_signed(&self) -> (b: bool)
        ensures
            b == self.spec_is_signed(),
    {
        match self {
            Type::I8 | Type::I16 | Type::I32 | Type::I64 => true,
            _ => false,
        }
    }

    /// A copy of this type.
    pub fn duplicate(&self) -> (r: Type)
        ensures
            r == *self,
        decreases self,
    {
        match self {
            Type::I8 => Type::I8,
            Type::I16 => Type::I16,
            Type::I32 => Type::I32,
            Type::I64 => Type::I64,
            Type::U8 => Type::U8,
            Type::U16 => Type::U16,
            Type::U32 => Type::U32,
            Type::U64 => Type::U64,
            Type::F32 => Type::F32,
            Type::F64 => Type::F64,
            Type::Bool => Type::Bool,
            Type::Char => Type::Char,
            Type::Void => Type::Void,
            Type::Array(inner, n) => Type::Array(Box::new(inner.duplicate()), *n),
            Type::Pointer(inner) => Type::Pointer(Box::new(inner.duplicate())),
        }
    }

    /// Structural equality of two types.
    pub fn same_as(&self, other: &Type) -> (r: bool)
        ensures
            r == (*self == *other),
        decreases self,
    {
        match (self, other) {
            (Type::I8, Type::I8) => true,
            (Type::I16, Type::I16) => true,
            (Type::I32, Type::I32) => true,
            (Type::I64, Type::I64) => true,
            (Type::U8, Type::U8) => true,
            (Type::U16, Type::U16) => true,
            (Type::U32, Type::U32) => true,
            (Type::U64, Type::U64) => true,
            (Type::F32, Type::F32) => true,
            (Type::F64, Type::F64) => true,
            (Type::Bool, Type::Bool) => true,
            (Type::Char, Type::Char) => true,
            (Type::Void, Type::Void) => true,
            (Type::Array(a, n), Type::Array(b, m)) => *n == *m && a.same_as(b),
            (Type::Pointer(a), Type::Pointer(b)) => a.same_as(b),
            _ => false,
        }
    }
}

/// The size in bytes of a value of type `ty`: 1 for 8-bit integers, `bool`
/// and `char`, 2 and 4 for 16- and 32-bit values, 8 for 64-bit values and
/// pointers, and the element size times the length for an array.
pub open spec fn spec_size(ty: Type) -> int
    decreases ty,
{
    match ty {
        Type::I8 | Type::U8 | Type::Bool | Type::Char => 1,
        Type::I16 | Type::U16 => 2,
        Type::I32 | Type::U32 | Type::F32 => 4,
        Type::I64 | Type::U64 | Type::F64 | Type::Pointer(_) => 8,
        Type::Array(inner, len) => spec_size(*inner) * len,
        Type::Void => 0,
    }
}

/// `ty` has a size: it is not `void`, no array in it has `void` elements,
/// and every size met while computing it fits in 64 bits.
pub open spec fn size_defined(ty: Type) -> bool
    decreases ty,
{
    match ty {
        Type::Void => false,
        Type::Array(inner, len) => size_defined(*inner) && spec_size(*inner) * len <= u64::MAX,
        _ => true,
    }
}

pub proof fn lemma_size_nonneg(ty: Type)
    ensures
        spec_size(ty) >= 0,
    decreases ty,
{
    if let Type::Array(inner, len) = ty {
        lemma_size_nonneg(*inner);
        assert(spec_size(*inner) * len >= 0) by (nonlinear_arith)
            requires
                spec_size(*inner) >= 0,
        ;
    }
}

/// The size in bytes of `ty`, as `sizeof(ty)` gives it.
pub fn size_of_type(ty: &Type) -> (r: u64)
    requires
        size_defined(*ty),
    ensures
        r == spec_size(*ty),
    decreases ty,
{
    match ty {
        Type::I8 | Type::U8 | Type::Bool | Type::Char => 1,
        Type::I16 | Type::U16 => 2,
        Type::I32 | Type::U32 | Type::F32 => 4,
        Type::I64 | Type::U64 | Type::F64 | Type::Pointer(_) => 8,
        Type::Array(inner_type, len) => {
            let inner = size_of_type(inner_type);
            proof {
                lemma_size_nonneg(**inner_type);
            }
            inner * (*len as u64)
        },
        Type::Void => 0,
    }
}

/// The size of `ty`, or `None` where `sizeof` has no answer.
pub fn checked_size_of(ty: &Type) -> (r: Option<u64>)
    ensures
        r == (if size_defined(*ty) {
            Some(spec_size(*ty) as u64)
        } else {
            None::<u64>
        }),
    decreases ty,
{
    match ty {
        Type::Void => None,
        Type::Array(inner_type, len) => {
            match checked_size_of(inner_type) {
                None => None,
                Some(inner) => {
                    proof {
                        lemma_size_nonneg(**inner_type);
                        assert(inner * *len >= 0) by (nonlinear_arith);
                    }
                    inner.checked_mul(*len as u64)
                },
            }
        },
        _ => Some(size_of_type(ty)),
    }
}

} // verus!
