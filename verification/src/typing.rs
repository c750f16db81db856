//! The source-type rules that code generation follows, stated over the
//! syntax tree and the symbol table, and the decisions that depend on types
//! alone.
use crate::ast::{size_defined, Expr, Token, Type};
use crate::llvm::{FloatCmp, IntCmp};
use crate::scopes::{law_new_scope_keeps_lookups, lookup_in, Binding};
use crate::text::{contains, contains_text};
use vstd::prelude::*;

verus! {

/// `ty` has an LLVM representation: no pointer or array in it has `void`
/// as its element type.
pub open spec fn lowerable(ty: Type) -> bool
    decreases ty,
{
    match ty {
        Type::Array(inner, _) => *inner != Type::Void && lowerable(*inner),
        Type::Pointer(inner) => *inner != Type::Void && lowerable(*inner),
        _ => true,
    }
}

/// `ty` can be held in a variable: it has an LLVM representation and is
/// not `void`.
pub open spec fn storable(ty: Type) -> bool {
    ty != Type::Void && lowerable(ty)
}

/// What the type rules say of an expression.
pub enum Typing {
    /// Code generation fails.
    Rejected,
    /// If code generation succeeds, the expression has this type.
    Typed(Type),
    /// The type depends on what LLVM reports of a called function.
    Open,
}

pub open spec fn is_arithmetic(op: Token) -> bool {
    op is Plus || op is Minus || op is Star || op is Slash
}

pub open spec fn is_comparison(op: Token) -> bool {
    op is Greater || op is Less || op is EqualEqual || op is NotEqual || op is GreaterEqual
        || op is LessEqual
}

/// The typing of an element access `base[index]`: `base` must be a pointer
/// to a storable type, which is the type of the access.
pub open spec fn index_typing(base: Typing, index: Typing) -> Typing {
    if base is Rejected || index is Rejected {
        Typing::Rejected
    } else {
        match base {
            Typing::Typed(Type::Pointer(inner)) => if storable(*inner) {
                Typing::Typed(*inner)
            } else {
                Typing::Rejected
            },
            Typing::Typed(_) => Typing::Rejected,
            _ => Typing::Open,
        }
    }
}

/// The typing of `pop(array, length)`: the length must be a pointer to a
/// storable type, the array a pointer to a storable element type, which is
/// the type of the call.
pub open spec fn pop_typing(array: Typing, len: Typing) -> Typing {
    if array is Rejected || len is Rejected {
        Typing::Rejected
    } else if len matches Typing::Typed(t) && !(t matches Type::Pointer(i) && storable(*i)) {
        Typing::Rejected
    } else {
        index_typing(array, Typing::Open)
    }
}

/// The typing of the expressions `items`, `Rejected` if one of them is.
pub open spec fn any_rejected<P>(items: Seq<Expr>, scopes: Seq<Map<Seq<char>, Binding<P>>>) -> bool
    decreases items,
{
    if items.len() == 0 {
        false
    } else {
        typing_of(items.last(), scopes) is Rejected || any_rejected(items.drop_last(), scopes)
    }
}

/// The type rules of expressions, under the bindings `scopes`:
/// literals are `i32`, `f64` and `bool`; `sizeof` is `u64`; a variable has
/// its declared type; arithmetic has the type of its left operand and a
/// comparison is `bool`; `&x` points to `x`'s type and `*p`, `p[i]`,
/// `array_get(p, i)` and `pop(p, n)` have the type `p` points to; an array
/// literal has its last element's type and its length.
pub open spec fn typing_of<P>(e: Expr, scopes: Seq<Map<Seq<char>, Binding<P>>>) -> Typing
    decreases e,
{
    match e {
        Expr::SizeOf(t) => if size_defined(t) {
            Typing::Typed(Type::U64)
        } else {
            Typing::Rejected
        },
        Expr::Operand(tok) => match tok {
            Token::Int(_) => Typing::Typed(Type::I32),
            Token::Float(_) => Typing::Typed(Type::F64),
            Token::Bool(_) => Typing::Typed(Type::Bool),
            Token::Array(items) => {
                let s = items@;
                if s.len() == 0 || any_rejected(s, scopes) {
                    Typing::Rejected
                } else {
                    match typing_of(s.last(), scopes) {
                        Typing::Typed(t) => Typing::Typed(Type::Array(Box::new(t), s.len() as u32)),
                        _ => Typing::Open,
                    }
                }
            },
            Token::Identifier(name) => match lookup_in(scopes, name@) {
                Some(b) => if storable(b.ty) {
                    Typing::Typed(b.ty)
                } else {
                    Typing::Rejected
                },
                None => Typing::Rejected,
            },
            Token::Call(name, args) => {
                let s = args@;
                if name@ == "array_get"@ {
                    if s.len() != 2 {
                        Typing::Rejected
                    } else {
                        index_typing(typing_of(s[0], scopes), typing_of(s[1], scopes))
                    }
                } else if name@ == "pop"@ {
                    if s.len() != 2 {
                        Typing::Rejected
                    } else {
                        pop_typing(typing_of(s[0], scopes), typing_of(s[1], scopes))
                    }
                } else if any_rejected(s, scopes) {
                    Typing::Rejected
                } else {
                    Typing::Open
                }
            },
            _ => Typing::Rejected,
        },
        Expr::Operation(op, ys) => {
            let s = ys@;
            if s.len() == 2 {
                if op is LBracket {
                    index_typing(typing_of(s[0], scopes), typing_of(s[1], scopes))
                } else {
                    let a = typing_of(s[0], scopes);
                    let b = typing_of(s[1], scopes);
                    if a is Rejected || b is Rejected {
                        Typing::Rejected
                    } else if is_arithmetic(op) {
                        a
                    } else if is_comparison(op) {
                        Typing::Typed(Type::Bool)
                    } else {
                        Typing::Rejected
                    }
                }
            } else if s.len() == 1 {
                match op {
                    Token::LParen => typing_of(s[0], scopes),
                    Token::Ampersand => match s[0] {
                        Expr::Operand(Token::Identifier(name)) => match lookup_in(scopes, name@) {
                            Some(b) => Typing::Typed(Type::Pointer(Box::new(b.ty))),
                            None => Typing::Rejected,
                        },
                        _ => Typing::Rejected,
                    },
                    Token::Star => index_typing(typing_of(s[0], scopes), Typing::Open),
                    _ => Typing::Rejected,
                }
            } else {
                Typing::Rejected
            }
        },
    }
}

/// Opening a new, empty scope changes nothing that the type rules say of
/// an expression.
pub proof fn law_new_scope_keeps_typing<P>(e: Expr, scopes: Seq<Map<Seq<char>, Binding<P>>>)
    ensures
        typing_of(e, scopes.push(Map::empty())) == typing_of(e, scopes),
    decreases e,
{
    match e {
        Expr::SizeOf(_) => {},
        Expr::Operand(tok) => match tok {
            Token::Array(items) => {
                lemma_any_rejected_new_scope(items@, scopes);
                if items@.len() > 0 {
                    law_new_scope_keeps_typing(items@.last(), scopes);
                }
            },
            Token::Identifier(name) => {
                law_new_scope_keeps_lookups(scopes, name@);
            },
            Token::Call(_, args) => {
                lemma_any_rejected_new_scope(args@, scopes);
                if args@.len() == 2 {
                    law_new_scope_keeps_typing(args@[0], scopes);
                    law_new_scope_keeps_typing(args@[1], scopes);
                }
            },
            _ => {},
        },
        Expr::Operation(_, ys) => {
            if ys@.len() == 2 {
                law_new_scope_keeps_typing(ys@[0], scopes);
                law_new_scope_keeps_typing(ys@[1], scopes);
            } else if ys@.len() == 1 {
                law_new_scope_keeps_typing(ys@[0], scopes);
                if let Expr::Operand(Token::Identifier(name)) = ys@[0] {
                    law_new_scope_keeps_lookups(scopes, name@);
                }
            }
        },
    }
}

proof fn lemma_any_rejected_new_scope<P>(items: Seq<Expr>, scopes: Seq<Map<Seq<char>, Binding<P>>>)
    ensures
        any_rejected(items, scopes.push(Map::empty())) == any_rejected(items, scopes),
    decreases items,
{
    if items.len() > 0 {
        law_new_scope_keeps_typing(items.last(), scopes);
        lemma_any_rejected_new_scope(items.drop_last(), scopes);
    }
}

/// The `printf` format that `print` uses for a value of type `ty`; arrays
/// and `void` cannot be printed.
pub open spec fn spec_print_format(ty: Type) -> Option<Seq<char>> {
    match ty {
        Type::I8 | Type::I16 | Type::I32 | Type::U8 | Type::U16 | Type::U32 | Type::Bool
        | Type::Char => Some("%d\n"@),
        Type::I64 | Type::U64 => Some("%lu\n"@),
        Type::F32 | Type::F64 => Some("%f\n"@),
        Type::Pointer(_) => Some("%p\n"@),
        Type::Array(_, _) | Type::Void => None,
    }
}

/// The `printf` format for a value of type `ty`.
pub fn print_format(ty: &Type) -> (r: Option<&'static str>)
    ensures
        match r {
            Some(s) => spec_print_format(*ty) == Some(s@),
            None => spec_print_format(*ty) is None,
        },
{
    match ty {
        Type::I8 | Type::I16 | Type::I32 | Type::U8 | Type::U16 | Type::U32 | Type::Bool
        | Type::Char => Some("%d\n"),
        Type::I64 | Type::U64 => Some("%lu\n"),
        Type::F32 | Type::F64 => Some("%f\n"),
        Type::Pointer(_) => Some("%p\n"),
        Type::Array(_, _) | Type::Void => None,
    }
}

/// The source type of an LLVM integer type of `width` bits.
pub open spec fn spec_type_for_int_width(width: u32) -> Option<Type> {
    if width == 1 {
        Some(Type::Bool)
    } else if width == 8 {
        Some(Type::I8)
    } else if width == 16 {
        Some(Type::I16)
    } else if width == 32 {
        Some(Type::I32)
    } else if width == 64 {
        Some(Type::I64)
    } else {
        None
    }
}

/// The source type of an LLVM integer type of `width` bits: `bool` for one
/// bit, the signed integer of that width for 8, 16, 32 and 64 bits.
pub fn type_for_int_width(width: u32) -> (r: Option<Type>)
    ensures
        r == spec_type_for_int_width(width),
{
    match width {
        1 => Some(Type::Bool),
        8 => Some(Type::I8),
        16 => Some(Type::I16),
        32 => Some(Type::I32),
        64 => Some(Type::I64),
        _ => None,
    }
}

/// The source type of an LLVM floating-point type, from the type's name in
/// LLVM's textual IR: `f32` where the name contains `float`, `f64` otherwise.
pub fn type_for_float_name(name: &str) -> (r: Type)
    ensures
        r == (if contains_text(name@, "float"@) {
            Type::F32
        } else {
            Type::F64
        }),
{
    if contains(name, "float") {
        Type::F32
    } else {
        Type::F64
    }
}

/// The integer comparison that `op` asks for, by the signedness of the left
/// operand's type; `None` if `op` is no comparison.
pub open spec fn spec_int_predicate(op: Token, signed: bool) -> Option<IntCmp> {
    match op {
        Token::Greater => Some(if signed { IntCmp::Sgt } else { IntCmp::Ugt }),
        Token::Less => Some(if signed { IntCmp::Slt } else { IntCmp::Ult }),
        Token::GreaterEqual => Some(if signed { IntCmp::Sge } else { IntCmp::Uge }),
        Token::LessEqual => Some(if signed { IntCmp::Sle } else { IntCmp::Ule }),
        Token::EqualEqual => Some(IntCmp::Eq),
        Token::NotEqual => Some(IntCmp::Ne),
        _ => None,
    }
}

pub fn int_predicate(op: &Token, signed: bool) -> (r: Option<IntCmp>)
    ensures
        r == spec_int_predicate(*op, signed),
{
    match op {
        Token::Greater => Some(if signed { IntCmp::Sgt } else { IntCmp::Ugt }),
        Token::Less => Some(if signed { IntCmp::Slt } else { IntCmp::Ult }),
        Token::GreaterEqual => Some(if signed { IntCmp::Sge } else { IntCmp::Uge }),
        Token::LessEqual => Some(if signed { IntCmp::Sle } else { IntCmp::Ule }),
        Token::EqualEqual => Some(IntCmp::Eq),
        Token::NotEqual => Some(IntCmp::Ne),
        _ => None,
    }
}

/// The ordered floating-point comparison that `op` asks for; `None` if `op`
/// is no comparison.
pub open spec fn spec_float_predicate(op: Token) -> Option<FloatCmp> {
    match op {
        Token::Greater => Some(FloatCmp::Ogt),
        Token::Less => Some(FloatCmp::Olt),
        Token::GreaterEqual => Some(FloatCmp::Oge),
        Token::LessEqual => Some(FloatCmp::Ole),
        Token::EqualEqual => Some(FloatCmp::Oeq),
        Token::NotEqual => Some(FloatCmp::One),
        _ => None,
    }
}

pub fn float_predicate(op: &Token) -> (r: Option<FloatCmp>)
    ensures
        r == spec_float_predicate(*op),
{
    match op {
        Token::Greater => Some(FloatCmp::Ogt),
        Token::Less => Some(FloatCmp::Olt),
        Token::GreaterEqual => Some(FloatCmp::Oge),
        Token::LessEqual => Some(FloatCmp::Ole),
        Token::EqualEqual => Some(FloatCmp::Oeq),
        Token::NotEqual => Some(FloatCmp::One),
        _ => None,
    }
}

} // verus!
