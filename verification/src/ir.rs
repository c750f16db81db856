//! What the generator emits for an expression, as plain data: each value it
//! produces comes with a `Term` that records the constant, load, address,
//! arithmetic, comparison or call that computes it, over the terms of its
//! operands. `models` says which term each expression must get.
use crate::ast::{spec_size, AssignmentStmt, Expr, Stmt, Token, Type};
use crate::llvm::{Block, FloatCmp, Inst, IntCmp};
use crate::scopes::{bind_innermost, law_lookup_after_declare, lookup_in, Binding, LoopContext};
use crate::typing::{
    is_arithmetic, is_comparison, spec_float_predicate, spec_int_predicate, spec_print_format,
};
use vstd::prelude::*;

verus! {

/// The arithmetic instructions the generator emits.
pub enum ArithOp {
    Add,
    Sub,
    Mul,
    SDiv,
    UDiv,
    FAdd,
    FSub,
    FMul,
    FDiv,
}

/// The predicate of a comparison instruction.
pub ghost enum Predicate {
    Int(IntCmp),
    Float(FloatCmp),
}

/// The computation of a generated value; `P` is the type of variable slots.
pub ghost enum Term<P> {
    /// An integer constant of source type `ty`.
    Const { ty: Type, value: int },
    /// The `f64` constant with these IEEE-754 bits.
    FloatConst { bits: u64 },
    /// A load of the variable of type `ty` kept in `slot`.
    Load { slot: P, ty: Type },
    /// The address of the variable of type `ty` kept in `slot`, not loaded.
    Slot { slot: P, ty: Type },
    /// The address of element `index` of the array that `base` points to,
    /// whose elements have type `ty`; `widened` where the index was
    /// zero-extended to 64 bits first.
    Element { base: Box<Term<P>>, index: Box<Term<P>>, ty: Type, widened: bool },
    /// A load of a value of type `ty` from the address `addr`.
    Through { addr: Box<Term<P>>, ty: Type },
    /// `left op right`, of type `ty`.
    Arith { op: ArithOp, left: Box<Term<P>>, right: Box<Term<P>>, ty: Type },
    /// The comparison `left pred right`, a `bool`.
    Compare { pred: Predicate, left: Box<Term<P>>, right: Box<Term<P>> },
    /// A call of the module's function `name` with these arguments, each
    /// cast to its parameter's pointer type where `casts` says so.
    Call { name: Seq<char>, args: Seq<Term<P>>, ty: Type, casts: Seq<bool> },
    /// A constant array of these elements, of array type `ty`.
    Array { elems: Seq<Term<P>>, ty: Type },
    /// `pop(array, len)`: the length at `len` decremented, then the element
    /// of `array` at the new length loaded, of type `ty`; `widened` as for
    /// `Element`.
    Pop { array: Box<Term<P>>, len: Box<Term<P>>, ty: Type, widened: bool },
}

/// The source type of the value that `t` computes.
pub open spec fn term_type<P>(t: Term<P>) -> Type {
    match t {
        Term::Const { ty, .. } => ty,
        Term::FloatConst { .. } => Type::F64,
        Term::Load { ty, .. } => ty,
        Term::Slot { ty, .. } => Type::Pointer(Box::new(ty)),
        Term::Element { ty, .. } => Type::Pointer(Box::new(ty)),
        Term::Through { ty, .. } => ty,
        Term::Arith { ty, .. } => ty,
        Term::Compare { .. } => Type::Bool,
        Term::Call { ty, .. } => ty,
        Term::Array { ty, .. } => ty,
        Term::Pop { ty, .. } => ty,
    }
}

/// The integer instruction for an arithmetic operator: division is signed
/// exactly when the left operand's type is.
pub open spec fn int_arith(op: Token, signed: bool) -> Option<ArithOp> {
    match op {
        Token::Plus => Some(ArithOp::Add),
        Token::Minus => Some(ArithOp::Sub),
        Token::Star => Some(ArithOp::Mul),
        Token::Slash => Some(if signed { ArithOp::SDiv } else { ArithOp::UDiv }),
        _ => None,
    }
}

/// The floating-point instruction for an arithmetic operator.
pub open spec fn float_arith(op: Token) -> Option<ArithOp> {
    match op {
        Token::Plus => Some(ArithOp::FAdd),
        Token::Minus => Some(ArithOp::FSub),
        Token::Star => Some(ArithOp::FMul),
        Token::Slash => Some(ArithOp::FDiv),
        _ => None,
    }
}

/// The operands of an arithmetic or comparison term.
pub open spec fn binary_operands<P>(t: Term<P>) -> Option<(Term<P>, Term<P>)> {
    match t {
        Term::Arith { left, right, .. } => Some((*left, *right)),
        Term::Compare { left, right, .. } => Some((*left, *right)),
        _ => None,
    }
}

/// `f32` or `f64`.
pub open spec fn is_float_type(t: Type) -> bool {
    t == Type::F32 || t == Type::F64
}

/// `t` is what `left op right` emits: for arithmetic, the floating-point
/// instruction where the left operand has a floating-point type, the
/// integer one otherwise (signed division by the left operand's type), of
/// the left operand's type; for a comparison, the ordered floating-point
/// predicate or the integer one (signed by the left operand's type), in the
/// same way.
pub open spec fn binary_models<P>(op: Token, left: Term<P>, right: Term<P>, t: Term<P>) -> bool {
    let signed = term_type(left).spec_is_signed();
    let float = is_float_type(term_type(left));
    if is_arithmetic(op) {
        &&& t matches Term::Arith { op: k, left: l, right: r, ty }
        &&& *l == left
        &&& *r == right
        &&& ty == term_type(left)
        &&& if float {
            float_arith(op) == Some(k)
        } else {
            int_arith(op, signed) == Some(k)
        }
    } else if is_comparison(op) {
        &&& t matches Term::Compare { pred, left: l, right: r }
        &&& *l == left
        &&& *r == right
        &&& if float {
            pred matches Predicate::Float(c) && spec_float_predicate(op) == Some(c)
        } else {
            pred matches Predicate::Int(c) && spec_int_predicate(op, signed) == Some(c)
        }
    } else {
        false
    }
}

/// `t` is the load of element `index` of the array that `base` points to.
pub open spec fn element_models<P>(base: Term<P>, index: Term<P>, t: Term<P>) -> bool {
    &&& t matches Term::Through { addr, ty }
    &&& *addr matches Term::Element { base: b, index: i, ty: t, .. }
    &&& *b == base
    &&& *i == index
    &&& t == ty
    &&& term_type(base) == Type::Pointer(Box::new(ty))
}

/// The terms `ts` are those of the expressions `items`, one for one.
pub open spec fn models_list<P>(
    items: Seq<Expr>,
    scopes: Seq<Map<Seq<char>, Binding<P>>>,
    ts: Seq<Term<P>>,
) -> bool
    decreases items,
{
    &&& items.len() == ts.len()
    &&& items.len() > 0 ==> {
        &&& models_list(items.drop_last(), scopes, ts.drop_last())
        &&& models(items.last(), scopes, ts.last())
    }
}

/// `t` is the code generated for `e` under the bindings `scopes`: literals
/// and `sizeof` are constants (`sizeof` the size of its type), a variable is
/// a load from its slot and `&x` the slot itself, `*p`, `p[i]` and
/// `array_get(p, i)` load through the pointer, operators emit the
/// instruction that `binary_models` fixes, and a call calls the function of
/// that name with the arguments' terms.
pub open spec fn models<P>(e: Expr, scopes: Seq<Map<Seq<char>, Binding<P>>>, t: Term<P>) -> bool
    decreases e,
{
    match e {
        Expr::SizeOf(x) => t == Term::<P>::Const { ty: Type::U64, value: spec_size(x) },
        Expr::Operand(tok) => match tok {
            Token::Int(n) => t == Term::<P>::Const { ty: Type::I32, value: n as int },
            Token::Float(bits) => t == Term::<P>::FloatConst { bits },
            Token::Bool(b) => t == Term::<P>::Const { ty: Type::Bool, value: if b { 1 } else { 0 } },
            Token::Array(items) => {
                &&& t matches Term::Array { elems, ty }
                &&& items@.len() > 0
                &&& models_list(items@, scopes, elems)
                &&& ty == Type::Array(Box::new(term_type(elems.last())), items@.len() as u32)
            },
            Token::Identifier(name) => {
                &&& lookup_in(scopes, name@) matches Some(b)
                &&& t == Term::Load { slot: b.ptr, ty: b.ty }
            },
            Token::Call(name, args) => {
                let s = args@;
                if name@ == "array_get"@ {
                    &&& s.len() == 2
                    &&& t matches Term::Through { addr, .. }
                    &&& *addr matches Term::Element { base, index, .. }
                    &&& models(s[0], scopes, *base)
                    &&& models(s[1], scopes, *index)
                    &&& element_models(*base, *index, t)
                } else if name@ == "pop"@ {
                    &&& s.len() == 2
                    &&& t matches Term::Pop { array, len, ty, .. }
                    &&& models(s[0], scopes, *array)
                    &&& models(s[1], scopes, *len)
                    &&& term_type(*array) == Type::Pointer(Box::new(ty))
                } else {
                    &&& t matches Term::Call { name: n, args: ts, .. }
                    &&& n == name@
                    &&& models_list(s, scopes, ts)
                }
            },
            _ => false,
        },
        Expr::Operation(op, ys) => {
            let s = ys@;
            if s.len() == 2 {
                if op is LBracket {
                    &&& t matches Term::Through { addr, .. }
                    &&& *addr matches Term::Element { base, index, .. }
                    &&& models(s[0], scopes, *base)
                    &&& models(s[1], scopes, *index)
                    &&& element_models(*base, *index, t)
                } else {
                    &&& binary_operands(t) matches Some(lr)
                    &&& models(s[0], scopes, lr.0)
                    &&& models(s[1], scopes, lr.1)
                    &&& binary_models(op, lr.0, lr.1, t)
                }
            } else if s.len() == 1 {
                match op {
                    Token::LParen => models(s[0], scopes, t),
                    Token::Ampersand => match s[0] {
                        Expr::Operand(Token::Identifier(name)) => {
                            &&& lookup_in(scopes, name@) matches Some(b)
                            &&& t == Term::Slot { slot: b.ptr, ty: b.ty }
                        },
                        _ => false,
                    },
                    Token::Star => {
                        &&& t matches Term::Through { addr, ty }
                        &&& models(s[0], scopes, *addr)
                        &&& term_type(*addr) == Type::Pointer(Box::new(ty))
                    },
                    _ => false,
                }
            } else {
                false
            }
        },
    }
}

/// What a statement emits before any statement nested in it; `B` is the
/// type of basic blocks.
pub ghost enum Event<P, B> {
    /// A store of `value` at the address `addr`, after `casts` pointer
    /// casts.
    Store { addr: Term<P>, value: Term<P>, casts: nat },
    /// An expression evaluated for its effects.
    Eval { value: Term<P> },
    /// A call of `printf` with this format and value, an `f32` value
    /// widened to `f64` first.
    Print { format: Seq<char>, value: Term<P>, widened: bool },
    /// A call of `free` with this pointer, cast to `i8*` where `cast`.
    Free { ptr: Term<P>, cast: bool },
    /// `push(array, len, value)`: `value` stored at `array[*len]`, then
    /// `*len` incremented. `probe` is the array evaluated once more to check
    /// its element type with the address of its first element.
    Push {
        array: Term<P>,
        len: Term<P>,
        value: Term<P>,
        probe: Term<P>,
        probe_widened: bool,
        widened: bool,
    },
    /// A return, with its value if there is one, cast to the function's
    /// return type where `cast`.
    Return { value: Option<Term<P>>, cast: bool },
    /// An unconditional branch to `target`.
    Jump { target: B },
    /// A branch on `cond` to `then_block` or to `else_block`.
    If { cond: Term<P>, then_block: B, else_block: B },
    /// A loop: its condition `cond` evaluated in `cond_block`, a branch to
    /// `body_block` or to `end_block`, and the body generated inside
    /// `body_loop`.
    While { cond: Term<P>, cond_block: B, body_block: B, end_block: B, body_loop: LoopContext<B> },
    /// After the items: `int main()` calling `run` added to a module that
    /// has `run` and no `main`.
    MainWrapper,
    /// The function `name` added to the module, with its parameters stored
    /// in slots of their own, before its body.
    Function { name: Seq<char> },
    /// The global variable `name` added to the module with its initializer.
    Global { name: Seq<char> },
}

/// `ev` occurs in `trace`.
pub open spec fn occurs_in<P, B>(trace: Seq<Event<P, B>>, ev: Event<P, B>) -> bool {
    exists|k: int| 0 <= k < trace.len() && trace[k] == ev
}

/// `ev` is what the expression statement `e` emits: a built-in's call, or
/// the evaluation of `e`.
pub open spec fn expr_stmt_models<P, B>(
    e: Expr,
    scopes: Seq<Map<Seq<char>, Binding<P>>>,
    ev: Event<P, B>,
) -> bool {
    match e {
        Expr::Operand(Token::Call(name, args)) => {
            let s = args@;
            if name@ == "print"@ {
                &&& s.len() == 1
                &&& ev matches Event::Print { format, value, .. }
                &&& models(s[0], scopes, value)
                &&& spec_print_format(term_type(value)) == Some(format)
            } else if name@ == "free"@ {
                &&& s.len() == 1
                &&& ev matches Event::Free { ptr, .. }
                &&& models(s[0], scopes, ptr)
                &&& term_type(ptr) is Pointer
            } else if name@ == "array_set"@ {
                &&& s.len() == 3
                &&& ev matches Event::Store { addr, value, casts }
                &&& casts == 0
                &&& addr matches Term::Element { base, index, ty, .. }
                &&& models(s[0], scopes, *base)
                &&& models(s[1], scopes, *index)
                &&& models(s[2], scopes, value)
                &&& term_type(*base) == Type::Pointer(Box::new(ty))
                &&& term_type(value) == ty
            } else if name@ == "push"@ {
                &&& s.len() == 3
                &&& ev matches Event::Push { array, len, value, probe, .. }
                &&& models(s[0], scopes, probe)
                &&& models(s[0], scopes, array)
                &&& models(s[1], scopes, len)
                &&& models(s[2], scopes, value)
                &&& term_type(array) == Type::Pointer(Box::new(term_type(value)))
                &&& term_type(len) is Pointer
            } else {
                &&& ev matches Event::Eval { value }
                &&& models(e, scopes, value)
            }
        },
        _ => {
            &&& ev matches Event::Eval { value }
            &&& models(e, scopes, value)
        },
    }
}

/// `ev` is what the assignment `a` emits: the value stored at `name[index]`,
/// through the pointer that `name` holds, or in a new slot of the variable's
/// type.
pub open spec fn assignment_models<P, B>(
    a: AssignmentStmt,
    scopes: Seq<Map<Seq<char>, Binding<P>>>,
    ev: Event<P, B>,
) -> bool {
    &&& a.value matches Some(v)
    &&& ev matches Event::Store { addr, value, casts }
    &&& models(v, scopes, value)
    &&& (!(addr is Slot) ==> casts == 0)
    &&& casts <= 2
    &&& if a.index is Some {
        &&& addr matches Term::Element { base, index, ty, .. }
        &&& models(Expr::Operand(Token::Identifier(a.name)), scopes, *base)
        &&& models(a.index->0, scopes, *index)
        &&& term_type(*base) == Type::Pointer(Box::new(ty))
        &&& term_type(value) == ty
    } else if a.dereference {
        &&& lookup_in(scopes, a.name@) matches Some(b)
        &&& b.ty == Type::Pointer(Box::new(term_type(value)))
        &&& addr == Term::<P>::Load { slot: b.ptr, ty: b.ty }
    } else {
        addr is Slot
    }
}

/// `ev` is what the statement `s` emits first, under the bindings `scopes`
/// and inside the loops `loops`: `break` and `continue` jump to the innermost
/// loop's exit and condition, a `while` generates its body inside a loop
/// that continues at its condition block and breaks to its end block.
pub open spec fn stmt_models<P, B>(
    s: Stmt,
    scopes: Seq<Map<Seq<char>, Binding<P>>>,
    loops: Seq<LoopContext<B>>,
    ev: Event<P, B>,
) -> bool {
    match s {
        Stmt::Assignment(a) => assignment_models(a, scopes, ev),
        Stmt::Return(None) => ev matches Event::Return { value: None, .. },
        Stmt::Return(Some(e)) => ev matches Event::Return { value: Some(t), .. } && models(e, scopes, t),
        Stmt::Expr(e) => expr_stmt_models(e, scopes, ev),
        Stmt::If(i) => ev matches Event::If { cond, .. } && models(i.condition, scopes, cond),
        Stmt::While(w) => {
            &&& ev matches Event::While { cond, cond_block, end_block, body_loop, .. }
            &&& models(w.condition, scopes, cond)
            &&& body_loop == LoopContext { continue_block: cond_block, break_block: end_block }
        },
        Stmt::Break => loops.len() > 0 && ev == Event::<P, B>::Jump {
            target: loops.last().break_block,
        },
        Stmt::Continue => loops.len() > 0 && ev == Event::<P, B>::Jump {
            target: loops.last().continue_block,
        },
    }
}

/// The address of element `i` of the array at `base` whose elements have
/// type `ty`: the generator adds `i` times the element's size to the base.
pub open spec fn element_address(base: int, i: int, ty: Type) -> int {
    base + i * spec_size(ty)
}

/// The integer that `t` gives in memory `mem` (cells by address), slots
/// being at the addresses `slots` gives them; `None` for what this model
/// leaves out (floating point, division, comparisons, calls, arrays).
pub open spec fn value_of<P>(t: Term<P>, slots: spec_fn(P) -> int, mem: Map<int, int>) -> Option<
    int,
>
    decreases t,
{
    match t {
        Term::Const { value, .. } => Some(value),
        Term::Load { slot, .. } => Some(mem[slots(slot)]),
        Term::Slot { slot, .. } => Some(slots(slot)),
        Term::Element { base, index, ty, .. } => match (
            value_of(*base, slots, mem),
            value_of(*index, slots, mem),
        ) {
            (Some(b), Some(i)) => Some(element_address(b, i, ty)),
            _ => None,
        },
        Term::Through { addr, .. } => match value_of(*addr, slots, mem) {
            Some(a) => Some(mem[a]),
            None => None,
        },
        Term::Arith { op, left, right, .. } => match (
            value_of(*left, slots, mem),
            value_of(*right, slots, mem),
        ) {
            (Some(l), Some(r)) => match op {
                ArithOp::Add => Some(l + r),
                ArithOp::Sub => Some(l - r),
                ArithOp::Mul => Some(l * r),
                _ => None,
            },
            _ => None,
        },
        Term::Pop { array, len, ty, .. } => match (
            value_of(*array, slots, mem),
            value_of(*len, slots, mem),
        ) {
            (Some(a), Some(l)) => {
                let n = mem[l] - 1;
                Some(mem.insert(l, n)[element_address(a, n, ty)])
            },
            _ => None,
        },
        _ => None,
    }
}

/// The memory after the event `ev`: a store writes its value at its
/// address; `push` writes the value at element `*len` of the array and then
/// increments `*len`. `None` for events this model leaves out.
pub open spec fn effect<P, B>(ev: Event<P, B>, slots: spec_fn(P) -> int, mem: Map<int, int>) -> Option<
    Map<int, int>,
> {
    match ev {
        Event::Store { addr, value, .. } => match (
            value_of(addr, slots, mem),
            value_of(value, slots, mem),
        ) {
            (Some(a), Some(v)) => Some(mem.insert(a, v)),
            _ => None,
        },
        Event::Push { array, len, value, .. } => match (
            value_of(array, slots, mem),
            value_of(len, slots, mem),
            value_of(value, slots, mem),
        ) {
            (Some(a), Some(l), Some(v)) => {
                let n = mem[l];
                Some(mem.insert(element_address(a, n, term_type(value)), v).insert(l, n + 1))
            },
            _ => None,
        },
        _ => None,
    }
}

/// A read after a store gives the stored value: after `Store { addr, value }`,
/// loading through any address term that gives the same address (`x` read
/// back, `*&x`, `array_get` of the index just set) gives the value.
pub proof fn law_read_after_store<P, B>(
    addr: Term<P>,
    value: Term<P>,
    reread: Term<P>,
    ty: Type,
    casts: nat,
    slots: spec_fn(P) -> int,
    mem: Map<int, int>,
)
    requires
        value_of(addr, slots, mem) is Some,
        value_of(value, slots, mem) is Some,
        effect(Event::<P, B>::Store { addr, value, casts }, slots, mem) matches Some(after)
            && value_of(reread, slots, after) == value_of(addr, slots, mem),
    ensures
        effect(Event::<P, B>::Store { addr, value, casts }, slots, mem) matches Some(after)
            && value_of(Term::Through { addr: Box::new(reread), ty }, slots, after) == value_of(
            value,
            slots,
            mem,
        ),
{
}

/// `push` then `pop` on the same array and length gives back the pushed
/// value and the length there was (last in, first out), where the element
/// written is not the length itself and the array and length terms read the
/// same after the push.
pub proof fn law_push_then_pop<P, B>(
    array: Term<P>,
    len: Term<P>,
    value: Term<P>,
    probe_widened: bool,
    widened: bool,
    pop_widened: bool,
    slots: spec_fn(P) -> int,
    mem: Map<int, int>,
)
    requires
        value_of(array, slots, mem) matches Some(a) && value_of(len, slots, mem) matches Some(l)
            && value_of(value, slots, mem) is Some && element_address(
            a,
            mem[l],
            term_type(value),
        ) != l,
        effect(
            Event::<P, B>::Push {
                array,
                len,
                value,
                probe: array,
                probe_widened,
                widened,
            },
            slots,
            mem,
        ) matches Some(after)
            && value_of(array, slots, after) == value_of(array, slots, mem) && value_of(
            len,
            slots,
            after,
        ) == value_of(len, slots, mem),
    ensures
        effect(
            Event::<P, B>::Push {
                array,
                len,
                value,
                probe: array,
                probe_widened,
                widened,
            },
            slots,
            mem,
        ) matches Some(after) && {
            let popped = Term::Pop {
                array: Box::new(array),
                len: Box::new(len),
                ty: term_type(value),
                widened: pop_widened,
            };
            let l = value_of(len, slots, mem)->0;
            &&& value_of(popped, slots, after) == value_of(value, slots, mem)
            &&& after.insert(l, after[l] - 1)[l] == mem[l]
        },
{
}

/// A variable reads back what its declaration stored: once `name` is bound
/// in the innermost scope to the slot that a store wrote `value` to, the
/// code generated for `name` gives that value.
pub proof fn law_variable_reads_its_store<P, B>(
    scopes: Seq<Map<Seq<char>, Binding<P>>>,
    name: String,
    b: Binding<P>,
    slot_ty: Type,
    value: Term<P>,
    read: Term<P>,
    casts: nat,
    slots: spec_fn(P) -> int,
    mem: Map<int, int>,
)
    requires
        scopes.len() > 0,
        value_of(value, slots, mem) is Some,
        models(
            Expr::Operand(Token::Identifier(name)),
            bind_innermost(scopes, name@, b),
            read,
        ),
    ensures
        effect(
            Event::<P, B>::Store { addr: Term::Slot { slot: b.ptr, ty: slot_ty }, value, casts },
            slots,
            mem,
        ) matches Some(after) && value_of(read, slots, after) == value_of(value, slots, mem),
{
    law_lookup_after_declare(scopes, name@, b, name@);
}

/// What computing an element's address emits: the index zero-extended to
/// 64 bits where `widened`, the base turned into an integer, the index times
/// the element's size added to it, and the sum turned back into a pointer.
pub open spec fn index_insts(widened: bool) -> Seq<Inst> {
    (if widened {
        seq![Inst::ZExt]
    } else {
        Seq::empty()
    }) + seq![Inst::PtrToInt, Inst::Arith(ArithOp::Mul), Inst::Arith(ArithOp::Add), Inst::IntToPtr]
}

/// The instructions that computing `t` asks the builder for, in order:
/// operands first, left to right, then the term's own instruction.
/// Constants and slot addresses emit nothing.
pub open spec fn flatten<P>(t: Term<P>) -> Seq<Inst>
    decreases t,
{
    match t {
        Term::Const { .. } => Seq::empty(),
        Term::FloatConst { .. } => seq![Inst::BitCast],
        Term::Load { .. } => seq![Inst::Load],
        Term::Slot { .. } => Seq::empty(),
        Term::Element { base, index, widened, .. } => flatten(*base) + flatten(*index) + index_insts(
            widened,
        ),
        Term::Through { addr, .. } => flatten(*addr) + seq![Inst::Load],
        Term::Arith { op, left, right, .. } => flatten(*left) + flatten(*right) + seq![Inst::Arith(op)],
        Term::Compare { pred, left, right } => flatten(*left) + flatten(*right) + seq![
            match pred {
                Predicate::Int(c) => Inst::IntCompare(c),
                Predicate::Float(c) => Inst::FloatCompare(c),
            },
        ],
        Term::Call { args, casts, .. } => flatten_args(args, casts) + seq![
            Inst::Call { args: args.len() },
        ],
        Term::Array { elems, .. } => flatten_list(elems),
        Term::Pop { array, len, widened, .. } => flatten(*len) + seq![
            Inst::Load,
            Inst::Arith(ArithOp::Sub),
            Inst::Store,
        ] + flatten(*array) + index_insts(widened) + seq![Inst::Load],
    }
}

/// The instructions of the terms `ts`, one after the other.
pub open spec fn flatten_list<P>(ts: Seq<Term<P>>) -> Seq<Inst>
    decreases ts,
{
    if ts.len() == 0 {
        Seq::empty()
    } else {
        flatten_list(ts.drop_last()) + flatten(ts.last())
    }
}

/// The instructions of a call's arguments: each argument, then its pointer
/// cast where `casts` asks for one.
pub open spec fn flatten_args<P>(ts: Seq<Term<P>>, casts: Seq<bool>) -> Seq<Inst>
    decreases ts,
{
    if ts.len() == 0 {
        Seq::empty()
    } else {
        flatten_args(ts.drop_last(), casts.drop_last()) + flatten(ts.last()) + (if casts.last() {
            seq![Inst::PointerCast]
        } else {
            Seq::empty()
        })
    }
}

/// `n` pointer casts.
pub open spec fn pointer_casts(n: nat) -> Seq<Inst> {
    Seq::new(n, |i: int| Inst::PointerCast)
}

/// The instructions that a statement's own event asks the builder for.
pub open spec fn event_insts<'ctx, P>(ev: Event<P, Block<'ctx>>) -> Seq<Inst> {
    match ev {
        Event::Store { addr, value, casts } => (match addr {
            Term::Slot { .. } => seq![Inst::Alloca],
            _ => flatten(addr),
        }) + flatten(value) + pointer_casts(casts) + seq![Inst::Store],
        Event::Eval { value } => flatten(value),
        Event::Print { format, value, widened } => flatten(value) + (if widened {
            seq![Inst::FloatExt]
        } else {
            Seq::empty()
        }) + seq![Inst::GlobalString { text: format }, Inst::Call { args: 2 }],
        Event::Free { ptr, cast } => flatten(ptr) + (if cast {
            seq![Inst::PointerCast]
        } else {
            Seq::empty()
        }) + seq![Inst::Call { args: 1 }],
        Event::Push { array, len, value, probe, probe_widened, widened } => flatten(len) + seq![
            Inst::Load,
        ] + flatten(probe) + index_insts(probe_widened) + flatten(array) + index_insts(widened)
            + flatten(value) + seq![Inst::Store, Inst::Arith(ArithOp::Add), Inst::Store],
        Event::Return { value, cast } => match value {
            None => seq![Inst::Return { value: false }],
            Some(t) => flatten(t) + (if cast {
                seq![Inst::PointerCast]
            } else {
                Seq::empty()
            }) + seq![Inst::Return { value: true }],
        },
        Event::Jump { target } => seq![Inst::Branch { target: target.label }],
        _ => Seq::empty(),
    }
}

} // verus!
