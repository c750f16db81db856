//! Code generation: the program's items, statements and expressions are
//! lowered to LLVM IR through the calls in `llvm`. The source types, the
//! symbol table, the loop stack and the table of functions are tracked here
//! and verified, and each construct states the sequence of instructions it
//! asks the builder for (`emitted`), as the term or event that models it
//! flattens to. The LLVM values themselves are opaque handles.
use crate::ast::{
    checked_size_of, lemma_size_nonneg, size_defined, AssignmentStmt, Expr, FunctionDecl, GlobalDecl, IfStmt, Item, Program, Stmt,
    Token, Type, WhileStmt,
};
use crate::llvm::{
    add_function, append_basic_block, array_of, array_type_basic, array_type_element,
    array_type_len, array_value_basic, block_has_terminator, block_parent, build_alloca,
    build_bit_cast, build_call, build_conditional_branch, build_float_add, build_float_compare,
    build_float_div, build_float_ext, build_float_mul, build_float_sub, build_global_string_ptr,
    build_int_add, build_int_compare, build_int_mul, build_int_signed_div, build_int_sub,
    build_int_to_ptr, build_int_unsigned_div, build_int_z_extend, build_load, build_pointer_cast,
    build_ptr_to_int, build_return_value, build_return_void, build_store,
    build_unconditional_branch, classify_type, classify_value, const_int, const_int_to_pointer,
    create_builder, create_module, emitted, f32_type, f64_type, float_const_array,
    float_type_basic, float_type_text, float_value_basic, float_zero, function_set_private,
    global_pointer, global_set_external, global_set_initializer, insert_block, int_const_array,
    int_type, int_type_basic, int_type_width, int_value_basic, int_value_type, metadata_value,
    module_add_global, module_verify, null_pointer, pointer_to, pointer_type_basic,
    pointer_value_basic, position_at_end, positioned, same_llvm_type, type_size, value_type, Block, Function, Inst,
    TypeClass, ValueClass,
};
use crate::ir::{
    assignment_models, binary_models, occurs_in, element_models, expr_stmt_models, models, models_list,
    stmt_models, term_type, is_float_type, flatten, flatten_list, flatten_args, index_insts, event_insts, pointer_casts, ArithOp, Event, Predicate, Term,
};
use crate::scopes::{bind_innermost, lookup_in, Binding, LoopContext, LoopStack, SymbolTable};
use crate::text::text_eq;
use crate::typing::{
    float_predicate, index_typing, int_predicate, is_arithmetic, is_comparison,
    lowerable, pop_typing, print_format, spec_print_format, storable, type_for_float_name, type_for_int_width,
    typing_of, Typing, any_rejected,
};
use inkwell::builder::{Builder, BuilderError};
use inkwell::context::Context;
use inkwell::module::Module;
use inkwell::types::{BasicTypeEnum, IntType};
use inkwell::values::{
    BasicMetadataValueEnum, BasicValueEnum, FunctionValue, GlobalValue, IntValue, PointerValue,
};
use vstd::prelude::*;
use vstd::string::*;

verus! {

/// The state of code generation for one module.
pub struct Codegen<'ctx> {
    pub context: &'ctx Context,
    pub module: Module<'ctx>,
    pub builder: Builder<'ctx>,
    pub symbol_table: SymbolTable<PointerValue<'ctx>>,
    pub loop_stack: LoopStack<Block<'ctx>>,
    /// What the statements generated so far emitted, in order: each
    /// statement's own event, followed by those of the statements nested in
    /// it.
    pub trace: Ghost<Seq<Event<PointerValue<'ctx>, Block<'ctx>>>>,
    /// The functions of the module, in the order they were added.
    pub functions: Vec<Function<'ctx>>,
    /// The LLVM return type of the function being generated, `None` for
    /// one that returns nothing.
    pub return_type: Option<BasicTypeEnum<'ctx>>,
    /// The label the next block made will get.
    pub next_label: u64,
}

/// The label that follows `l`.
pub open spec fn label_after(l: u64) -> u64 {
    if l == u64::MAX {
        0
    } else {
        (l + 1) as u64
    }
}

/// What a top-level item produced.
pub enum Components<'ctx> {
    Function(FunctionValue<'ctx>),
    Global(GlobalValue<'ctx>),
}

/// An expression whose generation needs no instruction and cannot fail: an
/// integer or boolean literal, or `sizeof` of a type that has a size.
pub open spec fn always_generates(e: Expr) -> bool {
    match e {
        Expr::Operand(Token::Int(_)) => true,
        Expr::Operand(Token::Bool(_)) => true,
        Expr::SizeOf(t) => size_defined(t),
        _ => false,
    }
}

/// The outcome `r` of generating an expression agrees with what the type
/// rules say of it: a rejected expression fails, a typed one that succeeds
/// has its type, and one whose type LLVM decides has, if it succeeds, a
/// type that a variable can hold.
pub open spec fn agrees<V, G>(t: Typing, r: Result<(V, Type, G), String>) -> bool {
    match t {
        Typing::Rejected => r is Err,
        Typing::Typed(ty) => r matches Ok(p) ==> p.1 == ty,
        Typing::Open => r matches Ok(p) ==> storable(p.1),
    }
}

/// `new` has the scopes of `old`: the same number, the same outer ones, and
/// an innermost one that keeps every binding of the old innermost scope.
pub open spec fn scopes_kept<P>(
    old: Seq<Map<Seq<char>, Binding<P>>>,
    new: Seq<Map<Seq<char>, Binding<P>>>,
) -> bool {
    &&& new.len() == old.len()
    &&& forall|i: int| 0 <= i < old.len() - 1 ==> new[i] == old[i]
    &&& old.len() > 0 ==> old.last().submap_of(new.last())
}

pub proof fn lemma_scopes_kept_refl<P>(s: Seq<Map<Seq<char>, Binding<P>>>)
    ensures
        scopes_kept(s, s),
{
}

pub proof fn lemma_scopes_kept_trans<P>(
    a: Seq<Map<Seq<char>, Binding<P>>>,
    b: Seq<Map<Seq<char>, Binding<P>>>,
    c: Seq<Map<Seq<char>, Binding<P>>>,
)
    requires
        scopes_kept(a, b),
        scopes_kept(b, c),
    ensures
        scopes_kept(a, c),
{
    if a.len() > 0 {
        vstd::map_lib::lemma_submap_of_trans(a.last(), b.last(), c.last());
    }
}

/// Generating an expression changes nothing of the generator but what the
/// builder holds: the same scopes, loops, trace, functions and return type.
pub open spec fn same_frames<'ctx>(old: Codegen<'ctx>, new: Codegen<'ctx>) -> bool {
    &&& new.wf()
    &&& new.symbol_table == old.symbol_table
    &&& new.loop_stack == old.loop_stack
    &&& new.trace == old.trace
    &&& new.functions == old.functions
    &&& new.return_type == old.return_type
}

/// Declaring a function changes nothing but the table of functions, which
/// only grows.
pub open spec fn table_grows<'ctx>(old: Codegen<'ctx>, new: Codegen<'ctx>) -> bool {
    &&& new.wf()
    &&& new.symbol_table == old.symbol_table
    &&& new.loop_stack == old.loop_stack
    &&& new.trace == old.trace
    &&& new.builder == old.builder
    &&& new.return_type == old.return_type
    &&& extends(old.functions@, new.functions@)
}

/// A statement changes nothing of the generator but what the builder holds
/// and the table of functions, which only grows.
pub open spec fn emits_only<'ctx>(old: Codegen<'ctx>, new: Codegen<'ctx>) -> bool {
    &&& new.wf()
    &&& new.symbol_table == old.symbol_table
    &&& new.loop_stack == old.loop_stack
    &&& new.trace == old.trace
    &&& new.return_type == old.return_type
    &&& extends(old.functions@, new.functions@)
}

/// The position of the first function named `name`.
fn find_function<'ctx>(functions: &Vec<Function<'ctx>>, name: &str) -> (r: Option<usize>)
    ensures
        match r {
            Some(i) => i < functions@.len() && functions@[i as int].name@ == name@,
            None => forall|k: int| 0 <= k < functions@.len() ==> functions@[k].name@ != name@,
        },
{
    let mut i: usize = 0;
    while i < functions.len()
        invariant
            i <= functions@.len(),
            forall|k: int| 0 <= k < i ==> functions@[k].name@ != name@,
        decreases functions.len() - i,
    {
        if text_eq(functions[i].name.as_str(), name) {
            return Some(i);
        }
        i += 1;
    }
    None
}

/// An error with a fixed message.
fn fail<T>(msg: &str) -> (r: Result<T, String>)
    ensures
        r matches Err(e) && e@ == msg@,
{
    Err(String::from_str(msg))
}

/// An error whose message names what it is about.
fn fail_about<T>(msg: &str, what: &str) -> (r: Result<T, String>)
    ensures
        r matches Err(e) && e@ == msg@ + what@,
{
    Err(String::from_str(msg).concat(what))
}

/// The result of a builder call, its error turned into a message.
fn built<T>(r: Result<T, BuilderError>) -> (o: Result<T, String>)
    ensures
        r is Ok <==> o is Ok,
        r matches Ok(x) ==> o == Ok::<T, String>(x),
{
    match r {
        Ok(x) => Ok(x),
        Err(_) => fail("Compiler Error: LLVM instruction builder failed."),
    }
}

impl<'ctx> Codegen<'ctx> {
    pub open spec fn wf(&self) -> bool {
        self.symbol_table.wf()
    }

    /// A generator for a new module named `my_compiler`, with no scope and
    /// no loop open.
    pub fn new(context: &'ctx Context) -> (cg: Codegen<'ctx>)
        ensures
            cg.wf(),
            cg.symbol_table@.len() == 0,
            cg.loop_stack@.len() == 0,
            cg.trace@.len() == 0,
            cg.functions@.len() == 0,
            cg.return_type is None,
            cg.next_label == 0,
            emitted(cg.builder) == Seq::<Inst>::empty(),
    {
        let module = create_module(context, "my_compiler");
        let builder = create_builder(context);
        Codegen {
            context,
            module,
            builder,
            symbol_table: SymbolTable::new(),
            loop_stack: LoopStack::new(),
            trace: Ghost(Seq::empty()),
            functions: Vec::new(),
            return_type: None,
            next_label: 0,
        }
    }

    /// A new block at the end of `f`, with the next label.
    fn new_block(&mut self, f: FunctionValue<'ctx>, name: &str) -> (b: Block<'ctx>)
        ensures
            b.label == old(self).next_label,
            final(self).next_label == label_after(old(self).next_label),
            final(self).builder == old(self).builder,
            final(self).symbol_table == old(self).symbol_table,
            final(self).loop_stack == old(self).loop_stack,
            final(self).trace == old(self).trace,
            final(self).functions == old(self).functions,
            final(self).return_type == old(self).return_type,
    {
        let label = self.next_label;
        let b = append_basic_block(self.context, f, name, label);
        self.next_label = if label == u64::MAX {
            0
        } else {
            label + 1
        };
        b
    }

    /// Opens a scope; called on entering a function or a block.
    pub fn push_scope(&mut self)
        requires
            old(self).wf(),
        ensures
            final(self).wf(),
            final(self).symbol_table@ == old(self).symbol_table@.push(Map::empty()),
            final(self).loop_stack@ == old(self).loop_stack@,
            final(self).trace == old(self).trace,
            final(self).builder == old(self).builder,
            final(self).functions == old(self).functions,
            final(self).next_label == old(self).next_label,
    {
        self.symbol_table.push_scope();
    }

    /// Closes the innermost scope; called on leaving a function or a block.
    pub fn pop_scope(&mut self)
        requires
            old(self).wf(),
            old(self).symbol_table@.len() > 0,
        ensures
            final(self).wf(),
            final(self).symbol_table@ == old(self).symbol_table@.drop_last(),
            final(self).loop_stack@ == old(self).loop_stack@,
            final(self).trace == old(self).trace,
            final(self).builder == old(self).builder,
            final(self).functions == old(self).functions,
            final(self).next_label == old(self).next_label,
    {
        self.symbol_table.pop_scope();
    }

    /// Enters a loop whose `continue` goes to `continue_block` and whose
    /// `break` goes to `break_block`.
    pub fn push_loop(&mut self, continue_block: Block<'ctx>, break_block: Block<'ctx>)
        ensures
            final(self).loop_stack@ == old(self).loop_stack@.push(
                LoopContext { continue_block, break_block },
            ),
            final(self).symbol_table == old(self).symbol_table,
            final(self).trace == old(self).trace,
            final(self).builder == old(self).builder,
            final(self).functions == old(self).functions,
            final(self).next_label == old(self).next_label,
    {
        self.loop_stack.push_loop(continue_block, break_block);
    }

    /// Leaves the innermost loop.
    pub fn pop_loop(&mut self)
        requires
            old(self).loop_stack@.len() > 0,
        ensures
            final(self).loop_stack@ == old(self).loop_stack@.drop_last(),
            final(self).symbol_table == old(self).symbol_table,
            final(self).trace == old(self).trace,
            final(self).builder == old(self).builder,
            final(self).functions == old(self).functions,
            final(self).next_label == old(self).next_label,
    {
        self.loop_stack.pop_loop();
    }

    /// The innermost loop.
    pub fn current_loop(&self) -> (l: LoopContext<Block<'ctx>>)
        requires
            self.loop_stack@.len() > 0,
        ensures
            l == self.loop_stack@.last(),
    {
        self.loop_stack.current_loop()
    }

    /// Whether the block that the builder appends to already ends in a
    /// terminator instruction. Nothing is stated of the answer: it is read
    /// from LLVM.
    pub fn current_block_has_terminator(&self) -> bool {
        match insert_block(&self.builder) {
            Some(block) => block_has_terminator(block),
            None => false,
        }
    }
}

impl Type {
    /// The LLVM type of values of this type, `None` for `void`. It fails
    /// exactly where a pointer or an array has `void` elements.
    pub fn to_llvm_type<'ctx>(&self, code_gen: &Codegen<'ctx>) -> (r: Result<
        Option<BasicTypeEnum<'ctx>>,
        String,
    >)
        ensures
            r is Err <==> !lowerable(*self),
            r matches Ok(o) ==> (o is None <==> *self == Type::Void),
        decreases self,
    {
        let c = code_gen.context;
        match self {
            Type::I8 | Type::U8 | Type::Char => Ok(Some(int_type_basic(int_type(c, 8)))),
            Type::I16 | Type::U16 => Ok(Some(int_type_basic(int_type(c, 16)))),
            Type::I32 | Type::U32 => Ok(Some(int_type_basic(int_type(c, 32)))),
            Type::I64 | Type::U64 => Ok(Some(int_type_basic(int_type(c, 64)))),
            Type::F32 => Ok(Some(float_type_basic(f32_type(c)))),
            Type::F64 => Ok(Some(float_type_basic(f64_type(c)))),
            Type::Bool => Ok(Some(int_type_basic(int_type(c, 1)))),
            Type::Void => Ok(None),
            Type::Array(inner, size) => match inner.to_llvm_type(code_gen)? {
                Some(basic_inner) => Ok(Some(array_type_basic(array_of(basic_inner, *size)))),
                None => fail("Compiler Error: Cannot generate an LLVM array of Void components."),
            },
            Type::Pointer(inner) => match inner.to_llvm_type(code_gen)? {
                Some(basic_inner) => Ok(Some(pointer_type_basic(pointer_to(basic_inner)))),
                None => fail("Compiler Error: Cannot create a pointer to Void."),
            },
        }
    }

    /// The LLVM type of a variable of this type; it fails exactly where the
    /// type is not storable.
    fn to_basic_type<'ctx>(&self, code_gen: &Codegen<'ctx>, what: &str) -> (r: Result<
        BasicTypeEnum<'ctx>,
        String,
    >)
        ensures
            r is Err <==> !storable(*self),
    {
        match self.to_llvm_type(code_gen)? {
            Some(t) => Ok(t),
            None => fail(what),
        }
    }

    /// The source type of an LLVM type, `void` for `None`: `bool` for `i1`,
    /// the signed integer of the width for 8 to 64 bits, `f32` for LLVM's
    /// `float` and `f64` for the other floating-point types, a pointer to
    /// `i8` for every pointer, and an array of the element's source type.
    fn from_llvm_type<'ctx>(opt_llvm_ty: Option<BasicTypeEnum<'ctx>>) -> (r: Result<Type, String>)
        ensures
            opt_llvm_ty is None ==> r == Ok::<Type, String>(Type::Void),
            r matches Ok(t) ==> (t is Void || storable(t)),
    {
        match opt_llvm_ty {
            None => Ok(Type::Void),
            Some(ty) => Type::from_basic_llvm_type(ty, u32::MAX),
        }
    }

    /// `from_llvm_type` for a first-class type, looking at most `depth`
    /// arrays deep.
    fn from_basic_llvm_type<'ctx>(llvm_ty: BasicTypeEnum<'ctx>, depth: u32) -> (r: Result<
        Type,
        String,
    >)
        ensures
            r matches Ok(t) ==> storable(t),
        decreases depth,
    {
        match classify_type(llvm_ty) {
            TypeClass::Int(int_ty) => match type_for_int_width(int_type_width(int_ty)) {
                Some(t) => Ok(t),
                None => fail("Unsupported LLVM integer bit-width"),
            },
            TypeClass::Float(float_ty) => {
                let name = float_type_text(float_ty);
                Ok(type_for_float_name(name.as_str()))
            },
            TypeClass::Pointer(_) => {
                assert(lowerable(Type::I8));
                Ok(Type::Pointer(Box::new(Type::I8)))
            },
            TypeClass::Array(arr_ty) => {
                if depth == 0 {
                    return fail("Compiler Error: array type nested too deeply.");
                }
                let len = array_type_len(arr_ty);
                let inner = Type::from_basic_llvm_type(array_type_element(arr_ty), depth - 1)?;
                Ok(Type::Array(Box::new(inner), len))
            },
            TypeClass::Other => fail("Compiler Error: unsupported LLVM type."),
        }
    }
}

/// `[inst]` where `b`, nothing otherwise.
pub open spec fn opt_inst(b: bool, inst: Inst) -> Seq<Inst> {
    if b {
        seq![inst]
    } else {
        Seq::empty()
    }
}

/// `value` cast to `target` where both are pointers of different LLVM
/// types, `value` itself otherwise, with whether a cast was emitted. LLVM 14
/// types its pointers, so a pointer handed where another pointer type is
/// expected (`malloc`'s `i8*` stored in an `i32*` variable) is cast first.
fn coerce_to<'ctx>(
    code_gen: &mut Codegen<'ctx>,
    value: BasicValueEnum<'ctx>,
    target: BasicTypeEnum<'ctx>,
) -> (r: Result<(BasicValueEnum<'ctx>, Ghost<bool>), String>)
    requires
        old(code_gen).wf(),
    ensures
        same_frames(*old(code_gen), *final(code_gen)),
        r matches Ok(p) ==> emitted(final(code_gen).builder) == emitted(old(code_gen).builder)
            + opt_inst(p.1@, Inst::PointerCast),
        positioned(emitted(old(code_gen).builder)) ==> r is Ok,
{
    proof {
        assert(emitted(code_gen.builder) + opt_inst(false, Inst::PointerCast) =~= emitted(code_gen.builder));
    }
    match (classify_value(value), classify_type(target)) {
        (ValueClass::Pointer(p), TypeClass::Pointer(pt)) => {
            if same_llvm_type(value_type(value), target) {
                Ok((value, Ghost(false)))
            } else {
                let cast = built(build_pointer_cast(&mut code_gen.builder, p, pt, "ptr_cast"))?;
                Ok((pointer_value_basic(cast), Ghost(true)))
            }
        },
        _ => Ok((value, Ghost(false))),
    }
}

/// The pointer through which `value` is stored at `ptr`, with whether a
/// cast was emitted. LLVM 14 types its pointers: where `ptr` points to
/// another type than `value`'s (an `i32` literal stored in an `i64`
/// variable), it is cast to a pointer to the value's type, so that the store
/// writes the value's bytes at that address.
fn store_pointer<'ctx>(
    code_gen: &mut Codegen<'ctx>,
    ptr: PointerValue<'ctx>,
    value: BasicValueEnum<'ctx>,
) -> (r: Result<(PointerValue<'ctx>, Ghost<bool>), String>)
    requires
        old(code_gen).wf(),
    ensures
        same_frames(*old(code_gen), *final(code_gen)),
        r matches Ok(p) ==> emitted(final(code_gen).builder) == emitted(old(code_gen).builder)
            + opt_inst(p.1@, Inst::PointerCast),
        positioned(emitted(old(code_gen).builder)) ==> r is Ok,
{
    proof {
        assert(emitted(code_gen.builder) + opt_inst(false, Inst::PointerCast) =~= emitted(code_gen.builder));
    }
    let wanted = pointer_to(value_type(value));
    if same_llvm_type(value_type(pointer_value_basic(ptr)), pointer_type_basic(wanted)) {
        Ok((ptr, Ghost(false)))
    } else {
        let cast = built(build_pointer_cast(&mut code_gen.builder, ptr, wanted, "store_cast"))?;
        Ok((cast, Ghost(true)))
    }
}

/// The return type of the function being generated.
fn current_return_type<'ctx>(code_gen: &Codegen<'ctx>) -> (r: Option<BasicTypeEnum<'ctx>>)
    ensures
        r == code_gen.return_type,
{
    code_gen.return_type
}

/// An index as a 64-bit integer, zero-extended if it is narrower, with
/// whether it was.
fn index_to_i64<'ctx>(index: BasicValueEnum<'ctx>, code_gen: &mut Codegen<'ctx>) -> (r: Result<
    (IntValue<'ctx>, Ghost<bool>),
    String,
>)
    requires
        old(code_gen).wf(),
    ensures
        same_frames(*old(code_gen), *final(code_gen)),
        r matches Ok(p) ==> emitted(final(code_gen).builder) == emitted(old(code_gen).builder)
            + opt_inst(p.1@, Inst::ZExt),
{
    proof {
        assert(emitted(code_gen.builder) + opt_inst(false, Inst::ZExt) =~= emitted(code_gen.builder));
    }
    let index_int = match classify_value(index) {
        ValueClass::Int(v) => v,
        _ => return fail("Compiler Error: an index must be an integer."),
    };
    let i64_type = int_type(code_gen.context, 64);
    if int_type_width(int_value_type(index_int)) == 64 {
        Ok((index_int, Ghost(false)))
    } else {
        let wide = built(build_int_z_extend(&mut code_gen.builder, index_int, i64_type, "index_i64"))?;
        Ok((wide, Ghost(true)))
    }
}

/// The address of element `index` of the array that `array_value`, of
/// source type `array_ty`, points to, with the element's type. It fails
/// where `array_ty` is no pointer to a storable type. The address is
/// computed as the pointer plus the index times the element size.
fn index_pointer<'ctx>(
    array_value: BasicValueEnum<'ctx>,
    array_ty: Type,
    index_value: BasicValueEnum<'ctx>,
    code_gen: &mut Codegen<'ctx>,
) -> (r: Result<(PointerValue<'ctx>, Type, BasicTypeEnum<'ctx>, Ghost<bool>), String>)
    requires
        old(code_gen).wf(),
    ensures
        same_frames(*old(code_gen), *final(code_gen)),
        !(array_ty matches Type::Pointer(i) && storable(*i)) ==> r is Err,
        r matches Ok(p) ==> array_ty == Type::Pointer(Box::new(p.1)),
        r matches Ok(p) ==> emitted(final(code_gen).builder) == emitted(old(code_gen).builder)
            + index_insts(p.3@),
{
    let (index, widened) = index_to_i64(index_value, code_gen)?;
    let inner_ty = match array_ty {
        Type::Pointer(inner_ty) => *inner_ty,
        _ => return fail("indexing expects a pointer"),
    };
    let inner_llvm_type = inner_ty.to_basic_type(
        code_gen,
        "Compiler Error: indexed pointer cannot point to void.",
    )?;
    let base = match classify_value(array_value) {
        ValueClass::Pointer(p) => p,
        _ => return fail("Compiler Error: indexed value is no pointer."),
    };
    let i64_type = int_type(code_gen.context, 64);
    let size = match type_size(inner_llvm_type) {
        Some(s) => s,
        None => return fail("Compiler Error: indexed element has no size."),
    };
    let address = built(build_ptr_to_int(&mut code_gen.builder, base, i64_type, "index_base"))?;
    let offset = built(build_int_mul(&mut code_gen.builder, index, size, "index_offset"))?;
    let element_address = built(build_int_add(&mut code_gen.builder, address, offset, "index_address"))?;
    let element_ptr = built(
        build_int_to_ptr(&mut code_gen.builder, element_address, pointer_to(inner_llvm_type), "index_ptr"),
    )?;
    proof {
        assert(emitted(code_gen.builder) =~= emitted(old(code_gen).builder) + index_insts(widened@));
    }
    Ok((element_ptr, inner_ty, inner_llvm_type, widened))
}

/// Evaluates `array_expr` and `index_expr` and gives the address of the
/// element, with its type and its term.
fn build_index_pointer<'ctx>(array_expr: &Expr, index_expr: &Expr, code_gen: &mut Codegen<'ctx>) -> (r:
    Result<(PointerValue<'ctx>, Type, Ghost<Term<PointerValue<'ctx>>>), String>)
    requires
        old(code_gen).wf(),
    ensures
        agrees(
            index_typing(
                typing_of(*array_expr, old(code_gen).symbol_table@),
                typing_of(*index_expr, old(code_gen).symbol_table@),
            ),
            r,
        ),
        r matches Ok(p) ==> {
            &&& p.2@ matches Term::Element { base, index, ty, .. }
            &&& ty == p.1
            &&& models(*array_expr, old(code_gen).symbol_table@, *base)
            &&& models(*index_expr, old(code_gen).symbol_table@, *index)
            &&& term_type(*base) == Type::Pointer(Box::new(p.1))
        },
        same_frames(*old(code_gen), *final(code_gen)),
        r matches Ok(p) ==> emitted(final(code_gen).builder) == emitted(old(code_gen).builder) + flatten(p.2@),
{
    let (array_value, array_ty, base) = array_expr.llvm_expr(code_gen)?;
    let (index_value, _index_ty, index) = index_expr.llvm_expr(code_gen)?;
    let (element_ptr, inner_ty, _elem_type, widened) = index_pointer(
        array_value,
        array_ty,
        index_value,
        code_gen,
    )?;
    let ghost t = Term::Element {
        base: Box::new(base@),
        index: Box::new(index@),
        ty: inner_ty,
        widened: widened@,
    };
    proof {
        assert(emitted(code_gen.builder) =~= emitted(old(code_gen).builder) + flatten(t));
    }
    Ok((element_ptr, inner_ty, Ghost(t)))
}

/// `array_get(array, index)`: the element, with its type.
fn build_array_get<'ctx>(args: &Vec<Expr>, code_gen: &mut Codegen<'ctx>) -> (r: Result<
    (BasicValueEnum<'ctx>, Type, Ghost<Term<PointerValue<'ctx>>>),
    String,
>)
    requires
        old(code_gen).wf(),
    ensures
        args@.len() != 2 ==> (r matches Err(e) && e@ == "Compiler Error: array_get expects array and index."@),
        args@.len() == 2 ==> agrees(
            index_typing(
                typing_of(args@[0], old(code_gen).symbol_table@),
                typing_of(args@[1], old(code_gen).symbol_table@),
            ),
            r,
        ),
        r matches Ok(p) ==> {
            &&& p.2@ matches Term::Through { addr, .. }
            &&& *addr matches Term::Element { base, index, .. }
            &&& models(args@[0], old(code_gen).symbol_table@, *base)
            &&& models(args@[1], old(code_gen).symbol_table@, *index)
            &&& element_models(*base, *index, p.2@)
            &&& term_type(p.2@) == p.1
        },
        same_frames(*old(code_gen), *final(code_gen)),
        r matches Ok(p) ==> emitted(final(code_gen).builder) == emitted(old(code_gen).builder) + flatten(p.2@),
    decreases args, 0nat,
{
    if args.len() != 2 {
        return fail("Compiler Error: array_get expects array and index.");
    }
    let (array_value, array_ty, base) = args[0].llvm_expr(code_gen)?;
    let (index_value, _index_ty, index) = args[1].llvm_expr(code_gen)?;
    let (element_ptr, inner_ty, elem_type, widened) = index_pointer(
        array_value,
        array_ty,
        index_value,
        code_gen,
    )?;
    let loaded_val = built(build_load(&mut code_gen.builder, element_ptr, elem_type, "array_get_load"))?;
    let ghost addr = Term::Element {
        base: Box::new(base@),
        index: Box::new(index@),
        ty: inner_ty,
        widened: widened@,
    };
    let ghost t = Term::Through { addr: Box::new(addr), ty: inner_ty };
    proof {
        assert(flatten(addr) == flatten(base@) + flatten(index@) + index_insts(widened@));
        assert(emitted(code_gen.builder) =~= emitted(old(code_gen).builder) + flatten(t));
    }
    Ok((loaded_val, inner_ty, Ghost(t)))
}

/// `pop(array, &len)`: decrements the length and gives the element at the
/// new length, with its type.
fn build_pop<'ctx>(args: &Vec<Expr>, code_gen: &mut Codegen<'ctx>) -> (r: Result<
    (BasicValueEnum<'ctx>, Type, Ghost<Term<PointerValue<'ctx>>>),
    String,
>)
    requires
        old(code_gen).wf(),
    ensures
        args@.len() != 2 ==> (r matches Err(e) && e@ == "Compiler Error: pop expects array and length pointer."@),
        args@.len() == 2 ==> agrees(
            pop_typing(
                typing_of(args@[0], old(code_gen).symbol_table@),
                typing_of(args@[1], old(code_gen).symbol_table@),
            ),
            r,
        ),
        r matches Ok(p) ==> {
            &&& p.2@ matches Term::Pop { array, len, ty, .. }
            &&& models(args@[0], old(code_gen).symbol_table@, *array)
            &&& models(args@[1], old(code_gen).symbol_table@, *len)
            &&& term_type(*array) == Type::Pointer(Box::new(ty))
            &&& ty == p.1
        },
        same_frames(*old(code_gen), *final(code_gen)),
        r matches Ok(p) ==> emitted(final(code_gen).builder) == emitted(old(code_gen).builder) + flatten(p.2@),
    decreases args, 0nat,
{
    if args.len() != 2 {
        return fail("Compiler Error: pop expects array and length pointer.");
    }
    let (len_ptr_value, len_ptr_ty, len_term) = args[1].llvm_expr(code_gen)?;
    let len_inner_ty = match len_ptr_ty {
        Type::Pointer(inner_ty) => *inner_ty,
        _ => return fail("Compiler Error: pop length argument must be a pointer."),
    };
    let len_llvm_type = len_inner_ty.to_basic_type(
        code_gen,
        "Compiler Error: pop length pointer cannot point to void.",
    )?;
    let len_ptr = match classify_value(len_ptr_value) {
        ValueClass::Pointer(p) => p,
        _ => return fail("Compiler Error: pop length argument must be a pointer."),
    };
    let len_value = match classify_value(built(build_load(&mut code_gen.builder, len_ptr, len_llvm_type, "pop_len"))?) {
        ValueClass::Int(v) => v,
        _ => return fail("Compiler Error: pop length must be an integer."),
    };
    let one = const_int(int_value_type(len_value), 1);
    let new_len = built(build_int_sub(&mut code_gen.builder, len_value, one, "pop_new_len"))?;
    built(build_store(&mut code_gen.builder, len_ptr, int_value_basic(new_len)))?;
    let (array_value, array_ty, array_term) = args[0].llvm_expr(code_gen)?;
    let (element_ptr, inner_ty, elem_type, widened) = index_pointer(
        array_value,
        array_ty,
        int_value_basic(new_len),
        code_gen,
    )?;
    let loaded_val = built(build_load(&mut code_gen.builder, element_ptr, elem_type, "pop_value"))?;
    let ghost t = Term::Pop {
        array: Box::new(array_term@),
        len: Box::new(len_term@),
        ty: inner_ty,
        widened: widened@,
    };
    proof {
        assert(emitted(code_gen.builder) =~= emitted(old(code_gen).builder) + flatten(t));
    }
    Ok((loaded_val, inner_ty, Ghost(t)))
}

impl Expr {
    /// Generates the code of the expression and gives its value with its
    /// source type, which agrees with `typing_of`, and the term of what was
    /// emitted, which `models` fixes.
    fn llvm_expr<'ctx>(&self, code_gen: &mut Codegen<'ctx>) -> (r: Result<
        (BasicValueEnum<'ctx>, Type, Ghost<Term<PointerValue<'ctx>>>),
        String,
    >)
        requires
            old(code_gen).wf(),
        ensures
            agrees(typing_of(*self, old(code_gen).symbol_table@), r),
            r matches Ok(p) ==> models(*self, old(code_gen).symbol_table@, p.2@) && term_type(p.2@)
                == p.1,
            *self matches Expr::SizeOf(t) ==> (r is Ok <==> size_defined(t)),
            *self matches Expr::Operand(Token::Int(_)) ==> r is Ok,
            *self matches Expr::Operand(Token::Bool(_)) ==> r is Ok,
            *self matches Expr::Operand(Token::Identifier(n)) ==> (lookup_in(
                old(code_gen).symbol_table@,
                n@,
            ) is None ==> (r matches Err(e) && e@ == "Undefined variable: "@ + n@)),
            *self matches Expr::Operand(Token::Identifier(n)) ==> (lookup_in(
                old(code_gen).symbol_table@,
                n@,
            ) matches Some(b) && storable(b.ty) && positioned(emitted(old(code_gen).builder))
                ==> r is Ok),
            *self matches Expr::Operation(Token::Ampersand, ys) ==> (ys@.len() == 1 && (ys@[0] matches Expr::Operand(
                Token::Identifier(n),
            ) && lookup_in(old(code_gen).symbol_table@, n@) is Some) ==> r is Ok),
            same_frames(*old(code_gen), *final(code_gen)),
            r matches Ok(p) ==> emitted(final(code_gen).builder) == emitted(old(code_gen).builder) + flatten(p.2@),
        decreases self, 1nat,
    {
        proof {
            assert(emitted(code_gen.builder) + Seq::<Inst>::empty() =~= emitted(code_gen.builder));
        }
        let c = code_gen.context;
        match self {
            Expr::SizeOf(ty) => match checked_size_of(ty) {
                Some(size) => {
                    proof {
                        lemma_size_nonneg(*ty);
                    }
                    let const_val = const_int(int_type(c, 64), size);
                    let ghost t = Term::Const { ty: Type::U64, value: size as int };
                    Ok((int_value_basic(const_val), Type::U64, Ghost(t)))
                },
                None => fail("Compiler Error: cannot get size of this type"),
            },
            Expr::Operand(x) => match x {
                Token::Int(t) => {
                    let const_val = const_int(int_type(c, 32), *t as u64);
                    let ghost term = Term::Const { ty: Type::I32, value: *t as int };
                    Ok((int_value_basic(const_val), Type::I32, Ghost(term)))
                },
                Token::Float(bits) => {
                    let raw = const_int(int_type(c, 64), *bits);
                    let f64_basic = float_type_basic(f64_type(c));
                    let const_val = built(
                        build_bit_cast(&mut code_gen.builder, int_value_basic(raw), f64_basic, "float_const"),
                    )?;
                    Ok((const_val, Type::F64, Ghost(Term::FloatConst { bits: *bits })))
                },
                Token::Bool(t) => {
                    let const_val = const_int(int_type(c, 1), if *t { 1 } else { 0 });
                    let ghost term = Term::Const {
                        ty: Type::Bool,
                        value: if *t { 1int } else { 0int },
                    };
                    Ok((int_value_basic(const_val), Type::Bool, Ghost(term)))
                },
                Token::Array(t) => self.llvm_array_literal(t, code_gen),
                Token::Identifier(name) => {
                    let binding = match code_gen.symbol_table.lookup(name) {
                        Some(found) => found,
                        None => return fail_about("Undefined variable: ", name.as_str()),
                    };
                    let basic_type = binding.ty.to_basic_type(
                        code_gen,
                        "Compiler Error: Cannot load variable of type void",
                    )?;
                    let value = built(
                        build_load(&mut code_gen.builder, binding.ptr, basic_type, name.as_str()),
                    )?;
                    let ghost term = Term::Load { slot: binding.ptr, ty: binding.ty };
                    Ok((value, binding.ty, Ghost(term)))
                },
                Token::Call(func_name, args_exprs) => {
                    if text_eq(func_name.as_str(), "array_get") {
                        return build_array_get(args_exprs, code_gen);
                    }
                    if text_eq(func_name.as_str(), "pop") {
                        return build_pop(args_exprs, code_gen);
                    }
                    self.llvm_call(func_name, args_exprs, code_gen)
                },
                _ => fail("not a valid Identifier"),
            },
            Expr::Operation(x, y) => {
                if y.len() == 2 {
                    if let Token::LBracket = x {
                        let (array_value, array_ty, base) = y[0].llvm_expr(code_gen)?;
                        let (index_value, _index_ty, index) = y[1].llvm_expr(code_gen)?;
                        let (element_ptr, inner_ty, elem_type, widened) = index_pointer(
                            array_value,
                            array_ty,
                            index_value,
                            code_gen,
                        )?;
                        let loaded_val = built(
                            build_load(&mut code_gen.builder, element_ptr, elem_type, "index_load"),
                        )?;
                        let ghost addr = Term::Element {
                            base: Box::new(base@),
                            index: Box::new(index@),
                            ty: inner_ty,
                            widened: widened@,
                        };
                        let ghost term = Term::Through { addr: Box::new(addr), ty: inner_ty };
                        proof {
                            assert(flatten(addr) == flatten(base@) + flatten(index@) + index_insts(
                                widened@,
                            ));
                            assert(emitted(code_gen.builder) =~= emitted(old(code_gen).builder)
                                + flatten(term));
                        }
                        return Ok((loaded_val, inner_ty, Ghost(term)));
                    }
                    let (left_val, ty, left) = y[0].llvm_expr(code_gen)?;
                    let (right_val, _ty_r, right) = y[1].llvm_expr(code_gen)?;
                    let ghost operands = emitted(code_gen.builder);
                    let r = binary_operation(x, left_val, ty, right_val, left, right, code_gen);
                    proof {
                        if r is Ok {
                            assert(emitted(code_gen.builder) =~= emitted(old(code_gen).builder)
                                + flatten(r->Ok_0.2@));
                        }
                    }
                    r
                } else if y.len() == 1 {
                    match x {
                        Token::LParen => y[0].llvm_expr(code_gen),
                        Token::Ampersand => match &y[0] {
                            Expr::Operand(Token::Identifier(name)) => {
                                match code_gen.symbol_table.lookup(name) {
                                    Some(found) => {
                                        let ghost term = Term::Slot { slot: found.ptr, ty: found.ty };
                                        Ok(
                                            (
                                                pointer_value_basic(found.ptr),
                                                Type::Pointer(Box::new(found.ty)),
                                                Ghost(term),
                                            ),
                                        )
                                    },
                                    None => fail_about("Undefined variable: ", name.as_str()),
                                }
                            },
                            _ => fail(
                                "Compiler Error: only named variables can be used with the address-of operator '&'.",
                            ),
                        },
                        Token::Star => {
                            let (evaluated_val, ty, addr) = y[0].llvm_expr(code_gen)?;
                            match ty {
                                Type::Pointer(inner_ty) => {
                                    let load_type = inner_ty.to_basic_type(
                                        code_gen,
                                        "Compiler Error: Cannot dereference a pointer to a void type.",
                                    )?;
                                    let ptr_val = match classify_value(evaluated_val) {
                                        ValueClass::Pointer(p) => p,
                                        _ => return fail(
                                            "Compiler Error: Cannot dereference a non-pointer value",
                                        ),
                                    };
                                    let loaded_val = built(
                                        build_load(&mut code_gen.builder, ptr_val, load_type, "deref_tmp"),
                                    )?;
                                    let ghost term = Term::Through {
                                        addr: Box::new(addr@),
                                        ty: *inner_ty,
                                    };
                                    proof {
                                        assert(emitted(code_gen.builder) =~= emitted(
                                            old(code_gen).builder,
                                        ) + flatten(term));
                                    }
                                    Ok((loaded_val, *inner_ty, Ghost(term)))
                                },
                                _ => fail("Compiler Error: Cannot dereference a non-pointer type"),
                            }
                        },
                        _ => fail("Compiler Error: unsupported unary operation"),
                    }
                } else {
                    fail("invalid amount of arguments for the operation")
                }
            },
        }
    }

    /// An array literal: a constant array of its integer or floating-point
    /// elements, all of one LLVM type.
    fn llvm_array_literal<'ctx>(&self, t: &Box<Vec<Expr>>, code_gen: &mut Codegen<'ctx>) -> (r: Result<
        (BasicValueEnum<'ctx>, Type, Ghost<Term<PointerValue<'ctx>>>),
        String,
    >)
        requires
            old(code_gen).wf(),
            *self == Expr::Operand(Token::Array(*t)),
        ensures
            agrees(typing_of(*self, old(code_gen).symbol_table@), r),
            r matches Ok(p) ==> models(*self, old(code_gen).symbol_table@, p.2@) && term_type(p.2@)
                == p.1,
            same_frames(*old(code_gen), *final(code_gen)),
            r matches Ok(p) ==> emitted(final(code_gen).builder) == emitted(old(code_gen).builder) + flatten(p.2@),
        decreases self, 0nat,
    {
        let items: &Vec<Expr> = &**t;
        let ghost sc = code_gen.symbol_table@;
        if items.len() == 0 {
            return fail("Compiler Error: Cannot infer type of an empty array literal");
        }
        let mut evaluated: Vec<BasicValueEnum<'ctx>> = Vec::new();
        let mut ty: Type = Type::I32;
        let ghost mut elems: Seq<Term<PointerValue<'ctx>>> = Seq::empty();
        proof {
            assert(emitted(code_gen.builder) + flatten_list(elems) =~= emitted(code_gen.builder));
        }
        let mut i: usize = 0;
        while i < items.len()
            invariant
                code_gen.wf(),
                sc == code_gen.symbol_table@,
                *self == Expr::Operand(Token::Array(*t)),
                items@ == (**t)@,
                0 < items@.len(),
                i <= items@.len(),
                evaluated@.len() == i,
                !any_rejected(items@.take(i as int), sc),
                i > 0 ==> (typing_of(items@[i - 1], sc) matches Typing::Typed(tt) ==> ty == tt),
                i > 0 ==> (typing_of(items@[i - 1], sc) is Open ==> storable(ty)),
                models_list(items@.take(i as int), sc, elems),
                i > 0 ==> ty == term_type(elems.last()),
                same_frames(*old(code_gen), *code_gen),
                emitted(code_gen.builder) == emitted(old(code_gen).builder) + flatten_list(elems),
            decreases items.len() - i,
        {
            proof {
                assert(items@.take(i + 1).drop_last() =~= items@.take(i as int));
            }
            let (val, typ, term) = items[i].llvm_expr(code_gen)?;
            proof {
                assert(elems.push(term@).drop_last() =~= elems);
                assert(items@.take(i + 1).last() == items@[i as int]);
                let before = elems;
                elems = elems.push(term@);
                assert(flatten_list(elems) == flatten_list(before) + flatten(term@));
                assert(emitted(code_gen.builder) =~= emitted(old(code_gen).builder) + flatten_list(
                    elems,
                ));
            }
            ty = typ;
            evaluated.push(val);
            i += 1;
        }
        proof {
            assert(items@.take(items@.len() as int) =~= items@);
        }
        let element_type = value_type(evaluated[0]);
        let mut k: usize = 0;
        while k < evaluated.len()
            invariant
                k <= evaluated@.len(),
                same_frames(*old(code_gen), *code_gen),
            decreases evaluated.len() - k,
        {
            if !same_llvm_type(value_type(evaluated[k]), element_type) {
                return fail(
                    "Type Mismatch Error: an element does not match the array element type",
                );
            }
            k += 1;
        }
        let const_array_val = match classify_type(element_type) {
            TypeClass::Int(int_ty) => {
                let mut int_values: Vec<IntValue<'ctx>> = Vec::new();
                let mut j: usize = 0;
                while j < evaluated.len()
                    invariant
                        j <= evaluated@.len(),
                        same_frames(*old(code_gen), *code_gen),
                    decreases evaluated.len() - j,
                {
                    match classify_value(evaluated[j]) {
                        ValueClass::Int(v) => int_values.push(v),
                        _ => return fail("Type Mismatch Error: array element is no integer"),
                    }
                    j += 1;
                }
                int_const_array(int_ty, &int_values)
            },
            TypeClass::Float(float_ty) => {
                let mut float_values = Vec::new();
                let mut j: usize = 0;
                while j < evaluated.len()
                    invariant
                        j <= evaluated@.len(),
                        same_frames(*old(code_gen), *code_gen),
                    decreases evaluated.len() - j,
                {
                    match classify_value(evaluated[j]) {
                        ValueClass::Float(v) => float_values.push(v),
                        _ => return fail("Type Mismatch Error: array element is no float"),
                    }
                    j += 1;
                }
                float_const_array(float_ty, &float_values)
            },
            _ => return fail("Error: Constant arrays of this type are not supported yet."),
        };
        let array_ty = Type::Array(Box::new(ty), items.len() as u32);
        let ghost term = Term::Array { elems, ty: array_ty };
        Ok((array_value_basic(const_array_val), array_ty, Ghost(term)))
    }

    /// A call of a function of the module. Pointer arguments are cast to the
    /// parameter types.
    fn llvm_call<'ctx>(
        &self,
        func_name: &String,
        args_exprs: &Box<Vec<Expr>>,
        code_gen: &mut Codegen<'ctx>,
    ) -> (r: Result<(BasicValueEnum<'ctx>, Type, Ghost<Term<PointerValue<'ctx>>>), String>)
        requires
            old(code_gen).wf(),
            *self == Expr::Operand(Token::Call(*func_name, *args_exprs)),
            func_name@ != "array_get"@,
            func_name@ != "pop"@,
        ensures
            agrees(typing_of(*self, old(code_gen).symbol_table@), r),
            r matches Ok(p) ==> models(*self, old(code_gen).symbol_table@, p.2@) && term_type(p.2@)
                == p.1,
            same_frames(*old(code_gen), *final(code_gen)),
            r matches Ok(p) ==> emitted(final(code_gen).builder) == emitted(old(code_gen).builder)
                + flatten(p.2@),
        decreases self, 0nat,
    {
        let args: &Vec<Expr> = &**args_exprs;
        let ghost sc = code_gen.symbol_table@;
        let index = match find_function(&code_gen.functions, func_name.as_str()) {
            Some(k) => k,
            None => return fail_about(
                "Compiler Error: Function is not defined: ",
                func_name.as_str(),
            ),
        };
        let n_params = code_gen.functions[index].params.len();
        let mut compiled_args: Vec<BasicMetadataValueEnum<'ctx>> = Vec::new();
        let ghost mut arg_terms: Seq<Term<PointerValue<'ctx>>> = Seq::empty();
        let ghost mut casts: Seq<bool> = Seq::empty();
        proof {
            assert(emitted(code_gen.builder) + flatten_args(arg_terms, casts) =~= emitted(
                code_gen.builder,
            ));
        }
        let mut i: usize = 0;
        while i < args.len()
            invariant
                same_frames(*old(code_gen), *code_gen),
                sc == code_gen.symbol_table@,
                *self == Expr::Operand(Token::Call(*func_name, *args_exprs)),
                args@ == (**args_exprs)@,
                i <= args@.len(),
                index < code_gen.functions@.len(),
                n_params == code_gen.functions@[index as int].params@.len(),
                !any_rejected(args@.take(i as int), sc),
                models_list(args@.take(i as int), sc, arg_terms),
                arg_terms.len() == i,
                casts.len() == i,
                compiled_args@.len() == i,
                emitted(code_gen.builder) == emitted(old(code_gen).builder) + flatten_args(
                    arg_terms,
                    casts,
                ),
            decreases args.len() - i,
        {
            proof {
                assert(args@.take(i + 1).drop_last() =~= args@.take(i as int));
            }
            let (val, _ty, term) = args[i].llvm_expr(code_gen)?;
            let (passed, cast) = if i < n_params {
                let param_type = code_gen.functions[index].params[i];
                coerce_to(code_gen, val, param_type)?
            } else {
                proof {
                    assert(emitted(code_gen.builder) + opt_inst(false, Inst::PointerCast)
                        =~= emitted(code_gen.builder));
                }
                (val, Ghost(false))
            };
            proof {
                assert(arg_terms.push(term@).drop_last() =~= arg_terms);
                assert(casts.push(cast@).drop_last() =~= casts);
                assert(args@.take(i + 1).last() == args@[i as int]);
                let before_terms = arg_terms;
                let before_casts = casts;
                arg_terms = arg_terms.push(term@);
                casts = casts.push(cast@);
                assert(flatten_args(arg_terms, casts) == flatten_args(before_terms, before_casts)
                    + flatten(term@) + opt_inst(cast@, Inst::PointerCast));
                assert(emitted(code_gen.builder) =~= emitted(old(code_gen).builder) + flatten_args(
                    arg_terms,
                    casts,
                ));
            }
            compiled_args.push(metadata_value(passed));
            i += 1;
        }
        proof {
            assert(args@.take(args@.len() as int) =~= args@);
        }
        let call_name = String::from_str(func_name.as_str()).concat("_call_tmp");
        let result = built(
            build_call(
                &mut code_gen.builder,
                &code_gen.functions[index],
                &compiled_args,
                call_name.as_str(),
            ),
        )?;
        match result {
            Some(basic_val) => {
                let ret_ty = Type::from_llvm_type(code_gen.functions[index].ret)?;
                if let Type::Void = ret_ty {
                    return fail("Compiler Error: Cannot use void function return as a value.");
                }
                let ghost term = Term::Call { name: func_name@, args: arg_terms, ty: ret_ty, casts };
                proof {
                    assert(emitted(code_gen.builder) =~= emitted(old(code_gen).builder) + flatten(
                        term,
                    ));
                }
                Ok((basic_val, ret_ty, Ghost(term)))
            },
            None => fail("Compiler Error: Cannot use void function return as a value."),
        }
    }
}

/// The instruction an arithmetic or comparison term emits itself.
pub open spec fn own_inst<P>(t: Term<P>) -> Inst {
    match t {
        Term::Arith { op, .. } => Inst::Arith(op),
        Term::Compare { pred, .. } => match pred {
            Predicate::Int(c) => Inst::IntCompare(c),
            Predicate::Float(c) => Inst::FloatCompare(c),
        },
        _ => Inst::Load,
    }
}

/// Whether `ty` is `f32` or `f64`.
fn is_float(ty: &Type) -> (r: bool)
    ensures
        r == is_float_type(*ty),
{
    match ty {
        Type::F32 | Type::F64 => true,
        _ => false,
    }
}

/// A binary arithmetic operation or comparison of two integers or two
/// floating-point values, as the left operand's source type says; `ty` is the left operand's source type, `left`
/// and `right` the operands' terms. Integer division and integer
/// comparisons are signed exactly when `ty` is.
fn binary_operation<'ctx>(
    op: &Token,
    left_val: BasicValueEnum<'ctx>,
    ty: Type,
    right_val: BasicValueEnum<'ctx>,
    left: Ghost<Term<PointerValue<'ctx>>>,
    right: Ghost<Term<PointerValue<'ctx>>>,
    code_gen: &mut Codegen<'ctx>,
) -> (r: Result<(BasicValueEnum<'ctx>, Type, Ghost<Term<PointerValue<'ctx>>>), String>)
    requires
        old(code_gen).wf(),
        term_type(left@) == ty,
    ensures
        same_frames(*old(code_gen), *final(code_gen)),
        r matches Ok(p) ==> emitted(final(code_gen).builder) == emitted(old(code_gen).builder).push(
            own_inst(p.2@),
        ),
        !is_arithmetic(*op) && !is_comparison(*op) ==> r is Err,
        r matches Ok(p) ==> p.1 == (if is_arithmetic(*op) {
            ty
        } else {
            Type::Bool
        }),
        r matches Ok(p) ==> binary_models(*op, left@, right@, p.2@) && term_type(p.2@) == p.1,
{
    let ghost l = Box::new(left@);
    let ghost rt = Box::new(right@);
    match (classify_value(left_val), classify_value(right_val)) {
        (ValueClass::Int(lv), ValueClass::Int(rv)) => {
            if is_float(&ty) {
                return fail("Type Mismatch Error: a floating-point operand holds an integer.");
            }
            let (result, kind) = match op {
                Token::Plus => (built(build_int_add(&mut code_gen.builder, lv, rv, "add_tmp"))?, Ghost(ArithOp::Add)),
                Token::Minus => (built(build_int_sub(&mut code_gen.builder, lv, rv, "sub_tmp"))?, Ghost(ArithOp::Sub)),
                Token::Star => (built(build_int_mul(&mut code_gen.builder, lv, rv, "mul_tmp"))?, Ghost(ArithOp::Mul)),
                Token::Slash => if ty.is_signed() {
                    (built(build_int_signed_div(&mut code_gen.builder, lv, rv, "sdiv_tmp"))?, Ghost(ArithOp::SDiv))
                } else {
                    (built(build_int_unsigned_div(&mut code_gen.builder, lv, rv, "udiv_tmp"))?, Ghost(ArithOp::UDiv))
                },
                _ => {
                    return match int_predicate(op, ty.is_signed()) {
                        Some(pred) => {
                            let cmp = built(build_int_compare(&mut code_gen.builder, pred, lv, rv, "cmp_tmp"))?;
                            let ghost t = Term::Compare {
                                pred: Predicate::Int(pred),
                                left: l,
                                right: rt,
                            };
                            Ok((int_value_basic(cmp), Type::Bool, Ghost(t)))
                        },
                        None => fail("Unsupported integer operation"),
                    };
                },
            };
            let ghost t = Term::Arith { op: kind@, left: l, right: rt, ty };
            Ok((int_value_basic(result), ty, Ghost(t)))
        },
        (ValueClass::Float(lv), ValueClass::Float(rv)) => {
            if !is_float(&ty) {
                return fail("Type Mismatch Error: an integer operand holds a floating-point value.");
            }
            let (result, kind) = match op {
                Token::Plus => (built(build_float_add(&mut code_gen.builder, lv, rv, "fadd_tmp"))?, Ghost(ArithOp::FAdd)),
                Token::Minus => (built(build_float_sub(&mut code_gen.builder, lv, rv, "fsub_tmp"))?, Ghost(ArithOp::FSub)),
                Token::Star => (built(build_float_mul(&mut code_gen.builder, lv, rv, "fmul_tmp"))?, Ghost(ArithOp::FMul)),
                Token::Slash => (built(build_float_div(&mut code_gen.builder, lv, rv, "fdiv_tmp"))?, Ghost(ArithOp::FDiv)),
                _ => {
                    return match float_predicate(op) {
                        Some(pred) => {
                            let cmp = built(build_float_compare(&mut code_gen.builder, pred, lv, rv, "fcmp_tmp"))?;
                            let ghost t = Term::Compare {
                                pred: Predicate::Float(pred),
                                left: l,
                                right: rt,
                            };
                            Ok((int_value_basic(cmp), Type::Bool, Ghost(t)))
                        },
                        None => fail("Unsupported floating-point operation"),
                    };
                },
            };
            let ghost t = Term::Arith { op: kind@, left: l, right: rt, ty };
            Ok((float_value_basic(result), ty, Ghost(t)))
        },
        _ => fail(
            "Type Mismatch Error: Cannot perform an operation between mismatched types.",
        ),
    }
}

/// What an `if` emits before its then-branch: its condition, the branch
/// on it, and the move to the then-block.
pub open spec fn if_opening<'ctx, P>(ev: Event<P, Block<'ctx>>) -> Seq<Inst> {
    match ev {
        Event::If { cond, then_block, else_block } => flatten(cond) + seq![
            Inst::CondBranch { then_block: then_block.label, else_block: else_block.label },
            Inst::PositionAt { block: then_block.label },
        ],
        _ => Seq::empty(),
    }
}

/// What a `while` emits before its body: the branch to the condition's
/// block, the condition there, the branch on it to the body or past the
/// loop, and the move to the body's block.
pub open spec fn while_opening<'ctx, P>(ev: Event<P, Block<'ctx>>) -> Seq<Inst> {
    match ev {
        Event::While { cond, cond_block, body_block, end_block, .. } => seq![
            Inst::Branch { target: cond_block.label },
            Inst::PositionAt { block: cond_block.label },
        ] + flatten(cond) + seq![
            Inst::CondBranch { then_block: body_block.label, else_block: end_block.label },
            Inst::PositionAt { block: body_block.label },
        ],
        _ => Seq::empty(),
    }
}

/// Generation of a statement keeps the loops and the scopes: the same
/// loops, the same outer scopes, and an innermost scope that only gains
/// bindings.
pub open spec fn frames_kept<'ctx>(old: Codegen<'ctx>, new: Codegen<'ctx>) -> bool {
    &&& new.wf()
    &&& scopes_kept(old.symbol_table@, new.symbol_table@)
    &&& new.loop_stack@ == old.loop_stack@
    &&& extends(old.trace@, new.trace@)
    &&& extends(old.functions@, new.functions@)
}

/// `new` is `old` followed by more.
pub open spec fn extends<T>(old: Seq<T>, new: Seq<T>) -> bool {
    old.len() <= new.len() && new.subrange(0, old.len() as int) == old
}

pub proof fn lemma_extends_refl<T>(a: Seq<T>)
    ensures
        extends(a, a),
{
    assert(a.subrange(0, a.len() as int) =~= a);
}

pub proof fn lemma_extends_append<T>(a: Seq<T>, b: Seq<T>)
    ensures
        extends(a, a + b),
{
    assert((a + b).subrange(0, a.len() as int) =~= a);
}

pub proof fn lemma_positioned_append(a: Seq<Inst>, b: Seq<Inst>)
    requires
        positioned(a),
    ensures
        positioned(a + b),
{
    reveal(positioned);
    let i = choose|i: int| 0 <= i < a.len() && a[i] is PositionAt;
    assert((a + b)[i] == a[i]);
}

/// `print(value)` of a literal or a `sizeof`: nothing in it can fail once
/// the builder is positioned.
pub open spec fn plain_print(e: Expr) -> bool {
    e matches Expr::Operand(Token::Call(name, args)) && name@ == "print"@ && args@.len() == 1
        && always_generates(args@[0])
}

/// A declaration `ty: name = value;` whose type a variable can hold and
/// whose value is a literal or a `sizeof`: nothing in it can fail once the
/// builder is positioned in a scope.
pub open spec fn plain_declaration(a: AssignmentStmt) -> bool {
    &&& a.index is None
    &&& !a.dereference
    &&& a.ty matches Some(t) && storable(t)
    &&& a.value matches Some(v) && always_generates(v)
}

pub proof fn lemma_extends_push<T>(a: Seq<T>, b: Seq<T>, x: T)
    requires
        extends(a, b),
    ensures
        extends(a, b.push(x)),
{
    assert(b.push(x).subrange(0, a.len() as int) =~= b.subrange(0, a.len() as int));
}

pub proof fn lemma_extends_trans<T>(a: Seq<T>, b: Seq<T>, c: Seq<T>)
    requires
        extends(a, b),
        extends(b, c),
    ensures
        extends(a, c),
{
    assert(c.subrange(0, a.len() as int) =~= b.subrange(0, a.len() as int));
}

/// The type a declaration `ty: name = value;` or `name = value;` gives the
/// variable, where the rules fix it: the written type, else the value's.
pub open spec fn declared_type<P>(a: AssignmentStmt, scopes: Seq<Map<Seq<char>, Binding<P>>>) -> Option<
    Type,
> {
    match a.ty {
        Some(t) => Some(t),
        None => match a.value {
            Some(v) => match typing_of(v, scopes) {
                Typing::Typed(t) => Some(t),
                _ => None,
            },
            None => None,
        },
    }
}

/// The assignment cannot be generated: a missing or rejected value, a value
/// whose type differs from the target's, an undefined variable, or a target
/// type that cannot be stored.
pub open spec fn assignment_rejected<P>(
    a: AssignmentStmt,
    scopes: Seq<Map<Seq<char>, Binding<P>>>,
) -> bool {
    let value_typing = match a.value {
        Some(v) => typing_of(v, scopes),
        None => Typing::Rejected,
    };
    let target_var = typing_of(Expr::Operand(Token::Identifier(a.name)), scopes);
    if value_typing is Rejected {
        true
    } else if a.index is Some {
        let target = index_typing(target_var, typing_of(a.index->0, scopes));
        target is Rejected || (target matches Typing::Typed(inner) && value_typing matches Typing::Typed(
            vt,
        ) && vt != inner)
    } else if a.dereference {
        match lookup_in(scopes, a.name@) {
            None => true,
            Some(b) => match b.ty {
                Type::Pointer(inner) => !storable(*inner) || (value_typing matches Typing::Typed(vt)
                    && vt != *inner),
                _ => true,
            },
        }
    } else {
        match a.ty {
            Some(t) => !storable(t),
            None => match lookup_in(scopes, a.name@) {
                None => true,
                Some(b) => !storable(b.ty),
            },
        }
    }
}

/// The expression statement cannot be generated: a built-in called with
/// the wrong number of arguments or with arguments of the wrong types, or
/// an expression that the type rules reject.
pub open spec fn expr_stmt_rejected<P>(e: Expr, scopes: Seq<Map<Seq<char>, Binding<P>>>) -> bool {
    match e {
        Expr::Operand(Token::Call(name, args)) => {
            let s = args@;
            if name@ == "print"@ {
                s.len() != 1 || typing_of(s[0], scopes) is Rejected || (typing_of(
                    s[0],
                    scopes,
                ) matches Typing::Typed(t) && spec_print_format(t) is None)
            } else if name@ == "free"@ {
                s.len() != 1 || typing_of(s[0], scopes) is Rejected || (typing_of(
                    s[0],
                    scopes,
                ) matches Typing::Typed(t) && !(t is Pointer))
            } else if name@ == "array_set"@ {
                s.len() != 3 || {
                    let target = index_typing(typing_of(s[0], scopes), typing_of(s[1], scopes));
                    let value = typing_of(s[2], scopes);
                    target is Rejected || value is Rejected || (target matches Typing::Typed(i)
                        && value matches Typing::Typed(v) && i != v)
                }
            } else if name@ == "push"@ {
                s.len() != 3 || {
                    let len = typing_of(s[1], scopes);
                    let array = typing_of(s[0], scopes);
                    let value = typing_of(s[2], scopes);
                    len is Rejected || (len matches Typing::Typed(t) && !(t matches Type::Pointer(
                        i,
                    ) && storable(*i))) || index_typing(array, Typing::Typed(Type::I32)) is Rejected
                        || value is Rejected || (array matches Typing::Typed(Type::Pointer(i))
                        && value matches Typing::Typed(v) && *i != v)
                }
            } else {
                typing_of(e, scopes) is Rejected
            }
        },
        _ => typing_of(e, scopes) is Rejected,
    }
}

impl<'ctx> Codegen<'ctx> {
    /// The function that holds the block the builder appends to.
    fn current_function(&self) -> Result<FunctionValue<'ctx>, String> {
        let block = match insert_block(&self.builder) {
            Some(b) => b,
            None => return fail("Compiler Error: no current block."),
        };
        match block_parent(block) {
            Some(f) => Ok(f),
            None => fail("Compiler Error: the current block is in no function."),
        }
    }

    /// Appends an unconditional branch to `dest` unless the current block
    /// already ends in a terminator.
    fn branch_unless_terminated(&mut self, dest: Block<'ctx>) -> (r: Result<(), String>)
        requires
            old(self).wf(),
        ensures
            same_frames(*old(self), *final(self)),
            final(self).next_label == old(self).next_label,
            r is Ok ==> (emitted(final(self).builder) == emitted(old(self).builder) || emitted(
                final(self).builder,
            ) == emitted(old(self).builder).push(Inst::Branch { target: dest.label })),
    {
        if !self.current_block_has_terminator() {
            built(build_unconditional_branch(&mut self.builder, dest))?;
        }
        Ok(())
    }
}

/// Generates the statements one after the other, up to the first one that
/// finds the current block terminated.
fn build_block<'ctx>(stmts: &Vec<Stmt>, code_gen: &mut Codegen<'ctx>) -> (r: Result<(), String>)
    requires
        old(code_gen).wf(),
    ensures
        frames_kept(*old(code_gen), *final(code_gen)),
        stmts@.len() == 0 ==> r is Ok,
        r is Ok ==> extends(emitted(old(code_gen).builder), emitted(final(code_gen).builder)),
    decreases stmts, 0nat,
{
    proof {
        lemma_scopes_kept_refl(code_gen.symbol_table@);
        lemma_extends_refl(code_gen.trace@);
        lemma_extends_refl(code_gen.functions@);
        lemma_extends_refl(emitted(code_gen.builder));
    }
    let mut i: usize = 0;
    while i < stmts.len()
        invariant
            i <= stmts@.len(),
            frames_kept(*old(code_gen), *code_gen),
            extends(emitted(old(code_gen).builder), emitted(code_gen.builder)),
        decreases stmts.len() - i,
    {
        if code_gen.current_block_has_terminator() {
            break;
        }
        let ghost before = *code_gen;
        let r = stmts[i].build_line(code_gen);
        proof {
            lemma_scopes_kept_trans(
                old(code_gen).symbol_table@,
                before.symbol_table@,
                code_gen.symbol_table@,
            );
            lemma_extends_trans(old(code_gen).trace@, before.trace@, code_gen.trace@);
            lemma_extends_trans(old(code_gen).functions@, before.functions@, code_gen.functions@);
            if r is Ok {
                lemma_extends_trans(
                    emitted(old(code_gen).builder),
                    emitted(before.builder),
                    emitted(code_gen.builder),
                );
            }
        }
        r?;
        i += 1;
    }
    Ok(())
}

impl Stmt {
    /// Generates one statement.
    fn build_line<'ctx>(&self, code_gen: &mut Codegen<'ctx>) -> (r: Result<(), String>)
        requires
            old(code_gen).wf(),
        ensures
            frames_kept(*old(code_gen), *final(code_gen)),
            *self matches Stmt::Assignment(a) ==> (assignment_rejected(
                a,
                old(code_gen).symbol_table@,
            ) ==> r is Err),
            *self matches Stmt::Expr(e) ==> (expr_stmt_rejected(e, old(code_gen).symbol_table@)
                ==> r is Err),
            *self matches Stmt::Return(Some(e)) ==> (typing_of(e, old(code_gen).symbol_table@) is Rejected
                ==> r is Err),
            (self is Break || self is Continue) && old(code_gen).loop_stack@.len() == 0 ==> r is Err,
            (self is Break || self is Continue) && old(code_gen).loop_stack@.len() > 0 && positioned(
                emitted(old(code_gen).builder),
            ) ==> r is Ok,
            *self == Stmt::Return(None) && positioned(emitted(old(code_gen).builder)) ==> r is Ok,
            *self matches Stmt::Assignment(a) && plain_declaration(a) && old(code_gen).symbol_table@.len()
                > 0 && positioned(emitted(old(code_gen).builder)) ==> r is Ok,
            *self matches Stmt::Expr(e) && always_generates(e) ==> r is Ok,
            *self matches Stmt::Expr(e) && plain_print(e) && positioned(emitted(old(code_gen).builder))
                ==> r is Ok,
            r is Ok ==> extends(emitted(old(code_gen).builder), emitted(final(code_gen).builder)),
            r is Ok && !(self is If) && !(self is While) ==> emitted(final(code_gen).builder)
                == emitted(old(code_gen).builder) + event_insts(
                final(code_gen).trace@[old(code_gen).trace@.len() as int],
            ),
            r is Ok ==> old(code_gen).trace@.len() < final(code_gen).trace@.len() && stmt_models(
                *self,
                old(code_gen).symbol_table@,
                old(code_gen).loop_stack@,
                final(code_gen).trace@[old(code_gen).trace@.len() as int],
            ),
        decreases self, 1nat,
    {
        proof {
            lemma_scopes_kept_refl(code_gen.symbol_table@);
            lemma_extends_refl(code_gen.trace@);
            lemma_extends_refl(code_gen.functions@);
        }
        let ev = match self {
            Stmt::Assignment(x) => x.build_assignment(code_gen)?,
            Stmt::Return(x) => build_return(x, code_gen)?,
            Stmt::Expr(x) => x.build_exprs(code_gen)?,
            Stmt::If(x) => {
                let r = x.build_if(code_gen);
                proof {
                    if r is Ok {
                        let opening = emitted(old(code_gen).builder) + if_opening(
                            code_gen.trace@[old(code_gen).trace@.len() as int],
                        );
                        lemma_extends_append(
                            emitted(old(code_gen).builder),
                            if_opening(code_gen.trace@[old(code_gen).trace@.len() as int]),
                        );
                        lemma_extends_trans(
                            emitted(old(code_gen).builder),
                            opening,
                            emitted(code_gen.builder),
                        );
                    }
                }
                return r;
            },
            Stmt::While(x) => {
                let r = x.build_while(code_gen);
                proof {
                    if r is Ok {
                        let opening = emitted(old(code_gen).builder) + while_opening(
                            code_gen.trace@[old(code_gen).trace@.len() as int],
                        );
                        lemma_extends_append(
                            emitted(old(code_gen).builder),
                            while_opening(code_gen.trace@[old(code_gen).trace@.len() as int]),
                        );
                        lemma_extends_trans(
                            emitted(old(code_gen).builder),
                            opening,
                            emitted(code_gen.builder),
                        );
                    }
                }
                return r;
            },
            Stmt::Break => build_break(code_gen)?,
            Stmt::Continue => build_continue(code_gen)?,
        };
        let ghost before = code_gen.trace@;
        code_gen.trace = Ghost(code_gen.trace@.push(ev@));
        proof {
            assert(code_gen.trace@.subrange(0, before.len() as int) =~= before);
            lemma_extends_append(emitted(old(code_gen).builder), event_insts(ev@));
        }
        Ok(())
    }
}

impl IfStmt {
    /// `if (condition) { then } else { else }`: the then-branch in the
    /// current scope, the else-branch in a scope of its own, both joining
    /// in a merge block where generation goes on.
    fn build_if<'ctx>(&self, code_gen: &mut Codegen<'ctx>) -> (r: Result<(), String>)
        requires
            old(code_gen).wf(),
        ensures
            frames_kept(*old(code_gen), *final(code_gen)),
            typing_of(self.condition, old(code_gen).symbol_table@) is Rejected ==> r is Err,
            r is Ok ==> old(code_gen).trace@.len() < final(code_gen).trace@.len() && stmt_models(
                Stmt::If(*self),
                old(code_gen).symbol_table@,
                old(code_gen).loop_stack@,
                final(code_gen).trace@[old(code_gen).trace@.len() as int],
            ),
            r is Ok ==> (final(code_gen).trace@[old(code_gen).trace@.len() as int] matches Event::If {
                then_block,
                else_block,
                ..
            } && then_block.label != else_block.label),
            r is Ok ==> extends(
                emitted(old(code_gen).builder) + if_opening(
                    final(code_gen).trace@[old(code_gen).trace@.len() as int],
                ),
                emitted(final(code_gen).builder),
            ),
        decreases self, 0nat,
    {
        proof {
            lemma_scopes_kept_refl(code_gen.symbol_table@);
            lemma_extends_refl(code_gen.functions@);
            lemma_extends_refl(code_gen.trace@);
        }
        let ghost start = *code_gen;
        let (condition, _cond_ty, cond_term) = self.condition.llvm_expr(code_gen)?;
        let int_cond = match classify_value(condition) {
            ValueClass::Int(v) => v,
            _ => return fail("Compiler Error: an if condition must be an integer or a bool."),
        };
        let current_function = code_gen.current_function()?;
        let c = code_gen.context;
        let then_block = code_gen.new_block(current_function, "then_branch");
        let else_block = code_gen.new_block(current_function, "else_branch");
        let merge_block = code_gen.new_block(current_function, "if_merge");
        built(build_conditional_branch(&mut code_gen.builder, int_cond, then_block, else_block))?;
        let ghost event = Event::If { cond: cond_term@, then_block, else_block };
        code_gen.trace = Ghost(code_gen.trace@.push(event));
        proof {
            assert(code_gen.trace@.subrange(0, start.trace@.len() as int) =~= start.trace@);
        }
        let ghost opened = *code_gen;
        position_at_end(&mut code_gen.builder, then_block);
        let ghost opening = emitted(code_gen.builder);
        proof {
            assert(opening =~= emitted(start.builder) + if_opening(event));
        }
        let then_result = build_block(&self.then_branch, code_gen);
        proof {
            lemma_extends_trans(start.trace@, opened.trace@, code_gen.trace@);
            assert(code_gen.trace@[start.trace@.len() as int] == code_gen.trace@.subrange(
                0,
                opened.trace@.len() as int,
            )[start.trace@.len() as int]);
        }
        then_result?;
        let ghost after_then = emitted(code_gen.builder);
        code_gen.branch_unless_terminated(merge_block)?;
        proof {
            if emitted(code_gen.builder) != after_then {
                lemma_extends_push(opening, after_then, Inst::Branch { target: merge_block.label });
            }
        }
        let ghost jumped = emitted(code_gen.builder);
        position_at_end(&mut code_gen.builder, else_block);
        proof {
            lemma_extends_push(opening, jumped, Inst::PositionAt { block: else_block.label });
        }
        let ghost mid = *code_gen;
        code_gen.push_scope();
        let ghost pushed = *code_gen;
        proof {
            lemma_extends_refl(pushed.trace@);
        }
        let r = match &self.else_branch {
            Some(else_branch) => build_block(else_branch, code_gen),
            None => Ok(()),
        };
        code_gen.pop_scope();
        proof {
            assert(code_gen.symbol_table@ =~= mid.symbol_table@);
            lemma_scopes_kept_refl(mid.symbol_table@);
            lemma_extends_trans(start.trace@, pushed.trace@, code_gen.trace@);
            lemma_extends_refl(code_gen.functions@);
            lemma_extends_trans(start.functions@, pushed.functions@, code_gen.functions@);
            assert(code_gen.trace@[start.trace@.len() as int] == code_gen.trace@.subrange(
                0,
                pushed.trace@.len() as int,
            )[start.trace@.len() as int]);
            if r is Ok {
                lemma_extends_refl(emitted(code_gen.builder));
                lemma_extends_trans(opening, emitted(pushed.builder), emitted(code_gen.builder));
            }
        }
        r?;
        let ghost after_else = emitted(code_gen.builder);
        code_gen.branch_unless_terminated(merge_block)?;
        proof {
            if emitted(code_gen.builder) != after_else {
                lemma_extends_push(opening, after_else, Inst::Branch { target: merge_block.label });
            }
        }
        let ghost joined = emitted(code_gen.builder);
        position_at_end(&mut code_gen.builder, merge_block);
        proof {
            lemma_extends_push(opening, joined, Inst::PositionAt { block: merge_block.label });
        }
        Ok(())
    }
}

impl WhileStmt {
    /// `while (condition) { body }`: the condition in a block of its own,
    /// the body in a new scope and as the innermost loop, where `continue`
    /// goes back to the condition and `break` to the block after the loop.
    fn build_while<'ctx>(&self, code_gen: &mut Codegen<'ctx>) -> (r: Result<(), String>)
        requires
            old(code_gen).wf(),
        ensures
            frames_kept(*old(code_gen), *final(code_gen)),
            typing_of(self.condition, old(code_gen).symbol_table@) is Rejected ==> r is Err,
            r is Ok ==> old(code_gen).trace@.len() < final(code_gen).trace@.len() && stmt_models(
                Stmt::While(*self),
                old(code_gen).symbol_table@,
                old(code_gen).loop_stack@,
                final(code_gen).trace@[old(code_gen).trace@.len() as int],
            ),
            r is Ok ==> (final(code_gen).trace@[old(code_gen).trace@.len() as int] matches Event::While {
                body_block,
                end_block,
                ..
            } && body_block.label != end_block.label),
            r is Ok ==> extends(
                emitted(old(code_gen).builder) + while_opening(
                    final(code_gen).trace@[old(code_gen).trace@.len() as int],
                ),
                emitted(final(code_gen).builder),
            ),
        decreases self, 0nat,
    {
        proof {
            lemma_scopes_kept_refl(code_gen.symbol_table@);
            lemma_extends_refl(code_gen.functions@);
            lemma_extends_refl(code_gen.trace@);
        }
        let current_function = code_gen.current_function()?;
        let c = code_gen.context;
        let cond_block = code_gen.new_block(current_function, "while_cond");
        let body_block = code_gen.new_block(current_function, "while_body");
        let end_block = code_gen.new_block(current_function, "while_end");
        built(build_unconditional_branch(&mut code_gen.builder, cond_block))?;
        position_at_end(&mut code_gen.builder, cond_block);
        let (cond_val, _cond_ty, cond_term) = self.condition.llvm_expr(code_gen)?;
        let int_cond = match classify_value(cond_val) {
            ValueClass::Int(v) => v,
            _ => return fail("Compiler Error: a while condition must be an integer or a bool."),
        };
        built(build_conditional_branch(&mut code_gen.builder, int_cond, body_block, end_block))?;
        position_at_end(&mut code_gen.builder, body_block);
        let ghost start = *code_gen;
        let ghost opening = emitted(code_gen.builder);
        proof {
            assert(opening =~= emitted(old(code_gen).builder) + seq![
                Inst::Branch { target: cond_block.label },
                Inst::PositionAt { block: cond_block.label },
            ] + flatten(cond_term@) + seq![
                Inst::CondBranch { then_block: body_block.label, else_block: end_block.label },
                Inst::PositionAt { block: body_block.label },
            ]);
        }
        code_gen.push_scope();
        code_gen.push_loop(cond_block, end_block);
        let ghost event = Event::While {
            cond: cond_term@,
            cond_block,
            body_block,
            end_block,
            body_loop: code_gen.loop_stack@.last(),
        };
        code_gen.trace = Ghost(code_gen.trace@.push(event));
        let ghost opened = *code_gen;
        proof {
            assert(code_gen.trace@.subrange(0, start.trace@.len() as int) =~= start.trace@);
            assert(opening =~= emitted(old(code_gen).builder) + while_opening(event));
        }
        let r = build_block(&self.body, code_gen);
        code_gen.pop_loop();
        code_gen.pop_scope();
        proof {
            assert(code_gen.symbol_table@ =~= start.symbol_table@);
            assert(code_gen.loop_stack@ =~= start.loop_stack@);
            lemma_extends_trans(start.trace@, opened.trace@, code_gen.trace@);
            assert(code_gen.trace@[start.trace@.len() as int] == code_gen.trace@.subrange(
                0,
                opened.trace@.len() as int,
            )[start.trace@.len() as int]);
        }
        r?;
        let ghost after_body = emitted(code_gen.builder);
        code_gen.branch_unless_terminated(cond_block)?;
        proof {
            if emitted(code_gen.builder) != after_body {
                lemma_extends_push(opening, after_body, Inst::Branch { target: cond_block.label });
            }
        }
        let ghost looped = emitted(code_gen.builder);
        position_at_end(&mut code_gen.builder, end_block);
        proof {
            lemma_extends_push(opening, looped, Inst::PositionAt { block: end_block.label });
        }
        Ok(())
    }
}

/// `break;`: a branch to the innermost loop's exit.
fn build_break<'ctx>(code_gen: &mut Codegen<'ctx>) -> (r: Result<
    Ghost<Event<PointerValue<'ctx>, Block<'ctx>>>,
    String,
>)
    requires
        old(code_gen).wf(),
    ensures
        old(code_gen).loop_stack@.len() == 0 ==> (r matches Err(e) && e@
            == "Compiler Error: break/continue used outside of a loop."@),
        r matches Ok(ev) ==> (old(code_gen).loop_stack@.len() > 0 && (ev@ matches Event::Jump {
            target,
        } && target == old(code_gen).loop_stack@.last().break_block)),
        old(code_gen).loop_stack@.len() > 0 && positioned(emitted(old(code_gen).builder)) ==> r is Ok,
        same_frames(*old(code_gen), *final(code_gen)),
        r matches Ok(ev) ==> emitted(final(code_gen).builder) == emitted(old(code_gen).builder)
            + event_insts(ev@),
{
    if code_gen.loop_stack.depth() == 0 {
        return fail("Compiler Error: break/continue used outside of a loop.");
    }
    let loop_context = code_gen.current_loop();
    built(build_unconditional_branch(&mut code_gen.builder, loop_context.break_block))?;
    Ok(Ghost(Event::Jump { target: loop_context.break_block }))
}

/// `continue;`: a branch to the innermost loop's condition.
fn build_continue<'ctx>(code_gen: &mut Codegen<'ctx>) -> (r: Result<
    Ghost<Event<PointerValue<'ctx>, Block<'ctx>>>,
    String,
>)
    requires
        old(code_gen).wf(),
    ensures
        old(code_gen).loop_stack@.len() == 0 ==> (r matches Err(e) && e@
            == "Compiler Error: break/continue used outside of a loop."@),
        r matches Ok(ev) ==> (old(code_gen).loop_stack@.len() > 0 && (ev@ matches Event::Jump {
            target,
        } && target == old(code_gen).loop_stack@.last().continue_block)),
        old(code_gen).loop_stack@.len() > 0 && positioned(emitted(old(code_gen).builder)) ==> r is Ok,
        same_frames(*old(code_gen), *final(code_gen)),
        r matches Ok(ev) ==> emitted(final(code_gen).builder) == emitted(old(code_gen).builder)
            + event_insts(ev@),
{
    if code_gen.loop_stack.depth() == 0 {
        return fail("Compiler Error: break/continue used outside of a loop.");
    }
    let loop_context = code_gen.current_loop();
    built(build_unconditional_branch(&mut code_gen.builder, loop_context.continue_block))?;
    Ok(Ghost(Event::Jump { target: loop_context.continue_block }))
}

/// `return;` or `return value;`; a pointer is cast to the function's return
/// type.
fn build_return<'ctx>(expr: &Option<Expr>, code_gen: &mut Codegen<'ctx>) -> (r: Result<
    Ghost<Event<PointerValue<'ctx>, Block<'ctx>>>,
    String,
>)
    requires
        old(code_gen).wf(),
    ensures
        *expr matches Some(e) ==> (typing_of(e, old(code_gen).symbol_table@) is Rejected ==> r is Err),
        *expr is None && positioned(emitted(old(code_gen).builder)) ==> r is Ok,
        r matches Ok(ev) ==> stmt_models(
            Stmt::Return(*expr),
            old(code_gen).symbol_table@,
            old(code_gen).loop_stack@,
            ev@,
        ),
        same_frames(*old(code_gen), *final(code_gen)),
        r matches Ok(ev) ==> emitted(final(code_gen).builder) == emitted(old(code_gen).builder)
            + event_insts(ev@),
{
    match expr {
        None => {
            built(build_return_void(&mut code_gen.builder))?;
            let ghost ev = Event::Return { value: None, cast: false };
            proof {
                assert(emitted(code_gen.builder) =~= emitted(old(code_gen).builder) + event_insts(ev));
            }
            Ok(Ghost(ev))
        },
        Some(e) => {
            let (value, _ty, term) = e.llvm_expr(code_gen)?;
            let (returned, cast) = match current_return_type(code_gen) {
                Some(t) => coerce_to(code_gen, value, t)?,
                None => {
                    proof {
                        assert(emitted(code_gen.builder) + opt_inst(false, Inst::PointerCast)
                            =~= emitted(code_gen.builder));
                    }
                    (value, Ghost(false))
                },
            };
            built(build_return_value(&mut code_gen.builder, returned))?;
            let ghost ev = Event::Return { value: Some(term@), cast: cast@ };
            proof {
                assert(emitted(code_gen.builder) =~= emitted(old(code_gen).builder) + event_insts(ev));
            }
            Ok(Ghost(ev))
        },
    }
}

impl AssignmentStmt {
    /// An assignment: `name[index] = value;` and `*name = value;` store
    /// through a pointer; `ty: name = value;` and `name = value;` make a new
    /// stack slot, store the value there, and bind `name` to the slot in the
    /// innermost scope unless that scope binds it already.
    fn build_assignment<'ctx>(&self, code_gen: &mut Codegen<'ctx>) -> (r: Result<
        Ghost<Event<PointerValue<'ctx>, Block<'ctx>>>,
        String,
    >)
        requires
            old(code_gen).wf(),
        ensures
            frames_kept(*old(code_gen), *final(code_gen)),
            final(code_gen).trace == old(code_gen).trace,
            self.index is Some || self.dereference || r is Err ==> final(code_gen).symbol_table@
                == old(code_gen).symbol_table@,
            assignment_rejected(*self, old(code_gen).symbol_table@) ==> r is Err,
            plain_declaration(*self) && old(code_gen).symbol_table@.len() > 0 && positioned(
                emitted(old(code_gen).builder),
            ) ==> r is Ok,
            r matches Ok(ev) ==> assignment_models(*self, old(code_gen).symbol_table@, ev@),
            r matches Ok(ev) ==> emitted(final(code_gen).builder) == emitted(old(code_gen).builder)
                + event_insts(ev@),
            r matches Ok(ev) ==> (self.index is None && !self.dereference) ==> {
                let old_scopes = old(code_gen).symbol_table@;
                let new_scopes = final(code_gen).symbol_table@;
                &&& ev@ matches Event::Store { addr, .. }
                &&& addr matches Term::Slot { slot, .. }
                &&& if old_scopes.last().contains_key(self.name@) {
                    new_scopes == old_scopes
                } else {
                    exists|b: Binding<PointerValue<'ctx>>|
                        {
                            &&& new_scopes == bind_innermost(old_scopes, self.name@, b)
                            &&& b.ptr == slot
                            &&& (declared_type(*self, old_scopes) matches Some(t) ==> b.ty == t)
                        }
                }
            },
    {
        proof {
            lemma_scopes_kept_refl(code_gen.symbol_table@);
            lemma_extends_refl(code_gen.functions@);
            lemma_extends_refl(code_gen.trace@);
        }
        if let Some(index) = &self.index {
            let array_expr = Expr::Operand(Token::Identifier(self.name.clone()));
            let (target_ptr, inner_ty, addr) = build_index_pointer(&array_expr, index, code_gen)?;
            let (evaluated_val, value_ty, value) = match &self.value {
                Some(v) => v.llvm_expr(code_gen)?,
                None => return fail("Compiler Error: indexed assignment must have a value."),
            };
            if !value_ty.same_as(&inner_ty) {
                return fail(
                    "Compiler Error: cannot store a value into an indexed pointer of another type.",
                );
            }
            built(build_store(&mut code_gen.builder, target_ptr, evaluated_val))?;
            let ghost ev = Event::Store { addr: addr@, value: value@, casts: 0 };
            proof {
                assert(pointer_casts(0) =~= Seq::<Inst>::empty());
                assert(emitted(code_gen.builder) =~= emitted(old(code_gen).builder) + event_insts(ev));
            }
            return Ok(Ghost(ev));
        }
        if self.dereference {
            let binding = match code_gen.symbol_table.lookup(&self.name) {
                Some(found) => found,
                None => return fail_about("has not been defined: ", self.name.as_str()),
            };
            let inner_ty = match &binding.ty {
                Type::Pointer(inner_ty) => inner_ty.duplicate(),
                _ => return fail_about(
                    "Compiler Error: cannot dereference non-pointer variable ",
                    self.name.as_str(),
                ),
            };
            let pointer_llvm_type = binding.ty.to_basic_type(
                code_gen,
                "Compiler Error: pointer variable should have an LLVM basic type.",
            )?;
            let target_ptr = match classify_value(
                built(
                    build_load(&mut code_gen.builder, binding.ptr, pointer_llvm_type, self.name.as_str()),
                )?,
            ) {
                ValueClass::Pointer(p) => p,
                _ => return fail("Compiler Error: pointer variable holds no pointer."),
            };
            let (evaluated_val, value_ty, value) = match &self.value {
                Some(v) => v.llvm_expr(code_gen)?,
                None => return fail("Compiler Error: pointer stores must have a value."),
            };
            if !value_ty.same_as(&inner_ty) {
                return fail("Compiler Error: cannot store a value into a pointer to another type.");
            }
            built(build_store(&mut code_gen.builder, target_ptr, evaluated_val))?;
            let ghost addr = Term::Load { slot: binding.ptr, ty: binding.ty };
            let ghost ev = Event::Store { addr, value: value@, casts: 0 };
            proof {
                assert(pointer_casts(0) =~= Seq::<Inst>::empty());
                assert(emitted(code_gen.builder) =~= emitted(old(code_gen).builder) + event_insts(ev));
            }
            return Ok(Ghost(ev));
        }
        let slot_ty = match &self.ty {
            Some(x) => x.duplicate(),
            None => match code_gen.symbol_table.lookup(&self.name) {
                Some(found) => found.ty,
                None => return fail_about("has not been defined: ", self.name.as_str()),
            },
        };
        let llvm_basic_type = slot_ty.to_basic_type(
            code_gen,
            "Compiler Error: Local variables cannot be initialized with Void types.",
        )?;
        let local_var = built(build_alloca(&mut code_gen.builder, llvm_basic_type, self.name.as_str()))?;
        proof {
            if positioned(emitted(old(code_gen).builder)) {
                lemma_positioned_append(emitted(old(code_gen).builder), seq![Inst::Alloca]);
                assert(emitted(code_gen.builder) =~= emitted(old(code_gen).builder) + seq![Inst::Alloca]);
            }
        }
        let ghost allocated = emitted(code_gen.builder);
        let (evaluated_val, value_ty, value) = match &self.value {
            Some(v) => v.llvm_expr(code_gen)?,
            None => return fail(
                "Compiler Error: Local variables must be initialized with a value.",
            ),
        };
        proof {
            if positioned(allocated) {
                lemma_positioned_append(allocated, flatten(value@));
            }
        }
        let ghost slot_term = Term::Slot { slot: local_var, ty: slot_ty };
        let stored_ty = match &self.ty {
            Some(t) => t.duplicate(),
            None => value_ty,
        };
        let ghost evaluated = emitted(code_gen.builder);
        let (stored_val, coerced) = coerce_to(code_gen, evaluated_val, llvm_basic_type)?;
        proof {
            if positioned(evaluated) {
                lemma_positioned_append(evaluated, opt_inst(coerced@, Inst::PointerCast));
            }
        }
        let ghost coerced_log = emitted(code_gen.builder);
        let (target, recast) = store_pointer(code_gen, local_var, stored_val)?;
        proof {
            if positioned(coerced_log) {
                lemma_positioned_append(coerced_log, opt_inst(recast@, Inst::PointerCast));
            }
        }
        built(build_store(&mut code_gen.builder, target, stored_val))?;
        let ghost casts: nat = (if coerced@ {
            1nat
        } else {
            0nat
        }) + (if recast@ {
            1nat
        } else {
            0nat
        });
        let ghost ev = Event::Store { addr: slot_term, value: value@, casts };
        proof {
            assert(opt_inst(coerced@, Inst::PointerCast) + opt_inst(recast@, Inst::PointerCast)
                =~= pointer_casts(casts));
            assert(emitted(code_gen.builder) =~= emitted(old(code_gen).builder) + event_insts(ev));
        }
        if code_gen.symbol_table.depth() == 0 {
            return fail("Compiler Error: No active compilation scope found.");
        }
        let ghost before = code_gen.symbol_table@;
        let binding = Binding { ptr: local_var, ty: stored_ty };
        code_gen.symbol_table.declare_if_absent(self.name.clone(), binding);
        proof {
            if !before.last().contains_key(self.name@) {
                assert(code_gen.symbol_table@ == bind_innermost(before, self.name@, binding));
                assert(before.last().submap_of(code_gen.symbol_table@.last()));
            }
        }
        Ok(Ghost(ev))
    }
}

impl Expr {
    /// An expression statement: the built-ins `print`, `free`, `array_set`
    /// and `push`, or an expression generated for its effects.
    fn build_exprs<'ctx>(&self, code_gen: &mut Codegen<'ctx>) -> (r: Result<Ghost<Event<PointerValue<'ctx>, Block<'ctx>>>, String>)
        requires
            old(code_gen).wf(),
        ensures
            expr_stmt_rejected(*self, old(code_gen).symbol_table@) ==> r is Err,
            always_generates(*self) ==> r is Ok,
            plain_print(*self) && positioned(emitted(old(code_gen).builder)) ==> r is Ok,
            r matches Ok(ev) ==> expr_stmt_models(*self, old(code_gen).symbol_table@, ev@),
            emits_only(*old(code_gen), *final(code_gen)),
            r matches Ok(ev) ==> emitted(final(code_gen).builder) == emitted(old(code_gen).builder)
                + event_insts(ev@),
    {
        proof {
            lemma_extends_refl(old(code_gen).functions@);
        }
        if let Expr::Operand(Token::Call(name, args)) = self {
            if text_eq(name.as_str(), "print") {
                return build_print(args, code_gen);
            }
            if text_eq(name.as_str(), "free") {
                return build_free(args, code_gen);
            }
            if text_eq(name.as_str(), "array_set") {
                return build_array_set(args, code_gen);
            }
            if text_eq(name.as_str(), "push") {
                return build_push(args, code_gen);
            }
        }
        let (_value, _ty, term) = self.llvm_expr(code_gen)?;
        proof {
            lemma_extends_refl(code_gen.functions@);
        }
        Ok(Ghost(Event::Eval { value: term@ }))
    }
}

/// Declares `printf`, `malloc` and `free` in the module.
fn declare_builtin_functions<'ctx>(code_gen: &mut Codegen<'ctx>)
    requires
        old(code_gen).wf(),
    ensures
        table_grows(*old(code_gen), *final(code_gen)),
{
    let ghost f0 = code_gen.functions@;
    let _ = get_printf(code_gen);
    let ghost f1 = code_gen.functions@;
    let _ = get_malloc(code_gen);
    let ghost f2 = code_gen.functions@;
    let _ = get_free(code_gen);
    proof {
        lemma_extends_trans(f0, f1, f2);
        lemma_extends_trans(f0, f2, code_gen.functions@);
    }
}

/// The type `i8*`, which C's `char *` and `void *` have in LLVM.
fn byte_pointer_type<'ctx>(code_gen: &Codegen<'ctx>) -> BasicTypeEnum<'ctx> {
    pointer_type_basic(pointer_to(int_type_basic(int_type(code_gen.context, 8))))
}

/// The position in the table of the module's function `name`, added with
/// this type if the module lacks it.
fn declared_function<'ctx>(
    code_gen: &mut Codegen<'ctx>,
    name: &str,
    ret: Option<BasicTypeEnum<'ctx>>,
    params: Vec<BasicTypeEnum<'ctx>>,
    var_args: bool,
) -> (r: usize)
    requires
        old(code_gen).wf(),
    ensures
        table_grows(*old(code_gen), *final(code_gen)),
        r < final(code_gen).functions@.len(),
        final(code_gen).functions@[r as int].name@ == name@,
{
    if let Some(i) = find_function(&code_gen.functions, name) {
        proof {
            lemma_extends_refl(code_gen.functions@);
        }
        return i;
    }
    let (f, _args) = add_function(code_gen.context, &code_gen.module, name, ret, &params, var_args);
    let ghost before = code_gen.functions@;
    code_gen.functions.push(f);
    proof {
        assert(code_gen.functions@.subrange(0, before.len() as int) =~= before);
    }
    code_gen.functions.len() - 1
}

/// `int printf(char *, ...)`, declared if the module lacks it.
fn get_printf<'ctx>(code_gen: &mut Codegen<'ctx>) -> (r: usize)
    requires
        old(code_gen).wf(),
    ensures
        table_grows(*old(code_gen), *final(code_gen)),
        r < final(code_gen).functions@.len(),
{
    let mut params = Vec::new();
    params.push(byte_pointer_type(code_gen));
    let i32_type = int_type_basic(int_type(code_gen.context, 32));
    declared_function(code_gen, "printf", Some(i32_type), params, true)
}

/// `void *malloc(i64)`, declared if the module lacks it.
fn get_malloc<'ctx>(code_gen: &mut Codegen<'ctx>) -> (r: usize)
    requires
        old(code_gen).wf(),
    ensures
        table_grows(*old(code_gen), *final(code_gen)),
        r < final(code_gen).functions@.len(),
{
    let mut params = Vec::new();
    params.push(int_type_basic(int_type(code_gen.context, 64)));
    let ret = byte_pointer_type(code_gen);
    declared_function(code_gen, "malloc", Some(ret), params, false)
}

/// `void free(void *)`, declared if the module lacks it.
fn get_free<'ctx>(code_gen: &mut Codegen<'ctx>) -> (r: usize)
    requires
        old(code_gen).wf(),
    ensures
        table_grows(*old(code_gen), *final(code_gen)),
        r < final(code_gen).functions@.len(),
{
    let mut params = Vec::new();
    params.push(byte_pointer_type(code_gen));
    declared_function(code_gen, "free", None, params, false)
}

/// `print(value)`: `printf` with the format for the value's type; an `f32`
/// is widened to `f64` first.
fn build_print<'ctx>(args: &Vec<Expr>, code_gen: &mut Codegen<'ctx>) -> (r: Result<Ghost<Event<PointerValue<'ctx>, Block<'ctx>>>, String>)
    requires
        old(code_gen).wf(),
    ensures
        args@.len() != 1 ==> (r matches Err(e) && e@ == "Compiler Error: print expects exactly one argument."@),
        args@.len() == 1 ==> (typing_of(args@[0], old(code_gen).symbol_table@) is Rejected ==> r is Err),
        args@.len() == 1 ==> (typing_of(args@[0], old(code_gen).symbol_table@) matches Typing::Typed(t)
            && spec_print_format(t) is None ==> r is Err),
        args@.len() == 1 && always_generates(args@[0]) && positioned(emitted(old(code_gen).builder))
            ==> r is Ok,
        r matches Ok(ev) ==> {
            &&& args@.len() == 1
            &&& ev@ matches Event::Print { format, value, .. }
            &&& models(args@[0], old(code_gen).symbol_table@, value)
            &&& spec_print_format(term_type(value)) == Some(format)
        },
        emits_only(*old(code_gen), *final(code_gen)),
        r matches Ok(ev) ==> emitted(final(code_gen).builder) == emitted(old(code_gen).builder)
            + event_insts(ev@),
{
    proof {
        lemma_extends_refl(old(code_gen).functions@);
    }
    if args.len() != 1 {
        return fail("Compiler Error: print expects exactly one argument.");
    }
    let (value, ty, term) = args[0].llvm_expr(code_gen)?;
    proof {
        if positioned(emitted(old(code_gen).builder)) {
            lemma_positioned_append(emitted(old(code_gen).builder), flatten(term@));
        }
    }
    let format_string = match print_format(&ty) {
        Some(f) => f,
        None => return fail("Compiler Error: print cannot print arrays or void."),
    };
    let (printed, widened) = match ty {
        Type::F32 => match classify_value(value) {
            ValueClass::Float(v) => {
                let extended = built(
                    build_float_ext(&mut code_gen.builder, v, f64_type(code_gen.context), "print_f64_tmp"),
                )?;
                (float_value_basic(extended), Ghost(true))
            },
            _ => return fail("Compiler Error: an f32 value is no float."),
        },
        _ => (value, Ghost(false)),
    };
    let ghost before_table = *code_gen;
    let printf = get_printf(code_gen);
    let ghost before_format = emitted(code_gen.builder);
    let format_ptr = global_pointer(built(build_global_string_ptr(&mut code_gen.builder, format_string, "print_format"))?);
    proof {
        if positioned(before_format) {
            lemma_positioned_append(before_format, seq![Inst::GlobalString { text: format_string@ }]);
            assert(emitted(code_gen.builder) =~= before_format + seq![
                Inst::GlobalString { text: format_string@ },
            ]);
        }
    }
    let mut call_args = Vec::new();
    call_args.push(metadata_value(pointer_value_basic(format_ptr)));
    call_args.push(metadata_value(printed));
    built(build_call(&mut code_gen.builder, &code_gen.functions[printf], &call_args, "print_call"))?;
    let ghost ev = Event::Print { format: format_string@, value: term@, widened: widened@ };
    proof {
        assert(emitted(code_gen.builder) =~= emitted(old(code_gen).builder) + event_insts(ev));
    }
    Ok(Ghost(ev))
}

/// `free(pointer)`.
fn build_free<'ctx>(args: &Vec<Expr>, code_gen: &mut Codegen<'ctx>) -> (r: Result<Ghost<Event<PointerValue<'ctx>, Block<'ctx>>>, String>)
    requires
        old(code_gen).wf(),
    ensures
        args@.len() != 1 ==> (r matches Err(e) && e@ == "Compiler Error: free expects exactly one argument."@),
        args@.len() == 1 ==> (typing_of(args@[0], old(code_gen).symbol_table@) is Rejected ==> r is Err),
        args@.len() == 1 ==> (typing_of(args@[0], old(code_gen).symbol_table@) matches Typing::Typed(t)
            && !(t is Pointer) ==> r is Err),
        r matches Ok(ev) ==> {
            &&& args@.len() == 1
            &&& ev@ matches Event::Free { ptr, .. }
            &&& models(args@[0], old(code_gen).symbol_table@, ptr)
            &&& term_type(ptr) is Pointer
        },
        emits_only(*old(code_gen), *final(code_gen)),
        r matches Ok(ev) ==> emitted(final(code_gen).builder) == emitted(old(code_gen).builder)
            + event_insts(ev@),
{
    proof {
        lemma_extends_refl(old(code_gen).functions@);
    }
    if args.len() != 1 {
        return fail("Compiler Error: free expects exactly one argument.");
    }
    let (ptr_value, ptr_ty, term) = args[0].llvm_expr(code_gen)?;
    match ptr_ty {
        Type::Pointer(_) => {},
        _ => return fail("Compiler Error: free expects a pointer."),
    }
    let free = get_free(code_gen);
    let (passed, cast) = coerce_to(code_gen, ptr_value, byte_pointer_type(code_gen))?;
    let mut call_args = Vec::new();
    call_args.push(metadata_value(passed));
    built(build_call(&mut code_gen.builder, &code_gen.functions[free], &call_args, "free_call"))?;
    let ghost ev = Event::Free { ptr: term@, cast: cast@ };
    proof {
        assert(emitted(code_gen.builder) =~= emitted(old(code_gen).builder) + event_insts(ev));
    }
    Ok(Ghost(ev))
}

/// `array_set(array, index, value)`: stores `value` at `array[index]`.
fn build_array_set<'ctx>(args: &Vec<Expr>, code_gen: &mut Codegen<'ctx>) -> (r: Result<Ghost<Event<PointerValue<'ctx>, Block<'ctx>>>, String>)
    requires
        old(code_gen).wf(),
    ensures
        args@.len() != 3 ==> (r matches Err(e) && e@ == "Compiler Error: array_set expects array, index, and value."@),
        args@.len() == 3 ==> ({
            let target = index_typing(
                typing_of(args@[0], old(code_gen).symbol_table@),
                typing_of(args@[1], old(code_gen).symbol_table@),
            );
            let value = typing_of(args@[2], old(code_gen).symbol_table@);
            target is Rejected || value is Rejected || (target matches Typing::Typed(i)
                && value matches Typing::Typed(v) && i != v)
        } ==> r is Err),
    r matches Ok(ev) ==> {
        &&& args@.len() == 3
        &&& ev@ matches Event::Store { addr, value, casts }
        &&& casts == 0
        &&& addr matches Term::Element { base, index, ty, .. }
        &&& models(args@[0], old(code_gen).symbol_table@, *base)
        &&& models(args@[1], old(code_gen).symbol_table@, *index)
        &&& models(args@[2], old(code_gen).symbol_table@, value)
        &&& term_type(*base) == Type::Pointer(Box::new(ty))
        &&& term_type(value) == ty
    },
    emits_only(*old(code_gen), *final(code_gen)),
        r matches Ok(ev) ==> emitted(final(code_gen).builder) == emitted(old(code_gen).builder)
            + event_insts(ev@),
{
    proof {
        lemma_extends_refl(old(code_gen).functions@);
    }
    if args.len() != 3 {
        return fail("Compiler Error: array_set expects array, index, and value.");
    }
    let (target_ptr, inner_ty, addr) = build_index_pointer(&args[0], &args[1], code_gen)?;
    let (value, value_ty, term) = args[2].llvm_expr(code_gen)?;
    if !value_ty.same_as(&inner_ty) {
        return fail("Compiler Error: cannot array_set a value of another type than the array's.");
    }
    built(build_store(&mut code_gen.builder, target_ptr, value))?;
    let ghost ev = Event::Store { addr: addr@, value: term@, casts: 0 };
    proof {
        lemma_extends_refl(code_gen.functions@);
        assert(pointer_casts(0) =~= Seq::<Inst>::empty());
        assert(emitted(code_gen.builder) =~= emitted(old(code_gen).builder) + event_insts(ev));
    }
    Ok(Ghost(ev))
}

/// `push(array, &len, value)`: stores `value` at `array[len]` and
/// increments `len`. There is no capacity check.
fn build_push<'ctx>(args: &Vec<Expr>, code_gen: &mut Codegen<'ctx>) -> (r: Result<Ghost<Event<PointerValue<'ctx>, Block<'ctx>>>, String>)
    requires
        old(code_gen).wf(),
    ensures
        args@.len() != 3 ==> (r matches Err(e) && e@ == "Compiler Error: push expects array, length pointer, and value."@),
        args@.len() == 3 ==> ({
            let sc = old(code_gen).symbol_table@;
            let len = typing_of(args@[1], sc);
            let array = typing_of(args@[0], sc);
            let value = typing_of(args@[2], sc);
            len is Rejected || (len matches Typing::Typed(t) && !(t matches Type::Pointer(i)
                && storable(*i))) || index_typing(array, Typing::Typed(Type::I32)) is Rejected
                || value is Rejected || (array matches Typing::Typed(Type::Pointer(i))
                && value matches Typing::Typed(v) && *i != v)
        } ==> r is Err),
    r matches Ok(ev) ==> {
        &&& args@.len() == 3
        &&& ev@ matches Event::Push { array, len, value, probe, .. }
        &&& models(args@[0], old(code_gen).symbol_table@, probe)
        &&& models(args@[0], old(code_gen).symbol_table@, array)
        &&& models(args@[1], old(code_gen).symbol_table@, len)
        &&& models(args@[2], old(code_gen).symbol_table@, value)
        &&& term_type(array) == Type::Pointer(Box::new(term_type(value)))
        &&& term_type(len) is Pointer
    },
    emits_only(*old(code_gen), *final(code_gen)),
        r matches Ok(ev) ==> emitted(final(code_gen).builder) == emitted(old(code_gen).builder)
            + event_insts(ev@),
{
    proof {
        lemma_extends_refl(old(code_gen).functions@);
    }
    if args.len() != 3 {
        return fail("Compiler Error: push expects array, length pointer, and value.");
    }
    let (len_ptr_value, len_ptr_ty, len_term) = args[1].llvm_expr(code_gen)?;
    let len_inner_ty = match len_ptr_ty {
        Type::Pointer(inner_ty) => *inner_ty,
        _ => return fail("Compiler Error: push length argument must be a pointer."),
    };
    let len_llvm_type = len_inner_ty.to_basic_type(
        code_gen,
        "Compiler Error: push length pointer cannot point to void.",
    )?;
    let len_ptr = match classify_value(len_ptr_value) {
        ValueClass::Pointer(p) => p,
        _ => return fail("Compiler Error: push length argument must be a pointer."),
    };
    let len_value = match classify_value(built(build_load(&mut code_gen.builder, len_ptr, len_llvm_type, "push_len"))?) {
        ValueClass::Int(v) => v,
        _ => return fail("Compiler Error: push length must be an integer."),
    };
    let zero_index = Expr::Operand(Token::Int(0));
    assert(typing_of(zero_index, code_gen.symbol_table@) == Typing::Typed(Type::I32));
    let (_target_ptr, inner_ty, probe_element) = build_index_pointer(&args[0], &zero_index, code_gen)?;
    let ghost probe = match probe_element@ {
        Term::Element { base, .. } => *base,
        _ => probe_element@,
    };
    let ghost probe_widened = match probe_element@ {
        Term::Element { widened, .. } => widened,
        _ => false,
    };
    proof {
        let index = match probe_element@ {
            Term::Element { index, .. } => *index,
            _ => probe_element@,
        };
        assert(index == Term::<PointerValue<'ctx>>::Const { ty: Type::I32, value: 0 });
        assert(flatten(index) =~= Seq::<Inst>::empty());
        assert(flatten(probe_element@) =~= flatten(probe) + index_insts(probe_widened));
    }
    let ghost after_probe = emitted(code_gen.builder);
    let (array_value, array_ty, array_term) = args[0].llvm_expr(code_gen)?;
    let array_inner_ty = match &array_ty {
        Type::Pointer(inner_ty) => inner_ty.duplicate(),
        _ => return fail("Compiler Error: push array argument must be a pointer."),
    };
    if !array_inner_ty.same_as(&inner_ty) {
        return fail("Compiler Error: push internal type mismatch.");
    }
    let (element_ptr, _element_ty, _element_llvm_type, widened) = index_pointer(
        array_value,
        array_ty,
        int_value_basic(len_value),
        code_gen,
    )?;
    let (value, value_ty, value_term) = args[2].llvm_expr(code_gen)?;
    if !value_ty.same_as(&array_inner_ty) {
        return fail("Compiler Error: cannot push a value of another type than the array's.");
    }
    let ghost after_value = emitted(code_gen.builder);
    built(build_store(&mut code_gen.builder, element_ptr, value))?;
    let one = const_int(int_value_type(len_value), 1);
    let new_len = built(build_int_add(&mut code_gen.builder, len_value, one, "push_new_len"))?;
    built(build_store(&mut code_gen.builder, len_ptr, int_value_basic(new_len)))?;
    let ghost ev = Event::Push {
        array: array_term@,
        len: len_term@,
        value: value_term@,
        probe,
        probe_widened,
        widened: widened@,
    };
    proof {
        lemma_extends_refl(code_gen.functions@);
        assert(after_value =~= after_probe + flatten(array_term@) + index_insts(widened@) + flatten(
            value_term@,
        ));
        assert(after_probe =~= emitted(old(code_gen).builder) + flatten(len_term@) + seq![Inst::Load]
            + flatten(probe) + index_insts(probe_widened));
        assert(emitted(code_gen.builder) =~= emitted(old(code_gen).builder) + event_insts(ev));
    }
    Ok(Ghost(ev))
}

impl GlobalDecl {
    /// A global variable with external linkage, initialized with its value;
    /// a pointer global may be initialized with an integer constant.
    fn build_global<'ctx>(&self, code_gen: &mut Codegen<'ctx>) -> (r: Result<GlobalValue<'ctx>, String>)
        requires
            old(code_gen).wf(),
        ensures
            !storable(self.ty) ==> r is Err,
            self.value is None ==> r is Err,
            storable(self.ty) && self.value is None ==> (r matches Err(e) && e@
                == "Compiler Error: Global variables must be initialized with a value."@),
            self.value matches Some(v) && typing_of(v, old(code_gen).symbol_table@) is Rejected ==> r is Err,
            !self.pointer && storable(self.ty) && (self.value matches Some(v) && always_generates(v))
                ==> r is Ok,
            same_frames(*old(code_gen), *final(code_gen)),
    {
        let llvm_basic_type = self.ty.to_basic_type(
            code_gen,
            "Compiler Error: Global variables cannot be initialized with Void types.",
        )?;
        let global_var = module_add_global(&code_gen.module, llvm_basic_type, self.name.as_str());
        global_set_external(global_var);
        let (evaluated_val, _ty, _) = match &self.value {
            Some(v) => v.llvm_expr(code_gen)?,
            None => return fail("Compiler Error: Global variables must be initialized with a value."),
        };
        let initializer = if self.pointer {
            match classify_value(evaluated_val) {
                ValueClass::Pointer(_) => coerce_to(code_gen, evaluated_val, llvm_basic_type)?.0,
                ValueClass::Int(int_val) => match classify_type(llvm_basic_type) {
                    TypeClass::Pointer(ptr_type) => pointer_value_basic(
                        const_int_to_pointer(int_val, ptr_type),
                    ),
                    _ => return fail("Compiler Error: a pointer global must have a pointer type."),
                },
                _ => return fail(
                    "Compiler Error: Cannot initialize a global pointer with a floating-point value.",
                ),
            }
        } else {
            evaluated_val
        };
        global_set_initializer(global_var, initializer);
        Ok(global_var)
    }
}

impl FunctionDecl {
    /// A function: the global variables `globals` are bound in a scope
    /// around the function's own, its parameters are stored in stack slots
    /// bound in that scope, its body generated there, and a missing return
    /// supplied with the zero of the return type.
    fn build_function<'ctx>(
        &self,
        code_gen: &mut Codegen<'ctx>,
        globals: &Vec<(String, Binding<PointerValue<'ctx>>)>,
    ) -> (r: Result<
        FunctionValue<'ctx>,
        String,
    >)
        requires
            old(code_gen).wf(),
        ensures
            final(code_gen).wf(),
            final(code_gen).symbol_table@ == old(code_gen).symbol_table@,
            final(code_gen).loop_stack@ == old(code_gen).loop_stack@,
            (exists|i: int| 0 <= i < self.params@.len() && !storable(#[trigger] self.params@[i].ty))
                ==> r is Err,
            self.return_type is Array || !lowerable(self.return_type) ==> r is Err,
            (forall|i: int| 0 <= i < self.params@.len() ==> storable(#[trigger] self.params@[i].ty))
                && self.return_type is Array ==> (r matches Err(e) && e@
                == "Unsupported function return type."@),
            extends(old(code_gen).trace@, final(code_gen).trace@),
            r is Ok ==> (old(code_gen).trace@.len() < final(code_gen).trace@.len()
                && (final(code_gen).trace@[old(code_gen).trace@.len() as int] matches Event::Function {
                name,
            } && name == self.name@)),
            extends(old(code_gen).functions@, final(code_gen).functions@),
            r is Ok ==> declares(*self, old(code_gen).functions@.len() as int, final(code_gen).functions@),
            r is Ok ==> extends(
                emitted(old(code_gen).builder) + seq![
                    Inst::PositionAt { block: old(code_gen).next_label },
                ] + param_insts(self.params@.len()),
                emitted(final(code_gen).builder),
            ),
    {
        let ghost start = *code_gen;
        code_gen.push_scope();
        let mut g: usize = 0;
        while g < globals.len()
            invariant
                start.wf(),
                code_gen.wf(),
                code_gen.symbol_table@.len() == start.symbol_table@.len() + 1,
                code_gen.symbol_table@.drop_last() == start.symbol_table@,
                code_gen.loop_stack@ == start.loop_stack@,
                code_gen.trace == start.trace,
                code_gen.functions == start.functions,
                code_gen.builder == start.builder,
                code_gen.next_label == start.next_label,
            decreases globals.len() - g,
        {
            let global = &globals[g];
            code_gen.symbol_table.declare(
                global.0.clone(),
                Binding { ptr: global.1.ptr, ty: global.1.ty.duplicate() },
            );
            proof {
                assert(code_gen.symbol_table@.drop_last() =~= start.symbol_table@);
            }
            g += 1;
        }
        code_gen.push_scope();
        let r = self.build_function_in_scope(code_gen);
        code_gen.pop_scope();
        code_gen.pop_scope();
        proof {
            assert(code_gen.symbol_table@ =~= start.symbol_table@);
        }
        r
    }

    fn build_function_in_scope<'ctx>(&self, code_gen: &mut Codegen<'ctx>) -> (r: Result<
        FunctionValue<'ctx>,
        String,
    >)
        requires
            old(code_gen).wf(),
            old(code_gen).symbol_table@.len() > 0,
        ensures
            final(code_gen).wf(),
            final(code_gen).symbol_table@.len() == old(code_gen).symbol_table@.len(),
            forall|i: int|
                0 <= i < old(code_gen).symbol_table@.len() - 1 ==> final(code_gen).symbol_table@[i]
                    == old(code_gen).symbol_table@[i],
            final(code_gen).loop_stack@ == old(code_gen).loop_stack@,
            (exists|i: int| 0 <= i < self.params@.len() && !storable(#[trigger] self.params@[i].ty))
                ==> r is Err,
            self.return_type is Array || !lowerable(self.return_type) ==> r is Err,
            (forall|i: int| 0 <= i < self.params@.len() ==> storable(#[trigger] self.params@[i].ty))
                && self.return_type is Array ==> (r matches Err(e) && e@
                == "Unsupported function return type."@),
            extends(old(code_gen).trace@, final(code_gen).trace@),
            r is Ok ==> (old(code_gen).trace@.len() < final(code_gen).trace@.len()
                && (final(code_gen).trace@[old(code_gen).trace@.len() as int] matches Event::Function {
                name,
            } && name == self.name@)),
            extends(old(code_gen).functions@, final(code_gen).functions@),
            r is Ok ==> declares(*self, old(code_gen).functions@.len() as int, final(code_gen).functions@),
            r is Ok ==> extends(
                emitted(old(code_gen).builder) + seq![
                    Inst::PositionAt { block: old(code_gen).next_label },
                ] + param_insts(self.params@.len()),
                emitted(final(code_gen).builder),
            ),
    {
        proof {
            lemma_extends_refl(code_gen.trace@);
        }
        proof {
            lemma_extends_refl(code_gen.functions@);
        }
        let c = code_gen.context;
        let mut arg_types: Vec<BasicTypeEnum<'ctx>> = Vec::new();
        let mut k: usize = 0;
        while k < self.params.len()
            invariant
                *code_gen == *old(code_gen),
                old(code_gen).wf(),
                extends(old(code_gen).trace@, old(code_gen).trace@),
                k <= self.params@.len(),
                arg_types@.len() == k,
                extends(old(code_gen).functions@, old(code_gen).functions@),
                forall|i: int| 0 <= i < k ==> storable(#[trigger] self.params@[i].ty),
            decreases self.params.len() - k,
        {
            let basic_type = self.params[k].ty.to_basic_type(
                code_gen,
                "Void is not allowed as a parameter type.",
            )?;
            arg_types.push(basic_type);
            k += 1;
        }
        if let Type::Array(_, _) = self.return_type {
            return fail("Unsupported function return type.");
        }
        let return_type = self.return_type.to_llvm_type(code_gen)?;
        let (function, params) = add_function(
            c,
            &code_gen.module,
            self.name.as_str(),
            return_type,
            &arg_types,
            false,
        );
        let handle = function.value;
        code_gen.functions.push(function);
        code_gen.return_type = return_type;
        let ghost with_fn = code_gen.functions@;
        proof {
            assert(with_fn.subrange(0, old(code_gen).functions@.len() as int) =~= old(code_gen).functions@);
            assert(declares(*self, old(code_gen).functions@.len() as int, with_fn));
        }
        code_gen.trace = Ghost(code_gen.trace@.push(Event::Function { name: self.name@ }));
        let ghost entered = code_gen.trace@;
        proof {
            assert(entered.subrange(0, old(code_gen).trace@.len() as int) =~= old(code_gen).trace@);
        }
        let entry_block = code_gen.new_block(handle, "entry");
        position_at_end(&mut code_gen.builder, entry_block);
        let ghost entry = emitted(code_gen.builder);
        proof {
            assert(entry + param_insts(0) =~= entry);
        }
        let mut i: usize = 0;
        while i < params.len() && i < self.params.len()
            invariant
                code_gen.wf(),
                code_gen.symbol_table@.len() == old(code_gen).symbol_table@.len(),
                forall|j: int|
                    0 <= j < old(code_gen).symbol_table@.len() - 1 ==> code_gen.symbol_table@[j]
                        == old(code_gen).symbol_table@[j],
                code_gen.loop_stack@ == old(code_gen).loop_stack@,
                old(code_gen).symbol_table@.len() > 0,
                !(self.return_type is Array),
                code_gen.trace@ == entered,
                extends(old(code_gen).trace@, entered),
                (entered[old(code_gen).trace@.len() as int] matches Event::Function { name } && name
                    == self.name@),
                old(code_gen).trace@.len() < entered.len(),
                code_gen.functions@ == with_fn,
                extends(old(code_gen).functions@, with_fn),
                declares(*self, old(code_gen).functions@.len() as int, with_fn),
                params@.len() == self.params@.len(),
                i <= params@.len(),
                entry == emitted(old(code_gen).builder) + seq![
                    Inst::PositionAt { block: old(code_gen).next_label },
                ],
                emitted(code_gen.builder) == entry + param_insts(i as nat),
            decreases params.len() - i,
        {
            let arg = params[i];
            let param = &self.params[i];
            let alloca = built(build_alloca(&mut code_gen.builder, value_type(arg), param.name.as_str()))?;
            built(build_store(&mut code_gen.builder, alloca, arg))?;
            code_gen.symbol_table.declare(
                param.name.clone(),
                Binding { ptr: alloca, ty: param.ty.duplicate() },
            );
            proof {
                assert(param_insts((i + 1) as nat) == param_insts(i as nat) + seq![
                    Inst::Alloca,
                    Inst::Store,
                ]);
                assert(emitted(code_gen.builder) =~= entry + param_insts((i + 1) as nat));
            }
            i += 1;
        }
        let ghost before_body = *code_gen;
        let body_result = build_block(&self.body, code_gen);
        proof {
            assert(forall|j: int|
                0 <= j < before_body.symbol_table@.len() - 1 ==> code_gen.symbol_table@[j]
                    == before_body.symbol_table@[j]);
            lemma_extends_trans(old(code_gen).trace@, entered, code_gen.trace@);
            assert(code_gen.trace@[old(code_gen).trace@.len() as int] == code_gen.trace@.subrange(
                0,
                entered.len() as int,
            )[old(code_gen).trace@.len() as int]);
            lemma_extends_trans(old(code_gen).functions@, with_fn, code_gen.functions@);
            let k = old(code_gen).functions@.len() as int;
            assert(code_gen.functions@[k] == code_gen.functions@.subrange(0, with_fn.len() as int)[k]);
            assert(declares(*self, k, code_gen.functions@));
        }
        body_result?;
        let ghost prologue = entry + param_insts(self.params@.len());
        let ghost after_body = emitted(code_gen.builder);
        proof {
            lemma_extends_refl(prologue);
            lemma_extends_trans(prologue, emitted(before_body.builder), after_body);
        }
        if !code_gen.current_block_has_terminator() {
            match return_type {
                None => {
                    built(build_return_void(&mut code_gen.builder))?;
                    proof {
                        lemma_extends_push(prologue, after_body, Inst::Return { value: false });
                    }
                },
                Some(t) => {
                    let default_value = match classify_type(t) {
                        TypeClass::Int(int_ty) => int_value_basic(const_int(int_ty, 0)),
                        TypeClass::Float(float_ty) => float_value_basic(float_zero(float_ty)),
                        TypeClass::Pointer(ptr_ty) => pointer_value_basic(null_pointer(ptr_ty)),
                        _ => return fail(
                            "Missing explicit return statement for this return type.",
                        ),
                    };
                    built(build_return_value(&mut code_gen.builder, default_value))?;
                    proof {
                        lemma_extends_push(prologue, after_body, Inst::Return { value: true });
                    }
                },
            }
        }
        proof {
            assert(prologue =~= emitted(old(code_gen).builder) + seq![
                Inst::PositionAt { block: old(code_gen).next_label },
            ] + param_insts(self.params@.len()));
        }
        Ok(handle)
    }
}

/// What storing `n` parameters in slots of their own emits: an `alloca`
/// and a store for each.
pub open spec fn param_insts(n: nat) -> Seq<Inst>
    decreases n,
{
    if n == 0 {
        Seq::empty()
    } else {
        param_insts((n - 1) as nat) + seq![Inst::Alloca, Inst::Store]
    }
}

/// `functions[k]` is the function that `f` declares: its name, one
/// parameter per declared parameter, and a return value unless it returns
/// `void`.
pub open spec fn declares<'ctx>(f: FunctionDecl, k: int, functions: Seq<Function<'ctx>>) -> bool {
    &&& 0 <= k < functions.len()
    &&& functions[k].name@ == f.name@
    &&& functions[k].params@.len() == f.params@.len()
    &&& (functions[k].ret is None <==> f.return_type == Type::Void)
}

/// A function item has a function of the module that it declares.
pub open spec fn item_defined<'ctx>(item: Item, functions: Seq<Function<'ctx>>) -> bool {
    match item {
        Item::Function(f) => exists|k: int| declares(f, k, functions),
        _ => true,
    }
}

proof fn lemma_item_defined_kept<'ctx>(item: Item, a: Seq<Function<'ctx>>, b: Seq<Function<'ctx>>)
    requires
        extends(a, b),
        item_defined(item, a),
    ensures
        item_defined(item, b),
{
    if let Item::Function(f) = item {
        let k = choose|k: int| declares(f, k, a);
        assert(b[k] == b.subrange(0, a.len() as int)[k]);
        assert(declares(f, k, b));
    }
}

/// A top-level item that cannot be generated: a global whose type cannot
/// be stored, that has no value, or whose value the type rules reject; a
/// function with a parameter type that cannot be stored, or with a return
/// type that is an array or has no LLVM type.
pub open spec fn item_refused<P>(item: Item, scopes: Seq<Map<Seq<char>, Binding<P>>>) -> bool {
    match item {
        Item::Global(g) => {
            ||| !storable(g.ty)
            ||| g.value is None
            ||| (g.value matches Some(v) && typing_of(v, scopes) is Rejected)
        },
        Item::Function(f) => {
            ||| (exists|i: int| 0 <= i < f.params@.len() && !storable(#[trigger] f.params@[i].ty))
            ||| f.return_type is Array
            ||| !lowerable(f.return_type)
        },
        Item::Statement(_) => false,
    }
}

/// `trace` holds the event of generating `item`: the function or global of
/// its name added to the module.
pub open spec fn item_emitted<P, B>(item: Item, trace: Seq<Event<P, B>>) -> bool {
    match item {
        Item::Function(f) => occurs_in(trace, Event::<P, B>::Function { name: f.name@ }),
        Item::Global(g) => occurs_in(trace, Event::<P, B>::Global { name: g.name@ }),
        Item::Statement(_) => true,
    }
}

proof fn lemma_item_emitted_kept<P, B>(item: Item, a: Seq<Event<P, B>>, b: Seq<Event<P, B>>)
    requires
        extends(a, b),
        item_emitted(item, a),
    ensures
        item_emitted(item, b),
{
    match item {
        Item::Function(f) => {
            let k = choose|k: int|
                0 <= k < a.len() && a[k] == Event::<P, B>::Function { name: f.name@ };
            assert(b[k] == b.subrange(0, a.len() as int)[k]);
        },
        Item::Global(g) => {
            let k = choose|k: int|
                0 <= k < a.len() && a[k] == Event::<P, B>::Global { name: g.name@ };
            assert(b[k] == b.subrange(0, a.len() as int)[k]);
        },
        Item::Statement(_) => {},
    }
}

/// Adds `int main()` calling `run` where the module defines `run` and no
/// `main`.
fn build_main_wrapper<'ctx>(code_gen: &mut Codegen<'ctx>) -> (r: Result<(), String>)
    ensures
        final(code_gen).trace@ == old(code_gen).trace@.push(Event::MainWrapper),
        final(code_gen).symbol_table == old(code_gen).symbol_table,
        final(code_gen).loop_stack == old(code_gen).loop_stack,
        extends(old(code_gen).functions@, final(code_gen).functions@),
        (exists|k: int|
            0 <= k < old(code_gen).functions@.len() && #[trigger] old(code_gen).functions@[k].name@
                == "main"@) || (forall|k: int|
            0 <= k < old(code_gen).functions@.len() ==> #[trigger] old(code_gen).functions@[k].name@
                != "run"@) ==> (r is Ok && final(code_gen).functions == old(code_gen).functions
            && final(code_gen).builder == old(code_gen).builder),
        r is Ok && final(code_gen).functions@.len() != old(code_gen).functions@.len() ==> {
            let main = final(code_gen).functions@.last();
            &&& final(code_gen).functions@.len() == old(code_gen).functions@.len() + 1
            &&& main.name@ == "main"@
            &&& main.params@.len() == 0
            &&& main.ret is Some
            &&& emitted(final(code_gen).builder) == emitted(old(code_gen).builder) + seq![
                Inst::PositionAt { block: old(code_gen).next_label },
                Inst::Call { args: 0 },
                Inst::Return { value: true },
            ]
        },
{
    proof {
        lemma_extends_refl(code_gen.functions@);
    }
    code_gen.trace = Ghost(code_gen.trace@.push(Event::MainWrapper));
    if find_function(&code_gen.functions, "main").is_some() {
        return Ok(());
    }
    let run_index = match find_function(&code_gen.functions, "run") {
        Some(i) => i,
        None => return Ok(()),
    };
    let c = code_gen.context;
    let i32_type = int_type(c, 32);
    let no_params: Vec<BasicTypeEnum<'ctx>> = Vec::new();
    let (main_function, _params) = add_function(
        c,
        &code_gen.module,
        "main",
        Some(int_type_basic(i32_type)),
        &no_params,
        false,
    );
    let entry_block = code_gen.new_block(main_function.value, "entry");
    let ghost before = code_gen.functions@;
    code_gen.functions.push(main_function);
    proof {
        assert(code_gen.functions@.subrange(0, before.len() as int) =~= before);
    }
    let ghost start = emitted(code_gen.builder);
    position_at_end(&mut code_gen.builder, entry_block);
    let no_args: Vec<BasicMetadataValueEnum<'ctx>> = Vec::new();
    built(build_call(&mut code_gen.builder, &code_gen.functions[run_index], &no_args, "run_call"))?;
    built(build_return_value(&mut code_gen.builder, int_value_basic(const_int(i32_type, 0))))?;
    proof {
        assert(emitted(code_gen.builder) =~= start + seq![
            Inst::PositionAt { block: entry_block.label },
            Inst::Call { args: 0 },
            Inst::Return { value: true },
        ]);
    }
    Ok(())
}

impl Program {
    /// Generates the module: the built-in declarations, every global and
    /// function in order, each function seeing the globals declared before
    /// it, and a `main` that calls `run` if there is none;
    /// then checks the module with LLVM's verifier. A top-level statement
    /// produces nothing. Globals are initialized with the builder inside a
    /// private function of its own, which is then closed with `ret void`.
    pub fn build<'ctx>(&self, code_gen: &mut Codegen<'ctx>) -> (r: Result<(), String>)
        requires
            old(code_gen).wf(),
        ensures
            final(code_gen).wf(),
            final(code_gen).symbol_table@ == old(code_gen).symbol_table@,
            final(code_gen).loop_stack@ == old(code_gen).loop_stack@,
            (exists|i: int|
                0 <= i < self.items@.len() && item_refused(
                    #[trigger] self.items@[i],
                    old(code_gen).symbol_table@,
                )) ==> r is Err,
            r is Ok ==> (final(code_gen).trace@.len() > 0 && (final(code_gen).trace@.last() is MainWrapper)),
            r is Ok ==> forall|j: int|
                0 <= j < self.items@.len() ==> item_emitted(
                    #[trigger] self.items@[j],
                    final(code_gen).trace@,
                ),
            r is Ok ==> forall|j: int|
                0 <= j < self.items@.len() ==> item_defined(
                    #[trigger] self.items@[j],
                    final(code_gen).functions@,
                ),
    {
        declare_builtin_functions(code_gen);
        let c = code_gen.context;
        let no_params: Vec<BasicTypeEnum<'ctx>> = Vec::new();
        let (sandbox, _params) = add_function(
            c,
            &code_gen.module,
            "__global_init_sandbox",
            None,
            &no_params,
            false,
        );
        function_set_private(&sandbox);
        let sandbox_block = code_gen.new_block(sandbox.value, "sandbox");
        code_gen.functions.push(sandbox);
        code_gen.return_type = None;
        position_at_end(&mut code_gen.builder, sandbox_block);
        let mut globals: Vec<(String, Binding<PointerValue<'ctx>>)> = Vec::new();
        let mut i: usize = 0;
        while i < self.items.len()
            invariant
                code_gen.wf(),
                code_gen.symbol_table@ == old(code_gen).symbol_table@,
                code_gen.loop_stack@ == old(code_gen).loop_stack@,
                i <= self.items@.len(),
                forall|j: int|
                    0 <= j < i ==> !item_refused(
                        #[trigger] self.items@[j],
                        old(code_gen).symbol_table@,
                    ),
                forall|j: int| 0 <= j < i ==> item_emitted(#[trigger] self.items@[j], code_gen.trace@),
                forall|j: int|
                    0 <= j < i ==> item_defined(#[trigger] self.items@[j], code_gen.functions@),
            decreases self.items.len() - i,
        {
            let ghost before = code_gen.trace@;
            let ghost table = code_gen.functions@;
            let _item = match &self.items[i] {
                Item::Global(global_declaration) => {
                    let g = global_declaration.build_global(code_gen)?;
                    globals.push(
                        (
                            global_declaration.name.clone(),
                            Binding { ptr: global_pointer(g), ty: global_declaration.ty.duplicate() },
                        ),
                    );
                    code_gen.trace = Ghost(
                        code_gen.trace@.push(Event::Global { name: global_declaration.name@ }),
                    );
                    proof {
                        assert(code_gen.trace@.subrange(0, before.len() as int) =~= before);
                        assert(code_gen.trace@[before.len() as int] == Event::<
                            PointerValue<'ctx>,
                            Block<'ctx>,
                        >::Global { name: global_declaration.name@ });
                    }
                    Components::Global(g)
                },
                Item::Function(func_def) => match func_def.build_function(code_gen, &globals) {
                    Ok(f) => {
                        proof {
                            assert(declares(*func_def, table.len() as int, code_gen.functions@));
                            assert(item_defined(self.items@[i as int], code_gen.functions@));
                            assert(code_gen.trace@[before.len() as int] == Event::<
                                PointerValue<'ctx>,
                                Block<'ctx>,
                            >::Function { name: func_def.name@ });
                        }
                        Components::Function(f)
                    },
                    Err(e) => return fail_about(
                        "Compiler Error: Failed to build function: ",
                        e.as_str(),
                    ),
                },
                Item::Statement(_) => {
                    i += 1;
                    continue;
                },
            };
            proof {
                assert forall|j: int| 0 <= j < i implies item_emitted(
                    #[trigger] self.items@[j],
                    code_gen.trace@,
                ) by {
                    lemma_item_emitted_kept(self.items@[j], before, code_gen.trace@);
                }
                assert forall|j: int| 0 <= j < i implies item_defined(
                    #[trigger] self.items@[j],
                    code_gen.functions@,
                ) by {
                    lemma_extends_refl(table);
                    lemma_item_defined_kept(self.items@[j], table, code_gen.functions@);
                }
            }
            i += 1;
        }
        position_at_end(&mut code_gen.builder, sandbox_block);
        built(build_return_void(&mut code_gen.builder))?;
        let ghost before_main = code_gen.trace@;
        let ghost table_before_main = code_gen.functions@;
        build_main_wrapper(code_gen)?;
        proof {
            assert(code_gen.trace@.subrange(0, before_main.len() as int) =~= before_main);
            assert forall|j: int| 0 <= j < self.items@.len() implies item_emitted(
                #[trigger] self.items@[j],
                code_gen.trace@,
            ) by {
                lemma_item_emitted_kept(self.items@[j], before_main, code_gen.trace@);
            }
            assert forall|j: int| 0 <= j < self.items@.len() implies item_defined(
                #[trigger] self.items@[j],
                code_gen.functions@,
            ) by {
                lemma_item_defined_kept(self.items@[j], table_before_main, code_gen.functions@);
            }
        }
        assert(code_gen.trace@.last() == Event::<PointerValue<'ctx>, Block<'ctx>>::MainWrapper);
        match module_verify(&code_gen.module) {
            Ok(()) => Ok(()),
            Err(e) => fail_about(
                "Compiler Error: Generated LLVM module failed verification: ",
                e.as_str(),
            ),
        }
    }
}

} // verus!
