//! The calls into `inkwell` that code generation makes. LLVM's objects are
//! opaque handles here. What the builder is asked for is recorded, as plain
//! data, in `emitted`: every `build_*` wrapper states the one instruction it
//! adds there, and the generator's contracts state the whole sequence each
//! construct asks for. Functions are made only by `add_function`, so calls
//! and parameters never meet a type that inkwell cannot represent.
use inkwell::basic_block::BasicBlock;
use inkwell::builder::{Builder, BuilderError};
use inkwell::context::Context;
use inkwell::module::{Linkage, Module};
use inkwell::types::{
    ArrayType, BasicMetadataTypeEnum, BasicType, BasicTypeEnum, FloatType, IntType,
    PointerType,
};
use inkwell::values::{
    ArrayValue, BasicMetadataValueEnum, BasicValueEnum, FloatValue, FunctionValue,
    GlobalValue, InstructionValue, IntValue, PointerValue,
};
use inkwell::{AddressSpace, FloatPredicate, IntPredicate};
use crate::ir::ArithOp;
use vstd::prelude::*;

verus! {

#[verifier::external_type_specification]
#[verifier::external_body]
pub struct ExContext(Context);

#[verifier::external_type_specification]
#[verifier::external_body]
pub struct ExModule<'ctx>(Module<'ctx>);

#[verifier::external_type_specification]
#[verifier::external_body]
pub struct ExBuilder<'ctx>(Builder<'ctx>);

#[verifier::external_type_specification]
#[verifier::external_body]
pub struct ExBuilderError(BuilderError);

#[verifier::external_type_specification]
#[verifier::external_body]
pub struct ExBasicBlock<'ctx>(BasicBlock<'ctx>);

#[verifier::external_type_specification]
#[verifier::external_body]
pub struct ExFunctionValue<'ctx>(FunctionValue<'ctx>);

#[verifier::external_type_specification]
#[verifier::external_body]
pub struct ExGlobalValue<'ctx>(GlobalValue<'ctx>);

#[verifier::external_type_specification]
#[verifier::external_body]
pub struct ExInstructionValue<'ctx>(InstructionValue<'ctx>);

#[verifier::external_type_specification]
#[verifier::external_body]
pub struct ExBasicValueEnum<'ctx>(BasicValueEnum<'ctx>);

#[verifier::external_type_specification]
#[verifier::external_body]
pub struct ExBasicMetadataValueEnum<'ctx>(BasicMetadataValueEnum<'ctx>);

#[verifier::external_type_specification]
#[verifier::external_body]
pub struct ExIntValue<'ctx>(IntValue<'ctx>);

#[verifier::external_type_specification]
#[verifier::external_body]
pub struct ExFloatValue<'ctx>(FloatValue<'ctx>);

#[verifier::external_type_specification]
#[verifier::external_body]
pub struct ExPointerValue<'ctx>(PointerValue<'ctx>);

#[verifier::external_type_specification]
#[verifier::external_body]
pub struct ExArrayValue<'ctx>(ArrayValue<'ctx>);

#[verifier::external_type_specification]
#[verifier::external_body]
pub struct ExBasicTypeEnum<'ctx>(BasicTypeEnum<'ctx>);

#[verifier::external_type_specification]
#[verifier::external_body]
pub struct ExIntType<'ctx>(IntType<'ctx>);

#[verifier::external_type_specification]
#[verifier::external_body]
pub struct ExFloatType<'ctx>(FloatType<'ctx>);

#[verifier::external_type_specification]
#[verifier::external_body]
pub struct ExPointerType<'ctx>(PointerType<'ctx>);

#[verifier::external_type_specification]
#[verifier::external_body]
pub struct ExArrayType<'ctx>(ArrayType<'ctx>);

/// The kind of an LLVM value, with the value itself.
pub enum ValueClass<'ctx> {
    Int(IntValue<'ctx>),
    Float(FloatValue<'ctx>),
    Pointer(PointerValue<'ctx>),
    Array(ArrayValue<'ctx>),
    Other,
}

/// The kind of an LLVM first-class type, with the type itself.
pub enum TypeClass<'ctx> {
    Int(IntType<'ctx>),
    Float(FloatType<'ctx>),
    Pointer(PointerType<'ctx>),
    Array(ArrayType<'ctx>),
    Other,
}

/// The integer comparisons the generator emits.
pub enum IntCmp {
    Eq,
    Ne,
    Sgt,
    Sge,
    Slt,
    Sle,
    Ugt,
    Uge,
    Ult,
    Ule,
}

/// The (ordered) floating-point comparisons the generator emits.
pub enum FloatCmp {
    Oeq,
    One,
    Ogt,
    Oge,
    Olt,
    Ole,
}

/// An instruction the generator asked the builder for, as plain data.
pub ghost enum Inst {
    Arith(ArithOp),
    IntCompare(IntCmp),
    FloatCompare(FloatCmp),
    /// A load of a value of a given type; where the pointer points to
    /// another type, LLVM 14's typed pointers make it a bitcast of the
    /// pointer followed by the load.
    Load,
    Store,
    Alloca,
    Call { args: nat },
    Return { value: bool },
    /// An unconditional branch to the block labelled `target`.
    Branch { target: u64 },
    /// A conditional branch to the block labelled `then_block` where the
    /// condition holds and to the one labelled `else_block` otherwise.
    CondBranch { then_block: u64, else_block: u64 },
    ZExt,
    FloatExt,
    PointerCast,
    PtrToInt,
    IntToPtr,
    BitCast,
    GlobalString { text: Seq<char> },
    /// The builder moved to the end of the block labelled `block`.
    PositionAt { block: u64 },
}

/// The instructions asked of `b` through the wrappers below, in order: each
/// `build_*` wrapper that succeeds adds its instruction, one that fails adds
/// nothing, and `position_at_end` adds `PositionAt`. Blocks are named by
/// the labels they were made with (see `Block`).
pub uninterp spec fn emitted(b: Builder<'_>) -> Seq<Inst>;

/// The builder has been moved to a block. Every builder method called here
/// fails only with `BuilderError::UnsetPosition`, while no block has been
/// set; `position_at_end` sets one and nothing here unsets it, so once
/// positioned, every `build_*` wrapper succeeds.
#[verifier::opaque]
pub open spec fn positioned(log: Seq<Inst>) -> bool {
    exists|i: int| 0 <= i < log.len() && log[i] is PositionAt
}

/// A function of the module, made by `add_function`: the name it was added
/// under (LLVM gives it that name, with a numeric suffix where the module
/// already has a function of that name), its parameter types and its return
/// type, all first-class, and its handle.
pub struct Function<'ctx> {
    pub name: String,
    pub params: Vec<BasicTypeEnum<'ctx>>,
    pub ret: Option<BasicTypeEnum<'ctx>>,
    pub value: FunctionValue<'ctx>,
}

/// `Module::add_function` (default linkage) of a function from `params` to
/// `ret` (to nothing where `ret` is `None`), its type made by
/// `BasicType::fn_type` or `VoidType::fn_type`; and `FunctionValue::get_params`,
/// its parameters. Claimed: the record holds the name, the parameter types
/// and the return type the function was added with, and there is one
/// parameter value per type.
#[verifier::external_body]
pub(crate) fn add_function<'ctx>(
    c: &'ctx Context,
    m: &Module<'ctx>,
    name: &str,
    ret: Option<BasicTypeEnum<'ctx>>,
    params: &Vec<BasicTypeEnum<'ctx>>,
    var_args: bool,
) -> (r: (Function<'ctx>, Vec<BasicValueEnum<'ctx>>))
    ensures
        r.0.name@ == name@,
        r.0.params@ == params@,
        r.0.ret == ret,
        r.1@.len() == params@.len(),
{
    let meta: Vec<BasicMetadataTypeEnum<'ctx>> = params.iter().map(|t| (*t).into()).collect();
    let fn_type = match ret {
        Some(t) => t.fn_type(&meta, var_args),
        None => c.void_type().fn_type(&meta, var_args),
    };
    let value = m.add_function(name, fn_type, None);
    let args = value.get_params();
    (Function { name: name.to_string(), params: params.clone(), ret, value }, args)
}

/// `FunctionValue::set_linkage` with private linkage.
#[verifier::external_body]
pub(crate) fn function_set_private<'ctx>(f: &Function<'ctx>) {
    f.value.set_linkage(Linkage::Private)
}

// ---- context ----

/// `Context::create_module`: a new, empty module named `name`.
#[verifier::external_body]
pub(crate) fn create_module<'ctx>(c: &'ctx Context, name: &str) -> Module<'ctx> {
    c.create_module(name)
}

/// `Context::create_builder`: a new instruction builder, not yet positioned;
/// nothing has been asked of it.
#[verifier::external_body]
pub(crate) fn create_builder<'ctx>(c: &'ctx Context) -> (r: Builder<'ctx>)
    ensures
        emitted(r) == Seq::<Inst>::empty(),
{
    c.create_builder()
}

/// `Context::custom_width_int_type`: the integer type of `bits` bits. LLVM
/// takes widths from 1 on; the generator asks for at most 64.
#[verifier::external_body]
pub(crate) fn int_type<'ctx>(c: &'ctx Context, bits: u32) -> IntType<'ctx>
    requires
        1 <= bits <= 64,
{
    c.custom_width_int_type(bits)
}

/// `Context::f32_type`.
#[verifier::external_body]
pub(crate) fn f32_type<'ctx>(c: &'ctx Context) -> FloatType<'ctx> {
    c.f32_type()
}

/// `Context::f64_type`.
#[verifier::external_body]
pub(crate) fn f64_type<'ctx>(c: &'ctx Context) -> FloatType<'ctx> {
    c.f64_type()
}


/// A basic block, with the label the generator gave it when it was made.
#[derive(Clone, Copy)]
pub struct Block<'ctx> {
    pub handle: BasicBlock<'ctx>,
    pub label: u64,
}

/// `Context::append_basic_block`: a new block at the end of `f`, kept with
/// `label`.
#[verifier::external_body]
pub(crate) fn append_basic_block<'ctx>(
    c: &'ctx Context,
    f: FunctionValue<'ctx>,
    name: &str,
    label: u64,
) -> (r: Block<'ctx>)
    ensures
        r.label == label,
{
    Block { handle: c.append_basic_block(f, name), label }
}

// ---- types ----

/// `IntType` into `BasicTypeEnum` (inkwell's `From`).
#[verifier::external_body]
pub(crate) fn int_type_basic<'ctx>(t: IntType<'ctx>) -> BasicTypeEnum<'ctx> {
    t.into()
}

/// `FloatType` into `BasicTypeEnum` (inkwell's `From`).
#[verifier::external_body]
pub(crate) fn float_type_basic<'ctx>(t: FloatType<'ctx>) -> BasicTypeEnum<'ctx> {
    t.into()
}

/// `PointerType` into `BasicTypeEnum` (inkwell's `From`).
#[verifier::external_body]
pub(crate) fn pointer_type_basic<'ctx>(t: PointerType<'ctx>) -> BasicTypeEnum<'ctx> {
    t.into()
}

/// `ArrayType` into `BasicTypeEnum` (inkwell's `From`).
#[verifier::external_body]
pub(crate) fn array_type_basic<'ctx>(t: ArrayType<'ctx>) -> BasicTypeEnum<'ctx> {
    t.into()
}

/// `BasicType::ptr_type` in the default address space: the type of a
/// pointer to `t`.
#[verifier::external_body]
pub(crate) fn pointer_to<'ctx>(t: BasicTypeEnum<'ctx>) -> PointerType<'ctx> {
    t.ptr_type(AddressSpace::default())
}

/// `BasicType::array_type`: the type of `n` values of type `t`.
#[verifier::external_body]
pub(crate) fn array_of<'ctx>(t: BasicTypeEnum<'ctx>, n: u32) -> ArrayType<'ctx> {
    t.array_type(n)
}


/// The variant of a `BasicTypeEnum`.
#[verifier::external_body]
pub(crate) fn classify_type<'ctx>(t: BasicTypeEnum<'ctx>) -> TypeClass<'ctx> {
    match t {
        BasicTypeEnum::IntType(x) => TypeClass::Int(x),
        BasicTypeEnum::FloatType(x) => TypeClass::Float(x),
        BasicTypeEnum::PointerType(x) => TypeClass::Pointer(x),
        BasicTypeEnum::ArrayType(x) => TypeClass::Array(x),
        BasicTypeEnum::StructType(_) => TypeClass::Other,
        BasicTypeEnum::VectorType(_) => TypeClass::Other,
    }
}

/// `IntType::get_bit_width`.
#[verifier::external_body]
pub(crate) fn int_type_width<'ctx>(t: IntType<'ctx>) -> u32 {
    t.get_bit_width()
}

/// `FloatType::print_to_string`, as a `String`: the type's name in LLVM's
/// textual IR.
#[verifier::external_body]
pub(crate) fn float_type_text<'ctx>(t: FloatType<'ctx>) -> String {
    t.print_to_string().to_string()
}

/// `ArrayType::len`.
#[verifier::external_body]
pub(crate) fn array_type_len<'ctx>(t: ArrayType<'ctx>) -> u32 {
    t.len()
}

/// `ArrayType::get_element_type`.
#[verifier::external_body]
pub(crate) fn array_type_element<'ctx>(t: ArrayType<'ctx>) -> BasicTypeEnum<'ctx> {
    t.get_element_type()
}

/// `BasicTypeEnum`'s `==`: whether two handles denote the same LLVM type.
#[verifier::external_body]
pub(crate) fn same_llvm_type<'ctx>(a: BasicTypeEnum<'ctx>, b: BasicTypeEnum<'ctx>) -> bool {
    a == b
}

/// `BasicType::size_of`: the size of `t` as a constant expression, if LLVM
/// can give one.
#[verifier::external_body]
pub(crate) fn type_size<'ctx>(t: BasicTypeEnum<'ctx>) -> Option<IntValue<'ctx>> {
    t.size_of()
}

/// `IntType::const_int`, zero-extending `v`.
#[verifier::external_body]
pub(crate) fn const_int<'ctx>(t: IntType<'ctx>, v: u64) -> IntValue<'ctx> {
    t.const_int(v, false)
}

/// `IntType::const_array`: a constant array of `t` holding `vals`.
#[verifier::external_body]
pub(crate) fn int_const_array<'ctx>(t: IntType<'ctx>, vals: &Vec<IntValue<'ctx>>) -> ArrayValue<
    'ctx,
> {
    t.const_array(vals.as_slice())
}

/// `FloatType::const_array`: a constant array of `t` holding `vals`.
#[verifier::external_body]
pub(crate) fn float_const_array<'ctx>(
    t: FloatType<'ctx>,
    vals: &Vec<FloatValue<'ctx>>,
) -> ArrayValue<'ctx> {
    t.const_array(vals.as_slice())
}

/// `FloatType::const_zero`.
#[verifier::external_body]
pub(crate) fn float_zero<'ctx>(t: FloatType<'ctx>) -> FloatValue<'ctx> {
    t.const_zero()
}

/// `PointerType::const_null`.
#[verifier::external_body]
pub(crate) fn null_pointer<'ctx>(t: PointerType<'ctx>) -> PointerValue<'ctx> {
    t.const_null()
}

/// `IntValue::const_to_pointer`: the constant integer `v` as a pointer of
/// type `t`.
#[verifier::external_body]
pub(crate) fn const_int_to_pointer<'ctx>(v: IntValue<'ctx>, t: PointerType<'ctx>) -> PointerValue<
    'ctx,
> {
    v.const_to_pointer(t)
}

// ---- values ----

/// The variant of a `BasicValueEnum`.
#[verifier::external_body]
pub(crate) fn classify_value<'ctx>(v: BasicValueEnum<'ctx>) -> ValueClass<'ctx> {
    match v {
        BasicValueEnum::IntValue(x) => ValueClass::Int(x),
        BasicValueEnum::FloatValue(x) => ValueClass::Float(x),
        BasicValueEnum::PointerValue(x) => ValueClass::Pointer(x),
        BasicValueEnum::ArrayValue(x) => ValueClass::Array(x),
        BasicValueEnum::StructValue(_) => ValueClass::Other,
        BasicValueEnum::VectorValue(_) => ValueClass::Other,
    }
}

/// `IntValue` into `BasicValueEnum` (inkwell's `From`).
#[verifier::external_body]
pub(crate) fn int_value_basic<'ctx>(v: IntValue<'ctx>) -> BasicValueEnum<'ctx> {
    v.into()
}

/// `FloatValue` into `BasicValueEnum` (inkwell's `From`).
#[verifier::external_body]
pub(crate) fn float_value_basic<'ctx>(v: FloatValue<'ctx>) -> BasicValueEnum<'ctx> {
    v.into()
}

/// `PointerValue` into `BasicValueEnum` (inkwell's `From`).
#[verifier::external_body]
pub(crate) fn pointer_value_basic<'ctx>(v: PointerValue<'ctx>) -> BasicValueEnum<'ctx> {
    v.into()
}

/// `ArrayValue` into `BasicValueEnum` (inkwell's `From`).
#[verifier::external_body]
pub(crate) fn array_value_basic<'ctx>(v: ArrayValue<'ctx>) -> BasicValueEnum<'ctx> {
    v.into()
}

/// `BasicValueEnum::get_type`.
#[verifier::external_body]
pub(crate) fn value_type<'ctx>(v: BasicValueEnum<'ctx>) -> BasicTypeEnum<'ctx> {
    v.get_type()
}

/// `IntValue::get_type`.
#[verifier::external_body]
pub(crate) fn int_value_type<'ctx>(v: IntValue<'ctx>) -> IntType<'ctx> {
    v.get_type()
}

/// `BasicValueEnum` into `BasicMetadataValueEnum` (inkwell's `From`).
#[verifier::external_body]
pub(crate) fn metadata_value<'ctx>(v: BasicValueEnum<'ctx>) -> BasicMetadataValueEnum<'ctx> {
    v.into()
}

/// `GlobalValue::as_pointer_value`.
#[verifier::external_body]
pub(crate) fn global_pointer<'ctx>(g: GlobalValue<'ctx>) -> PointerValue<'ctx> {
    g.as_pointer_value()
}

/// `GlobalValue::set_linkage` with external linkage.
#[verifier::external_body]
pub(crate) fn global_set_external<'ctx>(g: GlobalValue<'ctx>) {
    g.set_linkage(Linkage::External)
}

/// `GlobalValue::set_initializer`.
#[verifier::external_body]
pub(crate) fn global_set_initializer<'ctx>(g: GlobalValue<'ctx>, v: BasicValueEnum<'ctx>) {
    g.set_initializer(&v)
}

/// `BasicBlock::get_parent`: the function that holds the block.
#[verifier::external_body]
pub(crate) fn block_parent<'ctx>(b: BasicBlock<'ctx>) -> Option<FunctionValue<'ctx>> {
    b.get_parent()
}

/// `BasicBlock::get_terminator`, as whether there is one.
#[verifier::external_body]
pub(crate) fn block_has_terminator<'ctx>(b: BasicBlock<'ctx>) -> bool {
    b.get_terminator().is_some()
}

// ---- module ----

/// `Module::add_global` in the default address space.
#[verifier::external_body]
pub(crate) fn module_add_global<'ctx>(
    m: &Module<'ctx>,
    t: BasicTypeEnum<'ctx>,
    name: &str,
) -> GlobalValue<'ctx> {
    m.add_global(t, None, name)
}

/// `Module::verify`, with LLVM's report as a `String`.
#[verifier::external_body]
pub(crate) fn module_verify<'ctx>(m: &Module<'ctx>) -> Result<(), String> {
    m.verify().map_err(|e| e.to_string())
}

// ---- builder ----

/// `Builder::position_at_end`.
#[verifier::external_body]
pub(crate) fn position_at_end<'ctx>(b: &mut Builder<'ctx>, block: Block<'ctx>)
    ensures
        emitted(*final(b)) == emitted(*old(b)).push(Inst::PositionAt { block: block.label }),
{
    b.position_at_end(block.handle)
}

/// `Builder::get_insert_block`.
#[verifier::external_body]
pub(crate) fn insert_block<'ctx>(b: &Builder<'ctx>) -> Option<BasicBlock<'ctx>> {
    b.get_insert_block()
}

/// `Builder::build_return` with no value.
#[verifier::external_body]
pub(crate) fn build_return_void<'ctx>(b: &mut Builder<'ctx>) -> (r: Result<InstructionValue<'ctx>, BuilderError>)
    ensures
        r is Ok ==> emitted(*final(b)) == emitted(*old(b)).push(Inst::Return { value: false }),
        r is Err ==> emitted(*final(b)) == emitted(*old(b)),
        positioned(emitted(*old(b))) ==> r is Ok,
{
    b.build_return(None)
}

/// `Builder::build_return` with a value.
#[verifier::external_body]
pub(crate) fn build_return_value<'ctx>(b: &mut Builder<'ctx>, v: BasicValueEnum<'ctx>) -> (r: Result<InstructionValue<'ctx>, BuilderError>)
    ensures
        r is Ok ==> emitted(*final(b)) == emitted(*old(b)).push(Inst::Return { value: true }),
        r is Err ==> emitted(*final(b)) == emitted(*old(b)),
        positioned(emitted(*old(b))) ==> r is Ok,
{
    b.build_return(Some(&v))
}

/// `Builder::build_call` of a function that `add_function` made, with
/// `CallSiteValue::try_as_basic_value` for the value it produces (`None`
/// for a function returning nothing). Such a function returns a first-class
/// type or nothing, so the call's value is never of another kind. Claimed:
/// one call with these arguments is emitted, or nothing where inkwell
/// refuses.
#[verifier::external_body]
pub(crate) fn build_call<'ctx>(
    b: &mut Builder<'ctx>,
    f: &Function<'ctx>,
    args: &Vec<BasicMetadataValueEnum<'ctx>>,
    name: &str,
) -> (r: Result<Option<BasicValueEnum<'ctx>>, BuilderError>)
    ensures
        r is Ok ==> emitted(*final(b)) == emitted(*old(b)).push(Inst::Call { args: args@.len() }),
        r is Err ==> emitted(*final(b)) == emitted(*old(b)),
        positioned(emitted(*old(b))) ==> r is Ok,
{
    match b.build_call(f.value, args.as_slice(), name) {
        Ok(call_site) => Ok(call_site.try_as_basic_value().left()),
        Err(e) => Err(e),
    }
}

/// `Builder::build_alloca`.
#[verifier::external_body]
pub(crate) fn build_alloca<'ctx>(b: &mut Builder<'ctx>, t: BasicTypeEnum<'ctx>, name: &str) -> (r: Result<PointerValue<'ctx>, BuilderError>)
    ensures
        r is Ok ==> emitted(*final(b)) == emitted(*old(b)).push(Inst::Alloca),
        r is Err ==> emitted(*final(b)) == emitted(*old(b)),
        positioned(emitted(*old(b))) ==> r is Ok,
{
    b.build_alloca(t, name)
}

/// `Builder::build_store`.
#[verifier::external_body]
pub(crate) fn build_store<'ctx>(
    b: &mut Builder<'ctx>,
    ptr: PointerValue<'ctx>,
    v: BasicValueEnum<'ctx>,
) -> (r: Result<InstructionValue<'ctx>, BuilderError>)
    ensures
        r is Ok ==> emitted(*final(b)) == emitted(*old(b)).push(Inst::Store),
        r is Err ==> emitted(*final(b)) == emitted(*old(b)),
        positioned(emitted(*old(b))) ==> r is Ok,
{
    b.build_store(ptr, v)
}

/// `Builder::build_load` of a value of type `t`: the pointer is first cast
/// to a pointer to `t` (`Builder::build_pointer_cast`, which LLVM folds away
/// where it already is one), as LLVM 18's typed load does, so the loaded
/// value is always of a first-class type. Claimed: the load is recorded as
/// one `Inst::Load`, or nothing is recorded where inkwell refuses; where
/// the cast succeeds and the load is refused, the cast stays unrecorded.
#[verifier::external_body]
pub(crate) fn build_load<'ctx>(
    b: &mut Builder<'ctx>,
    ptr: PointerValue<'ctx>,
    t: BasicTypeEnum<'ctx>,
    name: &str,
) -> (r: Result<BasicValueEnum<'ctx>, BuilderError>)
    ensures
        r is Ok ==> emitted(*final(b)) == emitted(*old(b)).push(Inst::Load),
        r is Err ==> emitted(*final(b)) == emitted(*old(b)),
        positioned(emitted(*old(b))) ==> r is Ok,
{
    let typed = b.build_pointer_cast(ptr, t.ptr_type(AddressSpace::default()), "load_ptr")?;
    b.build_load(typed, name)
}

/// `Builder::build_int_z_extend`.
#[verifier::external_body]
pub(crate) fn build_int_z_extend<'ctx>(
    b: &mut Builder<'ctx>,
    v: IntValue<'ctx>,
    t: IntType<'ctx>,
    name: &str,
) -> (r: Result<IntValue<'ctx>, BuilderError>)
    ensures
        r is Ok ==> emitted(*final(b)) == emitted(*old(b)).push(Inst::ZExt),
        r is Err ==> emitted(*final(b)) == emitted(*old(b)),
        positioned(emitted(*old(b))) ==> r is Ok,
{
    b.build_int_z_extend(v, t, name)
}

/// `Builder::build_int_add`.
#[verifier::external_body]
pub(crate) fn build_int_add<'ctx>(
    b: &mut Builder<'ctx>,
    l: IntValue<'ctx>,
    rhs: IntValue<'ctx>,
    name: &str,
) -> (r: Result<IntValue<'ctx>, BuilderError>)
    ensures
        r is Ok ==> emitted(*final(b)) == emitted(*old(b)).push(Inst::Arith(ArithOp::Add)),
        r is Err ==> emitted(*final(b)) == emitted(*old(b)),
        positioned(emitted(*old(b))) ==> r is Ok,
{
    b.build_int_add(l, rhs, name)
}

/// `Builder::build_int_sub`.
#[verifier::external_body]
pub(crate) fn build_int_sub<'ctx>(
    b: &mut Builder<'ctx>,
    l: IntValue<'ctx>,
    rhs: IntValue<'ctx>,
    name: &str,
) -> (r: Result<IntValue<'ctx>, BuilderError>)
    ensures
        r is Ok ==> emitted(*final(b)) == emitted(*old(b)).push(Inst::Arith(ArithOp::Sub)),
        r is Err ==> emitted(*final(b)) == emitted(*old(b)),
        positioned(emitted(*old(b))) ==> r is Ok,
{
    b.build_int_sub(l, rhs, name)
}

/// `Builder::build_int_mul`.
#[verifier::external_body]
pub(crate) fn build_int_mul<'ctx>(
    b: &mut Builder<'ctx>,
    l: IntValue<'ctx>,
    rhs: IntValue<'ctx>,
    name: &str,
) -> (r: Result<IntValue<'ctx>, BuilderError>)
    ensures
        r is Ok ==> emitted(*final(b)) == emitted(*old(b)).push(Inst::Arith(ArithOp::Mul)),
        r is Err ==> emitted(*final(b)) == emitted(*old(b)),
        positioned(emitted(*old(b))) ==> r is Ok,
{
    b.build_int_mul(l, rhs, name)
}

/// `Builder::build_int_signed_div`.
#[verifier::external_body]
pub(crate) fn build_int_signed_div<'ctx>(
    b: &mut Builder<'ctx>,
    l: IntValue<'ctx>,
    rhs: IntValue<'ctx>,
    name: &str,
) -> (r: Result<IntValue<'ctx>, BuilderError>)
    ensures
        r is Ok ==> emitted(*final(b)) == emitted(*old(b)).push(Inst::Arith(ArithOp::SDiv)),
        r is Err ==> emitted(*final(b)) == emitted(*old(b)),
        positioned(emitted(*old(b))) ==> r is Ok,
{
    b.build_int_signed_div(l, rhs, name)
}

/// `Builder::build_int_unsigned_div`.
#[verifier::external_body]
pub(crate) fn build_int_unsigned_div<'ctx>(
    b: &mut Builder<'ctx>,
    l: IntValue<'ctx>,
    rhs: IntValue<'ctx>,
    name: &str,
) -> (r: Result<IntValue<'ctx>, BuilderError>)
    ensures
        r is Ok ==> emitted(*final(b)) == emitted(*old(b)).push(Inst::Arith(ArithOp::UDiv)),
        r is Err ==> emitted(*final(b)) == emitted(*old(b)),
        positioned(emitted(*old(b))) ==> r is Ok,
{
    b.build_int_unsigned_div(l, rhs, name)
}

/// `Builder::build_int_compare`, the predicate given as an `IntCmp`.
#[verifier::external_body]
pub(crate) fn build_int_compare<'ctx>(
    b: &mut Builder<'ctx>,
    op: IntCmp,
    l: IntValue<'ctx>,
    rhs: IntValue<'ctx>,
    name: &str,
) -> (r: Result<IntValue<'ctx>, BuilderError>)
    ensures
        r is Ok ==> emitted(*final(b)) == emitted(*old(b)).push(Inst::IntCompare(op)),
        r is Err ==> emitted(*final(b)) == emitted(*old(b)),
        positioned(emitted(*old(b))) ==> r is Ok,
{
    let pred = match op {
        IntCmp::Eq => IntPredicate::EQ,
        IntCmp::Ne => IntPredicate::NE,
        IntCmp::Sgt => IntPredicate::SGT,
        IntCmp::Sge => IntPredicate::SGE,
        IntCmp::Slt => IntPredicate::SLT,
        IntCmp::Sle => IntPredicate::SLE,
        IntCmp::Ugt => IntPredicate::UGT,
        IntCmp::Uge => IntPredicate::UGE,
        IntCmp::Ult => IntPredicate::ULT,
        IntCmp::Ule => IntPredicate::ULE,
    };
    b.build_int_compare(pred, l, rhs, name)
}

/// `Builder::build_float_add`.
#[verifier::external_body]
pub(crate) fn build_float_add<'ctx>(
    b: &mut Builder<'ctx>,
    l: FloatValue<'ctx>,
    rhs: FloatValue<'ctx>,
    name: &str,
) -> (r: Result<FloatValue<'ctx>, BuilderError>)
    ensures
        r is Ok ==> emitted(*final(b)) == emitted(*old(b)).push(Inst::Arith(ArithOp::FAdd)),
        r is Err ==> emitted(*final(b)) == emitted(*old(b)),
        positioned(emitted(*old(b))) ==> r is Ok,
{
    b.build_float_add(l, rhs, name)
}

/// `Builder::build_float_sub`.
#[verifier::external_body]
pub(crate) fn build_float_sub<'ctx>(
    b: &mut Builder<'ctx>,
    l: FloatValue<'ctx>,
    rhs: FloatValue<'ctx>,
    name: &str,
) -> (r: Result<FloatValue<'ctx>, BuilderError>)
    ensures
        r is Ok ==> emitted(*final(b)) == emitted(*old(b)).push(Inst::Arith(ArithOp::FSub)),
        r is Err ==> emitted(*final(b)) == emitted(*old(b)),
        positioned(emitted(*old(b))) ==> r is Ok,
{
    b.build_float_sub(l, rhs, name)
}

/// `Builder::build_float_mul`.
#[verifier::external_body]
pub(crate) fn build_float_mul<'ctx>(
    b: &mut Builder<'ctx>,
    l: FloatValue<'ctx>,
    rhs: FloatValue<'ctx>,
    name: &str,
) -> (r: Result<FloatValue<'ctx>, BuilderError>)
    ensures
        r is Ok ==> emitted(*final(b)) == emitted(*old(b)).push(Inst::Arith(ArithOp::FMul)),
        r is Err ==> emitted(*final(b)) == emitted(*old(b)),
        positioned(emitted(*old(b))) ==> r is Ok,
{
    b.build_float_mul(l, rhs, name)
}

/// `Builder::build_float_div`.
#[verifier::external_body]
pub(crate) fn build_float_div<'ctx>(
    b: &mut Builder<'ctx>,
    l: FloatValue<'ctx>,
    rhs: FloatValue<'ctx>,
    name: &str,
) -> (r: Result<FloatValue<'ctx>, BuilderError>)
    ensures
        r is Ok ==> emitted(*final(b)) == emitted(*old(b)).push(Inst::Arith(ArithOp::FDiv)),
        r is Err ==> emitted(*final(b)) == emitted(*old(b)),
        positioned(emitted(*old(b))) ==> r is Ok,
{
    b.build_float_div(l, rhs, name)
}

/// `Builder::build_float_compare`, the predicate given as a `FloatCmp`.
#[verifier::external_body]
pub(crate) fn build_float_compare<'ctx>(
    b: &mut Builder<'ctx>,
    op: FloatCmp,
    l: FloatValue<'ctx>,
    rhs: FloatValue<'ctx>,
    name: &str,
) -> (r: Result<IntValue<'ctx>, BuilderError>)
    ensures
        r is Ok ==> emitted(*final(b)) == emitted(*old(b)).push(Inst::FloatCompare(op)),
        r is Err ==> emitted(*final(b)) == emitted(*old(b)),
        positioned(emitted(*old(b))) ==> r is Ok,
{
    let pred = match op {
        FloatCmp::Oeq => FloatPredicate::OEQ,
        FloatCmp::One => FloatPredicate::ONE,
        FloatCmp::Ogt => FloatPredicate::OGT,
        FloatCmp::Oge => FloatPredicate::OGE,
        FloatCmp::Olt => FloatPredicate::OLT,
        FloatCmp::Ole => FloatPredicate::OLE,
    };
    b.build_float_compare(pred, l, rhs, name)
}

/// `Builder::build_float_ext`.
#[verifier::external_body]
pub(crate) fn build_float_ext<'ctx>(
    b: &mut Builder<'ctx>,
    v: FloatValue<'ctx>,
    t: FloatType<'ctx>,
    name: &str,
) -> (r: Result<FloatValue<'ctx>, BuilderError>)
    ensures
        r is Ok ==> emitted(*final(b)) == emitted(*old(b)).push(Inst::FloatExt),
        r is Err ==> emitted(*final(b)) == emitted(*old(b)),
        positioned(emitted(*old(b))) ==> r is Ok,
{
    b.build_float_ext(v, t, name)
}

/// `Builder::build_conditional_branch`.
#[verifier::external_body]
pub(crate) fn build_conditional_branch<'ctx>(
    b: &mut Builder<'ctx>,
    cond: IntValue<'ctx>,
    then_block: Block<'ctx>,
    else_block: Block<'ctx>,
) -> (r: Result<InstructionValue<'ctx>, BuilderError>)
    ensures
        r is Ok ==> emitted(*final(b)) == emitted(*old(b)).push(
            Inst::CondBranch { then_block: then_block.label, else_block: else_block.label },
        ),
        r is Err ==> emitted(*final(b)) == emitted(*old(b)),
        positioned(emitted(*old(b))) ==> r is Ok,
{
    b.build_conditional_branch(cond, then_block.handle, else_block.handle)
}

/// `Builder::build_unconditional_branch`.
#[verifier::external_body]
pub(crate) fn build_unconditional_branch<'ctx>(b: &mut Builder<'ctx>, dest: Block<'ctx>) -> (r: Result<InstructionValue<'ctx>, BuilderError>)
    ensures
        r is Ok ==> emitted(*final(b)) == emitted(*old(b)).push(Inst::Branch { target: dest.label }),
        r is Err ==> emitted(*final(b)) == emitted(*old(b)),
        positioned(emitted(*old(b))) ==> r is Ok,
{
    b.build_unconditional_branch(dest.handle)
}

/// `Builder::build_global_string_ptr`: a private global holding `s`.
#[verifier::external_body]
pub(crate) fn build_global_string_ptr<'ctx>(b: &mut Builder<'ctx>, s: &str, name: &str) -> (r: Result<GlobalValue<'ctx>, BuilderError>)
    ensures
        r is Ok ==> emitted(*final(b)) == emitted(*old(b)).push(Inst::GlobalString { text: s@ }),
        r is Err ==> emitted(*final(b)) == emitted(*old(b)),
        positioned(emitted(*old(b))) ==> r is Ok,
{
    b.build_global_string_ptr(s, name)
}

/// `Builder::build_pointer_cast`.
#[verifier::external_body]
pub(crate) fn build_pointer_cast<'ctx>(
    b: &mut Builder<'ctx>,
    p: PointerValue<'ctx>,
    t: PointerType<'ctx>,
    name: &str,
) -> (r: Result<PointerValue<'ctx>, BuilderError>)
    ensures
        r is Ok ==> emitted(*final(b)) == emitted(*old(b)).push(Inst::PointerCast),
        r is Err ==> emitted(*final(b)) == emitted(*old(b)),
        positioned(emitted(*old(b))) ==> r is Ok,
{
    b.build_pointer_cast(p, t, name)
}

/// `Builder::build_ptr_to_int`.
#[verifier::external_body]
pub(crate) fn build_ptr_to_int<'ctx>(
    b: &mut Builder<'ctx>,
    p: PointerValue<'ctx>,
    t: IntType<'ctx>,
    name: &str,
) -> (r: Result<IntValue<'ctx>, BuilderError>)
    ensures
        r is Ok ==> emitted(*final(b)) == emitted(*old(b)).push(Inst::PtrToInt),
        r is Err ==> emitted(*final(b)) == emitted(*old(b)),
        positioned(emitted(*old(b))) ==> r is Ok,
{
    b.build_ptr_to_int(p, t, name)
}

/// `Builder::build_int_to_ptr`.
#[verifier::external_body]
pub(crate) fn build_int_to_ptr<'ctx>(
    b: &mut Builder<'ctx>,
    v: IntValue<'ctx>,
    t: PointerType<'ctx>,
    name: &str,
) -> (r: Result<PointerValue<'ctx>, BuilderError>)
    ensures
        r is Ok ==> emitted(*final(b)) == emitted(*old(b)).push(Inst::IntToPtr),
        r is Err ==> emitted(*final(b)) == emitted(*old(b)),
        positioned(emitted(*old(b))) ==> r is Ok,
{
    b.build_int_to_ptr(v, t, name)
}

/// `Builder::build_bit_cast`.
#[verifier::external_body]
pub(crate) fn build_bit_cast<'ctx>(
    b: &mut Builder<'ctx>,
    v: BasicValueEnum<'ctx>,
    t: BasicTypeEnum<'ctx>,
    name: &str,
) -> (r: Result<BasicValueEnum<'ctx>, BuilderError>)
    ensures
        r is Ok ==> emitted(*final(b)) == emitted(*old(b)).push(Inst::BitCast),
        r is Err ==> emitted(*final(b)) == emitted(*old(b)),
        positioned(emitted(*old(b))) ==> r is Ok,
{
    b.build_bit_cast(v, t, name)
}

} // verus!
