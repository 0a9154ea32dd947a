//! The calls into LLVM, through the `inkwell` bindings.
//!
//! Everything in this file is trusted: Verus reads the headers and not the
//! bodies. The values of LLVM are opaque here, so no header says what a
//! call returns; where a value of the wrong kind would make `inkwell`
//! panic, the wrapper tells the kinds apart and returns `None` instead.
//! All values that verified code can hold come out of these wrappers:
//! parameters and results of functions whose types were made by the type
//! wrappers below, and pointers to such values.

use crate::driver::CodegenOptLevel;
use inkwell::basic_block::BasicBlock;
use inkwell::builder::Builder;
use inkwell::context::Context;
use inkwell::module::Module;
use inkwell::passes::PassManager;
use inkwell::targets::{CodeModel, RelocMode, Target, TargetMachine, TargetTriple};
use inkwell::types::{BasicTypeEnum, FunctionType};
use inkwell::values::{BasicValueEnum, FunctionValue};
use inkwell::OptimizationLevel;
use vstd::prelude::*;

verus! {

/// `inkwell::context::Context`: an LLVM context, which owns the types and
/// the modules that are made in it.
#[verifier::external_type_specification]
#[verifier::external_body]
pub struct ExContext(Context);

/// `inkwell::module::Module`: an LLVM module.
#[verifier::external_type_specification]
#[verifier::external_body]
pub struct ExModule<'ctx>(Module<'ctx>);

/// `inkwell::builder::Builder`: an LLVM instruction builder.
#[verifier::external_type_specification]
#[verifier::external_body]
pub struct ExBuilder<'ctx>(Builder<'ctx>);

/// `inkwell::basic_block::BasicBlock`: a block of an LLVM function.
#[verifier::external_type_specification]
#[verifier::external_body]
pub struct ExBasicBlock<'ctx>(BasicBlock<'ctx>);

/// `inkwell::types::BasicTypeEnum`: the type of a value.
#[verifier::external_type_specification]
#[verifier::external_body]
pub struct ExBasicTypeEnum<'ctx>(BasicTypeEnum<'ctx>);

/// `inkwell::types::FunctionType`: the type of a function.
#[verifier::external_type_specification]
#[verifier::external_body]
pub struct ExFunctionType<'ctx>(FunctionType<'ctx>);

/// `inkwell::values::BasicValueEnum`: a value.
#[verifier::external_type_specification]
#[verifier::external_body]
pub struct ExBasicValueEnum<'ctx>(BasicValueEnum<'ctx>);

/// `inkwell::values::FunctionValue`: a function of a module.
#[verifier::external_type_specification]
#[verifier::external_body]
pub struct ExFunctionValue<'ctx>(FunctionValue<'ctx>);

/// `inkwell::targets::TargetTriple`: the name of a target.
#[verifier::external_type_specification]
#[verifier::external_body]
pub struct ExTargetTriple(TargetTriple);

/// `inkwell::targets::Target`: a target that LLVM generates code for.
#[verifier::external_type_specification]
#[verifier::external_body]
pub struct ExTarget(Target);

/// `inkwell::targets::TargetMachine`: a target with its code generation
/// settings.
#[verifier::external_type_specification]
#[verifier::external_body]
pub struct ExTargetMachine(TargetMachine);

/// `inkwell::OptimizationLevel`: how hard LLVM optimizes.
#[verifier::external_type_specification]
#[verifier::external_body]
pub struct ExOptimizationLevel(OptimizationLevel);

/// `inkwell::targets::RelocMode`: how generated code is relocated.
#[verifier::external_type_specification]
#[verifier::external_body]
pub struct ExRelocMode(RelocMode);

/// `inkwell::targets::CodeModel`: how far apart code and data may lie.
#[verifier::external_type_specification]
#[verifier::external_body]
pub struct ExCodeModel(CodeModel);

/// `inkwell::passes::PassManager`: a list of optimization passes.
#[verifier::external_type_specification]
#[verifier::external_body]
#[verifier::reject_recursive_types(T)]
pub struct ExPassManager<T>(PassManager<T>);

/// A builder whose cursor stands at the end of a block. Only
/// `position_at_end` makes one, so whoever holds one may build.
pub struct Cursor<'b, 'ctx> {
    builder: &'b Builder<'ctx>,
}

/// The comparisons of two floats, all of them ordered.
#[derive(Clone, Copy, Debug, PartialEq, Eq, Structural)]
pub enum FloatComparison {
    Equal,
    NotEqual,
    Less,
    Greater,
    LessEqual,
    GreaterEqual,
}

/// The comparisons of two integers that are taken as signed.
#[derive(Clone, Copy, Debug, PartialEq, Eq, Structural)]
pub enum IntComparison {
    Equal,
    NotEqual,
    Less,
    Greater,
    LessEqual,
    GreaterEqual,
}

/// How generated code is relocated.
#[derive(Clone, Copy, Debug, PartialEq, Eq, Structural)]
pub enum Relocation {
    Default,
    Static,
    PositionIndependent,
    DynamicNoPic,
}

/// How far apart code and data may lie.
#[derive(Clone, Copy, Debug, PartialEq, Eq, Structural)]
pub enum Addressing {
    Default,
    JitDefault,
    Small,
    Kernel,
    Medium,
    Large,
}

/// The kinds of code that a target machine writes.
#[derive(Clone, Copy, Debug, PartialEq, Eq, Structural)]
pub enum OutputKind {
    Assembly,
    Object,
}

/// `Context::create`: a new LLVM context.
#[verifier::external_body]
pub(crate) fn create_context() -> Context {
    Context::create()
}

/// `Context::create_module`: a new, empty module of the context.
#[verifier::external_body]
pub(crate) fn create_module<'ctx>(context: &'ctx Context, name: &str) -> Module<'ctx> {
    context.create_module(name)
}

/// `Context::create_builder`: a new builder, not yet positioned.
#[verifier::external_body]
pub(crate) fn create_builder<'ctx>(context: &'ctx Context) -> Builder<'ctx> {
    context.create_builder()
}

/// `Context::bool_type`: the one-bit integer type.
#[verifier::external_body]
pub(crate) fn bool_type<'ctx>(context: &'ctx Context) -> BasicTypeEnum<'ctx> {
    context.bool_type().into()
}

/// `Context::i32_type`: the 32-bit integer type.
#[verifier::external_body]
pub(crate) fn i32_type<'ctx>(context: &'ctx Context) -> BasicTypeEnum<'ctx> {
    context.i32_type().into()
}

/// `Context::i64_type`: the 64-bit integer type.
#[verifier::external_body]
pub(crate) fn i64_type<'ctx>(context: &'ctx Context) -> BasicTypeEnum<'ctx> {
    context.i64_type().into()
}

/// `Context::f64_type`: the binary64 type.
#[verifier::external_body]
pub(crate) fn float_type<'ctx>(context: &'ctx Context) -> BasicTypeEnum<'ctx> {
    context.f64_type().into()
}

/// `IntType::ptr_type` on `Context::i8_type`: the type of a pointer to a
/// byte, in the default address space.
#[verifier::external_body]
pub(crate) fn str_type<'ctx>(context: &'ctx Context) -> BasicTypeEnum<'ctx> {
    context.i8_type().ptr_type(inkwell::AddressSpace::default()).into()
}

/// `BasicType::fn_type`: the type of a function that takes `params`, and
/// more arguments if it is `variadic`, and returns a value of type `ret`.
#[verifier::external_body]
pub(crate) fn value_fn_type<'ctx>(
    ret: BasicTypeEnum<'ctx>,
    params: &Vec<BasicTypeEnum<'ctx>>,
    variadic: bool,
) -> FunctionType<'ctx> {
    let params: Vec<inkwell::types::BasicMetadataTypeEnum<'ctx>> = params.iter().map(|t| (*t).into()).collect();
    inkwell::types::BasicType::fn_type(&ret, &params, variadic)
}

/// `VoidType::fn_type` on `Context::void_type`: the type of a function
/// that takes `params`, and more arguments if it is `variadic`, and
/// returns nothing.
#[verifier::external_body]
pub(crate) fn void_fn_type<'ctx>(
    context: &'ctx Context,
    params: &Vec<BasicTypeEnum<'ctx>>,
    variadic: bool,
) -> FunctionType<'ctx> {
    let params: Vec<inkwell::types::BasicMetadataTypeEnum<'ctx>> = params.iter().map(|t| (*t).into()).collect();
    context.void_type().fn_type(&params, variadic)
}

/// `Module::add_function`: adds a function of the given type to the module,
/// with external linkage. LLVM gives it another name if `name` is taken.
#[verifier::external_body]
pub(crate) fn add_function<'ctx>(module: &Module<'ctx>, name: &str, ty: FunctionType<'ctx>) -> FunctionValue<
    'ctx,
> {
    module.add_function(name, ty, None)
}

/// `Context::append_basic_block`: adds an empty block to the end of the
/// function.
#[verifier::external_body]
pub(crate) fn append_basic_block<'ctx>(
    context: &'ctx Context,
    function: FunctionValue<'ctx>,
    name: &str,
) -> BasicBlock<'ctx> {
    context.append_basic_block(function, name)
}

/// `FunctionValue::get_nth_param`: the parameter at `index`, if the
/// function has so many. The outside function adds one to `index`, which
/// must therefore stay below the largest `u32`.
#[verifier::external_body]
pub(crate) fn get_nth_param<'ctx>(function: FunctionValue<'ctx>, index: u32) -> Option<BasicValueEnum<'ctx>>
    requires
        index < u32::MAX,
{
    function.get_nth_param(index)
}

/// `IntType::const_int`: the constant `value` of an integer type, sign
/// extended to the width of the type if `sign_extend` says so. `None` if
/// `ty` is no integer type.
#[verifier::external_body]
pub(crate) fn const_int<'ctx>(ty: BasicTypeEnum<'ctx>, value: u64, sign_extend: bool) -> Option<
    BasicValueEnum<'ctx>,
> {
    match ty {
        BasicTypeEnum::IntType(t) => Some(t.const_int(value, sign_extend).into()),
        _ => None,
    }
}

/// `PointerType::const_null`: the null pointer of a pointer type. `None` if
/// `ty` is no pointer type.
#[verifier::external_body]
pub(crate) fn const_null<'ctx>(ty: BasicTypeEnum<'ctx>) -> Option<BasicValueEnum<'ctx>> {
    match ty {
        BasicTypeEnum::PointerType(t) => Some(t.const_null().into()),
        _ => None,
    }
}

/// `Builder::position_at_end`: moves the cursor of the builder to the end
/// of `block`.
#[verifier::external_body]
pub(crate) fn position_at_end<'b, 'ctx>(builder: &'b Builder<'ctx>, block: BasicBlock<'ctx>) -> Cursor<
    'b,
    'ctx,
> {
    builder.position_at_end(block);
    Cursor { builder }
}

/// `Builder::build_bitcast`: reinterprets an integer as a value of a float
/// type. `None` if `value` is no integer or `ty` no float type.
#[verifier::external_body]
pub(crate) fn build_bitcast<'ctx>(
    cursor: &Cursor<'_, 'ctx>,
    value: BasicValueEnum<'ctx>,
    ty: BasicTypeEnum<'ctx>,
    name: &str,
) -> Option<BasicValueEnum<'ctx>> {
    match (value, ty) {
        (BasicValueEnum::IntValue(v), BasicTypeEnum::FloatType(t)) => Some(
            cursor.builder.build_bitcast(v, t, name),
        ),
        _ => None,
    }
}

/// `Builder::build_global_string_ptr`: adds a NUL-terminated constant to
/// the module, with the bytes of `text` up to its first NUL if it holds
/// one; the result is the address of its first byte.
#[verifier::external_body]
pub(crate) fn build_global_string_ptr<'ctx>(cursor: &Cursor<'_, 'ctx>, text: &str, name: &str) -> BasicValueEnum<
    'ctx,
> {
    cursor.builder.build_global_string_ptr(text, name).as_pointer_value().into()
}

/// `Builder::build_alloca`: reserves a stack slot of type `ty`; the result
/// is its address.
#[verifier::external_body]
pub(crate) fn build_alloca<'ctx>(cursor: &Cursor<'_, 'ctx>, ty: BasicTypeEnum<'ctx>, name: &str) -> BasicValueEnum<
    'ctx,
> {
    cursor.builder.build_alloca(ty, name).into()
}

/// `Builder::build_store`: stores `value` at `ptr`. `false`, and nothing
/// built, if `ptr` is no pointer.
#[verifier::external_body]
pub(crate) fn build_store<'ctx>(
    cursor: &Cursor<'_, 'ctx>,
    ptr: BasicValueEnum<'ctx>,
    value: BasicValueEnum<'ctx>,
) -> bool {
    match ptr {
        BasicValueEnum::PointerValue(p) => {
            cursor.builder.build_store(p, value);
            true
        },
        _ => false,
    }
}

/// `Builder::build_load`: loads the value at `ptr`. `None` if `ptr` is no
/// pointer.
#[verifier::external_body]
pub(crate) fn build_load<'ctx>(cursor: &Cursor<'_, 'ctx>, ptr: BasicValueEnum<'ctx>, name: &str) -> Option<
    BasicValueEnum<'ctx>,
> {
    match ptr {
        BasicValueEnum::PointerValue(p) => Some(cursor.builder.build_load(p, name)),
        _ => None,
    }
}

/// `Builder::build_signed_int_to_float`: converts a signed integer to a
/// float of type `ty`. `None` if `value` is no integer or `ty` no float
/// type.
#[verifier::external_body]
pub(crate) fn build_signed_int_to_float<'ctx>(
    cursor: &Cursor<'_, 'ctx>,
    value: BasicValueEnum<'ctx>,
    ty: BasicTypeEnum<'ctx>,
    name: &str,
) -> Option<BasicValueEnum<'ctx>> {
    match (value, ty) {
        (BasicValueEnum::IntValue(v), BasicTypeEnum::FloatType(t)) => Some(
            cursor.builder.build_signed_int_to_float(v, t, name).into(),
        ),
        _ => None,
    }
}

/// `Builder::build_float_to_signed_int`: converts a float to a signed
/// integer of type `ty`. `None` if `value` is no float or `ty` no integer
/// type.
#[verifier::external_body]
pub(crate) fn build_float_to_signed_int<'ctx>(
    cursor: &Cursor<'_, 'ctx>,
    value: BasicValueEnum<'ctx>,
    ty: BasicTypeEnum<'ctx>,
    name: &str,
) -> Option<BasicValueEnum<'ctx>> {
    match (value, ty) {
        (BasicValueEnum::FloatValue(v), BasicTypeEnum::IntType(t)) => Some(
            cursor.builder.build_float_to_signed_int(v, t, name).into(),
        ),
        _ => None,
    }
}

/// `Builder::build_int_s_extend`: extends a signed integer to the wider
/// integer type `ty`. `None` if `value` is no integer or `ty` no integer
/// type.
#[verifier::external_body]
pub(crate) fn build_int_s_extend<'ctx>(
    cursor: &Cursor<'_, 'ctx>,
    value: BasicValueEnum<'ctx>,
    ty: BasicTypeEnum<'ctx>,
    name: &str,
) -> Option<BasicValueEnum<'ctx>> {
    match (value, ty) {
        (BasicValueEnum::IntValue(v), BasicTypeEnum::IntType(t)) => Some(
            cursor.builder.build_int_s_extend(v, t, name).into(),
        ),
        _ => None,
    }
}

/// `Builder::build_float_neg`: negates a float. `None` if `value` is none.
#[verifier::external_body]
pub(crate) fn build_float_neg<'ctx>(cursor: &Cursor<'_, 'ctx>, value: BasicValueEnum<'ctx>, name: &str) -> Option<
    BasicValueEnum<'ctx>,
> {
    match value {
        BasicValueEnum::FloatValue(v) => Some(cursor.builder.build_float_neg(v, name).into()),
        _ => None,
    }
}

/// `Builder::build_not`: complements an integer bit by bit. `None` if
/// `value` is no integer.
#[verifier::external_body]
pub(crate) fn build_not<'ctx>(cursor: &Cursor<'_, 'ctx>, value: BasicValueEnum<'ctx>, name: &str) -> Option<
    BasicValueEnum<'ctx>,
> {
    match value {
        BasicValueEnum::IntValue(v) => Some(cursor.builder.build_not(v, name).into()),
        _ => None,
    }
}

/// `Builder::build_float_add`: adds two floats. `None` if an operand is
/// no float.
#[verifier::external_body]
pub(crate) fn build_float_add<'ctx>(
    cursor: &Cursor<'_, 'ctx>,
    lhs: BasicValueEnum<'ctx>,
    rhs: BasicValueEnum<'ctx>,
    name: &str,
) -> Option<BasicValueEnum<'ctx>> {
    match (lhs, rhs) {
        (BasicValueEnum::FloatValue(l), BasicValueEnum::FloatValue(r)) => Some(
            cursor.builder.build_float_add(l, r, name).into(),
        ),
        _ => None,
    }
}

/// `Builder::build_float_sub`: subtracts two floats. `None` if an operand
/// is no float.
#[verifier::external_body]
pub(crate) fn build_float_sub<'ctx>(
    cursor: &Cursor<'_, 'ctx>,
    lhs: BasicValueEnum<'ctx>,
    rhs: BasicValueEnum<'ctx>,
    name: &str,
) -> Option<BasicValueEnum<'ctx>> {
    match (lhs, rhs) {
        (BasicValueEnum::FloatValue(l), BasicValueEnum::FloatValue(r)) => Some(
            cursor.builder.build_float_sub(l, r, name).into(),
        ),
        _ => None,
    }
}

/// `Builder::build_float_mul`: multiplies two floats. `None` if an operand
/// is no float.
#[verifier::external_body]
pub(crate) fn build_float_mul<'ctx>(
    cursor: &Cursor<'_, 'ctx>,
    lhs: BasicValueEnum<'ctx>,
    rhs: BasicValueEnum<'ctx>,
    name: &str,
) -> Option<BasicValueEnum<'ctx>> {
    match (lhs, rhs) {
        (BasicValueEnum::FloatValue(l), BasicValueEnum::FloatValue(r)) => Some(
            cursor.builder.build_float_mul(l, r, name).into(),
        ),
        _ => None,
    }
}

/// `Builder::build_float_div`: divides two floats. `None` if an operand is
/// no float.
#[verifier::external_body]
pub(crate) fn build_float_div<'ctx>(
    cursor: &Cursor<'_, 'ctx>,
    lhs: BasicValueEnum<'ctx>,
    rhs: BasicValueEnum<'ctx>,
    name: &str,
) -> Option<BasicValueEnum<'ctx>> {
    match (lhs, rhs) {
        (BasicValueEnum::FloatValue(l), BasicValueEnum::FloatValue(r)) => Some(
            cursor.builder.build_float_div(l, r, name).into(),
        ),
        _ => None,
    }
}

/// `Builder::build_float_rem`: the remainder of two floats. `None` if an
/// operand is no float.
#[verifier::external_body]
pub(crate) fn build_float_rem<'ctx>(
    cursor: &Cursor<'_, 'ctx>,
    lhs: BasicValueEnum<'ctx>,
    rhs: BasicValueEnum<'ctx>,
    name: &str,
) -> Option<BasicValueEnum<'ctx>> {
    match (lhs, rhs) {
        (BasicValueEnum::FloatValue(l), BasicValueEnum::FloatValue(r)) => Some(
            cursor.builder.build_float_rem(l, r, name).into(),
        ),
        _ => None,
    }
}

/// `Builder::build_float_compare`: compares two floats with the ordered
/// predicate that `comparison` names. `None` if an operand is no float.
#[verifier::external_body]
pub(crate) fn build_float_compare<'ctx>(
    cursor: &Cursor<'_, 'ctx>,
    comparison: FloatComparison,
    lhs: BasicValueEnum<'ctx>,
    rhs: BasicValueEnum<'ctx>,
    name: &str,
) -> Option<BasicValueEnum<'ctx>> {
    let predicate = match comparison {
        FloatComparison::Equal => inkwell::FloatPredicate::OEQ,
        FloatComparison::NotEqual => inkwell::FloatPredicate::ONE,
        FloatComparison::Less => inkwell::FloatPredicate::OLT,
        FloatComparison::Greater => inkwell::FloatPredicate::OGT,
        FloatComparison::LessEqual => inkwell::FloatPredicate::OLE,
        FloatComparison::GreaterEqual => inkwell::FloatPredicate::OGE,
    };
    match (lhs, rhs) {
        (BasicValueEnum::FloatValue(l), BasicValueEnum::FloatValue(r)) => Some(
            cursor.builder.build_float_compare(predicate, l, r, name).into(),
        ),
        _ => None,
    }
}

/// `Builder::build_int_add`: adds two integers. `None` if an operand is no
/// integer.
#[verifier::external_body]
pub(crate) fn build_int_add<'ctx>(
    cursor: &Cursor<'_, 'ctx>,
    lhs: BasicValueEnum<'ctx>,
    rhs: BasicValueEnum<'ctx>,
    name: &str,
) -> Option<BasicValueEnum<'ctx>> {
    match (lhs, rhs) {
        (BasicValueEnum::IntValue(l), BasicValueEnum::IntValue(r)) => Some(
            cursor.builder.build_int_add(l, r, name).into(),
        ),
        _ => None,
    }
}

/// `Builder::build_int_compare`: compares two integers, taken as signed,
/// with the predicate that `comparison` names. `None` if an operand is no
/// integer.
#[verifier::external_body]
pub(crate) fn build_int_compare<'ctx>(
    cursor: &Cursor<'_, 'ctx>,
    comparison: IntComparison,
    lhs: BasicValueEnum<'ctx>,
    rhs: BasicValueEnum<'ctx>,
    name: &str,
) -> Option<BasicValueEnum<'ctx>> {
    let predicate = match comparison {
        IntComparison::Equal => inkwell::IntPredicate::EQ,
        IntComparison::NotEqual => inkwell::IntPredicate::NE,
        IntComparison::Less => inkwell::IntPredicate::SLT,
        IntComparison::Greater => inkwell::IntPredicate::SGT,
        IntComparison::LessEqual => inkwell::IntPredicate::SLE,
        IntComparison::GreaterEqual => inkwell::IntPredicate::SGE,
    };
    match (lhs, rhs) {
        (BasicValueEnum::IntValue(l), BasicValueEnum::IntValue(r)) => Some(
            cursor.builder.build_int_compare(predicate, l, r, name).into(),
        ),
        _ => None,
    }
}

/// `Builder::build_call`: calls `function` with `args`; the result is the
/// call's value, or `None` where the function returns nothing.
#[verifier::external_body]
pub(crate) fn build_call<'ctx>(
    cursor: &Cursor<'_, 'ctx>,
    function: FunctionValue<'ctx>,
    args: &Vec<BasicValueEnum<'ctx>>,
    name: &str,
) -> Option<BasicValueEnum<'ctx>> {
    let args: Vec<inkwell::values::BasicMetadataValueEnum<'ctx>> = args.iter().map(|a| (*a).into()).collect();
    cursor.builder.build_call(function, &args, name).try_as_basic_value().left()
}

/// `Builder::build_return`: returns `value`, or nothing.
#[verifier::external_body]
pub(crate) fn build_return<'ctx>(cursor: &Cursor<'_, 'ctx>, value: Option<BasicValueEnum<'ctx>>) {
    match value {
        Some(v) => cursor.builder.build_return(Some(&v)),
        None => cursor.builder.build_return(None),
    };
}

/// `Builder::build_unconditional_branch`: branches to `target`.
#[verifier::external_body]
pub(crate) fn build_unconditional_branch<'ctx>(cursor: &Cursor<'_, 'ctx>, target: BasicBlock<'ctx>) {
    cursor.builder.build_unconditional_branch(target);
}

/// `Builder::build_conditional_branch`: branches to `then_block` where
/// `cond` holds and to `else_block` where it does not. `false`, and
/// nothing built, if `cond` is no integer.
#[verifier::external_body]
pub(crate) fn build_conditional_branch<'ctx>(
    cursor: &Cursor<'_, 'ctx>,
    cond: BasicValueEnum<'ctx>,
    then_block: BasicBlock<'ctx>,
    else_block: BasicBlock<'ctx>,
) -> bool {
    match cond {
        BasicValueEnum::IntValue(c) => {
            cursor.builder.build_conditional_branch(c, then_block, else_block);
            true
        },
        _ => false,
    }
}

/// `Module::verify`: checks the module; the error is LLVM's report.
#[verifier::external_body]
pub(crate) fn verify_module<'ctx>(module: &Module<'ctx>) -> Result<(), String> {
    module.verify().map_err(|e| e.to_string())
}

/// `Module::print_to_string`: the module as text.
#[verifier::external_body]
pub(crate) fn print_module<'ctx>(module: &Module<'ctx>) -> String {
    module.print_to_string().to_string()
}

/// `Target::initialize_native`, with the default configuration: makes the
/// host's target known to LLVM.
#[verifier::external_body]
pub(crate) fn initialize_native() -> Result<(), String> {
    Target::initialize_native(&inkwell::targets::InitializationConfig::default())
}

/// `TargetMachine::get_default_triple`: the triple of the host.
#[verifier::external_body]
pub(crate) fn default_triple() -> TargetTriple {
    TargetMachine::get_default_triple()
}

/// `Target::from_triple`: the target that a triple names; the error is
/// LLVM's report.
#[verifier::external_body]
pub(crate) fn target_from_triple(triple: &TargetTriple) -> Result<Target, String> {
    Target::from_triple(triple).map_err(|e| e.to_string())
}

/// The `inkwell::OptimizationLevel` that stands for a level of the
/// library.
#[verifier::external_body]
pub(crate) fn optimization_level(level: CodegenOptLevel) -> OptimizationLevel {
    match level {
        CodegenOptLevel::Off => OptimizationLevel::None,
        CodegenOptLevel::Default => OptimizationLevel::Default,
        CodegenOptLevel::Aggressive => OptimizationLevel::Aggressive,
    }
}

/// The `inkwell::targets::RelocMode` that stands for a relocation model of
/// the library.
#[verifier::external_body]
pub(crate) fn reloc_mode(relocation: Relocation) -> RelocMode {
    match relocation {
        Relocation::Default => RelocMode::Default,
        Relocation::Static => RelocMode::Static,
        Relocation::PositionIndependent => RelocMode::PIC,
        Relocation::DynamicNoPic => RelocMode::DynamicNoPic,
    }
}

/// The `inkwell::targets::CodeModel` that stands for a code model of the
/// library.
#[verifier::external_body]
pub(crate) fn code_model(addressing: Addressing) -> CodeModel {
    match addressing {
        Addressing::Default => CodeModel::Default,
        Addressing::JitDefault => CodeModel::JITDefault,
        Addressing::Small => CodeModel::Small,
        Addressing::Kernel => CodeModel::Kernel,
        Addressing::Medium => CodeModel::Medium,
        Addressing::Large => CodeModel::Large,
    }
}

/// `Target::create_target_machine`: a machine of the target for the given
/// CPU and features, which generates code at the given level with the
/// given relocation and code models.
#[verifier::external_body]
pub(crate) fn create_target_machine(
    target: &Target,
    triple: &TargetTriple,
    cpu: &str,
    features: &str,
    level: OptimizationLevel,
    relocation: RelocMode,
    model: CodeModel,
) -> Option<TargetMachine> {
    target.create_target_machine(triple, cpu, features, level, relocation, model)
}

/// `Module::set_triple`: records the triple in the module.
#[verifier::external_body]
pub(crate) fn set_triple<'ctx>(module: &Module<'ctx>, triple: &TargetTriple) {
    module.set_triple(triple);
}

/// `Module::set_data_layout`, with the data layout of the target machine.
#[verifier::external_body]
pub(crate) fn set_data_layout<'ctx>(module: &Module<'ctx>, machine: &TargetMachine) {
    module.set_data_layout(&machine.get_target_data().get_data_layout());
}

/// `TargetMachine::write_to_memory_buffer`: the code of the module, of
/// the given kind, as bytes; the error is LLVM's report.
#[verifier::external_body]
pub(crate) fn write_code<'ctx>(machine: &TargetMachine, module: &Module<'ctx>, kind: OutputKind) -> Result<
    Vec<u8>,
    String,
> {
    let file_type = match kind {
        OutputKind::Assembly => inkwell::targets::FileType::Assembly,
        OutputKind::Object => inkwell::targets::FileType::Object,
    };
    match machine.write_to_memory_buffer(module, file_type) {
        Ok(buffer) => Ok(buffer.as_slice().to_vec()),
        Err(e) => Err(e.to_string()),
    }
}

/// `PassManager::create`: a new pass manager for whole modules.
#[verifier::external_body]
pub(crate) fn create_pass_manager<'ctx>() -> PassManager<Module<'ctx>> {
    PassManager::create(())
}

/// `PassManager::add_instruction_combining_pass`.
#[verifier::external_body]
pub(crate) fn add_instruction_combining_pass<'ctx>(passes: &PassManager<Module<'ctx>>) {
    passes.add_instruction_combining_pass();
}

/// `PassManager::add_reassociate_pass`.
#[verifier::external_body]
pub(crate) fn add_reassociate_pass<'ctx>(passes: &PassManager<Module<'ctx>>) {
    passes.add_reassociate_pass();
}

/// `PassManager::add_gvn_pass`.
#[verifier::external_body]
pub(crate) fn add_gvn_pass<'ctx>(passes: &PassManager<Module<'ctx>>) {
    passes.add_gvn_pass();
}

/// `PassManager::add_cfg_simplification_pass`.
#[verifier::external_body]
pub(crate) fn add_cfg_simplification_pass<'ctx>(passes: &PassManager<Module<'ctx>>) {
    passes.add_cfg_simplification_pass();
}

/// `PassManager::add_instruction_simplify_pass`.
#[verifier::external_body]
pub(crate) fn add_instruction_simplify_pass<'ctx>(passes: &PassManager<Module<'ctx>>) {
    passes.add_instruction_simplify_pass();
}

/// `PassManager::run_on`: runs the passes on the module.
#[verifier::external_body]
pub(crate) fn run_passes<'ctx>(passes: &PassManager<Module<'ctx>>, module: &Module<'ctx>) {
    passes.run_on(module);
}

} // verus!
