//! From the intermediate representation to LLVM: the module is replayed on
//! an LLVM builder, verified, optimized and turned into object code.

use crate::driver::{CodegenOptLevel, CodegenOptions};
use crate::error::{failure, CodegenError, CodegenErrorView, ErrorCode, ToolchainStep};
use crate::ir::{
    BinaryKind, BlockIr, BlockView, FunctionIr, FunctionView, Instr, InstrView, ModuleIr, ModuleView,
    Operand, UnaryKind,
};
use crate::llvm;
use crate::llvm::{Addressing, Cursor, FloatComparison, IntComparison, OutputKind, Relocation};
use crate::program::{lower_program, spec_lowered_module};
use crate::symbols::SymbolRegistry;
use crate::types::IrType;
use crate::ast::Program;
use inkwell::basic_block::BasicBlock;
use inkwell::builder::Builder;
use inkwell::context::Context;
use inkwell::module::Module;
use inkwell::types::BasicTypeEnum;
use inkwell::values::{BasicValueEnum, FunctionValue};
use vstd::prelude::*;

verus! {

/// The error for a module that refers to something that is not there, or
/// uses a value as what it is not.
pub open spec fn malformed() -> CodegenErrorView {
    failure(ErrorCode::MalformedIr, Seq::empty())
}

/// The error for a module that refers to something that is not there.
fn malformed_ir() -> (e: CodegenError)
    ensures
        e@ == malformed(),
{
    CodegenError::bare(ErrorCode::MalformedIr)
}

/// The most parameters that the replay can ask LLVM for.
pub const PARAMETER_LIMIT: usize = 0xffff_ffff;

/// Is what `operand` names within reach of the replay: a constant string
/// among the `strings` of the module, a parameter below the limit, an
/// instruction of one of the `blocks` of the function? Constants are.
pub open spec fn operand_in_reach(operand: Operand, blocks: nat, strings: nat) -> bool {
    match operand {
        Operand::Str { index } => index < strings,
        Operand::Param { index } => index < PARAMETER_LIMIT,
        Operand::Inst { block, .. } => block < blocks,
        _ => true,
    }
}

/// Is everything that `instr` refers to within reach of the replay: its
/// operands, its callee among the `functions` of the module, its targets
/// among the `blocks` of the function?
pub open spec fn instr_in_reach(instr: InstrView, functions: nat, blocks: nat, strings: nat) -> bool {
    match instr {
        InstrView::Alloca { .. } => true,
        InstrView::Store { ptr, value } => operand_in_reach(ptr, blocks, strings) && operand_in_reach(
            value,
            blocks,
            strings,
        ),
        InstrView::Load { ptr, .. } => operand_in_reach(ptr, blocks, strings),
        InstrView::Unary { value, .. } => operand_in_reach(value, blocks, strings),
        InstrView::Binary { lhs, rhs, .. } => operand_in_reach(lhs, blocks, strings) && operand_in_reach(
            rhs,
            blocks,
            strings,
        ),
        InstrView::Call { callee, args, .. } => callee < functions && forall|k: int|
            0 <= k < args.len() ==> operand_in_reach(#[trigger] args[k], blocks, strings),
        InstrView::Return { value } => match value {
            Some(v) => operand_in_reach(v, blocks, strings),
            None => true,
        },
        InstrView::Branch { target } => target < blocks,
        InstrView::CondBranch { cond, then_block, else_block } => operand_in_reach(cond, blocks, strings)
            && then_block < blocks && else_block < blocks,
    }
}

/// Is everything that the instructions of `block` refer to within reach?
pub open spec fn block_in_reach(block: BlockView, functions: nat, blocks: nat, strings: nat) -> bool {
    forall|i: int|
        0 <= i < block.instrs.len() ==> instr_in_reach(#[trigger] block.instrs[i], functions, blocks, strings)
}

/// Does every visit of `function` lead to one of its blocks, and is
/// everything that the instructions of the visited blocks refer to within
/// reach?
pub open spec fn function_in_reach(function: FunctionView, functions: nat, strings: nat) -> bool {
    forall|v: int|
        0 <= v < function.visits.len() ==> (#[trigger] function.visits[v]) < function.blocks.len()
            && block_in_reach(
            function.blocks[function.visits[v] as int],
            functions,
            function.blocks.len(),
            strings,
        )
}

/// Is every visited block of every function of `module` within reach of
/// the replay?
pub open spec fn module_in_reach(module: ModuleView) -> bool {
    forall|f: int|
        0 <= f < module.functions.len() ==> function_in_reach(
            #[trigger] module.functions[f],
            module.functions.len(),
            module.strings.len(),
        )
}

/// Does the instruction yield a value wherever its replay succeeds?
pub open spec fn yields_value(instr: InstrView) -> bool {
    instr is Alloca || instr is Load || instr is Unary || instr is Binary
}

/// Does the instruction yield no value?
pub open spec fn yields_nothing(instr: InstrView) -> bool {
    instr is Store || instr is Return || instr is Branch || instr is CondBranch
}

/// Does the operand name a constant string of the module that is there?
pub open spec fn string_in_reach(operand: Operand, strings: nat) -> bool {
    operand matches Operand::Str { index } && index < strings
}

/// Does the replay of `instr` need nothing but what the module itself
/// holds: no value of another instruction, no parameter, no constant
/// that LLVM makes? Such are a stack slot, a return of nothing or of a
/// constant string, a branch to a block that is there, and a call of a
/// function that is there with constant strings.
pub open spec fn instr_standalone(instr: InstrView, functions: nat, blocks: nat, strings: nat) -> bool {
    match instr {
        InstrView::Alloca { .. } => true,
        InstrView::Return { value } => match value {
            Some(v) => string_in_reach(v, strings),
            None => true,
        },
        InstrView::Branch { target } => target < blocks,
        InstrView::Call { callee, args, .. } => callee < functions && forall|k: int|
            0 <= k < args.len() ==> string_in_reach(#[trigger] args[k], strings),
        _ => false,
    }
}

/// Are all instructions of `block` standalone?
pub open spec fn block_standalone(block: BlockView, functions: nat, blocks: nat, strings: nat) -> bool {
    forall|i: int|
        0 <= i < block.instrs.len() ==> instr_standalone(
            #[trigger] block.instrs[i],
            functions,
            blocks,
            strings,
        )
}

/// Does every visit of `function` lead to one of its blocks, and are all
/// instructions of the visited blocks standalone?
pub open spec fn function_standalone(function: FunctionView, functions: nat, strings: nat) -> bool {
    forall|v: int|
        0 <= v < function.visits.len() ==> (#[trigger] function.visits[v]) < function.blocks.len()
            && block_standalone(
            function.blocks[function.visits[v] as int],
            functions,
            function.blocks.len(),
            strings,
        )
}

/// Are all functions of `module` standalone? A module of declarations is.
pub open spec fn module_standalone(module: ModuleView) -> bool {
    forall|f: int|
        0 <= f < module.functions.len() ==> function_standalone(
            #[trigger] module.functions[f],
            module.functions.len(),
            module.strings.len(),
        )
}

/// The LLVM types that stand for the types of the intermediate
/// representation.
struct Types<'ctx> {
    bit: BasicTypeEnum<'ctx>,
    int32: BasicTypeEnum<'ctx>,
    int64: BasicTypeEnum<'ctx>,
    float: BasicTypeEnum<'ctx>,
    string: BasicTypeEnum<'ctx>,
}

impl<'ctx> Types<'ctx> {
    /// The types of a context, each as LLVM hands it out.
    fn new(context: &'ctx Context) -> Types<'ctx> {
        Types {
            bit: llvm::bool_type(context),
            int32: llvm::i32_type(context),
            int64: llvm::i64_type(context),
            float: llvm::float_type(context),
            string: llvm::str_type(context),
        }
    }

    /// The LLVM type that stands for `ty`: the one-bit, 32-bit or 64-bit
    /// integer type, the binary64 type, or the type of a pointer to a byte.
    spec fn standing_for(&self, ty: IrType) -> BasicTypeEnum<'ctx> {
        match ty {
            IrType::I1 => self.bit,
            IrType::I32 => self.int32,
            IrType::I64 => self.int64,
            IrType::F64 => self.float,
            IrType::Ptr => self.string,
        }
    }

    /// The LLVM type that stands for `ty`.
    fn of(&self, ty: IrType) -> (found: BasicTypeEnum<'ctx>)
        ensures
            found == self.standing_for(ty),
    {
        match ty {
            IrType::I1 => self.bit,
            IrType::I32 => self.int32,
            IrType::I64 => self.int64,
            IrType::F64 => self.float,
            IrType::Ptr => self.string,
        }
    }

    /// The LLVM types that stand for a list of types.
    fn list(&self, types: &Vec<IrType>) -> (r: Vec<BasicTypeEnum<'ctx>>)
        ensures
            r@.len() == types@.len(),
            forall|i: int| 0 <= i < types@.len() ==> (#[trigger] r@[i]) == self.standing_for(types@[i]),
    {
        let mut r: Vec<BasicTypeEnum<'ctx>> = Vec::new();
        let mut i: usize = 0;
        while i < types.len()
            invariant
                i <= types.len(),
                r@.len() == i,
                forall|j: int| 0 <= j < i ==> (#[trigger] r@[j]) == self.standing_for(types@[j]),
            decreases types.len() - i,
        {
            r.push(self.of(types[i]));
            i += 1;
        }
        r
    }
}

/// What the replay of one function knows: the functions and the constant
/// strings of the module, the blocks of the function, and the value of
/// every instruction that was replayed, by block and place.
struct FunctionEmitter<'ctx> {
    function: FunctionValue<'ctx>,
    blocks: Vec<BasicBlock<'ctx>>,
    values: Vec<Vec<Option<BasicValueEnum<'ctx>>>>,
}

impl<'ctx> FunctionEmitter<'ctx> {
    /// The blocks and the value lists belong together.
    spec fn wf(&self) -> bool {
        self.values@.len() == self.blocks@.len()
    }

    /// The value that the replay has for the instruction at place `index`
    /// of block `block`, if that instruction was replayed and yielded one.
    spec fn value_at(&self, block: usize, index: usize) -> Option<BasicValueEnum<'ctx>> {
        if block < self.values@.len() && index < self.values@[block as int]@.len() {
            self.values@[block as int]@[index as int]
        } else {
            None
        }
    }

    /// The value that the replay itself holds for `operand`: the address
    /// of a constant string, or the value of an instruction. For other
    /// operands, and where there is no such string or value, none.
    spec fn finds(&self, strings: Seq<BasicValueEnum<'ctx>>, operand: Operand) -> Option<
        BasicValueEnum<'ctx>,
    > {
        match operand {
            Operand::Str { index } => if index < strings.len() {
                Some(strings[index as int])
            } else {
                None
            },
            Operand::Inst { block, index } => self.value_at(block, index),
            _ => None,
        }
    }

    /// Is the replay of `instr` sure to succeed, whatever LLVM does: its
    /// callee and targets are there, and the replay itself holds the value
    /// of every operand? Operations on values are never sure.
    spec fn owes(&self, instr: InstrView, functions: nat, strings: Seq<BasicValueEnum<'ctx>>) -> bool {
        match instr {
            InstrView::Alloca { .. } => true,
            InstrView::Return { value } => match value {
                Some(v) => self.finds(strings, v) is Some,
                None => true,
            },
            InstrView::Branch { target } => target < self.blocks@.len(),
            InstrView::Call { callee, args, .. } => callee < functions && forall|k: int|
                0 <= k < args.len() ==> self.finds(strings, #[trigger] args[k]) is Some,
            _ => false,
        }
    }

    /// This replay has what `before` had, and maybe more values: the same
    /// blocks, and in every list the values that were there.
    spec fn keeps(&self, before: &FunctionEmitter<'ctx>) -> bool {
        &&& self.blocks@ == before.blocks@
        &&& self.values@.len() == before.values@.len()
        &&& forall|b: int|
            0 <= b < before.values@.len() ==> before.values@[b]@.len() <= (#[trigger] self.values@[b])@.len()
        &&& forall|b: int, i: int|
            0 <= b < before.values@.len() && 0 <= i < before.values@[b]@.len() ==> (
            #[trigger] self.values@[b]@[i]) == before.values@[b]@[i]
    }

    /// What the replay was sure of, it is still sure of when it has more
    /// values.
    proof fn lemma_still_owes(
        &self,
        before: &FunctionEmitter<'ctx>,
        instr: InstrView,
        functions: nat,
        strings: Seq<BasicValueEnum<'ctx>>,
    )
        requires
            self.keeps(before),
            before.owes(instr, functions, strings),
        ensures
            self.owes(instr, functions, strings),
    {
        assert forall|operand: Operand| before.finds(strings, operand) is Some implies self.finds(
            strings,
            operand,
        ) == before.finds(strings, operand) by {
            if let Operand::Inst { block, index } = operand {
                assert(self.values@[block as int]@[index as int] == before.values@[block as int]@[index as int]);
            }
        }
    }

    /// A standalone instruction is one whose replay is sure to succeed.
    proof fn lemma_standalone_owes(&self, instr: InstrView, functions: nat, strings: Seq<BasicValueEnum<'ctx>>)
        requires
            instr_standalone(instr, functions, self.blocks@.len(), strings.len()),
        ensures
            self.owes(instr, functions, strings),
    {
    }

    /// The LLVM value of an operand. The address of a constant string and
    /// the value of an instruction are looked up; a constant and a
    /// parameter are asked of LLVM.
    fn operand(
        &self,
        cursor: &Cursor<'_, 'ctx>,
        types: &Types<'ctx>,
        strings: &Vec<BasicValueEnum<'ctx>>,
        operand: Operand,
    ) -> (r: Result<BasicValueEnum<'ctx>, CodegenError>)
        ensures
            self.finds(strings@, operand) matches Some(value) ==> r == Ok::<
                BasicValueEnum<'ctx>,
                CodegenError,
            >(value),
            (operand is Str || operand is Inst) && self.finds(strings@, operand) is None ==> r is Err,
            r is Ok ==> operand_in_reach(operand, self.values@.len() as nat, strings@.len() as nat),
            r matches Err(e) ==> e@ == malformed(),
    {
        let found = match operand {
            Operand::ConstFloat { bits } => match llvm::const_int(types.int64, bits, false) {
                Some(raw) => llvm::build_bitcast(cursor, raw, types.float, ""),
                None => None,
            },
            Operand::ConstInt { ty, value } => llvm::const_int(types.of(ty), value, false),
            Operand::Null => llvm::const_null(types.string),
            Operand::Str { index } => if index < strings.len() {
                Some(strings[index])
            } else {
                None
            },
            Operand::Param { index } => if index < PARAMETER_LIMIT {
                llvm::get_nth_param(self.function, index as u32)
            } else {
                None
            },
            Operand::Inst { block, index } => if block < self.values.len() && index
                < self.values[block].len() {
                self.values[block][index]
            } else {
                None
            },
        };
        match found {
            Some(value) => Ok(value),
            None => Err(malformed_ir()),
        }
    }

    /// The LLVM values of a list of operands.
    fn operands(
        &self,
        cursor: &Cursor<'_, 'ctx>,
        types: &Types<'ctx>,
        strings: &Vec<BasicValueEnum<'ctx>>,
        operands: &Vec<Operand>,
    ) -> (r: Result<Vec<BasicValueEnum<'ctx>>, CodegenError>)
        ensures
            match r {
                Ok(values) => {
                    &&& values@.len() == operands@.len()
                    &&& forall|k: int|
                        0 <= k < operands@.len() ==> operand_in_reach(
                            #[trigger] operands@[k],
                            self.values@.len() as nat,
                            strings@.len() as nat,
                        )
                    &&& forall|k: int|
                        0 <= k < operands@.len() ==> (self.finds(strings@, #[trigger] operands@[k]) matches Some(
                            value,
                        ) ==> values@[k] == value)
                },
                Err(e) => e@ == malformed(),
            },
            (forall|k: int| 0 <= k < operands@.len() ==> self.finds(strings@, #[trigger] operands@[k]) is Some)
                ==> r is Ok,
    {
        let mut values: Vec<BasicValueEnum<'ctx>> = Vec::new();
        let mut i: usize = 0;
        while i < operands.len()
            invariant
                i <= operands.len(),
                values@.len() == i,
                forall|k: int|
                    0 <= k < i ==> operand_in_reach(
                        #[trigger] operands@[k],
                        self.values@.len() as nat,
                        strings@.len() as nat,
                    ),
                forall|k: int|
                    0 <= k < i ==> (self.finds(strings@, #[trigger] operands@[k]) matches Some(value)
                        ==> values@[k] == value),
            decreases operands.len() - i,
        {
            values.push(self.operand(cursor, types, strings, operands[i])?);
            i += 1;
        }
        Ok(values)
    }

    /// The block at place `index`.
    fn block(&self, index: usize) -> (r: Result<BasicBlock<'ctx>, CodegenError>)
        ensures
            r is Ok <==> index < self.blocks@.len(),
            r matches Ok(block) ==> block == self.blocks@[index as int],
            r matches Err(e) ==> e@ == malformed(),
    {
        if index < self.blocks.len() {
            Ok(self.blocks[index])
        } else {
            Err(malformed_ir())
        }
    }

    /// Replays an operation on one value. The result is what LLVM hands
    /// back: none where the value is not of the kind that the operation
    /// takes.
    fn unary(
        &self,
        cursor: &Cursor<'_, 'ctx>,
        types: &Types<'ctx>,
        kind: UnaryKind,
        value: BasicValueEnum<'ctx>,
        name: &str,
    ) -> Option<BasicValueEnum<'ctx>> {
        match kind {
            UnaryKind::SignedToFloat => llvm::build_signed_int_to_float(cursor, value, types.float, name),
            UnaryKind::FloatToSigned => llvm::build_float_to_signed_int(cursor, value, types.int64, name),
            UnaryKind::FloatNeg => llvm::build_float_neg(cursor, value, name),
            UnaryKind::Not => llvm::build_not(cursor, value, name),
            UnaryKind::SignExtend => llvm::build_int_s_extend(cursor, value, types.int64, name),
        }
    }

    /// Replays an operation on two values. The result is what LLVM hands
    /// back: none where a value is not of the kind that the operation
    /// takes.
    fn binary(
        &self,
        cursor: &Cursor<'_, 'ctx>,
        kind: BinaryKind,
        lhs: BasicValueEnum<'ctx>,
        rhs: BasicValueEnum<'ctx>,
        name: &str,
    ) -> Option<BasicValueEnum<'ctx>> {
        match kind {
            BinaryKind::FloatAdd => llvm::build_float_add(cursor, lhs, rhs, name),
            BinaryKind::FloatSub => llvm::build_float_sub(cursor, lhs, rhs, name),
            BinaryKind::FloatMul => llvm::build_float_mul(cursor, lhs, rhs, name),
            BinaryKind::FloatDiv => llvm::build_float_div(cursor, lhs, rhs, name),
            BinaryKind::FloatRem => llvm::build_float_rem(cursor, lhs, rhs, name),
            BinaryKind::FloatEq => llvm::build_float_compare(cursor, FloatComparison::Equal, lhs, rhs, name),
            BinaryKind::FloatNe => llvm::build_float_compare(
                cursor,
                FloatComparison::NotEqual,
                lhs,
                rhs,
                name,
            ),
            BinaryKind::FloatLt => llvm::build_float_compare(cursor, FloatComparison::Less, lhs, rhs, name),
            BinaryKind::FloatGt => llvm::build_float_compare(
                cursor,
                FloatComparison::Greater,
                lhs,
                rhs,
                name,
            ),
            BinaryKind::FloatLe => llvm::build_float_compare(
                cursor,
                FloatComparison::LessEqual,
                lhs,
                rhs,
                name,
            ),
            BinaryKind::FloatGe => llvm::build_float_compare(
                cursor,
                FloatComparison::GreaterEqual,
                lhs,
                rhs,
                name,
            ),
            BinaryKind::IntAdd => llvm::build_int_add(cursor, lhs, rhs, name),
            BinaryKind::IntLt => llvm::build_int_compare(cursor, IntComparison::Less, lhs, rhs, name),
        }
    }

    /// Replays one instruction at the cursor and yields its value, if it
    /// has one. It fails where the instruction refers to something out of
    /// reach, or where LLVM refuses an operand; it is sure to succeed
    /// where nothing is asked of LLVM that LLVM could refuse.
    fn instruction(
        &self,
        cursor: &Cursor<'_, 'ctx>,
        types: &Types<'ctx>,
        functions: &Vec<FunctionValue<'ctx>>,
        strings: &Vec<BasicValueEnum<'ctx>>,
        instr: &Instr,
    ) -> (r: Result<Option<BasicValueEnum<'ctx>>, CodegenError>)
        ensures
            r is Ok && self.wf() ==> instr_in_reach(
                instr@,
                functions@.len() as nat,
                self.blocks@.len() as nat,
                strings@.len() as nat,
            ),
            r matches Ok(value) ==> {
                &&& yields_value(instr@) ==> value is Some
                &&& yields_nothing(instr@) ==> value is None
            },
            self.owes(instr@, functions@.len() as nat, strings@) ==> r is Ok,
            r matches Err(e) ==> e@ == malformed(),
    {
        match instr {
            Instr::Alloca { ty, name } => Ok(Some(llvm::build_alloca(cursor, types.of(*ty), name.as_str()))),
            Instr::Store { ptr, value } => {
                let ptr = self.operand(cursor, types, strings, *ptr)?;
                let value = self.operand(cursor, types, strings, *value)?;
                if llvm::build_store(cursor, ptr, value) {
                    Ok(None)
                } else {
                    Err(malformed_ir())
                }
            },
            Instr::Load { ty, ptr, name } => {
                let ptr = self.operand(cursor, types, strings, *ptr)?;
                match llvm::build_load(cursor, ptr, name.as_str()) {
                    Some(value) => Ok(Some(value)),
                    None => Err(malformed_ir()),
                }
            },
            Instr::Unary { kind, value, name } => {
                let value = self.operand(cursor, types, strings, *value)?;
                match self.unary(cursor, types, *kind, value, name.as_str()) {
                    Some(value) => Ok(Some(value)),
                    None => Err(malformed_ir()),
                }
            },
            Instr::Binary { kind, lhs, rhs, name } => {
                let lhs = self.operand(cursor, types, strings, *lhs)?;
                let rhs = self.operand(cursor, types, strings, *rhs)?;
                match self.binary(cursor, *kind, lhs, rhs, name.as_str()) {
                    Some(value) => Ok(Some(value)),
                    None => Err(malformed_ir()),
                }
            },
            Instr::Call { callee, args, name } => {
                if *callee >= functions.len() {
                    return Err(malformed_ir());
                }
                let args = self.operands(cursor, types, strings, args)?;
                Ok(llvm::build_call(cursor, functions[*callee], &args, name.as_str()))
            },
            Instr::Return { value } => {
                let value = match value {
                    Some(operand) => Some(self.operand(cursor, types, strings, *operand)?),
                    None => None,
                };
                llvm::build_return(cursor, value);
                Ok(None)
            },
            Instr::Branch { target } => {
                let target = self.block(*target)?;
                llvm::build_unconditional_branch(cursor, target);
                Ok(None)
            },
            Instr::CondBranch { cond, then_block, else_block } => {
                let cond = self.operand(cursor, types, strings, *cond)?;
                let then_block = self.block(*then_block)?;
                let else_block = self.block(*else_block)?;
                if llvm::build_conditional_branch(cursor, cond, then_block, else_block) {
                    Ok(None)
                } else {
                    Err(malformed_ir())
                }
            },
        }
    }

    /// Replays the instructions of block `index` at the end of its LLVM
    /// block, and keeps what each of them yields behind the values that
    /// the block already has.
    fn fill_block(
        &mut self,
        cursor: &Cursor<'_, 'ctx>,
        types: &Types<'ctx>,
        functions: &Vec<FunctionValue<'ctx>>,
        strings: &Vec<BasicValueEnum<'ctx>>,
        block: &BlockIr,
        index: usize,
    ) -> (r: Result<(), CodegenError>)
        requires
            old(self).wf(),
            index < old(self).blocks@.len(),
        ensures
            final(self).wf(),
            final(self).keeps(old(self)),
            forall|b: int|
                0 <= b < old(self).values@.len() && b != index ==> (#[trigger] final(self).values@[b])
                    == old(self).values@[b],
            r is Ok ==> {
                let had = old(self).values@[index as int]@.len();
                &&& final(self).values@[index as int]@.len() == had + block@.instrs.len()
                &&& block_in_reach(
                    block@,
                    functions@.len() as nat,
                    final(self).blocks@.len() as nat,
                    strings@.len() as nat,
                )
                &&& forall|i: int|
                    0 <= i < block@.instrs.len() ==> {
                        let value = #[trigger] final(self).values@[index as int]@[had + i];
                        &&& yields_value(block@.instrs[i]) ==> value is Some
                        &&& yields_nothing(block@.instrs[i]) ==> value is None
                    }
            },
            (forall|i: int|
                0 <= i < block@.instrs.len() ==> old(self).owes(
                    #[trigger] block@.instrs[i],
                    functions@.len() as nat,
                    strings@,
                )) ==> r is Ok,
            r matches Err(e) ==> e@ == malformed(),
    {
        let ghost had = self.values@[index as int]@.len();
        let mut i: usize = 0;
        while i < block.instrs.len()
            invariant
                i <= block.instrs.len(),
                self.wf(),
                self.keeps(old(self)),
                index < self.blocks@.len(),
                had == old(self).values@[index as int]@.len(),
                forall|b: int|
                    0 <= b < old(self).values@.len() && b != index ==> (#[trigger] self.values@[b]) == old(
                        self,
                    ).values@[b],
                self.values@[index as int]@.len() == had + i,
                forall|j: int|
                    0 <= j < i ==> instr_in_reach(
                        #[trigger] block@.instrs[j],
                        functions@.len() as nat,
                        self.blocks@.len() as nat,
                        strings@.len() as nat,
                    ),
                forall|j: int|
                    0 <= j < i ==> {
                        let value = #[trigger] self.values@[index as int]@[had + j];
                        &&& yields_value(block@.instrs[j]) ==> value is Some
                        &&& yields_nothing(block@.instrs[j]) ==> value is None
                    },
            decreases block.instrs.len() - i,
        {
            proof {
                assert(block@.instrs[i as int] == block.instrs@[i as int]@);
                if old(self).owes(block@.instrs[i as int], functions@.len() as nat, strings@) {
                    self.lemma_still_owes(old(self), block@.instrs[i as int], functions@.len() as nat, strings@);
                }
            }
            let ghost before = self.values@;
            let value = self.instruction(cursor, types, functions, strings, &block.instrs[i])?;
            self.values[index].push(value);
            proof {
                assert forall|j: int| 0 <= j < i + 1 implies {
                    let kept = #[trigger] self.values@[index as int]@[had + j];
                    &&& yields_value(block@.instrs[j]) ==> kept is Some
                    &&& yields_nothing(block@.instrs[j]) ==> kept is None
                } by {
                    if j < i {
                        assert(self.values@[index as int]@[had + j] == before[index as int]@[had + j]);
                    }
                }
            }
            i += 1;
        }
        Ok(())
    }
}

/// Adds the constant strings of the module at the cursor.
fn emit_strings<'ctx>(cursor: &Cursor<'_, 'ctx>, ir: &ModuleIr) -> (strings: Vec<BasicValueEnum<'ctx>>)
    ensures
        strings@.len() == ir.strings@.len(),
{
    let mut strings: Vec<BasicValueEnum<'ctx>> = Vec::new();
    let mut i: usize = 0;
    while i < ir.strings.len()
        invariant
            i <= ir.strings.len(),
            strings@.len() == i,
        decreases ir.strings.len() - i,
    {
        let string = &ir.strings[i];
        strings.push(llvm::build_global_string_ptr(cursor, string.text.as_str(), string.name.as_str()));
        i += 1;
    }
    strings
}

/// Declares the functions of the module, in order.
fn declare_functions<'ctx>(
    context: &'ctx Context,
    module: &Module<'ctx>,
    types: &Types<'ctx>,
    ir: &ModuleIr,
) -> (functions: Vec<FunctionValue<'ctx>>)
    ensures
        functions@.len() == ir.functions@.len(),
{
    let mut functions: Vec<FunctionValue<'ctx>> = Vec::new();
    let mut i: usize = 0;
    while i < ir.functions.len()
        invariant
            i <= ir.functions.len(),
            functions@.len() == i,
        decreases ir.functions.len() - i,
    {
        let function = &ir.functions[i];
        let params = types.list(&function.params);
        let ty = match function.ret {
            Some(ret) => llvm::value_fn_type(types.of(ret), &params, false),
            None => llvm::void_fn_type(context, &params, false),
        };
        functions.push(llvm::add_function(module, function.name.as_str(), ty));
        i += 1;
    }
    functions
}

/// Adds the blocks of a function, in order, all of them empty.
fn append_blocks<'ctx>(context: &'ctx Context, function: FunctionValue<'ctx>, ir: &FunctionIr) -> (emitter: FunctionEmitter<
    'ctx,
>)
    ensures
        emitter.wf(),
        emitter.function == function,
        emitter.blocks@.len() == ir.blocks@.len(),
        forall|b: int| 0 <= b < emitter.values@.len() ==> (#[trigger] emitter.values@[b])@.len() == 0,
{
    let mut blocks: Vec<BasicBlock<'ctx>> = Vec::new();
    let mut values: Vec<Vec<Option<BasicValueEnum<'ctx>>>> = Vec::new();
    let mut i: usize = 0;
    while i < ir.blocks.len()
        invariant
            i <= ir.blocks.len(),
            blocks@.len() == i,
            values@.len() == i,
            forall|b: int| 0 <= b < i ==> (#[trigger] values@[b])@.len() == 0,
        decreases ir.blocks.len() - i,
    {
        blocks.push(llvm::append_basic_block(context, function, ir.blocks[i].name.as_str()));
        values.push(Vec::new());
        i += 1;
    }
    FunctionEmitter { function, blocks, values }
}

/// How many constant strings the replay of a function works with: those
/// that it was given, or else those of the module, which it adds itself.
pub open spec fn strings_at_hand<T>(given: Option<Vec<T>>, module: ModuleView) -> nat {
    match given {
        Some(strings) => strings@.len(),
        None => module.strings.len(),
    }
}

/// Replays the body of one function: its blocks are added in the order of
/// their creation and filled in the order in which they were visited. The
/// constant strings of the module are added before the first block is
/// filled, unless they were given.
fn emit_function<'ctx>(
    context: &'ctx Context,
    builder: &Builder<'ctx>,
    types: &Types<'ctx>,
    functions: &Vec<FunctionValue<'ctx>>,
    strings: &mut Option<Vec<BasicValueEnum<'ctx>>>,
    ir: &ModuleIr,
    index: usize,
) -> (r: Result<(), CodegenError>)
    requires
        index < ir.functions@.len(),
        functions@.len() == ir.functions@.len(),
    ensures
        *old(strings) is Some ==> *final(strings) == *old(strings),
        *old(strings) is None ==> match *final(strings) {
            Some(added) => added@.len() == ir@.strings.len(),
            None => ir@.functions[index as int].visits.len() == 0 || r is Err,
        },
        r is Ok ==> function_in_reach(
            ir@.functions[index as int],
            functions@.len() as nat,
            strings_at_hand(*old(strings), ir@),
        ),
        function_standalone(
            ir@.functions[index as int],
            functions@.len() as nat,
            strings_at_hand(*old(strings), ir@),
        ) ==> r is Ok,
        r matches Err(e) ==> e@ == malformed(),
{
    let function = &ir.functions[index];
    let mut emitter = append_blocks(context, functions[index], function);
    let ghost view = ir@.functions[index as int];
    let ghost given = *strings;
    let ghost count = strings_at_hand(given, ir@);
    proof {
        assert(view == function@);
    }
    let mut v: usize = 0;
    while v < function.visits.len()
        invariant
            v <= function.visits.len(),
            emitter.wf(),
            emitter.blocks@.len() == function.blocks@.len(),
            view == function@,
            view == ir@.functions[index as int],
            given == *old(strings),
            count == strings_at_hand(given, ir@),
            given is Some ==> *strings == given,
            given is None ==> match *strings {
                Some(added) => added@.len() == ir@.strings.len(),
                None => v == 0,
            },
            forall|u: int|
                0 <= u < v ==> (#[trigger] view.visits[u]) < view.blocks.len() && block_in_reach(
                    view.blocks[view.visits[u] as int],
                    functions@.len() as nat,
                    view.blocks.len(),
                    count,
                ),
        decreases function.visits.len() - v,
    {
        let b = function.visits[v];
        proof {
            assert(view.visits[v as int] == b);
        }
        let block = emitter.block(b)?;
        let cursor = llvm::position_at_end(builder, block);
        if strings.is_none() {
            *strings = Some(emit_strings(&cursor, ir));
        }
        match &*strings {
            Some(known) => {
                proof {
                    assert(view.blocks[b as int] == function.blocks@[b as int]@);
                    assert(known@.len() == count);
                    if function_standalone(view, functions@.len() as nat, count) {
                        assert(block_standalone(
                            view.blocks[view.visits[v as int] as int],
                            functions@.len() as nat,
                            view.blocks.len(),
                            count,
                        ));
                        assert forall|i: int| 0 <= i < view.blocks[b as int].instrs.len() implies emitter.owes(
                            #[trigger] view.blocks[b as int].instrs[i],
                            functions@.len() as nat,
                            known@,
                        ) by {
                            emitter.lemma_standalone_owes(
                                view.blocks[b as int].instrs[i],
                                functions@.len() as nat,
                                known@,
                            );
                        }
                    }
                }
                emitter.fill_block(&cursor, types, functions, known, &function.blocks[b], b)?;
            },
            None => {},
        }
        v += 1;
    }
    Ok(())
}

/// Replays a module of the intermediate representation on an LLVM module:
/// all functions are declared, then the body of each is replayed.
fn emit_module<'ctx>(context: &'ctx Context, module: &Module<'ctx>, ir: &ModuleIr) -> (r: Result<
    (),
    CodegenError,
>)
    ensures
        r is Ok ==> module_in_reach(ir@),
        module_standalone(ir@) ==> r is Ok,
        r matches Err(e) ==> e@ == malformed(),
{
    let builder = llvm::create_builder(context);
    let types = Types::new(context);
    let functions = declare_functions(context, module, &types, ir);
    let mut strings: Option<Vec<BasicValueEnum<'ctx>>> = None;
    let mut i: usize = 0;
    while i < ir.functions.len()
        invariant
            i <= ir.functions.len(),
            functions@.len() == ir.functions@.len(),
            strings matches Some(added) ==> added@.len() == ir@.strings.len(),
            forall|f: int|
                0 <= f < i ==> function_in_reach(
                    #[trigger] ir@.functions[f],
                    ir@.functions.len(),
                    ir@.strings.len(),
                ),
        decreases ir.functions.len() - i,
    {
        emit_function(context, &builder, &types, &functions, &mut strings, ir, i)?;
        i += 1;
    }
    Ok(())
}

/// What the verifier's report means for the build: a module that passed
/// goes on, any other fails the build with the report.
pub fn check_verified(report: Result<(), String>) -> (r: Result<(), CodegenError>)
    ensures
        match report {
            Ok(_) => r is Ok,
            Err(message) => r matches Err(e) && e@ == failure(ErrorCode::VerificationFailed, message@),
        },
{
    match report {
        Ok(_) => Ok(()),
        Err(message) => Err(CodegenError { code: ErrorCode::VerificationFailed, subject: message }),
    }
}

/// What the report of a step of the toolchain means for the build.
pub fn check_step<T>(step: ToolchainStep, report: Result<T, String>) -> (r: Result<T, CodegenError>)
    ensures
        match report {
            Ok(value) => r == Ok::<T, CodegenError>(value),
            Err(message) => r matches Err(e) && e@ == failure(ErrorCode::Toolchain(step), message@),
        },
{
    match report {
        Ok(value) => Ok(value),
        Err(message) => Err(CodegenError { code: ErrorCode::Toolchain(step), subject: message }),
    }
}

/// Runs the canned optimization pipeline on the module, unless the level
/// is `Off`: instruction combining, reassociation, global value numbering,
/// control-flow simplification, instruction simplification.
fn run_default_passes<'ctx>(module: &Module<'ctx>, level: CodegenOptLevel) {
    match level {
        CodegenOptLevel::Off => {},
        _ => {
            let passes = llvm::create_pass_manager();
            llvm::add_instruction_combining_pass(&passes);
            llvm::add_reassociate_pass(&passes);
            llvm::add_gvn_pass(&passes);
            llvm::add_cfg_simplification_pass(&passes);
            llvm::add_instruction_simplify_pass(&passes);
            llvm::run_passes(&passes, module);
        },
    }
}

/// The codes with which code generation behind lowering can fail.
pub open spec fn is_backend_failure(code: ErrorCode) -> bool {
    ||| code == ErrorCode::MalformedIr
    ||| code == ErrorCode::VerificationFailed
    ||| code == ErrorCode::Toolchain(ToolchainStep::TargetInit)
    ||| code == ErrorCode::Toolchain(ToolchainStep::TargetFromTriple)
    ||| code == ErrorCode::Toolchain(ToolchainStep::TargetMachine)
    ||| code == ErrorCode::Toolchain(ToolchainStep::ObjectEmission)
}

/// The printed form of the LLVM module that `ir` is replayed to, if that
/// module passes LLVM's verifier. A module with a visited block that
/// refers to something out of reach is refused as malformed, before
/// LLVM's verifier is asked.
pub fn emit_ir(ir: &ModuleIr) -> (r: Result<String, CodegenError>)
    ensures
        !module_in_reach(ir@) ==> (r matches Err(e) && e@ == malformed()),
        r matches Err(e) ==> e@.code == ErrorCode::MalformedIr || e@.code
            == ErrorCode::VerificationFailed,
{
    let context = llvm::create_context();
    let module = llvm::create_module(&context, ir.name.as_str());
    emit_module(&context, &module, ir)?;
    check_verified(llvm::verify_module(&module))?;
    Ok(llvm::print_module(&module))
}

/// The CPU that code is generated for: any CPU of the host's kind.
pub const TARGET_CPU: &'static str = "generic";

/// The CPU features that generated code relies on: none.
pub const TARGET_FEATURES: &'static str = "";

/// What code generation yields: the object code and, where it was asked
/// for, the printed module as it was before optimization.
#[derive(Debug)]
pub struct CompiledModule {
    pub object: Vec<u8>,
    pub ir: Option<String>,
}

/// Generates object code for the host from a module of the intermediate
/// representation: the module is replayed to LLVM and verified; then the
/// host's target machine is made, the passes of the chosen level run, and
/// the object code written. A module with a visited block that refers to
/// something out of reach is refused as malformed before all that.
pub fn compile_module(ir: &ModuleIr, options: &CodegenOptions) -> (r: Result<CompiledModule, CodegenError>)
    ensures
        !module_in_reach(ir@) ==> (r matches Err(e) && e@ == malformed()),
        match r {
            Ok(compiled) => compiled.ir is Some <==> options.emit_ir,
            Err(e) => is_backend_failure(e@.code),
        },
{
    let context = llvm::create_context();
    let module = llvm::create_module(&context, ir.name.as_str());
    emit_module(&context, &module, ir)?;
    check_verified(llvm::verify_module(&module))?;
    let text = if options.emit_ir {
        Some(llvm::print_module(&module))
    } else {
        None
    };
    check_step(ToolchainStep::TargetInit, llvm::initialize_native())?;
    let triple = llvm::default_triple();
    llvm::set_triple(&module, &triple);
    let target = check_step(ToolchainStep::TargetFromTriple, llvm::target_from_triple(&triple))?;
    let machine = match llvm::create_target_machine(
        &target,
        &triple,
        TARGET_CPU,
        TARGET_FEATURES,
        llvm::optimization_level(options.opt_level),
        llvm::reloc_mode(Relocation::Default),
        llvm::code_model(Addressing::Default),
    ) {
        Some(machine) => machine,
        None => {
            return Err(CodegenError::bare(ErrorCode::Toolchain(ToolchainStep::TargetMachine)));
        },
    };
    llvm::set_data_layout(&module, &machine);
    run_default_passes(&module, options.opt_level);
    let object = check_step(
        ToolchainStep::ObjectEmission,
        llvm::write_code(&machine, &module, OutputKind::Object),
    )?;
    Ok(CompiledModule { object, ir: text })
}

/// Generates object code for the host from a program: the program is
/// lowered, and the module that it yields compiled. An error of lowering
/// is handed on as it is.
pub fn compile_program(program: &Program, registry: &SymbolRegistry, options: &CodegenOptions) -> (r: Result<
    CompiledModule,
    CodegenError,
>)
    ensures
        match spec_lowered_module(registry@, *program) {
            Err(e) => r matches Err(x) && x@ == e,
            Ok(module) => {
                &&& !module_in_reach(module) ==> (r matches Err(e) && e@ == malformed())
                &&& match r {
                    Ok(compiled) => compiled.ir is Some <==> options.emit_ir,
                    Err(e) => is_backend_failure(e@.code),
                }
            },
        },
{
    let ir = lower_program(program, registry)?;
    compile_module(&ir, options)
}

} // verus!
