//! The intermediate representation that lowering produces.
//!
//! A module holds functions and constant strings; a function holds basic
//! blocks; a block holds instructions. Values are named by where they were
//! made: the result of an instruction by its block and its place in it.

use crate::types::IrType;
use vstd::prelude::*;

verus! {

/// A value that an instruction can take.
#[derive(Clone, Copy, Debug, PartialEq, Eq, Structural)]
pub enum Operand {
    /// A binary64 constant, given by its bit pattern.
    ConstFloat { bits: u64 },
    /// An integer constant of the given type.
    ConstInt { ty: IrType, value: u64 },
    /// The null pointer.
    Null,
    /// The address of the first byte of the module's constant string `index`.
    Str { index: usize },
    /// The parameter `index` of the enclosing function.
    Param { index: usize },
    /// The result of the instruction at place `index` of block `block`.
    Inst { block: usize, index: usize },
}

/// An operation on one value.
#[derive(Clone, Copy, Debug, PartialEq, Eq, Structural)]
pub enum UnaryKind {
    /// Signed integer to binary64.
    SignedToFloat,
    /// Binary64 to signed 64-bit integer.
    FloatToSigned,
    /// Floating-point negation.
    FloatNeg,
    /// Bitwise complement.
    Not,
    /// Signed integer to signed 64-bit integer, by sign extension.
    SignExtend,
}

/// An operation on two values.
#[derive(Clone, Copy, Debug, PartialEq, Eq, Structural)]
pub enum BinaryKind {
    FloatAdd,
    FloatSub,
    FloatMul,
    FloatDiv,
    FloatRem,
    /// Ordered float comparisons.
    FloatEq,
    FloatNe,
    FloatLt,
    FloatGt,
    FloatLe,
    FloatGe,
    IntAdd,
    /// Signed integer less-than.
    IntLt,
}

/// An instruction. `name` is the label that the value carries in printed code.
#[derive(Clone, Debug, PartialEq, Eq)]
#[allow(inconsistent_fields)]
pub enum Instr {
    /// Reserves a stack slot; the result is its address.
    Alloca { ty: IrType, name: String },
    Store { ptr: Operand, value: Operand },
    Load { ty: IrType, ptr: Operand, name: String },
    Unary { kind: UnaryKind, value: Operand, name: String },
    Binary { kind: BinaryKind, lhs: Operand, rhs: Operand, name: String },
    /// Calls function `callee` of the module. `name` is the name by which the
    /// source refers to the callee.
    Call { callee: usize, args: Vec<Operand>, name: String },
    Return { value: Option<Operand> },
    Branch { target: usize },
    CondBranch { cond: Operand, then_block: usize, else_block: usize },
}

/// An instruction as contracts speak of it.
#[allow(inconsistent_fields)]
pub enum InstrView {
    Alloca { ty: IrType, name: Seq<char> },
    Store { ptr: Operand, value: Operand },
    Load { ty: IrType, ptr: Operand, name: Seq<char> },
    Unary { kind: UnaryKind, value: Operand, name: Seq<char> },
    Binary { kind: BinaryKind, lhs: Operand, rhs: Operand, name: Seq<char> },
    Call { callee: usize, args: Seq<Operand>, name: Seq<char> },
    Return { value: Option<Operand> },
    Branch { target: usize },
    CondBranch { cond: Operand, then_block: usize, else_block: usize },
}

impl InstrView {
    /// Does this instruction end a block?
    pub open spec fn is_terminator(self) -> bool {
        self is Return || self is Branch || self is CondBranch
    }
}

impl View for Instr {
    type V = InstrView;

    open spec fn view(&self) -> InstrView {
        match *self {
            Instr::Alloca { ty, name } => InstrView::Alloca { ty, name: name@ },
            Instr::Store { ptr, value } => InstrView::Store { ptr, value },
            Instr::Load { ty, ptr, name } => InstrView::Load { ty, ptr, name: name@ },
            Instr::Unary { kind, value, name } => InstrView::Unary { kind, value, name: name@ },
            Instr::Binary { kind, lhs, rhs, name } => InstrView::Binary { kind, lhs, rhs, name: name@ },
            Instr::Call { callee, args, name } => InstrView::Call { callee, args: args@, name: name@ },
            Instr::Return { value } => InstrView::Return { value },
            Instr::Branch { target } => InstrView::Branch { target },
            Instr::CondBranch { cond, then_block, else_block } => InstrView::CondBranch {
                cond,
                then_block,
                else_block,
            },
        }
    }
}

impl Instr {
    /// Does this instruction end a block?
    pub fn is_terminator(&self) -> (r: bool)
        ensures
            r == self@.is_terminator(),
    {
        match self {
            Instr::Return { .. } | Instr::Branch { .. } | Instr::CondBranch { .. } => true,
            _ => false,
        }
    }
}

/// The views of a list of instructions.
pub open spec fn instr_views(instrs: Seq<Instr>) -> Seq<InstrView> {
    instrs.map_values(|i: Instr| i@)
}

/// A basic block: a label and the instructions under it.
#[derive(Clone, Debug, PartialEq, Eq)]
pub struct BlockIr {
    pub name: String,
    pub instrs: Vec<Instr>,
}

/// A block as contracts speak of it.
pub struct BlockView {
    pub name: Seq<char>,
    pub instrs: Seq<InstrView>,
}

impl View for BlockIr {
    type V = BlockView;

    open spec fn view(&self) -> BlockView {
        BlockView { name: self.name@, instrs: instr_views(self.instrs@) }
    }
}

impl BlockView {
    /// The block's last instruction is a terminator.
    pub open spec fn terminated(self) -> bool {
        self.instrs.len() > 0 && self.instrs.last().is_terminator()
    }

    /// The block holds no terminator at all.
    pub open spec fn open(self) -> bool {
        forall|i: int| 0 <= i < self.instrs.len() ==> !(#[trigger] self.instrs[i]).is_terminator()
    }

    /// The block ends in exactly one terminator, with none before it.
    pub open spec fn closed(self) -> bool {
        &&& self.instrs.len() > 0
        &&& self.instrs.last().is_terminator()
        &&& forall|i: int|
            0 <= i < self.instrs.len() - 1 ==> !(#[trigger] self.instrs[i]).is_terminator()
    }
}

impl BlockView {
    /// This block is `before`, under the same name, with instructions put
    /// behind it, or none.
    pub open spec fn extends(self, before: BlockView) -> bool {
        &&& self.name == before.name
        &&& before.instrs.len() <= self.instrs.len()
        &&& forall|i: int| 0 <= i < before.instrs.len() ==> (#[trigger] self.instrs[i]) == before.instrs[i]
    }

    /// The block holds a terminator that is not its last instruction.
    pub open spec fn spoiled(self) -> bool {
        exists|i: int| 0 <= i < self.instrs.len() - 1 && (#[trigger] self.instrs[i]).is_terminator()
    }
}

/// A block with a terminator before its end does not end in exactly one
/// terminator, and keeps that terminator whatever is put behind it; and a
/// block that ends in a terminator has one before its end as soon as
/// anything is put behind it.
pub proof fn lemma_spoiled(before: BlockView, after: BlockView)
    requires
        after.extends(before),
    ensures
        before.spoiled() ==> after.spoiled(),
        before.terminated() && after.instrs.len() > before.instrs.len() ==> after.spoiled(),
        after.spoiled() ==> !after.closed(),
{
    if before.spoiled() {
        let i = choose|i: int| 0 <= i < before.instrs.len() - 1 && (#[trigger] before.instrs[i]).is_terminator();
        assert(after.instrs[i].is_terminator());
    }
    if before.terminated() && after.instrs.len() > before.instrs.len() {
        let last = before.instrs.len() - 1;
        assert(after.instrs[last].is_terminator());
    }
}

/// The views of a list of blocks.
pub open spec fn block_views(blocks: Seq<BlockIr>) -> Seq<BlockView> {
    blocks.map_values(|b: BlockIr| b@)
}

/// A function: its type, and its blocks if it has a body.
#[derive(Clone, Debug, PartialEq, Eq)]
pub struct FunctionIr {
    pub name: String,
    pub params: Vec<IrType>,
    /// The type of the result; `None` where the function returns nothing.
    pub ret: Option<IrType>,
    /// The blocks, in the order of their creation. None: a declaration.
    pub blocks: Vec<BlockIr>,
    /// The blocks in the order in which they were filled.
    pub visits: Vec<usize>,
}

/// A function as contracts speak of it.
pub struct FunctionView {
    pub name: Seq<char>,
    pub params: Seq<IrType>,
    pub ret: Option<IrType>,
    pub blocks: Seq<BlockView>,
    pub visits: Seq<usize>,
}

impl View for FunctionIr {
    type V = FunctionView;

    open spec fn view(&self) -> FunctionView {
        FunctionView {
            name: self.name@,
            params: self.params@,
            ret: self.ret,
            blocks: block_views(self.blocks@),
            visits: self.visits@,
        }
    }
}

impl FunctionView {
    /// Does `operand` name a value that code of this function can use, in
    /// a module with `strings` constant strings?
    pub open spec fn sees(self, strings: nat, operand: Operand) -> bool {
        match operand {
            Operand::Str { index } => index < strings,
            Operand::Param { index } => index < self.params.len(),
            Operand::Inst { block, index } => block < self.blocks.len() && index
                < self.blocks[block as int].instrs.len(),
            _ => true,
        }
    }

    /// Does every reference of `instr` lead somewhere: its operands to
    /// values, its callee to one of `functions` functions, its targets to
    /// blocks of this function?
    pub open spec fn refers(self, functions: nat, strings: nat, instr: InstrView) -> bool {
        match instr {
            InstrView::Alloca { .. } => true,
            InstrView::Store { ptr, value } => self.sees(strings, ptr) && self.sees(strings, value),
            InstrView::Load { ptr, .. } => self.sees(strings, ptr),
            InstrView::Unary { value, .. } => self.sees(strings, value),
            InstrView::Binary { lhs, rhs, .. } => self.sees(strings, lhs) && self.sees(strings, rhs),
            InstrView::Call { callee, args, .. } => callee < functions && forall|k: int|
                0 <= k < args.len() ==> self.sees(strings, #[trigger] args[k]),
            InstrView::Return { value } => match value {
                Some(v) => self.sees(strings, v),
                None => true,
            },
            InstrView::Branch { target } => target < self.blocks.len(),
            InstrView::CondBranch { cond, then_block, else_block } => self.sees(strings, cond)
                && then_block < self.blocks.len() && else_block < self.blocks.len(),
        }
    }

    /// Every reference of every instruction leads somewhere, and so does
    /// every visit.
    pub open spec fn well_indexed(self, functions: nat, strings: nat) -> bool {
        &&& forall|b: int, i: int|
            0 <= b < self.blocks.len() && 0 <= i < self.blocks[b].instrs.len() ==> self.refers(
                functions,
                strings,
                #[trigger] self.blocks[b].instrs[i],
            )
        &&& forall|v: int| 0 <= v < self.visits.len()
            ==> (#[trigger] self.visits[v]) < self.blocks.len()
    }

    /// This function has what `before` had, and maybe more: the same
    /// parameters, and in every block at least as many instructions.
    pub open spec fn outgrows(self, before: FunctionView) -> bool {
        &&& self.params == before.params
        &&& self.blocks.len() >= before.blocks.len()
        &&& forall|b: int|
            0 <= b < before.blocks.len() ==> (#[trigger] self.blocks[b]).instrs.len()
                >= before.blocks[b].instrs.len()
    }

    /// A function without a body, as a declaration makes it.
    pub open spec fn declaration(name: Seq<char>, params: Seq<IrType>, ret: Option<IrType>) -> FunctionView {
        FunctionView { name, params, ret, blocks: Seq::empty(), visits: Seq::empty() }
    }

    /// Every block ends in exactly one terminator.
    pub open spec fn well_terminated(self) -> bool {
        forall|b: int| 0 <= b < self.blocks.len() ==> (#[trigger] self.blocks[b]).closed()
    }

    /// The last instruction of every block is a terminator.
    pub open spec fn all_terminated(self) -> bool {
        forall|b: int| 0 <= b < self.blocks.len() ==> (#[trigger] self.blocks[b]).terminated()
    }

    /// Some block holds a terminator that is not its last instruction.
    pub open spec fn has_spoiled(self) -> bool {
        exists|b: int| 0 <= b < self.blocks.len() && (#[trigger] self.blocks[b]).spoiled()
    }
}

/// The views of a list of functions.
pub open spec fn function_views(functions: Seq<FunctionIr>) -> Seq<FunctionView> {
    functions.map_values(|f: FunctionIr| f@)
}

/// A constant string of the module.
#[derive(Clone, Debug, PartialEq, Eq)]
pub struct GlobalString {
    pub name: String,
    pub text: String,
}

/// A constant string as contracts speak of it.
pub struct GlobalStringView {
    pub name: Seq<char>,
    pub text: Seq<char>,
}

impl View for GlobalString {
    type V = GlobalStringView;

    open spec fn view(&self) -> GlobalStringView {
        GlobalStringView { name: self.name@, text: self.text@ }
    }
}

/// The views of a list of constant strings.
pub open spec fn string_views(strings: Seq<GlobalString>) -> Seq<GlobalStringView> {
    strings.map_values(|s: GlobalString| s@)
}

/// A module: one compilation unit.
#[derive(Clone, Debug, PartialEq, Eq)]
pub struct ModuleIr {
    pub name: String,
    pub functions: Vec<FunctionIr>,
    pub strings: Vec<GlobalString>,
}

/// A module as contracts speak of it.
pub struct ModuleView {
    pub name: Seq<char>,
    pub functions: Seq<FunctionView>,
    pub strings: Seq<GlobalStringView>,
}

impl View for ModuleIr {
    type V = ModuleView;

    open spec fn view(&self) -> ModuleView {
        ModuleView {
            name: self.name@,
            functions: function_views(self.functions@),
            strings: string_views(self.strings@),
        }
    }
}

/// The first place at or after `from` of a function called `name`.
pub open spec fn first_named(functions: Seq<FunctionView>, name: Seq<char>, from: int) -> Option<int>
    decreases functions.len() - from,
{
    if from < 0 || from >= functions.len() {
        None
    } else if functions[from].name == name {
        Some(from)
    } else {
        first_named(functions, name, from + 1)
    }
}

/// How many functions are called `name`.
pub open spec fn count_named(functions: Seq<FunctionView>, name: Seq<char>) -> nat
    decreases functions.len(),
{
    if functions.len() == 0 {
        0
    } else {
        count_named(functions.drop_last(), name) + if functions.last().name == name {
            1nat
        } else {
            0nat
        }
    }
}

/// A search from `from` on finds nothing exactly where no function from
/// `from` on has the name, and what it finds has the name.
pub proof fn lemma_first_named(functions: Seq<FunctionView>, name: Seq<char>, from: int)
    requires
        0 <= from,
    ensures
        match first_named(functions, name, from) {
            Some(i) => from <= i < functions.len() && functions[i].name == name,
            None => forall|i: int| from <= i < functions.len() ==> functions[i].name != name,
        },
    decreases functions.len() - from,
{
    if from < functions.len() && functions[from].name != name {
        lemma_first_named(functions, name, from + 1);
    }
}

/// As many functions have the name as there are places that hold it: none
/// where no place does, and one more for a new function of that name.
pub proof fn lemma_count_named(functions: Seq<FunctionView>, name: Seq<char>)
    ensures
        (forall|i: int| 0 <= i < functions.len() ==> functions[i].name != name) <==> count_named(
            functions,
            name,
        ) == 0,
    decreases functions.len(),
{
    if functions.len() > 0 {
        lemma_count_named(functions.drop_last(), name);
        if count_named(functions, name) == 0 {
            assert forall|i: int| 0 <= i < functions.len() implies functions[i].name != name by {
                if i < functions.len() - 1 {
                    assert(functions.drop_last()[i] == functions[i]);
                }
            }
        } else if functions.last().name != name {
            let i = choose|i: int|
                0 <= i < functions.len() - 1 && functions.drop_last()[i].name == name;
            assert(functions[i].name == name);
        }
    }
}

/// A search that starts behind a function does not see it.
pub proof fn lemma_first_named_push(functions: Seq<FunctionView>, added: FunctionView, name: Seq<char>, from: int)
    requires
        0 <= from <= functions.len(),
    ensures
        first_named(functions.push(added), name, from) == match first_named(functions, name, from) {
            Some(i) => Some(i),
            None => if added.name == name {
                Some(functions.len() as int)
            } else {
                None
            },
        },
    decreases functions.len() - from,
{
    let longer = functions.push(added);
    if from < functions.len() {
        assert(longer[from] == functions[from]);
        if functions[from].name != name {
            lemma_first_named_push(functions, added, name, from + 1);
        }
    } else {
        assert(longer[from] == added);
        assert(first_named(longer, name, from + 1) is None);
    }
}

/// A module with a terminator before the end of a block does not have
/// every block end in exactly one terminator.
pub proof fn lemma_spoiled_module(module: ModuleView)
    requires
        module.has_spoiled(),
    ensures
        !module.well_terminated(),
{
    let f = choose|f: int| 0 <= f < module.functions.len() && (#[trigger] module.functions[f]).has_spoiled();
    let b = choose|b: int|
        0 <= b < module.functions[f].blocks.len() && (#[trigger] module.functions[f].blocks[b]).spoiled();
    lemma_spoiled(module.functions[f].blocks[b], module.functions[f].blocks[b]);
    assert(!module.functions[f].blocks[b].closed());
    assert(!module.functions[f].well_terminated());
}

/// A reference that led somewhere still does when the function and the
/// module have grown.
pub proof fn lemma_refers_on(
    before: FunctionView,
    after: FunctionView,
    functions: nat,
    more_functions: nat,
    strings: nat,
    more_strings: nat,
    instr: InstrView,
)
    requires
        after.outgrows(before),
        functions <= more_functions,
        strings <= more_strings,
        before.refers(functions, strings, instr),
    ensures
        after.refers(more_functions, more_strings, instr),
{
    assert forall|operand: Operand| before.sees(strings, operand) implies after.sees(
        more_strings,
        operand,
    ) by {
        if let Operand::Inst { block, index } = operand {
            assert(after.blocks[block as int].instrs.len() >= before.blocks[block as int].instrs.len());
        }
    }
}

/// A name that a function of a module without double names carries is
/// carried by exactly one function.
pub proof fn lemma_declared_once(functions: Seq<FunctionView>, name: Seq<char>)
    requires
        forall|i: int, j: int|
            0 <= i < j < functions.len() ==> (#[trigger] functions[i]).name != (#[trigger] functions[j]).name,
        exists|i: int| 0 <= i < functions.len() && (#[trigger] functions[i]).name == name,
    ensures
        count_named(functions, name) == 1,
    decreases functions.len(),
{
    let last = functions.len() - 1;
    let rest = functions.drop_last();
    assert forall|i: int, j: int| 0 <= i < j < rest.len() implies (#[trigger] rest[i]).name != (
    #[trigger] rest[j]).name by {
        assert(rest[i] == functions[i] && rest[j] == functions[j]);
    }
    if functions[last].name == name {
        assert forall|i: int| 0 <= i < rest.len() implies rest[i].name != name by {
            assert(rest[i] == functions[i]);
        }
        lemma_count_named(rest, name);
    } else {
        let i = choose|i: int| 0 <= i < functions.len() && (#[trigger] functions[i]).name == name;
        assert(rest[i] == functions[i]);
        lemma_declared_once(rest, name);
    }
}

impl ModuleView {
    /// Does a function of the module carry the name?
    pub open spec fn declares(self, name: Seq<char>) -> bool {
        exists|i: int| 0 <= i < self.functions.len() && (#[trigger] self.functions[i]).name == name
    }

    /// Every name that `before` declares, this module declares too.
    pub open spec fn keeps_declared(self, before: ModuleView) -> bool {
        forall|name: Seq<char>| #[trigger] before.declares(name) ==> self.declares(name)
    }

    /// Every reference of every instruction of the module leads somewhere.
    pub open spec fn well_indexed(self) -> bool {
        forall|f: int|
            0 <= f < self.functions.len() ==> (#[trigger] self.functions[f]).well_indexed(
                self.functions.len(),
                self.strings.len(),
            )
    }

    /// No two functions have the same name.
    pub open spec fn unique_names(self) -> bool {
        forall|i: int, j: int|
            0 <= i < j < self.functions.len() ==> (#[trigger] self.functions[i]).name != (
            #[trigger] self.functions[j]).name
    }

    /// The function that the name `name` refers to: the first one so called.
    pub open spec fn find_function(self, name: Seq<char>) -> Option<int> {
        first_named(self.functions, name, 0)
    }

    /// The module with one more function, declared and without a body.
    pub open spec fn declare(self, name: Seq<char>, params: Seq<IrType>, ret: Option<IrType>) -> ModuleView {
        ModuleView { functions: self.functions.push(FunctionView::declaration(name, params, ret)), ..self }
    }

    /// Every block of every function ends in exactly one terminator.
    pub open spec fn well_terminated(self) -> bool {
        forall|f: int| 0 <= f < self.functions.len()
            ==> (#[trigger] self.functions[f]).well_terminated()
    }

    /// Some block of some function holds a terminator that is not its last
    /// instruction.
    pub open spec fn has_spoiled(self) -> bool {
        exists|f: int| 0 <= f < self.functions.len() && (#[trigger] self.functions[f]).has_spoiled()
    }

    /// The last instruction of every block of every function is a
    /// terminator.
    pub open spec fn all_terminated(self) -> bool {
        forall|f: int| 0 <= f < self.functions.len()
            ==> (#[trigger] self.functions[f]).all_terminated()
    }
}

impl ModuleIr {
    /// An empty module.
    pub fn new(name: &str) -> (m: ModuleIr)
        ensures
            m@.name == name@,
            m@.functions == Seq::<FunctionView>::empty(),
            m@.strings == Seq::<GlobalStringView>::empty(),
    {
        let m = ModuleIr { name: name.to_owned(), functions: Vec::new(), strings: Vec::new() };
        proof {
            assert(m@.functions =~= Seq::<FunctionView>::empty());
            assert(m@.strings =~= Seq::<GlobalStringView>::empty());
        }
        m
    }

    /// The function that `name` refers to, if the module has one so called.
    pub fn get_function(&self, name: &str) -> (found: Option<usize>)
        ensures
            match found {
                Some(i) => self@.find_function(name@) == Some(i as int) && i < self.functions.len(),
                None => self@.find_function(name@) is None,
            },
    {
        let mut i: usize = 0;
        while i < self.functions.len()
            invariant
                i <= self.functions.len(),
                self@.find_function(name@) == first_named(self@.functions, name@, i as int),
            decreases self.functions.len() - i,
        {
            if crate::types::str_equal(self.functions[i].name.as_str(), name) {
                return Some(i);
            }
            i += 1;
        }
        None
    }
}

} // verus!
