//! The state of one lowering session: the module under construction, the
//! registry, and the insertion cursor.

use crate::ir::{
    block_views, instr_views, lemma_refers_on, BlockIr, BlockView, FunctionIr, FunctionView,
    GlobalString, GlobalStringView, Instr, InstrView, ModuleIr, ModuleView, Operand,
};
use crate::symbols::{FfiFunction, SymbolRegistry};
use crate::types::{str_equal, IrType, OtterType};
use vstd::prelude::*;

verus! {

/// A variable of a function: its stack slot and its type.
#[derive(Clone, Copy, Debug, PartialEq, Eq, Structural)]
pub struct Variable {
    pub slot: Operand,
    pub ty: OtterType,
}

/// A typed value that an expression yielded.
///
/// The value is absent exactly when the type is `Unit`.
#[derive(Clone, Copy, Debug, PartialEq, Eq, Structural)]
pub struct EvaluatedValue {
    pub ty: OtterType,
    pub value: Option<Operand>,
}

impl EvaluatedValue {
    /// The value is absent exactly when the type is `Unit`.
    pub open spec fn wf(self) -> bool {
        (self.ty == OtterType::Unit) <==> (self.value is None)
    }

    /// The value `value` of type `ty`.
    pub open spec fn spec_with_value(value: Operand, ty: OtterType) -> EvaluatedValue {
        EvaluatedValue { ty, value: Some(value) }
    }

    /// The value `value` of type `ty`.
    #[verifier::when_used_as_spec(spec_with_value)]
    pub fn with_value(value: Operand, ty: OtterType) -> (v: EvaluatedValue)
        ensures
            v == Self::spec_with_value(value, ty),
    {
        EvaluatedValue { ty, value: Some(value) }
    }

    /// The unit value.
    pub open spec fn spec_unit() -> EvaluatedValue {
        EvaluatedValue { ty: OtterType::Unit, value: None }
    }

    /// The unit value.
    #[verifier::when_used_as_spec(spec_unit)]
    pub fn unit() -> (v: EvaluatedValue)
        ensures
            v == Self::spec_unit(),
    {
        EvaluatedValue { ty: OtterType::Unit, value: None }
    }
}

/// One binding of a name.
struct Binding {
    name: String,
    variable: Variable,
}

/// The variables of the function that is being lowered, by name.
///
/// There is one flat scope: a name that is bound again is rebound.
pub struct FunctionContext {
    variables: Vec<Binding>,
}

/// The mapping that a list of bindings stands for: later bindings win.
spec fn bindings_of(entries: Seq<Binding>) -> Map<Seq<char>, Variable>
    decreases entries.len(),
{
    if entries.len() == 0 {
        Map::empty()
    } else {
        bindings_of(entries.drop_last()).insert(entries.last().name@, entries.last().variable)
    }
}

impl View for FunctionContext {
    type V = Map<Seq<char>, Variable>;

    closed spec fn view(&self) -> Map<Seq<char>, Variable> {
        bindings_of(self.variables@)
    }
}

impl FunctionContext {
    /// A context without variables.
    pub fn new() -> (ctx: FunctionContext)
        ensures
            ctx@ == Map::<Seq<char>, Variable>::empty(),
    {
        FunctionContext { variables: Vec::new() }
    }

    /// The variable called `name`, if there is one.
    pub fn get(&self, name: &str) -> (found: Option<Variable>)
        ensures
            found == self@.get(name@),
    {
        let mut found: Option<Variable> = None;
        let mut i: usize = 0;
        while i < self.variables.len()
            invariant
                i <= self.variables.len(),
                found == bindings_of(self.variables@.take(i as int)).get(name@),
            decreases self.variables.len() - i,
        {
            proof {
                assert(self.variables@.take(i + 1).drop_last() =~= self.variables@.take(i as int));
            }
            if str_equal(self.variables[i].name.as_str(), name) {
                found = Some(self.variables[i].variable);
            }
            i += 1;
        }
        proof {
            assert(self.variables@.take(i as int) =~= self.variables@);
        }
        found
    }

    /// Binds `name` to `variable`, replacing what it was bound to.
    pub fn insert(&mut self, name: String, variable: Variable)
        ensures
            final(self)@ == old(self)@.insert(name@, variable),
    {
        let ghost before = self.variables@;
        self.variables.push(Binding { name, variable });
        proof {
            assert(self.variables@.drop_last() =~= before);
        }
    }
}

/// A lowering session as contracts speak of it.
pub struct CompilerView {
    pub module: ModuleView,
    pub registry: Map<Seq<char>, FfiFunction>,
    /// The function that receives instructions.
    pub function: usize,
    /// The block of that function at whose end instructions are inserted.
    pub block: usize,
}

impl CompilerView {
    /// A fresh session: an empty module called `otter`.
    pub open spec fn initial(registry: Map<Seq<char>, FfiFunction>) -> CompilerView {
        CompilerView {
            module: ModuleView { name: "otter"@, functions: Seq::empty(), strings: Seq::empty() },
            registry,
            function: 0,
            block: 0,
        }
    }

    /// The cursor stands in a block that exists.
    pub open spec fn positioned(self) -> bool {
        &&& self.function < self.module.functions.len()
        &&& self.block < self.module.functions[self.function as int].blocks.len()
    }

    /// The function that receives instructions.
    pub open spec fn current_fn(self) -> FunctionView {
        self.module.functions[self.function as int]
    }

    /// The block that the cursor stands in.
    pub open spec fn current_block(self) -> BlockView {
        self.current_fn().blocks[self.block as int]
    }

    /// The session with the function under the cursor replaced.
    pub open spec fn with_current_fn(self, func: FunctionView) -> CompilerView {
        CompilerView {
            module: ModuleView {
                functions: self.module.functions.update(self.function as int, func),
                ..self.module
            },
            ..self
        }
    }

    /// The name of the value that the next instruction will yield.
    pub open spec fn next_value(self) -> Operand {
        Operand::Inst { block: self.block, index: self.current_block().instrs.len() as usize }
    }

    /// The session after `instr` was inserted at the cursor.
    pub open spec fn emit(self, instr: InstrView) -> CompilerView {
        let func = self.current_fn();
        let block = self.current_block();
        let block = BlockView { instrs: block.instrs.push(instr), ..block };
        self.with_current_fn(FunctionView { blocks: func.blocks.update(self.block as int, block), ..func })
    }

    /// The place that the next new block of the current function will take.
    pub open spec fn next_block(self) -> usize {
        self.current_fn().blocks.len() as usize
    }

    /// The session after an empty block was added to the current function.
    pub open spec fn append_block(self, name: Seq<char>) -> CompilerView {
        let func = self.current_fn();
        let block = BlockView { name, instrs: Seq::empty() };
        self.with_current_fn(FunctionView { blocks: func.blocks.push(block), ..func })
    }

    /// The session after the cursor was moved to the end of block `block`.
    pub open spec fn position_at_end(self, block: usize) -> CompilerView {
        let func = self.current_fn();
        CompilerView { block, ..self.with_current_fn(FunctionView { visits: func.visits.push(block), ..func }) }
    }

    /// The session after the cursor was moved into a new block of function
    /// `function`.
    pub open spec fn enter(self, function: usize, name: Seq<char>) -> CompilerView {
        let at = CompilerView { function, ..self };
        at.append_block(name).position_at_end(at.next_block())
    }

    /// The value that names the next constant string.
    pub open spec fn next_string(self) -> Operand {
        Operand::Str { index: self.module.strings.len() as usize }
    }

    /// The session after a constant string was added to the module.
    pub open spec fn add_string(self, name: Seq<char>, text: Seq<char>) -> CompilerView {
        CompilerView {
            module: ModuleView {
                strings: self.module.strings.push(GlobalStringView { name, text }),
                ..self.module
            },
            ..self
        }
    }

    /// The block under the cursor ends in a terminator.
    pub open spec fn terminated(self) -> bool {
        self.current_block().terminated()
    }

    /// The place that the next declared function will take.
    pub open spec fn next_function(self) -> usize {
        self.module.functions.len() as usize
    }

    /// The session after a function was declared.
    pub open spec fn declare(self, name: Seq<char>, params: Seq<IrType>, ret: Option<IrType>) -> CompilerView {
        CompilerView { module: self.module.declare(name, params, ret), ..self }
    }

    /// Does `operand` name a value that code at the cursor can use?
    pub open spec fn sees(self, operand: Operand) -> bool {
        self.current_fn().sees(self.module.strings.len(), operand)
    }

    /// Does the value, if there is one, name something that code at the
    /// cursor can use?
    pub open spec fn sees_value(self, value: EvaluatedValue) -> bool {
        match value.value {
            Some(operand) => self.sees(operand),
            None => true,
        }
    }

    /// Do all the operands name values that code at the cursor can use?
    pub open spec fn sees_all(self, operands: Seq<Operand>) -> bool {
        forall|k: int| 0 <= k < operands.len() ==> self.sees(#[trigger] operands[k])
    }

    /// Do the slots of all the variables name values that code at the
    /// cursor can use?
    pub open spec fn sees_env(self, env: Map<Seq<char>, Variable>) -> bool {
        forall|name: Seq<char>| env.contains_key(name) ==> self.sees((#[trigger] env[name]).slot)
    }

    /// Does every reference of `instr` lead somewhere, if it is inserted at
    /// the cursor?
    pub open spec fn refers(self, instr: InstrView) -> bool {
        self.current_fn().refers(self.module.functions.len(), self.module.strings.len(), instr)
    }

    /// Every reference of every instruction of the module leads somewhere.
    pub open spec fn grounded(self) -> bool {
        self.module.well_indexed()
    }

    /// What code at the cursor of `before` could use, code at the cursor
    /// can still use.
    pub open spec fn keeps_sight(self, before: CompilerView) -> bool {
        forall|operand: Operand| #[trigger] before.sees(operand) ==> self.sees(operand)
    }

    /// The other functions of the module are as in `before`; new ones may
    /// have been declared behind them, without a body.
    pub open spec fn keeps_others(self, before: CompilerView) -> bool {
        &&& self.function == before.function
        &&& self.registry == before.registry
        &&& self.module.functions.len() >= before.module.functions.len()
        &&& forall|f: int|
            0 <= f < before.module.functions.len() && f != before.function ==> (
            #[trigger] self.module.functions[f]) == before.module.functions[f]
        &&& forall|f: int|
            before.module.functions.len() <= f < self.module.functions.len() ==> (
            #[trigger] self.module.functions[f]).blocks.len() == 0
    }

    /// The cursor has entered function `function` of `before`: it stands in
    /// a new block of that function, which holds no terminator; the blocks
    /// that the function had and all other functions are as they were.
    pub open spec fn entered(self, before: CompilerView, function: usize) -> bool {
        let old_blocks = before.module.functions[function as int].blocks;
        &&& self.positioned()
        &&& self.function == function
        &&& self.registry == before.registry
        &&& self.module.functions.len() == before.module.functions.len()
        &&& forall|f: int|
            0 <= f < before.module.functions.len() && f != function ==> (
            #[trigger] self.module.functions[f]) == before.module.functions[f]
        &&& self.current_fn().blocks.len() == old_blocks.len() + 1
        &&& self.block == old_blocks.len()
        &&& forall|b: int|
            0 <= b < old_blocks.len() ==> (#[trigger] self.current_fn().blocks[b]) == old_blocks[b]
        &&& self.current_block().open()
        &&& before.module.unique_names() ==> self.module.unique_names()
        &&& self.current_fn().name == before.module.functions[function as int].name
    }

    /// The blocks of the current function other than the one under the
    /// cursor of `before` are as in `before`.
    pub open spec fn keeps_blocks(self, before: CompilerView) -> bool {
        &&& self.current_fn().blocks.len() >= before.current_fn().blocks.len()
        &&& forall|b: int|
            0 <= b < before.current_fn().blocks.len() && b != before.block ==> (
            #[trigger] self.current_fn().blocks[b]) == before.current_fn().blocks[b]
    }

    /// The session `self` continues `before` with the cursor where it was:
    /// no block was added, no block but the one under the cursor changed,
    /// and that one, if it held no terminator, still holds none.
    pub open spec fn appends_to(self, before: CompilerView) -> bool {
        &&& self.continues(before)
        &&& self.keeps_others(before)
        &&& self.keeps_blocks(before)
        &&& self.block == before.block
        &&& self.current_fn().blocks.len() == before.current_fn().blocks.len()
        &&& before.current_block().open() ==> self.current_block().open()
    }

    /// The session `self` continues `before` with the block under the
    /// cursor ended: no block was added, no block but the one under the
    /// cursor changed, and that one, if it held no terminator, now ends
    /// in exactly one.
    pub open spec fn ends_block_of(self, before: CompilerView) -> bool {
        &&& self.continues(before)
        &&& self.keeps_others(before)
        &&& self.keeps_blocks(before)
        &&& self.block == before.block
        &&& self.current_fn().blocks.len() == before.current_fn().blocks.len()
        &&& before.current_block().open() ==> self.current_block().closed()
    }

    /// The session `self` continues `before` behind whole statements: the
    /// cursor stands where it stood or in a new block; the old blocks but
    /// the one that was under the cursor are as they were; the last
    /// instruction of every new block but the one under the cursor is a
    /// terminator, and so is that of the block that was under the cursor
    /// if the cursor has left it.
    pub open spec fn advances_from(self, before: CompilerView) -> bool {
        &&& self.continues(before)
        &&& self.keeps_others(before)
        &&& self.keeps_blocks(before)
        &&& self.block == before.block || self.block >= before.current_fn().blocks.len()
        &&& forall|b: int|
            before.current_fn().blocks.len() <= b < self.current_fn().blocks.len() && b != self.block
                ==> (#[trigger] self.current_fn().blocks[b]).terminated()
        &&& self.block != before.block ==> self.current_fn().blocks[before.block as int].terminated()
    }

    /// The session `self` continues `before` behind one or more whole
    /// statements: the cursor stands where it stood or in a new block; the
    /// old blocks but the one that was under the cursor are as they were;
    /// every new block but the one under the cursor ends in exactly one
    /// terminator, and so does the block that was under the cursor if the
    /// cursor has left it; and the block under the cursor ends in exactly
    /// one terminator if a return was lowered, and holds none otherwise.
    pub open spec fn flows_from(self, before: CompilerView, returned: bool) -> bool {
        &&& self.continues(before)
        &&& self.keeps_others(before)
        &&& self.keeps_blocks(before)
        &&& self.block == before.block || self.block >= before.current_fn().blocks.len()
        &&& forall|b: int|
            before.current_fn().blocks.len() <= b < self.current_fn().blocks.len() && b != self.block
                ==> (#[trigger] self.current_fn().blocks[b]).closed()
        &&& self.block != before.block ==> self.current_fn().blocks[before.block as int].closed()
        &&& if returned {
            self.current_block().closed()
        } else {
            self.current_block().open()
        }
    }

    /// The session `self` continues `before`: the cursor is in the same
    /// function, nothing was taken away, and no name was declared a second
    /// time.
    pub open spec fn continues(self, before: CompilerView) -> bool {
        &&& self.positioned()
        &&& self.function == before.function
        &&& self.registry == before.registry
        &&& self.module.functions.len() >= before.module.functions.len()
        &&& self.current_fn().blocks.len() >= before.current_fn().blocks.len()
        &&& before.module.unique_names() ==> self.module.unique_names()
        &&& self.keeps_sight(before)
        &&& self.keeps_others(before)
        &&& self.extends_blocks(before)
        &&& self.current_fn().name == before.current_fn().name
    }

    /// Every block that the current function had is there as it was, or
    /// with instructions put behind the ones that it had.
    pub open spec fn extends_blocks(self, before: CompilerView) -> bool {
        &&& self.current_fn().blocks.len() >= before.current_fn().blocks.len()
        &&& forall|b: int|
            0 <= b < before.current_fn().blocks.len() ==> (#[trigger] self.current_fn().blocks[b]).extends(
                before.current_fn().blocks[b],
            )
    }

    /// Some instruction was put behind those of the block that was under
    /// the cursor of `before`.
    pub open spec fn inserts_after(self, before: CompilerView) -> bool {
        self.current_fn().blocks[before.block as int].instrs.len() > before.current_block().instrs.len()
    }
}

/// A name that is declared stays declared while the session continues.
pub proof fn lemma_still_declared(before: CompilerView, after: CompilerView, name: Seq<char>)
    requires
        before.positioned(),
        after.continues(before),
        before.module.declares(name),
    ensures
        after.module.declares(name),
{
    let i = choose|i: int|
        0 <= i < before.module.functions.len() && (#[trigger] before.module.functions[i]).name == name;
    if i != before.function {
        assert(after.module.functions[i] == before.module.functions[i]);
    }
    assert(after.module.functions[i].name == name);
}

/// A terminator before the end of a block stays there while the session
/// continues.
pub proof fn lemma_spoiled_stays(before: CompilerView, after: CompilerView)
    requires
        before.positioned(),
        after.continues(before),
        before.module.has_spoiled(),
    ensures
        after.module.has_spoiled(),
{
    let f = choose|f: int|
        0 <= f < before.module.functions.len() && (#[trigger] before.module.functions[f]).has_spoiled();
    let function = before.module.functions[f];
    let b = choose|b: int| 0 <= b < function.blocks.len() && (#[trigger] function.blocks[b]).spoiled();
    if f == before.function {
        crate::ir::lemma_spoiled(function.blocks[b], after.current_fn().blocks[b]);
        assert(after.current_fn().blocks[b].spoiled());
        assert(after.module.functions[f].has_spoiled());
    } else {
        assert(after.module.functions[f] == function);
        assert(after.module.functions[f].has_spoiled());
    }
}

/// A name that is declared stays declared when a function is entered.
pub proof fn lemma_declared_entered(before: CompilerView, after: CompilerView, function: usize, name: Seq<char>)
    requires
        function < before.module.functions.len(),
        after.entered(before, function),
        before.module.declares(name),
    ensures
        after.module.declares(name),
{
    let i = choose|i: int|
        0 <= i < before.module.functions.len() && (#[trigger] before.module.functions[i]).name == name;
    if i != function {
        assert(after.module.functions[i] == before.module.functions[i]);
    }
    assert(after.module.functions[i].name == name);
}

/// A terminator before the end of a block stays there when a function is
/// entered.
pub proof fn lemma_spoiled_entered(before: CompilerView, after: CompilerView, function: usize)
    requires
        function < before.module.functions.len(),
        after.entered(before, function),
        before.module.has_spoiled(),
    ensures
        after.module.has_spoiled(),
{
    let f = choose|f: int|
        0 <= f < before.module.functions.len() && (#[trigger] before.module.functions[f]).has_spoiled();
    let had = before.module.functions[f];
    let b = choose|b: int| 0 <= b < had.blocks.len() && (#[trigger] had.blocks[b]).spoiled();
    if f == function {
        assert(after.current_fn().blocks[b] == had.blocks[b]);
        assert(after.module.functions[f].has_spoiled());
    } else {
        assert(after.module.functions[f] == had);
        assert(after.module.functions[f].has_spoiled());
    }
}

/// Putting an instruction behind a block that ends in a terminator leaves
/// a terminator before the end of that block.
pub proof fn lemma_spoils(before: CompilerView, after: CompilerView)
    requires
        before.positioned(),
        after.continues(before),
        before.current_block().terminated(),
        after.inserts_after(before),
    ensures
        after.module.has_spoiled(),
{
    let b = before.block as int;
    crate::ir::lemma_spoiled(before.current_block(), after.current_fn().blocks[b]);
    assert(after.current_fn().blocks[b].spoiled());
    assert(after.module.functions[after.function as int].has_spoiled());
}

/// A well-indexed module stays so when its functions and strings stay or
/// grow in number, new functions come without a body, and at most one
/// function changes, into one that is well-indexed.
pub proof fn lemma_grounded_on(before: ModuleView, after: ModuleView, changed: int)
    requires
        before.well_indexed(),
        after.functions.len() >= before.functions.len(),
        after.strings.len() >= before.strings.len(),
        forall|f: int|
            0 <= f < before.functions.len() && f != changed ==> (#[trigger] after.functions[f])
                == before.functions[f],
        forall|f: int|
            before.functions.len() <= f < after.functions.len() ==> (#[trigger] after.functions[f])
                == FunctionView::declaration(
                after.functions[f].name,
                after.functions[f].params,
                after.functions[f].ret,
            ),
        0 <= changed < before.functions.len() ==> after.functions[changed].well_indexed(
            after.functions.len(),
            after.strings.len(),
        ),
    ensures
        after.well_indexed(),
{
    assert forall|f: int| 0 <= f < after.functions.len() implies (
    #[trigger] after.functions[f]).well_indexed(after.functions.len(), after.strings.len()) by {
        let function = after.functions[f];
        if f < before.functions.len() && f != changed {
            assert(before.functions[f].well_indexed(before.functions.len(), before.strings.len()));
            assert forall|b: int, i: int|
                0 <= b < function.blocks.len() && 0 <= i < function.blocks[b].instrs.len() implies function.refers(
                after.functions.len(),
                after.strings.len(),
                #[trigger] function.blocks[b].instrs[i],
            ) by {
                lemma_refers_on(
                    function,
                    function,
                    before.functions.len(),
                    after.functions.len(),
                    before.strings.len(),
                    after.strings.len(),
                    function.blocks[b].instrs[i],
                );
            }
        }
    }
}

/// A well-indexed function stays so when an instruction whose references
/// lead somewhere is put at the end of one of its blocks.
pub proof fn lemma_instruction_added(
    before: FunctionView,
    after: FunctionView,
    functions: nat,
    strings: nat,
    block: int,
    instr: InstrView,
)
    requires
        before.well_indexed(functions, strings),
        before.refers(functions, strings, instr),
        0 <= block < before.blocks.len(),
        after == (FunctionView {
            blocks: before.blocks.update(
                block,
                BlockView { instrs: before.blocks[block].instrs.push(instr), ..before.blocks[block] },
            ),
            ..before
        }),
    ensures
        after.well_indexed(functions, strings),
        after.outgrows(before),
{
    assert(after.outgrows(before));
    assert forall|b: int, i: int|
        0 <= b < after.blocks.len() && 0 <= i < after.blocks[b].instrs.len() implies after.refers(
        functions,
        strings,
        #[trigger] after.blocks[b].instrs[i],
    ) by {
        let placed = after.blocks[b].instrs[i];
        if b == block && i == before.blocks[block].instrs.len() {
            lemma_refers_on(before, after, functions, functions, strings, strings, instr);
        } else {
            assert(placed == before.blocks[b].instrs[i]);
            lemma_refers_on(before, after, functions, functions, strings, strings, placed);
        }
    }
}

/// A well-indexed function stays so when an empty block is added to it, or
/// a visit of one of its blocks.
pub proof fn lemma_block_added(before: FunctionView, after: FunctionView, functions: nat, strings: nat)
    requires
        before.well_indexed(functions, strings),
        after.outgrows(before),
        after.visits == before.visits || (after.visits.len() == before.visits.len() + 1
            && after.visits.last() < after.blocks.len() && after.visits.drop_last() == before.visits),
        forall|b: int|
            0 <= b < after.blocks.len() ==> (#[trigger] after.blocks[b]).instrs.len() == 0 || (b
                < before.blocks.len() && after.blocks[b] == before.blocks[b]),
    ensures
        after.well_indexed(functions, strings),
{
    assert forall|b: int, i: int|
        0 <= b < after.blocks.len() && 0 <= i < after.blocks[b].instrs.len() implies after.refers(
        functions,
        strings,
        #[trigger] after.blocks[b].instrs[i],
    ) by {
        lemma_refers_on(before, after, functions, functions, strings, strings, before.blocks[b].instrs[i]);
    }
    assert forall|v: int| 0 <= v < after.visits.len() implies (#[trigger] after.visits[v])
        < after.blocks.len() by {
        if v < before.visits.len() {
            if after.visits != before.visits {
                assert(after.visits.drop_last()[v] == after.visits[v]);
            }
            assert(before.visits[v] < before.blocks.len());
        }
    }
}

/// Statements behind statements are statements.
pub proof fn lemma_advances_on(first: CompilerView, second: CompilerView, third: CompilerView)
    requires
        first.positioned(),
        second.advances_from(first),
        third.advances_from(second),
    ensures
        third.advances_from(first),
{
    if third.block != first.block {
        if second.block == first.block {
            assert(third.current_fn().blocks[second.block as int].terminated());
        } else {
            assert(second.current_fn().blocks[first.block as int].terminated());
            assert(third.current_fn().blocks[first.block as int] == second.current_fn().blocks[first.block as int]);
        }
    }
    assert forall|b: int|
        0 <= b < first.current_fn().blocks.len() && b != first.block implies (
    #[trigger] third.current_fn().blocks[b]) == first.current_fn().blocks[b] by {
        assert(second.current_fn().blocks[b] == first.current_fn().blocks[b]);
    }
    assert forall|b: int|
        first.current_fn().blocks.len() <= b < third.current_fn().blocks.len() && b
            != third.block implies (#[trigger] third.current_fn().blocks[b]).terminated() by {
        if b < second.current_fn().blocks.len() && b != second.block {
            assert(second.current_fn().blocks[b].terminated());
        }
    }
    assert forall|f: int|
        0 <= f < first.module.functions.len() && f != first.function implies (
    #[trigger] third.module.functions[f]) == first.module.functions[f] by {
        assert(second.module.functions[f] == first.module.functions[f]);
    }
    assert forall|f: int| first.module.functions.len() <= f < third.module.functions.len() implies (
    #[trigger] third.module.functions[f]).blocks.len() == 0 by {
        if f < second.module.functions.len() {
            assert(second.module.functions[f].blocks.len() == 0);
        }
    }
}

/// Whole statements behind whole statements are whole statements.
pub proof fn lemma_flows_on(first: CompilerView, second: CompilerView, third: CompilerView, returned: bool)
    requires
        first.positioned(),
        second.flows_from(first, false),
        third.flows_from(second, returned),
    ensures
        third.flows_from(first, returned),
{
    if third.block != first.block {
        if second.block == first.block {
            assert(third.current_fn().blocks[second.block as int].closed());
        } else {
            assert(second.current_fn().blocks[first.block as int].closed());
            assert(third.current_fn().blocks[first.block as int] == second.current_fn().blocks[first.block as int]);
        }
    }
    assert forall|b: int|
        0 <= b < first.current_fn().blocks.len() && b != first.block implies (
    #[trigger] third.current_fn().blocks[b]) == first.current_fn().blocks[b] by {
        assert(second.current_fn().blocks[b] == first.current_fn().blocks[b]);
    }
    assert forall|b: int|
        first.current_fn().blocks.len() <= b < third.current_fn().blocks.len() && b
            != third.block implies (#[trigger] third.current_fn().blocks[b]).closed() by {
        if b < second.current_fn().blocks.len() && b != second.block {
            assert(second.current_fn().blocks[b].closed());
        }
    }
    assert forall|f: int|
        0 <= f < first.module.functions.len() && f != first.function implies (
    #[trigger] third.module.functions[f]) == first.module.functions[f] by {
        assert(second.module.functions[f] == first.module.functions[f]);
    }
    assert forall|f: int| first.module.functions.len() <= f < third.module.functions.len() implies (
    #[trigger] third.module.functions[f]).blocks.len() == 0 by {
        if f < second.module.functions.len() {
            assert(second.module.functions[f].blocks.len() == 0);
        }
    }
}

/// Statements that insert nothing leave a session behind a return as it is.
pub proof fn lemma_flows_on_silently(first: CompilerView, second: CompilerView, third: CompilerView)
    requires
        first.positioned(),
        second.flows_from(first, true),
        third.appends_to(second),
        third.current_fn().blocks == second.current_fn().blocks,
    ensures
        third.flows_from(first, true),
{
    assert forall|f: int|
        0 <= f < first.module.functions.len() && f != first.function implies (
    #[trigger] third.module.functions[f]) == first.module.functions[f] by {
        assert(second.module.functions[f] == first.module.functions[f]);
    }
    assert forall|f: int| first.module.functions.len() <= f < third.module.functions.len() implies (
    #[trigger] third.module.functions[f]).blocks.len() == 0 by {
        if f < second.module.functions.len() {
            assert(second.module.functions[f].blocks.len() == 0);
        }
    }
}

/// One lowering session: the module under construction, the registry of host
/// functions, and the insertion cursor.
///
/// A session in which lowering has failed holds a partly lowered module;
/// nothing is said of it then, and it is good only to be dropped.
pub struct Compiler<'a> {
    module: ModuleIr,
    registry: &'a SymbolRegistry,
    function: usize,
    block: usize,
}

impl<'a> View for Compiler<'a> {
    type V = CompilerView;

    closed spec fn view(&self) -> CompilerView {
        CompilerView {
            module: self.module@,
            registry: self.registry@,
            function: self.function,
            block: self.block,
        }
    }
}

impl<'a> Compiler<'a> {
    /// A session with an empty module called `otter`.
    pub fn new(registry: &'a SymbolRegistry) -> (c: Compiler<'a>)
        ensures
            c@ == CompilerView::initial(registry@),
    {
        Compiler { module: ModuleIr::new("otter"), registry, function: 0, block: 0 }
    }

    /// The module as it stands.
    pub fn module(&self) -> (m: &ModuleIr)
        ensures
            m@ == self@.module,
    {
        &self.module
    }

    /// Ends the session and hands the module out.
    pub fn into_module(self) -> (m: ModuleIr)
        ensures
            m@ == self@.module,
    {
        self.module
    }

    /// Looks a name up in the registry.
    pub fn resolve(&self, name: &str) -> (found: Option<&'a FfiFunction>)
        ensures
            match found {
                Some(entry) => self@.registry.get(name@) == Some(*entry),
                None => self@.registry.get(name@) is None,
            },
    {
        self.registry.resolve(name)
    }

    /// The function that `name` refers to, if the module has one so called.
    pub fn get_function(&self, name: &str) -> (found: Option<usize>)
        ensures
            match found {
                Some(i) => self@.module.find_function(name@) == Some(i as int) && i
                    < self@.module.functions.len(),
                None => self@.module.find_function(name@) is None,
            },
    {
        self.module.get_function(name)
    }

    /// How many parameters function `function` has.
    pub fn param_count(&self, function: usize) -> (n: usize)
        requires
            function < self@.module.functions.len(),
        ensures
            n == self@.module.functions[function as int].params.len(),
    {
        self.module.functions[function].params.len()
    }

    /// The type of parameter `index` of function `function`.
    pub fn param_type(&self, function: usize, index: usize) -> (ty: IrType)
        requires
            function < self@.module.functions.len(),
            index < self@.module.functions[function as int].params.len(),
        ensures
            ty == self@.module.functions[function as int].params[index as int],
    {
        self.module.functions[function].params[index]
    }

    /// The result type of function `function`.
    pub fn return_type(&self, function: usize) -> (ty: Option<IrType>)
        requires
            function < self@.module.functions.len(),
        ensures
            ty == self@.module.functions[function as int].ret,
    {
        self.module.functions[function].ret
    }

    /// Declares a function without a body and says where it stands.
    pub fn add_function(&mut self, name: &str, params: Vec<IrType>, ret: Option<IrType>) -> (index: usize)
        ensures
            final(self)@ == old(self)@.declare(name@, params@, ret),
            index == old(self)@.next_function(),
            index == old(self)@.module.functions.len(),
            old(self)@.grounded() ==> final(self)@.grounded(),
    {
        let index = self.module.functions.len();
        let ghost before = self.module@.functions;
        self.module.functions.push(
            FunctionIr {
                name: name.to_owned(),
                params,
                ret,
                blocks: Vec::new(),
                visits: Vec::new(),
            },
        );
        proof {
            assert(block_views(Seq::<BlockIr>::empty()) =~= Seq::<BlockView>::empty());
            assert(self.module@.functions =~= before.push(
                FunctionView::declaration(name@, params@, ret),
            ));
            if old(self)@.grounded() {
                lemma_grounded_on(old(self)@.module, self@.module, -1);
            }
        }
        index
    }

    /// Inserts `instr` at the cursor and names the value that it yields.
    pub fn emit(&mut self, instr: Instr) -> (value: Operand)
        requires
            old(self)@.positioned(),
        ensures
            final(self)@ == old(self)@.emit(instr@),
            value == old(self)@.next_value(),
            !instr@.is_terminator() ==> final(self)@.appends_to(old(self)@),
            instr@.is_terminator() ==> final(self)@.ends_block_of(old(self)@),
            instr@.is_terminator() ==> final(self)@.current_block().terminated(),
            final(self)@.inserts_after(old(self)@),
            final(self)@.sees(value),
            old(self)@.grounded() && old(self)@.refers(instr@) ==> final(self)@.grounded(),
    {
        let f = self.function;
        let b = self.block;
        let index = self.module.functions[f].blocks[b].instrs.len();
        let ghost before = self@;
        let ghost functions = self.module.functions@;
        let ghost blocks = self.module.functions[f as int].blocks@;
        let ghost instrs = self.module.functions[f as int].blocks[b as int].instrs@;
        self.module.functions[f].blocks[b].instrs.push(instr);
        proof {
            let after_instrs = self.module.functions[f as int].blocks[b as int].instrs@;
            assert(after_instrs == instrs.push(instr));
            assert(instr_views(after_instrs) =~= instr_views(instrs).push(instr@));
            let after_blocks = self.module.functions[f as int].blocks@;
            assert(block_views(after_blocks) =~= block_views(blocks).update(
                b as int,
                before.emit(instr@).current_block(),
            ));
            assert(self.module@.functions =~= before.emit(instr@).module.functions);
            assert(self@.current_fn().outgrows(before.current_fn()));
            if before.grounded() && before.refers(instr@) {
                lemma_instruction_added(
                    before.current_fn(),
                    self@.current_fn(),
                    before.module.functions.len(),
                    before.module.strings.len(),
                    b as int,
                    instr@,
                );
                lemma_grounded_on(before.module, self@.module, f as int);
            }
        }
        Operand::Inst { block: b, index }
    }

    /// Adds an empty block to the current function and says where it stands.
    pub fn append_basic_block(&mut self, name: &str) -> (index: usize)
        requires
            old(self)@.function < old(self)@.module.functions.len(),
        ensures
            final(self)@ == old(self)@.append_block(name@),
            index == old(self)@.next_block(),
            index == old(self)@.current_fn().blocks.len(),
            old(self)@.positioned() ==> final(self)@.continues(old(self)@),
            old(self)@.grounded() ==> final(self)@.grounded(),
            final(self)@.keeps_others(old(self)@),
            final(self)@.block == old(self)@.block,
            final(self)@.current_fn().blocks == old(self)@.current_fn().blocks.push(
                BlockView { name: name@, instrs: Seq::empty() },
            ),
    {
        let f = self.function;
        let index = self.module.functions[f].blocks.len();
        let ghost before = self@;
        let ghost blocks = self.module.functions[f as int].blocks@;
        self.module.functions[f].blocks.push(BlockIr { name: name.to_owned(), instrs: Vec::new() });
        proof {
            assert(instr_views(Seq::<Instr>::empty()) =~= Seq::<InstrView>::empty());
            let after_blocks = self.module.functions[f as int].blocks@;
            assert(block_views(after_blocks) =~= block_views(blocks).push(
                BlockView { name: name@, instrs: Seq::empty() },
            ));
            assert(self.module@.functions =~= before.append_block(name@).module.functions);
            assert(self@.current_fn().outgrows(before.current_fn()));
            if before.grounded() {
                lemma_block_added(
                    before.current_fn(),
                    self@.current_fn(),
                    before.module.functions.len(),
                    before.module.strings.len(),
                );
                lemma_grounded_on(before.module, self@.module, f as int);
            }
        }
        index
    }

    /// Moves the cursor to the end of block `block` of the current function.
    pub fn position_at_end(&mut self, block: usize)
        requires
            old(self)@.function < old(self)@.module.functions.len(),
        ensures
            final(self)@ == old(self)@.position_at_end(block),
            block < old(self)@.current_fn().blocks.len() ==> final(self)@.continues(old(self)@),
            block < old(self)@.current_fn().blocks.len() && old(self)@.grounded()
                ==> final(self)@.grounded(),
            final(self)@.keeps_others(old(self)@),
            final(self)@.block == block,
            final(self)@.current_fn().blocks == old(self)@.current_fn().blocks,
    {
        let f = self.function;
        let ghost before = self@;
        self.module.functions[f].visits.push(block);
        self.block = block;
        proof {
            assert(self.module@.functions =~= before.position_at_end(block).module.functions);
            assert(self@.current_fn().outgrows(before.current_fn()));
            if before.grounded() && block < before.current_fn().blocks.len() {
                assert(self@.current_fn().visits.drop_last() =~= before.current_fn().visits);
                lemma_block_added(
                    before.current_fn(),
                    self@.current_fn(),
                    before.module.functions.len(),
                    before.module.strings.len(),
                );
                lemma_grounded_on(before.module, self@.module, f as int);
            }
        }
    }

    /// Makes `function` the current function, adds a block called `name` to
    /// it and moves the cursor there.
    pub fn enter(&mut self, function: usize, name: &str)
        requires
            function < old(self)@.module.functions.len(),
        ensures
            final(self)@ == old(self)@.enter(function, name@),
            final(self)@.entered(old(self)@, function),
            old(self)@.grounded() ==> final(self)@.grounded(),
    {
        self.function = function;
        let block = self.append_basic_block(name);
        self.position_at_end(block);
    }

    /// Adds a constant string to the module; the result is the address of
    /// its first byte.
    pub fn add_string(&mut self, name: &str, text: &str) -> (value: Operand)
        ensures
            final(self)@ == old(self)@.add_string(name@, text@),
            value == old(self)@.next_string(),
            old(self)@.positioned()
                ==> final(self)@.appends_to(old(self)@)
                && final(self)@.current_fn().blocks == old(self)@.current_fn().blocks,
            final(self)@.sees(value),
            old(self)@.grounded() ==> final(self)@.grounded(),
    {
        let index = self.module.strings.len();
        let ghost before = self.module@.strings;
        self.module.strings.push(GlobalString { name: name.to_owned(), text: text.to_owned() });
        proof {
            assert(self.module@.strings =~= before.push(
                GlobalStringView { name: name@, text: text@ },
            ));
            if old(self)@.grounded() {
                lemma_grounded_on(old(self)@.module, self@.module, -1);
            }
        }
        Operand::Str { index }
    }

    /// Does the block under the cursor end in a terminator?
    pub fn terminated(&self) -> (r: bool)
        requires
            self@.positioned(),
        ensures
            r == self@.terminated(),
    {
        let block = &self.module.functions[self.function].blocks[self.block];
        let n = block.instrs.len();
        n > 0 && block.instrs[n - 1].is_terminator()
    }
}

} // verus!
