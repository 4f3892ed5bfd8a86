//! IR construction.
//!
//! A [`Module`] owns an arena of [`FunctionData`] records; each record holds
//! the declared signature and the function's ordered list of basic blocks.
//! The public handle types ([`Function`], [`BasicBlock`], [`Builder`],
//! [`Value`]) store stable indices into that arena instead of references, so
//! a parent can never be dropped out from under a dependent handle; an
//! operation through a handle that does not refer into the module it is
//! handed fails with [`EngineError::StaleHandle`].

use vstd::prelude::*;
use vstd::string::StringExecFns;
use crate::names::{action_name, action_name_spec};

verus! {

/// The type of an IR value.
#[derive(Clone, Copy, PartialEq, Eq, Structural, Debug)]
pub enum ValueType {
    Void,
    Int1,
    Int8,
    Int16,
    Int32,
    Int64,
}

/// What an IR value handle refers to.
#[derive(Clone, Copy, PartialEq, Eq, Structural, Debug)]
pub enum ValueKind {
    /// Formal parameter `index` of function `function`.
    Param { function: usize, index: usize },
    /// The result of instruction `instr` of block `block` of function
    /// `function`.
    Instr { function: usize, block: usize, instr: usize },
}

/// An opaque handle to a typed IR value: a constant, a function parameter,
/// or an instruction result.  Values are produced by other components and
/// have no independent lifecycle.
#[derive(Clone, Copy, PartialEq, Eq, Structural, Debug)]
pub struct Value {
    pub kind: ValueKind,
}

/// One IR operation, described in terms of its `Value` operands.  The set
/// is closed: the builder and the verifier dispatch structurally on the
/// variant, so every variant has emission and checking logic by
/// construction.
#[derive(Clone, Copy, PartialEq, Eq, Structural, Debug)]
pub enum Action {
    /// Integer addition of the two operands; produces the sum.
    Add(Value, Value),
    /// Function-terminating return of the operand; produces no usable value.
    Return(Value),
}

/// The defined error for an operation through a handle that does not refer
/// into the module it was handed.
#[derive(Clone, Copy, PartialEq, Eq, Structural, Debug)]
pub enum EngineError {
    StaleHandle,
}

/// One emitted instruction: its sequential id, its rendered name
/// (`action_<id>`), and the operation it performs.
pub struct Instruction {
    pub id: u32,
    pub name: String,
    pub op: Action,
}

/// The arena record of one basic block: its name and its ordered,
/// append-only instruction list.
pub struct BlockData {
    pub name: String,
    pub instrs: Vec<Instruction>,
}

/// The arena record of one function: the declared signature and the block
/// list, in insertion order.
pub struct FunctionData {
    pub name: String,
    pub ret_type: ValueType,
    pub param_types: Vec<ValueType>,
    pub blocks: Vec<BlockData>,
}

/// The top-level compilation unit; owns every function declared in it.
pub struct Module {
    pub name: String,
    pub functions: Vec<FunctionData>,
}

impl Module {
    /// Registers a new, empty compilation unit under `name`.
    pub fn new(name: &str) -> (m: Module)
        ensures
            m.name@ == name@,
            m.functions@ == Seq::<FunctionData>::empty(),
    {
        Module { name: name.to_owned(), functions: Vec::new() }
    }
}

/// A declared callable: a handle into the owning module's arena together
/// with the declared signature facts a caller needs without the module at
/// hand.
pub struct Function {
    pub index: usize,
    pub name: String,
    pub ret_type: ValueType,
    pub param_count: usize,
}

impl Function {
    /// Declares a function named `name` with the given return type and
    /// ordered parameter types inside `module`; the parameter list is fixed
    /// from then on.  The new function starts with no basic blocks.
    pub fn new(
        module: &mut Module,
        name: &str,
        ret_type: ValueType,
        param_types: Vec<ValueType>,
    ) -> (f: Function)
        ensures
            f.index == old(module).functions@.len(),
            f.name@ == name@,
            f.ret_type == ret_type,
            f.param_count == param_types@.len(),
            final(module).name == old(module).name,
            final(module).functions@.len() == old(module).functions@.len() + 1,
            forall|i: int|
                0 <= i < old(module).functions@.len() ==> final(module).functions@[i] == old(module).functions@[i],
            final(module).functions@.last().name@ == name@,
            final(module).functions@.last().ret_type == ret_type,
            final(module).functions@.last().param_types@ == param_types@,
            final(module).functions@.last().blocks@ == Seq::<BlockData>::empty(),
    {
        let index = module.functions.len();
        let param_count = param_types.len();
        module.functions.push(
            FunctionData { name: name.to_owned(), ret_type, param_types, blocks: Vec::new() },
        );
        Function { index, name: name.to_owned(), ret_type, param_count }
    }

    /// Returns the value handle for formal parameter `index` if the function
    /// was declared with more than `index` parameter types, and nothing
    /// otherwise.  This is a pure bounds check, never a failure of the
    /// module.
    pub fn get_param(&self, index: usize) -> (r: Option<Value>)
        ensures
            index < self.param_count ==> r == Some(
                Value { kind: ValueKind::Param { function: self.index, index } },
            ),
            index >= self.param_count ==> r is None,
    {
        if index < self.param_count {
            Some(Value { kind: ValueKind::Param { function: self.index, index } })
        } else {
            None
        }
    }
}

/// An ordered, appendable instruction sequence belonging to one function:
/// a handle holding the function's index and the block's position in that
/// function's block list.
#[derive(Clone, Copy, PartialEq, Eq, Structural, Debug)]
pub struct BasicBlock {
    pub function: usize,
    pub index: usize,
}

impl BasicBlock {
    /// Appends a new block named `name` to the end of `func`'s block list
    /// and returns a handle to it, so block order always equals insertion
    /// order.  Fails with a stale-handle error if `func` does not refer
    /// into `module`.
    pub fn new(module: &mut Module, func: &Function, name: &str) -> (r: Result<
        BasicBlock,
        EngineError,
    >)
        ensures
            func.index < old(module).functions@.len() ==> ({
                let fidx = func.index as int;
                let old_blocks = old(module).functions@[fidx].blocks@;
                &&& (r matches Ok(bb) && bb.function == func.index && bb.index
                    == old_blocks.len())
                &&& final(module).name == old(module).name
                &&& final(module).functions@.len() == old(module).functions@.len()
                &&& forall|i: int|
                    0 <= i < old(module).functions@.len() && i != fidx ==> final(module).functions@[i] == old(module).functions@[i]
                &&& final(module).functions@[fidx].name == old(module).functions@[fidx].name
                &&& final(module).functions@[fidx].ret_type == old(module).functions@[fidx].ret_type
                &&& final(module).functions@[fidx].param_types == old(module).functions@[fidx].param_types
                &&& final(module).functions@[fidx].blocks@.len() == old_blocks.len() + 1
                &&& forall|b: int|
                    0 <= b < old_blocks.len() ==> final(module).functions@[fidx].blocks@[b]
                        == old_blocks[b]
                &&& final(module).functions@[fidx].blocks@.last().name@ == name@
                &&& final(module).functions@[fidx].blocks@.last().instrs@ == Seq::<
                    Instruction,
                >::empty()
            }),
            func.index >= old(module).functions@.len() ==> ({
                &&& r matches Err(e) && e == EngineError::StaleHandle
                &&& *final(module) == *old(module)
            }),
    {
        let idx = func.index;
        if idx < module.functions.len() {
            let fd = &mut module.functions[idx];
            let bindex = fd.blocks.len();
            fd.blocks.push(BlockData { name: name.to_owned(), instrs: Vec::new() });
            Ok(BasicBlock { function: idx, index: bindex })
        } else {
            Err(EngineError::StaleHandle)
        }
    }
}

/// A cursor for appending instructions to one basic block, with the
/// monotonically increasing instruction counter that names them.
pub struct Builder {
    pub block: BasicBlock,
    pub next_action_id: u32,
}

/// Whether the cursor of builder `b` refers to a block that exists in `m`.
pub open spec fn cursor_live(b: Builder, m: Module) -> bool {
    &&& b.block.function < m.functions@.len()
    &&& b.block.index < m.functions@[b.block.function as int].blocks@.len()
}

/// The full effect of applying `act` through a builder.
///
/// On a live cursor: the builder's counter advances by exactly one, the
/// addressed block grows by exactly one instruction carrying the new
/// counter value, the name rendered from it, and `act` itself, every other
/// part of the module is unchanged, and the result is the handle of the
/// produced value.  On a stale cursor: the defined stale-handle error, with
/// builder and module unchanged.
pub open spec fn append_effect(
    pre_b: Builder,
    pre_m: Module,
    act: Action,
    post_b: Builder,
    post_m: Module,
    r: Result<Value, EngineError>,
) -> bool {
    if cursor_live(pre_b, pre_m) {
        let f = pre_b.block.function as int;
        let bidx = pre_b.block.index as int;
        let old_instrs = pre_m.functions@[f].blocks@[bidx].instrs@;
        &&& post_b.block == pre_b.block
        &&& post_b.next_action_id == pre_b.next_action_id + 1
        &&& r == Ok::<Value, EngineError>(
            Value {
                kind: ValueKind::Instr {
                    function: pre_b.block.function,
                    block: pre_b.block.index,
                    instr: old_instrs.len() as usize,
                },
            },
        )
        &&& post_m.name == pre_m.name
        &&& post_m.functions@.len() == pre_m.functions@.len()
        &&& forall|i: int|
            0 <= i < pre_m.functions@.len() && i != f ==> post_m.functions@[i]
                == pre_m.functions@[i]
        &&& post_m.functions@[f].name == pre_m.functions@[f].name
        &&& post_m.functions@[f].ret_type == pre_m.functions@[f].ret_type
        &&& post_m.functions@[f].param_types == pre_m.functions@[f].param_types
        &&& post_m.functions@[f].blocks@.len() == pre_m.functions@[f].blocks@.len()
        &&& forall|b: int|
            0 <= b < pre_m.functions@[f].blocks@.len() && b != bidx
                ==> post_m.functions@[f].blocks@[b] == pre_m.functions@[f].blocks@[b]
        &&& post_m.functions@[f].blocks@[bidx].name == pre_m.functions@[f].blocks@[bidx].name
        &&& post_m.functions@[f].blocks@[bidx].instrs@.len() == old_instrs.len() + 1
        &&& forall|i: int|
            0 <= i < old_instrs.len() ==> post_m.functions@[f].blocks@[bidx].instrs@[i]
                == old_instrs[i]
        &&& post_m.functions@[f].blocks@[bidx].instrs@.last().id == pre_b.next_action_id + 1
        &&& post_m.functions@[f].blocks@[bidx].instrs@.last().name@ == action_name_spec(
            (pre_b.next_action_id + 1) as nat,
        )
        &&& post_m.functions@[f].blocks@[bidx].instrs@.last().op == act
    } else {
        &&& r == Err::<Value, EngineError>(EngineError::StaleHandle)
        &&& post_b == pre_b
        &&& post_m == pre_m
    }
}

impl Builder {
    /// Creates a builder whose cursor sits at the end of `bb`, with a fresh
    /// instruction counter.
    pub fn new(bb: &BasicBlock) -> (b: Builder)
        ensures
            b.block == *bb,
            b.next_action_id == 0,
    {
        Builder { block: *bb, next_action_id: 0 }
    }

    /// Applies `act` to the block this builder is bound to: advances the
    /// instruction counter and appends the instruction, under the next
    /// sequential name, at the cursor.  See [`append_effect`] for the full
    /// contract.
    pub fn append(&mut self, module: &mut Module, act: Action) -> (r: Result<Value, EngineError>)
        requires
            old(self).next_action_id < u32::MAX,
        ensures
            append_effect(*old(self), *old(module), act, *final(self), *final(module), r),
    {
        act.build(self, module)
    }
}

/// Sequential appends through one builder produce instructions whose ids
/// strictly increase and whose names are pairwise distinct, whatever mix
/// of action variants was appended: the two instructions emitted by two
/// consecutive successful appends carry ids `c + 1` and `c + 2` for the
/// builder's starting counter `c`, and their rendered names differ.
pub proof fn lemma_builder_names_increase(
    pre: Builder,
    m0: Module,
    a1: Action,
    mid: Builder,
    m1: Module,
    r1: Result<Value, EngineError>,
    a2: Action,
    post: Builder,
    m2: Module,
    r2: Result<Value, EngineError>,
)
    requires
        cursor_live(pre, m0),
        append_effect(pre, m0, a1, mid, m1, r1),
        append_effect(mid, m1, a2, post, m2, r2),
    ensures
        ({
            let f = pre.block.function as int;
            let b = pre.block.index as int;
            let k = m0.functions@[f].blocks@[b].instrs@.len() as int;
            let first = m2.functions@[f].blocks@[b].instrs@[k];
            let second = m2.functions@[f].blocks@[b].instrs@[k + 1];
            &&& first.id == pre.next_action_id + 1
            &&& second.id == pre.next_action_id + 2
            &&& first.id < second.id
            &&& first.name@ != second.name@
        }),
{
    let f = pre.block.function as int;
    let b = pre.block.index as int;
    let k = m0.functions@[f].blocks@[b].instrs@.len() as int;
    assert(cursor_live(mid, m1));
    assert(m2.functions@[f].blocks@[b].instrs@[k] == m1.functions@[f].blocks@[b].instrs@[k]);
    crate::names::lemma_action_names_unique(
        (pre.next_action_id + 1) as nat,
        (pre.next_action_id + 2) as nat,
    );
}

/// Builders bound to two different basic blocks of one function keep
/// independent instruction counters: an append through each advances only
/// that builder's counter, each new instruction is named from its own
/// builder's counter alone, and the second append leaves the first
/// builder's block untouched.
pub proof fn lemma_builders_independent(
    b1: Builder,
    b2: Builder,
    m0: Module,
    a1: Action,
    b1p: Builder,
    m1: Module,
    r1: Result<Value, EngineError>,
    a2: Action,
    b2p: Builder,
    m2: Module,
    r2: Result<Value, EngineError>,
)
    requires
        b1.block.function == b2.block.function,
        b1.block.index != b2.block.index,
        cursor_live(b1, m0),
        cursor_live(b2, m0),
        append_effect(b1, m0, a1, b1p, m1, r1),
        append_effect(b2, m1, a2, b2p, m2, r2),
    ensures
        b1p.next_action_id == b1.next_action_id + 1,
        b2p.next_action_id == b2.next_action_id + 1,
        ({
            let f = b1.block.function as int;
            let i1 = b1.block.index as int;
            let i2 = b2.block.index as int;
            &&& m2.functions@[f].blocks@[i1] == m1.functions@[f].blocks@[i1]
            &&& m2.functions@[f].blocks@[i1].instrs@.last().id == b1.next_action_id + 1
            &&& m2.functions@[f].blocks@[i1].instrs@.last().name@ == action_name_spec(
                (b1.next_action_id + 1) as nat,
            )
            &&& m2.functions@[f].blocks@[i2].instrs@.last().id == b2.next_action_id + 1
            &&& m2.functions@[f].blocks@[i2].instrs@.last().name@ == action_name_spec(
                (b2.next_action_id + 1) as nat,
            )
        }),
{
    assert(cursor_live(b2, m1));
}

impl Action {
    /// Emits this action through `builder`: every variant, terminator or
    /// not, consumes one fresh sequential name from the builder's counter,
    /// and the variant itself is recorded as the instruction's operation.
    fn build(&self, builder: &mut Builder, module: &mut Module) -> (r: Result<Value, EngineError>)
        requires
            old(builder).next_action_id < u32::MAX,
        ensures
            append_effect(
                *old(builder),
                *old(module),
                *self,
                *final(builder),
                *final(module),
                r,
            ),
    {
        let f = builder.block.function;
        let bidx = builder.block.index;
        if f >= module.functions.len() {
            return Err(EngineError::StaleHandle);
        }
        if bidx >= module.functions[f].blocks.len() {
            return Err(EngineError::StaleHandle);
        }
        builder.next_action_id = builder.next_action_id + 1;
        let name = action_name(builder.next_action_id);
        let fd = &mut module.functions[f];
        let bd = &mut fd.blocks[bidx];
        let instr_index = bd.instrs.len();
        bd.instrs.push(Instruction { id: builder.next_action_id, name, op: *self });
        Ok(Value { kind: ValueKind::Instr { function: f, block: bidx, instr: instr_index } })
    }
}

} // verus!
