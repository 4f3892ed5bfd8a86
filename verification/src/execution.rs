//! Module execution.
//!
//! An [`ExecutionEngine`] is created from a finished module: creation
//! verifies the module first, and no engine exists for a module with a
//! structural defect — the module is consumed once handed over, and there
//! is no path from a rejected module back to construction.  A successfully
//! created engine evaluates the module's functions: straight-line
//! evaluation of a function's entry block under two's-complement 64-bit
//! arithmetic.

use vstd::prelude::*;
use crate::engine::{Action, Function, FunctionData, Module, Value, ValueKind};
use crate::verify::{
    block_wf,
    error_witnessed,
    function_wf,
    instr_operands_wf,
    instr_wf,
    module_wf,
    operand_wf,
    VerifyError,
};

verus! {

/// The value operand `v` stands for at instruction `j` of block `bidx`,
/// once the function's formal parameters are bound to `args`.
pub open spec fn operand_value_at(
    fd: FunctionData,
    bidx: int,
    args: Seq<i64>,
    j: int,
    v: Value,
) -> i64
    decreases j, 0int,
{
    match v.kind {
        ValueKind::Param { function: _, index } => {
            if 0 <= index < args.len() {
                args[index as int]
            } else {
                0
            }
        },
        ValueKind::Instr { function: _, block: _, instr } => {
            if 0 <= (instr as int) < j {
                instr_value(fd, bidx, args, instr as int)
            } else {
                0
            }
        },
    }
}

/// The result of instruction `j` of block `bidx` under arguments `args`:
/// an `Add` wraps around on 64-bit overflow, a terminator produces no
/// usable value.
pub open spec fn instr_value(fd: FunctionData, bidx: int, args: Seq<i64>, j: int) -> i64
    decreases j, 1int,
{
    if 0 <= bidx < fd.blocks@.len() && 0 <= j < fd.blocks@[bidx].instrs@.len() {
        match fd.blocks@[bidx].instrs@[j].op {
            Action::Add(l, r) => vstd::wrapping::i64_specs::wrapping_add(
                operand_value_at(fd, bidx, args, j, l),
                operand_value_at(fd, bidx, args, j, r),
            ),
            Action::Return(_) => 0,
        }
    } else {
        0
    }
}

/// What invoking the function returns: the value its entry block's
/// terminator hands back.
pub open spec fn function_result(fd: FunctionData, args: Seq<i64>) -> i64 {
    let instrs = fd.blocks@[0].instrs@;
    match instrs.last().op {
        Action::Return(v) => operand_value_at(fd, 0, args, instrs.len() - 1, v),
        Action::Add(_, _) => 0,
    }
}

/// Whether function `fidx` of `m` can be invoked on `args`: the index
/// refers into the module, the argument count matches the declaration, and
/// the function has an entry block (a bare declaration cannot run).
pub open spec fn callable(m: Module, fidx: int, args: Seq<i64>) -> bool {
    &&& 0 <= fidx < m.functions@.len()
    &&& args.len() == m.functions@[fidx].param_types@.len()
    &&& m.functions@[fidx].blocks@.len() > 0
}

/// Resolves operand `v` of instruction `i`: a parameter is read from
/// `args`, an earlier instruction result from the `results` cache.
fn resolve_operand(
    fd: &FunctionData,
    fidx: usize,
    bidx: usize,
    args: &Vec<i64>,
    results: &Vec<i64>,
    i: usize,
    v: Value,
) -> (r: i64)
    requires
        (bidx as int) < fd.blocks@.len(),
        (i as int) < fd.blocks@[bidx as int].instrs@.len(),
        args@.len() == fd.param_types@.len(),
        results@.len() == i,
        forall|j: int| 0 <= j < i ==> results@[j] == instr_value(*fd, bidx as int, args@, j),
        operand_wf(*fd, fidx as int, bidx as int, i as int, v),
    ensures
        r == operand_value_at(*fd, bidx as int, args@, i as int, v),
{
    match v.kind {
        ValueKind::Param { function: _, index } => args[index],
        ValueKind::Instr { function: _, block: _, instr } => results[instr],
    }
}

/// A compiled, executable module: holds the module it was verified and
/// created from, and evaluates that module's functions on demand.
pub struct ExecutionEngine {
    module: Module,
}

impl ExecutionEngine {
    /// An engine only ever holds a module that passed verification.
    #[verifier::type_invariant]
    spec fn engine_wf(self) -> bool {
        module_wf(self.module)
    }

    /// The module this engine was created from.
    pub closed spec fn spec_module(self) -> Module {
        self.module
    }

    /// Verifies `module` and, on success, compiles it into an engine that
    /// holds it; the module is consumed either way.  An ill-formed module
    /// is rejected with the located defect as the diagnostic, and no
    /// engine exists for it.
    pub fn new(module: Module) -> (r: Result<ExecutionEngine, VerifyError>)
        ensures
            r is Ok <==> module_wf(module),
            r matches Ok(e) ==> e.spec_module() == module,
            r matches Err(err) ==> error_witnessed(module, err),
    {
        match module.verify() {
            Ok(()) => Ok(ExecutionEngine { module }),
            Err(e) => Err(e),
        }
    }

    /// Invokes the function `func` refers to: binds `args` to its formal
    /// parameters, evaluates its entry block in order, and returns the
    /// value its terminator hands back.  Yields nothing exactly when the
    /// handle is stale, the argument count does not match the declaration,
    /// or the function has no body.
    pub fn call(&self, func: &Function, args: &Vec<i64>) -> (r: Option<i64>)
        ensures
            r is Some <==> callable(self.spec_module(), func.index as int, args@),
            callable(self.spec_module(), func.index as int, args@) ==> r == Some(
                function_result(self.spec_module().functions@[func.index as int], args@),
            ),
    {
        proof {
            use_type_invariant(&*self);
        }
        let fidx = func.index;
        if fidx >= self.module.functions.len() {
            return None;
        }
        let fd = &self.module.functions[fidx];
        if args.len() != fd.param_types.len() {
            return None;
        }
        if fd.blocks.len() == 0 {
            return None;
        }
        let bd = &fd.blocks[0];
        let n = bd.instrs.len();
        proof {
            assert(function_wf(self.module.functions@[fidx as int], fidx as int));
            assert(block_wf(self.module.functions@[fidx as int], fidx as int, 0));
        }
        let mut results: Vec<i64> = Vec::new();
        let mut i: usize = 0;
        while i < n
            invariant
                fidx == func.index,
                (fidx as int) < self.module.functions@.len(),
                fd == &self.module.functions@[fidx as int],
                fd.blocks@.len() > 0,
                bd == &fd.blocks@[0],
                n == bd.instrs@.len(),
                args@.len() == fd.param_types@.len(),
                block_wf(*fd, fidx as int, 0),
                callable(self.spec_module(), fidx as int, args@),
                self.spec_module() == self.module,
                i <= n,
                results@.len() == i,
                forall|j: int| 0 <= j < i ==> results@[j] == instr_value(*fd, 0, args@, j),
                forall|j: int|
                    0 <= j < i ==> !(#[trigger] bd.instrs@[j].op matches Action::Return(_)),
            decreases n - i,
        {
            let op = bd.instrs[i].op;
            proof {
                assert(instr_wf(*fd, fidx as int, 0, i as int));
                assert(instr_operands_wf(*fd, fidx as int, 0, i as int));
            }
            match op {
                Action::Add(l, r2) => {
                    let a = resolve_operand(fd, fidx, 0, args, &results, i, l);
                    let b2 = resolve_operand(fd, fidx, 0, args, &results, i, r2);
                    results.push(a.wrapping_add(b2));
                },
                Action::Return(v) => {
                    let out = resolve_operand(fd, fidx, 0, args, &results, i, v);
                    proof {
                        if (i as int) < n - 1 {
                            assert(!(bd.instrs@[i as int].op matches Action::Return(_)));
                        }
                        assert(i as int == n - 1);
                        assert(fd.blocks@[0].instrs@.last().op == Action::Return(v));
                    }
                    return Some(out);
                },
            }
            i = i + 1;
        }
        proof {
            assert(!(bd.instrs@[n - 1].op matches Action::Return(_)));
            assert(false);
        }
        None
    }
}

} // verus!
