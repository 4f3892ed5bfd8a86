//! Structural verification of a module.
//!
//! Verification is the sole gate between IR construction and execution:
//! construction never rejects an ill-formed block, and a module is checked
//! here, as a whole, before an execution engine may be built from it.  A
//! module is well-formed when every block of every function carries exactly
//! one terminator — a `Return`, as its final instruction — and every
//! operand refers to a formal parameter of the containing function or to
//! the result of an earlier `Add` of the same block, with consistent types.

use vstd::prelude::*;
use crate::engine::{Action, FunctionData, Module, Value, ValueKind, ValueType};

verus! {

/// The type of the value `v` stands for when used by instruction `j` of
/// block `bidx`: a parameter's declared type, or the result type of the
/// earlier `Add` it names.  Out-of-range references are given `Void`; they
/// are rejected by [`operand_wf`] before this function's value matters.
pub open spec fn operand_type_at(fd: FunctionData, bidx: int, j: int, v: Value) -> ValueType
    decreases j, 0int,
{
    match v.kind {
        ValueKind::Param { function: _, index } => {
            if 0 <= index < fd.param_types@.len() {
                fd.param_types@[index as int]
            } else {
                ValueType::Void
            }
        },
        ValueKind::Instr { function: _, block: _, instr } => {
            if 0 <= (instr as int) < j {
                instr_type(fd, bidx, instr as int)
            } else {
                ValueType::Void
            }
        },
    }
}

/// The result type of instruction `j` of block `bidx`: an `Add` has the
/// type of its left operand, a `Return` produces no usable value.
pub open spec fn instr_type(fd: FunctionData, bidx: int, j: int) -> ValueType
    decreases j, 1int,
{
    if 0 <= bidx < fd.blocks@.len() && 0 <= j < fd.blocks@[bidx].instrs@.len() {
        match fd.blocks@[bidx].instrs@[j].op {
            Action::Add(l, _) => operand_type_at(fd, bidx, j, l),
            Action::Return(_) => ValueType::Void,
        }
    } else {
        ValueType::Void
    }
}

/// Whether `v`, used as an operand of instruction `i` of block `bidx` of
/// the function with arena index `fidx`, refers to something the
/// instruction may use: a formal parameter of the containing function, or
/// the result of an earlier `Add` of the same block (defined before use).
pub open spec fn operand_wf(fd: FunctionData, fidx: int, bidx: int, i: int, v: Value) -> bool {
    match v.kind {
        ValueKind::Param { function, index } => {
            &&& function == fidx
            &&& (index as int) < fd.param_types@.len()
        },
        ValueKind::Instr { function, block, instr } => {
            &&& function == fidx
            &&& block == bidx
            &&& (instr as int) < i
            &&& fd.blocks@[bidx].instrs@[instr as int].op matches Action::Add(_, _)
        },
    }
}

/// Whether every operand of instruction `i` of block `bidx` is
/// well-formed.
pub open spec fn instr_operands_wf(fd: FunctionData, fidx: int, bidx: int, i: int) -> bool {
    match fd.blocks@[bidx].instrs@[i].op {
        Action::Add(l, r) => {
            &&& operand_wf(fd, fidx, bidx, i, l)
            &&& operand_wf(fd, fidx, bidx, i, r)
        },
        Action::Return(v) => operand_wf(fd, fidx, bidx, i, v),
    }
}

/// Whether the types of instruction `i` of block `bidx` are consistent:
/// an `Add` combines two values of one type, a `Return` returns a value of
/// the containing function's declared return type.
pub open spec fn instr_types_ok(fd: FunctionData, bidx: int, i: int) -> bool {
    match fd.blocks@[bidx].instrs@[i].op {
        Action::Add(l, r) => operand_type_at(fd, bidx, i, l) == operand_type_at(fd, bidx, i, r),
        Action::Return(v) => operand_type_at(fd, bidx, i, v) == fd.ret_type,
    }
}

/// Whether instruction `i` of block `bidx` is well-formed.
pub open spec fn instr_wf(fd: FunctionData, fidx: int, bidx: int, i: int) -> bool {
    &&& instr_operands_wf(fd, fidx, bidx, i)
    &&& instr_types_ok(fd, bidx, i)
}

/// Whether block `bidx` of the function with arena index `fidx` is
/// well-formed: it is non-empty, exactly one terminator — a `Return` —
/// ends it, and every instruction in it is well-formed.
pub open spec fn block_wf(fd: FunctionData, fidx: int, bidx: int) -> bool {
    let instrs = fd.blocks@[bidx].instrs@;
    &&& instrs.len() > 0
    &&& instrs.last().op matches Action::Return(_)
    &&& forall|i: int|
        0 <= i < instrs.len() - 1 ==> !(#[trigger] instrs[i].op matches Action::Return(_))
    &&& forall|i: int| 0 <= i < instrs.len() ==> instr_wf(fd, fidx, bidx, i)
}

/// Whether the function with arena index `fidx` is well-formed: every one
/// of its blocks is.  A function with no blocks is a bare declaration and
/// is well-formed.
pub open spec fn function_wf(fd: FunctionData, fidx: int) -> bool {
    forall|b: int| 0 <= b < fd.blocks@.len() ==> block_wf(fd, fidx, b)
}

/// Whether the whole module is structurally valid.  Verification succeeds
/// on exactly these modules.
pub open spec fn module_wf(m: Module) -> bool {
    forall|f: int| 0 <= f < m.functions@.len() ==> function_wf(m.functions@[f], f)
}

/// The structural defect verification found, with the place it was found:
/// the diagnostic surfaced to the caller.
#[derive(Clone, Copy, PartialEq, Eq, Structural, Debug)]
pub enum VerifyError {
    /// The block holds no instructions, hence no terminator.
    EmptyBlock { function: usize, block: usize },
    /// The block's final instruction is not a terminator.
    MissingTerminator { function: usize, block: usize },
    /// A terminator stands before the end of the block.
    EarlyTerminator { function: usize, block: usize, instr: usize },
    /// An operand of the instruction refers to nothing it may use.
    InvalidOperand { function: usize, block: usize, instr: usize },
    /// The instruction's operand or return types are inconsistent.
    TypeMismatch { function: usize, block: usize, instr: usize },
}

/// Whether the defect `e` cites is real in `m`: verification never
/// reports a location that does not exhibit the reported problem.
pub open spec fn error_witnessed(m: Module, e: VerifyError) -> bool {
    match e {
        VerifyError::EmptyBlock { function, block } => {
            &&& (function as int) < m.functions@.len()
            &&& (block as int) < m.functions@[function as int].blocks@.len()
            &&& m.functions@[function as int].blocks@[block as int].instrs@.len() == 0
        },
        VerifyError::MissingTerminator { function, block } => {
            let instrs = m.functions@[function as int].blocks@[block as int].instrs@;
            &&& (function as int) < m.functions@.len()
            &&& (block as int) < m.functions@[function as int].blocks@.len()
            &&& instrs.len() > 0
            &&& !(instrs.last().op matches Action::Return(_))
        },
        VerifyError::EarlyTerminator { function, block, instr } => {
            let instrs = m.functions@[function as int].blocks@[block as int].instrs@;
            &&& (function as int) < m.functions@.len()
            &&& (block as int) < m.functions@[function as int].blocks@.len()
            &&& (instr as int) < instrs.len() - 1
            &&& instrs[instr as int].op matches Action::Return(_)
        },
        VerifyError::InvalidOperand { function, block, instr } => {
            &&& (function as int) < m.functions@.len()
            &&& (block as int) < m.functions@[function as int].blocks@.len()
            &&& (instr as int) < m.functions@[function as int].blocks@[block as int].instrs@.len()
            &&& !instr_operands_wf(
                m.functions@[function as int],
                function as int,
                block as int,
                instr as int,
            )
        },
        VerifyError::TypeMismatch { function, block, instr } => {
            &&& (function as int) < m.functions@.len()
            &&& (block as int) < m.functions@[function as int].blocks@.len()
            &&& (instr as int) < m.functions@[function as int].blocks@[block as int].instrs@.len()
            &&& instr_operands_wf(
                m.functions@[function as int],
                function as int,
                block as int,
                instr as int,
            )
            &&& !instr_types_ok(m.functions@[function as int], block as int, instr as int)
        },
    }
}

/// Resolves operand `v` of instruction `i`: its type if it is well-formed,
/// nothing otherwise.  `types` caches the result types of the instructions
/// already checked.
fn operand_type_checked(
    fd: &FunctionData,
    fidx: usize,
    bidx: usize,
    i: usize,
    types: &Vec<ValueType>,
    v: Value,
) -> (r: Option<ValueType>)
    requires
        (bidx as int) < fd.blocks@.len(),
        (i as int) < fd.blocks@[bidx as int].instrs@.len(),
        types@.len() == i,
        forall|j: int| 0 <= j < i ==> types@[j] == instr_type(*fd, bidx as int, j),
    ensures
        r is Some <==> operand_wf(*fd, fidx as int, bidx as int, i as int, v),
        r matches Some(t) ==> t == operand_type_at(*fd, bidx as int, i as int, v),
{
    match v.kind {
        ValueKind::Param { function, index } => {
            if function == fidx && index < fd.param_types.len() {
                Some(fd.param_types[index])
            } else {
                None
            }
        },
        ValueKind::Instr { function, block, instr } => {
            if function == fidx && block == bidx && instr < i {
                match fd.blocks[bidx].instrs[instr].op {
                    Action::Add(_, _) => Some(types[instr]),
                    Action::Return(_) => None,
                }
            } else {
                None
            }
        },
    }
}

impl Module {
    /// Checks block `b` of function `f` and reports the first defect found.
    fn check_block(&self, f: usize, b: usize) -> (r: Result<(), VerifyError>)
        requires
            (f as int) < self.functions@.len(),
            (b as int) < self.functions@[f as int].blocks@.len(),
        ensures
            r is Ok <==> block_wf(self.functions@[f as int], f as int, b as int),
            r matches Err(e) ==> error_witnessed(*self, e),
    {
        let fd = &self.functions[f];
        let bd = &fd.blocks[b];
        let n = bd.instrs.len();
        if n == 0 {
            return Err(VerifyError::EmptyBlock { function: f, block: b });
        }
        match bd.instrs[n - 1].op {
            Action::Return(_) => {},
            Action::Add(_, _) => {
                return Err(VerifyError::MissingTerminator { function: f, block: b });
            },
        }
        let mut types: Vec<ValueType> = Vec::new();
        let mut i: usize = 0;
        while i < n
            invariant
                (f as int) < self.functions@.len(),
                (b as int) < self.functions@[f as int].blocks@.len(),
                fd == &self.functions@[f as int],
                bd == &self.functions@[f as int].blocks@[b as int],
                n == bd.instrs@.len(),
                n > 0,
                bd.instrs@.last().op matches Action::Return(_),
                i <= n,
                types@.len() == i,
                forall|j: int| 0 <= j < i ==> types@[j] == instr_type(*fd, b as int, j),
                forall|j: int| 0 <= j < i ==> instr_wf(*fd, f as int, b as int, j),
                forall|j: int|
                    0 <= j < i && j < n - 1 ==> !(#[trigger] bd.instrs@[j].op matches Action::Return(
                        _,
                    )),
            decreases n - i,
        {
            let op = bd.instrs[i].op;
            match op {
                Action::Return(v) => {
                    if i + 1 < n {
                        return Err(
                            VerifyError::EarlyTerminator { function: f, block: b, instr: i },
                        );
                    }
                    match operand_type_checked(fd, f, b, i, &types, v) {
                        None => {
                            proof {
                                assert(!instr_operands_wf(*fd, f as int, b as int, i as int));
                                assert(!instr_wf(*fd, f as int, b as int, i as int));
                                assert(!block_wf(*fd, f as int, b as int));
                            }
                            return Err(
                                VerifyError::InvalidOperand { function: f, block: b, instr: i },
                            );
                        },
                        Some(t) => {
                            if t != fd.ret_type {
                                proof {
                                    assert(!instr_types_ok(*fd, b as int, i as int));
                                    assert(!instr_wf(*fd, f as int, b as int, i as int));
                                    assert(!block_wf(*fd, f as int, b as int));
                                }
                                return Err(
                                    VerifyError::TypeMismatch { function: f, block: b, instr: i },
                                );
                            }
                        },
                    }
                    types.push(ValueType::Void);
                },
                Action::Add(l, r2) => {
                    let tl = match operand_type_checked(fd, f, b, i, &types, l) {
                        None => {
                            proof {
                                assert(!instr_operands_wf(*fd, f as int, b as int, i as int));
                                assert(!instr_wf(*fd, f as int, b as int, i as int));
                                assert(!block_wf(*fd, f as int, b as int));
                            }
                            return Err(
                                VerifyError::InvalidOperand { function: f, block: b, instr: i },
                            );
                        },
                        Some(t) => t,
                    };
                    let tr = match operand_type_checked(fd, f, b, i, &types, r2) {
                        None => {
                            proof {
                                assert(!instr_operands_wf(*fd, f as int, b as int, i as int));
                                assert(!instr_wf(*fd, f as int, b as int, i as int));
                                assert(!block_wf(*fd, f as int, b as int));
                            }
                            return Err(
                                VerifyError::InvalidOperand { function: f, block: b, instr: i },
                            );
                        },
                        Some(t) => t,
                    };
                    if tl != tr {
                        proof {
                            assert(!instr_types_ok(*fd, b as int, i as int));
                            assert(!instr_wf(*fd, f as int, b as int, i as int));
                            assert(!block_wf(*fd, f as int, b as int));
                        }
                        return Err(VerifyError::TypeMismatch { function: f, block: b, instr: i });
                    }
                    types.push(tl);
                },
            }
            i += 1;
        }
        Ok(())
    }

    /// Verifies the module for structural correctness: type consistency,
    /// terminator presence, and operand references.  Returns `Ok` exactly
    /// when the module is well-formed; otherwise the first defect found,
    /// as a located diagnostic.
    pub fn verify(&self) -> (r: Result<(), VerifyError>)
        ensures
            r is Ok <==> module_wf(*self),
            r matches Err(e) ==> error_witnessed(*self, e),
    {
        let n = self.functions.len();
        let mut f: usize = 0;
        while f < n
            invariant
                n == self.functions@.len(),
                f <= n,
                forall|k: int| 0 <= k < f ==> function_wf(self.functions@[k], k),
            decreases n - f,
        {
            let nb = self.functions[f].blocks.len();
            let mut b: usize = 0;
            while b < nb
                invariant
                    n == self.functions@.len(),
                    (f as int) < n,
                    nb == self.functions@[f as int].blocks@.len(),
                    b <= nb,
                    forall|k: int| 0 <= k < b ==> block_wf(self.functions@[f as int], f as int, k),
                decreases nb - b,
            {
                match self.check_block(f, b) {
                    Ok(()) => {},
                    Err(e) => {
                        proof {
                            assert(!block_wf(self.functions@[f as int], f as int, b as int));
                            assert(!function_wf(self.functions@[f as int], f as int));
                            assert(!module_wf(*self));
                        }
                        return Err(e);
                    },
                }
                b = b + 1;
            }
            f = f + 1;
        }
        Ok(())
    }
}

} // verus!
