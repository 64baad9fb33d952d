//! Execution semantics of the target representation: a definitional
//! interpreter given as spec functions, and an executable evaluator proved
//! to return exactly what the spec interpreter says.
//!
//! Float values are carried as bit patterns; comparisons, negation and the
//! one-bit-to-float conversion are computed on the bits. Float addition,
//! subtraction, multiplication and division are emitted by the compiler
//! but not executed here.

use vstd::prelude::*;
use vstd::wrapping::u64_specs;
use crate::fbits::spec_float_cmp;
use crate::fbits::spec_f64_neg;
use crate::fbits::spec_uitofp;
use crate::fbits::float_cmp;
use crate::fbits::f64_neg;
use crate::fbits::uitofp;
use crate::ir::Instr;
use crate::ir::IntArith;
use crate::ir::IntPred;
use crate::ir::IrFunction;
use crate::ir::IrModule;
use crate::ir::IrType;
use crate::ir::ValueRef;

verus! {

/// A runtime value: an integer of a given width, a float carried as its
/// bit pattern, a function address, or the result of a void return.
#[derive(Clone, Copy, PartialEq, Eq, Structural, Debug)]
pub enum RtVal {
    Int { ty: IrType, val: u64 },
    Float { bits: u64 },
    FnAddr { idx: usize },
    Unit,
}

/// The ways evaluation can fail.
#[derive(Clone, Copy, PartialEq, Eq, Structural, Debug)]
pub enum EvalErr {
    OutOfFuel,
    NoSuchFunction,
    ExternalFunction,
    MissingTerminator,
    ArityMismatch,
    NotCallable,
    TypeMismatch,
    DivideByZero,
    FloatArithUnsupported,
    UnboundRegister,
    UninitializedSlot,
}

/// Truncation of a computed value to its integer type: one-bit integers
/// wrap modulo two, the wider types keep the 64 bits computed.
pub open spec fn spec_ty_mask(ty: IrType, v: u64) -> u64 {
    if ty == IrType::I1 {
        v % 2
    } else {
        v
    }
}

/// The meaning of an integer arithmetic instruction: wrapping unsigned
/// arithmetic, unsigned division (undefined on a zero divisor), and the
/// bitwise operations.
pub open spec fn spec_int_arith(op: IntArith, ty: IrType, a: u64, b: u64) -> Option<u64> {
    match op {
        IntArith::Add => Some(spec_ty_mask(ty, u64_specs::wrapping_add(a, b))),
        IntArith::Sub => Some(spec_ty_mask(ty, u64_specs::wrapping_sub(a, b))),
        IntArith::Mul => Some(spec_ty_mask(ty, u64_specs::wrapping_mul(a, b))),
        IntArith::Udiv => if b == 0 {
            None
        } else {
            Some(a / b)
        },
        IntArith::BitAnd => Some(a & b),
        IntArith::BitOr => Some(a | b),
    }
}

/// The meaning of an unsigned integer comparison predicate.
pub open spec fn spec_int_cmp(p: IntPred, a: u64, b: u64) -> bool {
    match p {
        IntPred::Ult => a < b,
        IntPred::Ugt => a > b,
        IntPred::Ule => a <= b,
        IntPred::Uge => a >= b,
    }
}

/// The meaning of integer negation: wrapping two's complement.
pub open spec fn spec_int_neg(ty: IrType, v: u64) -> u64 {
    spec_ty_mask(ty, u64_specs::wrapping_sub(0u64, v))
}

/// Executable counterpart of `spec_int_arith`.
pub fn int_arith(op: IntArith, ty: IrType, a: u64, b: u64) -> (r: Option<u64>)
    ensures
        r == spec_int_arith(op, ty, a, b),
{
    match op {
        IntArith::Add => Some(ty_mask(ty, a.wrapping_add(b))),
        IntArith::Sub => Some(ty_mask(ty, a.wrapping_sub(b))),
        IntArith::Mul => Some(ty_mask(ty, a.wrapping_mul(b))),
        IntArith::Udiv => if b == 0 {
            None
        } else {
            Some(a / b)
        },
        IntArith::BitAnd => Some(a & b),
        IntArith::BitOr => Some(a | b),
    }
}

/// Executable counterpart of `spec_ty_mask`.
pub fn ty_mask(ty: IrType, v: u64) -> (r: u64)
    ensures
        r == spec_ty_mask(ty, v),
{
    if ty == IrType::I1 {
        v % 2
    } else {
        v
    }
}

/// Executable counterpart of `spec_int_cmp`.
pub fn int_cmp(p: IntPred, a: u64, b: u64) -> (r: bool)
    ensures
        r == spec_int_cmp(p, a, b),
{
    match p {
        IntPred::Ult => a < b,
        IntPred::Ugt => a > b,
        IntPred::Ule => a <= b,
        IntPred::Uge => a >= b,
    }
}

/// Executable counterpart of `spec_int_neg`.
pub fn int_neg(ty: IrType, v: u64) -> (r: u64)
    ensures
        r == spec_int_neg(ty, v),
{
    let w = if v == 0 {
        0
    } else {
        (u64::MAX - v) + 1
    };
    ty_mask(ty, w)
}

/// The latest value stored under key `k`, if any.
pub open spec fn spec_assoc_get(mem: Seq<(usize, RtVal)>, k: usize) -> Option<RtVal>
    decreases mem.len(),
{
    if mem.len() == 0 {
        None
    } else if mem.last().0 == k {
        Some(mem.last().1)
    } else {
        spec_assoc_get(mem.drop_last(), k)
    }
}

/// The runtime value a compile-time value denotes in a frame: constants
/// and function addresses denote themselves, parameters index the
/// incoming arguments, registers index earlier results. Slot addresses
/// are not first-class runtime values.
pub open spec fn spec_eval_value(
    f: IrFunction,
    args: Seq<RtVal>,
    regs: Seq<Option<RtVal>>,
    mem: Seq<(usize, RtVal)>,
    v: ValueRef,
) -> Result<RtVal, EvalErr> {
    match v {
        ValueRef::IntConst { ty, val } => Ok(RtVal::Int { ty, val }),
        ValueRef::FloatConst { bits } => Ok(RtVal::Float { bits }),
        ValueRef::FnPtr { idx } => Ok(RtVal::FnAddr { idx }),
        ValueRef::Arg { index, ty } => if index < args.len() {
            Ok(args[index as int])
        } else {
            Err(EvalErr::ArityMismatch)
        },
        ValueRef::Slot { .. } => Err(EvalErr::TypeMismatch),
        ValueRef::Reg { id, ty } => if id < regs.len() {
            match regs[id as int] {
                Some(x) => Ok(x),
                None => Err(EvalErr::UnboundRegister),
            }
        } else {
            Err(EvalErr::UnboundRegister)
        },
    }
}

/// The runtime values of a sequence of operands, first error first.
pub open spec fn spec_eval_args(
    f: IrFunction,
    args: Seq<RtVal>,
    regs: Seq<Option<RtVal>>,
    mem: Seq<(usize, RtVal)>,
    vs: Seq<ValueRef>,
) -> Result<Seq<RtVal>, EvalErr>
    decreases vs.len(),
{
    if vs.len() == 0 {
        Ok(Seq::empty())
    } else {
        match spec_eval_args(f, args, regs, mem, vs.drop_last()) {
            Err(e) => Err(e),
            Ok(pre) => match spec_eval_value(f, args, regs, mem, vs.last()) {
                Err(e) => Err(e),
                Ok(x) => Ok(pre.push(x)),
            },
        }
    }
}

/// Call the function at index `idx` of the module with the given
/// arguments: only linked, non-external, terminated functions with a
/// matching argument count can run. `fuel` bounds the call depth.
pub open spec fn spec_eval_call(m: IrModule, idx: usize, args: Seq<RtVal>, fuel: nat) -> Result<
    RtVal,
    EvalErr,
>
    decreases fuel, 0int, 0int,
{
    if fuel == 0 {
        Err(EvalErr::OutOfFuel)
    } else if idx >= m.functions@.len() {
        Err(EvalErr::NoSuchFunction)
    } else {
        let f = m.functions@[idx as int];
        if f.deleted {
            Err(EvalErr::NoSuchFunction)
        } else if f.external {
            Err(EvalErr::ExternalFunction)
        } else if f.term is None {
            Err(EvalErr::MissingTerminator)
        } else if args.len() != f.params@.len() {
            Err(EvalErr::ArityMismatch)
        } else {
            spec_eval_body(m, idx, 0, Seq::empty(), Seq::empty(), args, (fuel - 1) as nat)
        }
    }
}

/// Run the body of function `fidx` from instruction `i` on, with the
/// registers and slot memory accumulated so far, then evaluate the
/// terminator.
pub open spec fn spec_eval_body(
    m: IrModule,
    fidx: usize,
    i: int,
    regs: Seq<Option<RtVal>>,
    mem: Seq<(usize, RtVal)>,
    args: Seq<RtVal>,
    fuel: nat,
) -> Result<RtVal, EvalErr>
    decreases fuel, m.functions@[fidx as int].body@.len() - i + 1, 0int,
{
    let f = m.functions@[fidx as int];
    if i < 0 || i >= f.body@.len() {
        match f.term {
            None => Err(EvalErr::MissingTerminator),
            Some(None) => Ok(RtVal::Unit),
            Some(Some(v)) => spec_eval_value(f, args, regs, mem, v),
        }
    } else {
        match f.body@[i] {
            Instr::Alloca { .. } => spec_eval_body(m, fidx, i + 1, regs.push(None), mem, args, fuel),
            Instr::Store { slot, val } => match spec_eval_value(f, args, regs, mem, val) {
                Err(e) => Err(e),
                Ok(x) => match slot {
                    ValueRef::Slot { id, .. } => spec_eval_body(
                        m,
                        fidx,
                        i + 1,
                        regs.push(None),
                        mem.push((id, x)),
                        args,
                        fuel,
                    ),
                    _ => Err(EvalErr::TypeMismatch),
                },
            },
            Instr::Load { slot, ty } => match slot {
                ValueRef::Slot { id, .. } => match spec_assoc_get(mem, id) {
                    Some(x) => spec_eval_body(m, fidx, i + 1, regs.push(Some(x)), mem, args, fuel),
                    None => Err(EvalErr::UninitializedSlot),
                },
                _ => Err(EvalErr::TypeMismatch),
            },
            Instr::IntBin { op, a, b } => match (
                spec_eval_value(f, args, regs, mem, a),
                spec_eval_value(f, args, regs, mem, b),
            ) {
                (Err(e), _) => Err(e),
                (Ok(_), Err(e)) => Err(e),
                (Ok(RtVal::Int { ty: ta, val: x }), Ok(RtVal::Int { val: y, .. })) => {
                    match spec_int_arith(op, ta, x, y) {
                        None => Err(EvalErr::DivideByZero),
                        Some(r) => spec_eval_body(
                            m,
                            fidx,
                            i + 1,
                            regs.push(Some(RtVal::Int { ty: ta, val: r })),
                            mem,
                            args,
                            fuel,
                        ),
                    }
                },
                _ => Err(EvalErr::TypeMismatch),
            },
            Instr::IntCmp { pred, a, b } => match (
                spec_eval_value(f, args, regs, mem, a),
                spec_eval_value(f, args, regs, mem, b),
            ) {
                (Err(e), _) => Err(e),
                (Ok(_), Err(e)) => Err(e),
                (Ok(RtVal::Int { val: x, .. }), Ok(RtVal::Int { val: y, .. })) => spec_eval_body(
                    m,
                    fidx,
                    i + 1,
                    regs.push(
                        Some(
                            RtVal::Int {
                                ty: IrType::I1,
                                val: if spec_int_cmp(pred, x, y) {
                                    1
                                } else {
                                    0
                                },
                            },
                        ),
                    ),
                    mem,
                    args,
                    fuel,
                ),
                _ => Err(EvalErr::TypeMismatch),
            },
            Instr::FloatBin { .. } => Err(EvalErr::FloatArithUnsupported),
            Instr::FloatCmp { pred, a, b } => match (
                spec_eval_value(f, args, regs, mem, a),
                spec_eval_value(f, args, regs, mem, b),
            ) {
                (Err(e), _) => Err(e),
                (Ok(_), Err(e)) => Err(e),
                (Ok(RtVal::Float { bits: x }), Ok(RtVal::Float { bits: y })) => spec_eval_body(
                    m,
                    fidx,
                    i + 1,
                    regs.push(
                        Some(
                            RtVal::Int {
                                ty: IrType::I1,
                                val: if spec_float_cmp(pred, x, y) {
                                    1
                                } else {
                                    0
                                },
                            },
                        ),
                    ),
                    mem,
                    args,
                    fuel,
                ),
                _ => Err(EvalErr::TypeMismatch),
            },
            Instr::UiToFp { a } => match spec_eval_value(f, args, regs, mem, a) {
                Err(e) => Err(e),
                Ok(RtVal::Int { ty: IrType::I1, val }) => spec_eval_body(
                    m,
                    fidx,
                    i + 1,
                    regs.push(Some(RtVal::Float { bits: spec_uitofp(val) })),
                    mem,
                    args,
                    fuel,
                ),
                Ok(_) => Err(EvalErr::TypeMismatch),
            },
            Instr::IntNeg { a } => match spec_eval_value(f, args, regs, mem, a) {
                Err(e) => Err(e),
                Ok(RtVal::Int { ty, val }) => spec_eval_body(
                    m,
                    fidx,
                    i + 1,
                    regs.push(Some(RtVal::Int { ty, val: spec_int_neg(ty, val) })),
                    mem,
                    args,
                    fuel,
                ),
                Ok(_) => Err(EvalErr::TypeMismatch),
            },
            Instr::FloatNeg { a } => match spec_eval_value(f, args, regs, mem, a) {
                Err(e) => Err(e),
                Ok(RtVal::Float { bits }) => spec_eval_body(
                    m,
                    fidx,
                    i + 1,
                    regs.push(Some(RtVal::Float { bits: spec_f64_neg(bits) })),
                    mem,
                    args,
                    fuel,
                ),
                Ok(_) => Err(EvalErr::TypeMismatch),
            },
            Instr::Call { callee, args: cargs, ret } => {
                match spec_eval_value(f, args, regs, mem, callee) {
                    Err(e) => Err(e),
                    Ok(RtVal::FnAddr { idx: cidx }) => {
                        match spec_eval_args(f, args, regs, mem, cargs@) {
                            Err(e) => Err(e),
                            Ok(vs) => match spec_eval_call(m, cidx, vs, fuel) {
                                Err(e) => Err(e),
                                Ok(rv) => spec_eval_body(
                                    m,
                                    fidx,
                                    i + 1,
                                    regs.push(Some(rv)),
                                    mem,
                                    args,
                                    fuel,
                                ),
                            },
                        }
                    },
                    Ok(_) => Err(EvalErr::NotCallable),
                }
            },
        }
    }
}

/// Executable counterpart of `spec_eval_value`.
pub fn eval_value(
    f: &IrFunction,
    args: &Vec<RtVal>,
    regs: &Vec<Option<RtVal>>,
    mem: &Vec<(usize, RtVal)>,
    v: &ValueRef,
) -> (r: Result<RtVal, EvalErr>)
    ensures
        r == spec_eval_value(*f, args@, regs@, mem@, *v),
{
    match v {
        ValueRef::IntConst { ty, val } => Ok(RtVal::Int { ty: *ty, val: *val }),
        ValueRef::FloatConst { bits } => Ok(RtVal::Float { bits: *bits }),
        ValueRef::FnPtr { idx } => Ok(RtVal::FnAddr { idx: *idx }),
        ValueRef::Arg { index, ty } => if *index < args.len() {
            Ok(args[*index])
        } else {
            Err(EvalErr::ArityMismatch)
        },
        ValueRef::Slot { .. } => Err(EvalErr::TypeMismatch),
        ValueRef::Reg { id, ty } => if *id < regs.len() {
            match regs[*id] {
                Some(x) => Ok(x),
                None => Err(EvalErr::UnboundRegister),
            }
        } else {
            Err(EvalErr::UnboundRegister)
        },
    }
}

/// The latest value stored under `k` among the first `j` entries.
fn assoc_get_upto(mem: &Vec<(usize, RtVal)>, k: usize, j: usize) -> (r: Option<RtVal>)
    requires
        j <= mem@.len(),
    ensures
        r == spec_assoc_get(mem@.take(j as int), k),
    decreases j,
{
    if j == 0 {
        proof {
            assert(mem@.take(0) =~= Seq::<(usize, RtVal)>::empty());
        }
        None
    } else {
        proof {
            assert(mem@.take(j as int).drop_last() =~= mem@.take(j as int - 1));
            assert(mem@.take(j as int).last() == mem@[j as int - 1]);
        }
        let entry = &mem[j - 1];
        if entry.0 == k {
            Some(entry.1)
        } else {
            assoc_get_upto(mem, k, j - 1)
        }
    }
}

/// Executable counterpart of `spec_assoc_get`.
pub fn assoc_get(mem: &Vec<(usize, RtVal)>, k: usize) -> (r: Option<RtVal>)
    ensures
        r == spec_assoc_get(mem@, k),
{
    let n = mem.len();
    proof {
        assert(mem@.take(n as int) =~= mem@);
    }
    assoc_get_upto(mem, k, n)
}

/// If a prefix of the operands already fails, the whole sequence fails
/// the same way.
proof fn lemma_eval_args_prefix_err(
    f: IrFunction,
    args: Seq<RtVal>,
    regs: Seq<Option<RtVal>>,
    mem: Seq<(usize, RtVal)>,
    vs: Seq<ValueRef>,
    k: int,
)
    requires
        0 <= k <= vs.len(),
        spec_eval_args(f, args, regs, mem, vs.take(k)) is Err,
    ensures
        spec_eval_args(f, args, regs, mem, vs) == spec_eval_args(f, args, regs, mem, vs.take(k)),
    decreases vs.len() - k,
{
    if k == vs.len() {
        assert(vs.take(k) =~= vs);
    } else {
        assert(vs.take(k + 1).drop_last() =~= vs.take(k));
        lemma_eval_args_prefix_err(f, args, regs, mem, vs, k + 1);
    }
}

/// Executable counterpart of `spec_eval_args`.
pub fn eval_args(
    f: &IrFunction,
    args: &Vec<RtVal>,
    regs: &Vec<Option<RtVal>>,
    mem: &Vec<(usize, RtVal)>,
    vs: &Vec<ValueRef>,
) -> (r: Result<Vec<RtVal>, EvalErr>)
    ensures
        match r {
            Ok(out) => spec_eval_args(*f, args@, regs@, mem@, vs@) == Ok::<_, EvalErr>(out@),
            Err(e) => spec_eval_args(*f, args@, regs@, mem@, vs@) == Err::<Seq<RtVal>, _>(e),
        },
{
    let mut out: Vec<RtVal> = Vec::new();
    let mut j: usize = 0;
    proof {
        assert(vs@.take(0) =~= Seq::<ValueRef>::empty());
    }
    while j < vs.len()
        invariant
            j <= vs@.len(),
            spec_eval_args(*f, args@, regs@, mem@, vs@.take(j as int)) == Ok::<_, EvalErr>(out@),
        decreases vs@.len() - j,
    {
        proof {
            assert(vs@.take(j as int + 1).drop_last() =~= vs@.take(j as int));
            assert(vs@.take(j as int + 1).last() == vs@[j as int]);
        }
        match eval_value(f, args, regs, mem, &vs[j]) {
            Ok(x) => {
                out.push(x);
            },
            Err(e) => {
                proof {
                    lemma_eval_args_prefix_err(*f, args@, regs@, mem@, vs@, j as int + 1);
                }
                return Err(e);
            },
        }
        j += 1;
    }
    proof {
        assert(vs@.take(vs@.len() as int) =~= vs@);
    }
    Ok(out)
}

/// Call the function at index `idx` with the given arguments, exactly as
/// `spec_eval_call` states it. `fuel` bounds the call depth.
pub fn eval_call(m: &IrModule, idx: usize, args: Vec<RtVal>, fuel: u64) -> (r: Result<
    RtVal,
    EvalErr,
>)
    ensures
        r == spec_eval_call(*m, idx, args@, fuel as nat),
    decreases fuel, 0int, 0int,
{
    if fuel == 0 {
        return Err(EvalErr::OutOfFuel);
    }
    if idx >= m.functions.len() {
        return Err(EvalErr::NoSuchFunction);
    }
    let deleted = m.functions[idx].deleted;
    let external = m.functions[idx].external;
    let no_term = m.functions[idx].term.is_none();
    if deleted {
        return Err(EvalErr::NoSuchFunction);
    }
    if external {
        return Err(EvalErr::ExternalFunction);
    }
    if no_term {
        return Err(EvalErr::MissingTerminator);
    }
    if args.len() != m.functions[idx].params.len() {
        return Err(EvalErr::ArityMismatch);
    }
    eval_body(m, idx, 0, Vec::new(), Vec::new(), &args, fuel - 1)
}

/// Run the body of function `fidx` from instruction `i` on, exactly as
/// `spec_eval_body` states it.
#[verifier::rlimit(50)]
pub fn eval_body(
    m: &IrModule,
    fidx: usize,
    i: usize,
    regs: Vec<Option<RtVal>>,
    mem: Vec<(usize, RtVal)>,
    args: &Vec<RtVal>,
    fuel: u64,
) -> (r: Result<RtVal, EvalErr>)
    requires
        fidx < m.functions@.len(),
    ensures
        r == spec_eval_body(*m, fidx, i as int, regs@, mem@, args@, fuel as nat),
    decreases fuel, m.functions@[fidx as int].body@.len() - i + 1, 0int,
{
    let f = &m.functions[fidx];
    if i >= f.body.len() {
        return match &f.term {
            None => Err(EvalErr::MissingTerminator),
            Some(None) => Ok(RtVal::Unit),
            Some(Some(v)) => eval_value(f, args, &regs, &mem, v),
        };
    }
    match &f.body[i] {
        Instr::Alloca { .. } => {
            let mut regs2 = regs;
            regs2.push(None);
            eval_body(m, fidx, i + 1, regs2, mem, args, fuel)
        },
        Instr::Store { slot, val } => match eval_value(f, args, &regs, &mem, val) {
            Err(e) => Err(e),
            Ok(x) => match slot {
                ValueRef::Slot { id, .. } => {
                    let id = *id;
                    let mut regs2 = regs;
                    regs2.push(None);
                    let mut mem2 = mem;
                    mem2.push((id, x));
                    eval_body(m, fidx, i + 1, regs2, mem2, args, fuel)
                },
                _ => Err(EvalErr::TypeMismatch),
            },
        },
        Instr::Load { slot, ty } => match slot {
            ValueRef::Slot { id, .. } => match assoc_get(&mem, *id) {
                Some(x) => {
                    let mut regs2 = regs;
                    regs2.push(Some(x));
                    eval_body(m, fidx, i + 1, regs2, mem, args, fuel)
                },
                None => Err(EvalErr::UninitializedSlot),
            },
            _ => Err(EvalErr::TypeMismatch),
        },
        Instr::IntBin { op, a, b } => {
            let va = eval_value(f, args, &regs, &mem, a);
            let vb = eval_value(f, args, &regs, &mem, b);
            match (va, vb) {
                (Err(e), _) => Err(e),
                (Ok(_), Err(e)) => Err(e),
                (Ok(RtVal::Int { ty: ta, val: x }), Ok(RtVal::Int { val: y, .. })) => {
                    match int_arith(*op, ta, x, y) {
                        None => Err(EvalErr::DivideByZero),
                        Some(rv) => {
                            let mut regs2 = regs;
                            regs2.push(Some(RtVal::Int { ty: ta, val: rv }));
                            eval_body(m, fidx, i + 1, regs2, mem, args, fuel)
                        },
                    }
                },
                _ => Err(EvalErr::TypeMismatch),
            }
        },
        Instr::IntCmp { pred, a, b } => {
            let va = eval_value(f, args, &regs, &mem, a);
            let vb = eval_value(f, args, &regs, &mem, b);
            match (va, vb) {
                (Err(e), _) => Err(e),
                (Ok(_), Err(e)) => Err(e),
                (Ok(RtVal::Int { val: x, .. }), Ok(RtVal::Int { val: y, .. })) => {
                    let c: u64 = if int_cmp(*pred, x, y) {
                        1
                    } else {
                        0
                    };
                    let mut regs2 = regs;
                    regs2.push(Some(RtVal::Int { ty: IrType::I1, val: c }));
                    eval_body(m, fidx, i + 1, regs2, mem, args, fuel)
                },
                _ => Err(EvalErr::TypeMismatch),
            }
        },
        Instr::FloatBin { .. } => Err(EvalErr::FloatArithUnsupported),
        Instr::FloatCmp { pred, a, b } => {
            let va = eval_value(f, args, &regs, &mem, a);
            let vb = eval_value(f, args, &regs, &mem, b);
            match (va, vb) {
                (Err(e), _) => Err(e),
                (Ok(_), Err(e)) => Err(e),
                (Ok(RtVal::Float { bits: x }), Ok(RtVal::Float { bits: y })) => {
                    let c: u64 = if float_cmp(*pred, x, y) {
                        1
                    } else {
                        0
                    };
                    let mut regs2 = regs;
                    regs2.push(Some(RtVal::Int { ty: IrType::I1, val: c }));
                    eval_body(m, fidx, i + 1, regs2, mem, args, fuel)
                },
                _ => Err(EvalErr::TypeMismatch),
            }
        },
        Instr::UiToFp { a } => match eval_value(f, args, &regs, &mem, a) {
            Err(e) => Err(e),
            Ok(RtVal::Int { ty: IrType::I1, val }) => {
                let mut regs2 = regs;
                regs2.push(Some(RtVal::Float { bits: uitofp(val) }));
                eval_body(m, fidx, i + 1, regs2, mem, args, fuel)
            },
            Ok(_) => Err(EvalErr::TypeMismatch),
        },
        Instr::IntNeg { a } => match eval_value(f, args, &regs, &mem, a) {
            Err(e) => Err(e),
            Ok(RtVal::Int { ty, val }) => {
                let mut regs2 = regs;
                regs2.push(Some(RtVal::Int { ty, val: int_neg(ty, val) }));
                eval_body(m, fidx, i + 1, regs2, mem, args, fuel)
            },
            Ok(_) => Err(EvalErr::TypeMismatch),
        },
        Instr::FloatNeg { a } => match eval_value(f, args, &regs, &mem, a) {
            Err(e) => Err(e),
            Ok(RtVal::Float { bits }) => {
                let mut regs2 = regs;
                regs2.push(Some(RtVal::Float { bits: f64_neg(bits) }));
                eval_body(m, fidx, i + 1, regs2, mem, args, fuel)
            },
            Ok(_) => Err(EvalErr::TypeMismatch),
        },
        Instr::Call { callee, args: cargs, ret } => {
            match eval_value(f, args, &regs, &mem, callee) {
                Err(e) => Err(e),
                Ok(RtVal::FnAddr { idx: cidx }) => {
                    match eval_args(f, args, &regs, &mem, cargs) {
                        Err(e) => Err(e),
                        Ok(vs) => match eval_call(m, cidx, vs, fuel) {
                            Err(e) => Err(e),
                            Ok(rv) => {
                                let mut regs2 = regs;
                                regs2.push(Some(rv));
                                eval_body(m, fidx, i + 1, regs2, mem, args, fuel)
                            },
                        },
                    }
                },
                Ok(_) => Err(EvalErr::NotCallable),
            }
        },
    }
}

} // verus!
