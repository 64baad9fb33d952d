//! Operator lowering: type-directed instruction selection for binary and
//! unary operators, the kind-agnostic folding of `==` and `!=`, and the
//! laws tying the selected instructions to their runtime meaning.

use vstd::prelude::*;
use vstd::arithmetic::div_mod::lemma_fundamental_div_mod_converse;
use vstd::wrapping::u64_specs;
use crate::ast::Error;
use crate::ast::Node;
use crate::ast::Op;
use crate::ast::Pos;
use crate::ast::spec_pos;
use crate::eval::spec_int_arith;
use crate::eval::spec_assoc_get;
use crate::eval::spec_eval_body;
use crate::eval::spec_eval_call;
use crate::eval::RtVal;
use crate::eval::EvalErr;
use crate::eval::spec_int_cmp;
use crate::fbits::spec_float_cmp;
use crate::fbits::spec_uitofp;
use crate::fbits::F64_ONE_BITS;
use crate::fbits::F64_ZERO_BITS;
use crate::ir::FloatArith;
use crate::ir::FloatPred;
use crate::ir::Instr;
use crate::ir::IntArith;
use crate::ir::IntPred;
use crate::ir::IrFunction;
use crate::ir::IrType;
use crate::ir::ValueRef;
use crate::ir::spec_is_float_value;
use crate::ir::spec_is_int_value;
use crate::ir::spec_val_ty;
use crate::ir::val_ty;
use crate::Compiler;
use crate::module_extends;
use crate::frames_rest;
use crate::lemma_frames_trans;
use crate::vars_keep;
use crate::lemma_vars_trans;

verus! {

/// The instruction selected for an operator at integer kind.
#[derive(Clone, Copy, PartialEq, Eq, Structural, Debug)]
pub enum IntSel {
    Arith(IntArith),
    Cmp(IntPred),
}

/// The instruction selected for an operator at float kind.
#[derive(Clone, Copy, PartialEq, Eq, Structural, Debug)]
pub enum FloatSel {
    Arith(FloatArith),
    Cmp(FloatPred),
}

/// Instruction selection at integer kind: arithmetic maps directly,
/// division and the four orderings are unsigned, and the keywords `and`
/// and `or` map to the bitwise operations. `==` and `!=` never reach
/// this table.
pub open spec fn spec_int_choice(op: Op) -> Option<IntSel> {
    match op {
        Op::Plus => Some(IntSel::Arith(IntArith::Add)),
        Op::Minus => Some(IntSel::Arith(IntArith::Sub)),
        Op::Multiply => Some(IntSel::Arith(IntArith::Mul)),
        Op::Divide => Some(IntSel::Arith(IntArith::Udiv)),
        Op::LessThan => Some(IntSel::Cmp(IntPred::Ult)),
        Op::GreaterThan => Some(IntSel::Cmp(IntPred::Ugt)),
        Op::LessThanEquals => Some(IntSel::Cmp(IntPred::Ule)),
        Op::GreaterThanEquals => Some(IntSel::Cmp(IntPred::Uge)),
        Op::And => Some(IntSel::Arith(IntArith::BitAnd)),
        Op::Or => Some(IntSel::Arith(IntArith::BitOr)),
        Op::DoubleEquals => None,
        Op::NotEquals => None,
    }
}

/// Instruction selection at float kind: arithmetic maps directly; the
/// four orderings compile to a comparison followed by a conversion of
/// the one-bit result to 0.0 or 1.0. Each ordering is encoded as the
/// left-to-right relation, so `5.0 > 2.0` yields 1.0 — a deliberate
/// choice of the straightforward operand order over a reversed encoding.
/// One asymmetry is kept on purpose: `<`, `>` and `<=` use unordered
/// predicates, which hold when a NaN is involved, while `>=` alone uses
/// the ordered predicate, which a NaN fails. The keywords `and` and `or`
/// have no float meaning.
pub open spec fn spec_float_choice(op: Op) -> Option<FloatSel> {
    match op {
        Op::Plus => Some(FloatSel::Arith(FloatArith::FAdd)),
        Op::Minus => Some(FloatSel::Arith(FloatArith::FSub)),
        Op::Multiply => Some(FloatSel::Arith(FloatArith::FMul)),
        Op::Divide => Some(FloatSel::Arith(FloatArith::FDiv)),
        Op::LessThan => Some(FloatSel::Cmp(FloatPred::Ult)),
        Op::GreaterThan => Some(FloatSel::Cmp(FloatPred::Ugt)),
        Op::LessThanEquals => Some(FloatSel::Cmp(FloatPred::Ule)),
        Op::GreaterThanEquals => Some(FloatSel::Cmp(FloatPred::Oge)),
        _ => None,
    }
}

/// Executable counterpart of `spec_int_choice`.
pub fn int_choice(op: Op) -> (r: Option<IntSel>)
    ensures
        r == spec_int_choice(op),
{
    match op {
        Op::Plus => Some(IntSel::Arith(IntArith::Add)),
        Op::Minus => Some(IntSel::Arith(IntArith::Sub)),
        Op::Multiply => Some(IntSel::Arith(IntArith::Mul)),
        Op::Divide => Some(IntSel::Arith(IntArith::Udiv)),
        Op::LessThan => Some(IntSel::Cmp(IntPred::Ult)),
        Op::GreaterThan => Some(IntSel::Cmp(IntPred::Ugt)),
        Op::LessThanEquals => Some(IntSel::Cmp(IntPred::Ule)),
        Op::GreaterThanEquals => Some(IntSel::Cmp(IntPred::Uge)),
        Op::And => Some(IntSel::Arith(IntArith::BitAnd)),
        Op::Or => Some(IntSel::Arith(IntArith::BitOr)),
        Op::DoubleEquals => None,
        Op::NotEquals => None,
    }
}

/// Executable counterpart of `spec_float_choice`.
pub fn float_choice(op: Op) -> (r: Option<FloatSel>)
    ensures
        r == spec_float_choice(op),
{
    match op {
        Op::Plus => Some(FloatSel::Arith(FloatArith::FAdd)),
        Op::Minus => Some(FloatSel::Arith(FloatArith::FSub)),
        Op::Multiply => Some(FloatSel::Arith(FloatArith::FMul)),
        Op::Divide => Some(FloatSel::Arith(FloatArith::FDiv)),
        Op::LessThan => Some(FloatSel::Cmp(FloatPred::Ult)),
        Op::GreaterThan => Some(FloatSel::Cmp(FloatPred::Ugt)),
        Op::LessThanEquals => Some(FloatSel::Cmp(FloatPred::Ule)),
        Op::GreaterThanEquals => Some(FloatSel::Cmp(FloatPred::Oge)),
        _ => None,
    }
}

/// The constant a literal node compiles to, if the node is a literal.
pub open spec fn spec_lit_value(n: Node) -> Option<ValueRef> {
    match n {
        Node::IntLit { val, .. } => Some(ValueRef::IntConst { ty: IrType::I64, val }),
        Node::FloatLit { bits, .. } => Some(ValueRef::FloatConst { bits }),
        _ => None,
    }
}

/// The kind-agnostic meaning of `==` and `!=`: a one-bit constant that
/// records whether the two compiled values are the same value. Every
/// other operator falls through to the kind-directed tables.
pub open spec fn spec_eq_ne_fold(op: Op, l: ValueRef, r: ValueRef) -> Option<ValueRef> {
    if op == Op::DoubleEquals {
        Some(
            ValueRef::IntConst {
                ty: IrType::I1,
                val: if l == r {
                    1
                } else {
                    0
                },
            },
        )
    } else if op == Op::NotEquals {
        Some(
            ValueRef::IntConst {
                ty: IrType::I1,
                val: if l != r {
                    1
                } else {
                    0
                },
            },
        )
    } else {
        None
    }
}

/// Direct unsigned evaluation of an integer operator: wrapping addition,
/// subtraction and multiplication modulo two to the sixty-fourth,
/// unsigned division, and the bitwise keywords.
pub open spec fn spec_direct_int(op: Op, a: u64, b: u64) -> u64 {
    match op {
        Op::Plus => (((a + b) % 0x1_0000_0000_0000_0000) as u64),
        Op::Minus => (((a - b + 0x1_0000_0000_0000_0000) % 0x1_0000_0000_0000_0000) as u64),
        Op::Multiply => (((a * b) % 0x1_0000_0000_0000_0000) as u64),
        Op::Divide => a / b,
        Op::And => a & b,
        Op::Or => a | b,
        _ => 0,
    }
}

/// Direct unsigned evaluation of an integer ordering.
pub open spec fn spec_direct_rel(op: Op, a: u64, b: u64) -> bool {
    match op {
        Op::LessThan => a < b,
        Op::GreaterThan => a > b,
        Op::LessThanEquals => a <= b,
        Op::GreaterThanEquals => a >= b,
        _ => false,
    }
}

/// Law: for every well-typed integer operator the selected instruction
/// evaluates to the direct unsigned semantics of that operator —
/// unsigned division and unsigned orderings included, whatever bit
/// patterns the operands hold. Division is stated for nonzero divisors.
pub proof fn lemma_int_selection_sound(op: Op, a: u64, b: u64)
    requires
        spec_int_choice(op) is Some,
        op == Op::Divide ==> b != 0,
    ensures
        match spec_int_choice(op)->Some_0 {
            IntSel::Arith(k) => spec_int_arith(k, IrType::I64, a, b) == Some(
                spec_direct_int(op, a, b),
            ),
            IntSel::Cmp(p) => spec_int_cmp(p, a, b) == spec_direct_rel(op, a, b),
        },
{
    let m: int = 0x1_0000_0000_0000_0000;
    match op {
        Op::Plus => {
            if a + b <= u64::MAX {
                lemma_fundamental_div_mod_converse(a + b, m, 0, a + b);
            } else {
                lemma_fundamental_div_mod_converse(a + b, m, 1, a + b - m);
            }
        },
        Op::Minus => {
            if a - b >= 0 {
                lemma_fundamental_div_mod_converse(a - b + m, m, 1, a - b);
            } else {
                lemma_fundamental_div_mod_converse(a - b + m, m, 0, a - b + m);
            }
        },
        Op::Multiply => {
            assert(u64_specs::wrapping_mul(a, b) == ((a * b) % m) as u64) by {
                assert(a as nat * b as nat == (a * b) as nat);
            }
        },
        _ => {},
    }
}

/// Law: run end to end, a compiled integer binary expression matches
/// direct evaluation. A defined function whose body is exactly the
/// instruction the integer table selects for `op` over the constants `a`
/// and `b`, returning that instruction's register, evaluates under the
/// runtime semantics to the operator's direct unsigned result — for
/// arithmetic a 64-bit value, for an ordering a one-bit truth value.
pub proof fn lemma_compiled_int_binop_matches_direct_eval(
    m: crate::ir::IrModule,
    idx: usize,
    op: Op,
    a: u64,
    b: u64,
)
    requires
        spec_int_choice(op) is Some,
        op == Op::Divide ==> b != 0,
        idx < m.functions@.len(),
        ({
            let f = m.functions@[idx as int];
            &&& !f.deleted
            &&& !f.external
            &&& f.params@.len() == 0
            &&& f.body@.len() == 1
            &&& match spec_int_choice(op)->Some_0 {
                IntSel::Arith(k) => f.body@[0] == (Instr::IntBin {
                    op: k,
                    a: ValueRef::IntConst { ty: IrType::I64, val: a },
                    b: ValueRef::IntConst { ty: IrType::I64, val: b },
                }) && f.term == Some(Some(ValueRef::Reg { id: 0, ty: IrType::I64 })),
                IntSel::Cmp(p) => f.body@[0] == (Instr::IntCmp {
                    pred: p,
                    a: ValueRef::IntConst { ty: IrType::I64, val: a },
                    b: ValueRef::IntConst { ty: IrType::I64, val: b },
                }) && f.term == Some(Some(ValueRef::Reg { id: 0, ty: IrType::I1 })),
            }
        }),
    ensures
        match spec_int_choice(op)->Some_0 {
            IntSel::Arith(k) => spec_eval_call(m, idx, Seq::empty(), 2) == Ok::<
                RtVal,
                EvalErr,
            >(RtVal::Int { ty: IrType::I64, val: spec_direct_int(op, a, b) }),
            IntSel::Cmp(p) => spec_eval_call(m, idx, Seq::empty(), 2) == Ok::<
                RtVal,
                EvalErr,
            >(
                RtVal::Int {
                    ty: IrType::I1,
                    val: if spec_direct_rel(op, a, b) {
                        1
                    } else {
                        0
                    },
                },
            ),
        },
{
    let f = m.functions@[idx as int];
    let none_regs = Seq::<Option<RtVal>>::empty();
    let none_mem = Seq::<(usize, RtVal)>::empty();
    let no_args = Seq::<RtVal>::empty();
    lemma_int_selection_sound(op, a, b);
    assert(spec_eval_call(m, idx, no_args, 2) == spec_eval_body(
        m,
        idx,
        0,
        none_regs,
        none_mem,
        no_args,
        1,
    ));
    match spec_int_choice(op)->Some_0 {
        IntSel::Arith(k) => {
            let out = RtVal::Int { ty: IrType::I64, val: spec_direct_int(op, a, b) };
            let regs1 = none_regs.push(Some(out));
            assert(spec_eval_body(m, idx, 0, none_regs, none_mem, no_args, 1) == spec_eval_body(
                m,
                idx,
                1,
                regs1,
                none_mem,
                no_args,
                1,
            ));
            assert(spec_eval_body(m, idx, 1, regs1, none_mem, no_args, 1) == Ok::<
                RtVal,
                EvalErr,
            >(out));
        },
        IntSel::Cmp(p) => {
            let out = RtVal::Int {
                ty: IrType::I1,
                val: if spec_direct_rel(op, a, b) {
                    1
                } else {
                    0
                },
            };
            let regs1 = none_regs.push(Some(out));
            assert(spec_eval_body(m, idx, 0, none_regs, none_mem, no_args, 1) == spec_eval_body(
                m,
                idx,
                1,
                regs1,
                none_mem,
                no_args,
                1,
            ));
            assert(spec_eval_body(m, idx, 1, regs1, none_mem, no_args, 1) == Ok::<
                RtVal,
                EvalErr,
            >(out));
        },
    }
}

/// Law: a float comparison compiles to a comparison followed by a
/// conversion whose result is the bit pattern of 1.0 when the predicate
/// holds and of 0.0 when it does not — a float either way, never a
/// native boolean.
pub proof fn lemma_float_comparison_is_float(op: Op, a: u64, b: u64)
    requires
        spec_float_choice(op) matches Some(FloatSel::Cmp(p)),
    ensures
        ({
            let p = spec_float_choice(op)->Some_0->Cmp_0;
            let r = spec_uitofp(
                if spec_float_cmp(p, a, b) {
                    1u64
                } else {
                    0u64
                },
            );
            &&& spec_float_cmp(p, a, b) ==> r == F64_ONE_BITS
            &&& !spec_float_cmp(p, a, b) ==> r == F64_ZERO_BITS
        }),
{
}

impl Compiler {
    /// Lower a binary operator over two already compiled operand values.
    /// Equality and inequality fold to a one-bit constant first,
    /// whatever the operand kinds; otherwise the integer or float
    /// selection table picks the instruction, and anything else — an
    /// operator missing from the table, or mixed or non-numeric operand
    /// kinds — is the unknown-operation error at the given position.
    pub fn lower_binary_vals(&mut self, op: Op, lv: ValueRef, rv: ValueRef, pos: Pos) -> (res:
        Result<ValueRef, Error>)
        requires
            old(self).can_emit(),
        ensures
            final(self).wf(),
            final(self).can_emit(),
            final(self).builder == old(self).builder,
            final(self).fn_value_opt == old(self).fn_value_opt,
            final(self).variables == old(self).variables,
            module_extends(old(self).module, final(self).module),
            crate::terms_keep(old(self).module, final(self).module),
            frames_rest(*old(self), *final(self)),
            final(self).module.functions@.len() == old(self).module.functions@.len(),
            spec_eq_ne_fold(op, lv, rv) matches Some(v) ==> res == Ok::<ValueRef, Error>(v)
                && *final(self) == *old(self),
            (spec_eq_ne_fold(op, lv, rv) is None && spec_is_int_value(lv) && spec_is_int_value(
                rv,
            )) ==> ({
                let i = old(self).builder->Some_0 as int;
                let f = old(self).module.functions@[i];
                let g = final(self).module.functions@[i];
                match spec_int_choice(op) {
                    Some(sel) => match sel {
                        IntSel::Arith(k) => g.body@ == f.body@.push(
                            Instr::IntBin { op: k, a: lv, b: rv },
                        ) && (res matches Ok(v) && v matches ValueRef::Reg { id, ty } && id
                            == f.body@.len() && ty == spec_val_ty(lv)),
                        IntSel::Cmp(p) => g.body@ == f.body@.push(
                            Instr::IntCmp { pred: p, a: lv, b: rv },
                        ) && (res matches Ok(v) && v matches ValueRef::Reg { id, ty } && id
                            == f.body@.len() && ty == IrType::I1),
                    },
                    None => res matches Err(e) && e.msg@ == "Unknown operation"@ && e.pos == pos
                        && *final(self) == *old(self),
                }
            }),
            (spec_eq_ne_fold(op, lv, rv) is None && !(spec_is_int_value(lv) && spec_is_int_value(
                rv,
            )) && spec_is_float_value(lv) && spec_is_float_value(rv)) ==> ({
                let i = old(self).builder->Some_0 as int;
                let f = old(self).module.functions@[i];
                let g = final(self).module.functions@[i];
                match spec_float_choice(op) {
                    Some(sel) => match sel {
                        FloatSel::Arith(k) => g.body@ == f.body@.push(
                            Instr::FloatBin { op: k, a: lv, b: rv },
                        ) && (res matches Ok(v) && v matches ValueRef::Reg { id, ty } && id
                            == f.body@.len() && ty == IrType::F64),
                        FloatSel::Cmp(p) => g.body@ == f.body@.push(
                            Instr::FloatCmp { pred: p, a: lv, b: rv },
                        ).push(
                            Instr::UiToFp {
                                a: ValueRef::Reg { id: f.body@.len() as usize, ty: IrType::I1 },
                            },
                        ) && (res matches Ok(v) && v matches ValueRef::Reg { id, ty } && id
                            == f.body@.len() + 1 && ty == IrType::F64),
                    },
                    None => res matches Err(e) && e.msg@ == "Unknown operation"@ && e.pos == pos
                        && *final(self) == *old(self),
                }
            }),
            (spec_eq_ne_fold(op, lv, rv) is None && !(spec_is_int_value(lv) && spec_is_int_value(
                rv,
            )) && !(spec_is_float_value(lv) && spec_is_float_value(rv))) ==> (res matches Err(e)
                && e.msg@ == "Unknown operation"@ && e.pos == pos && *final(self) == *old(self)),
    {
        if op == Op::DoubleEquals {
            let eq = lv == rv;
            return Ok(
                ValueRef::IntConst {
                    ty: IrType::I1,
                    val: if eq {
                        1
                    } else {
                        0
                    },
                },
            );
        }
        if op == Op::NotEquals {
            let ne = lv != rv;
            return Ok(
                ValueRef::IntConst {
                    ty: IrType::I1,
                    val: if ne {
                        1
                    } else {
                        0
                    },
                },
            );
        }
        if lv.is_int_value() && rv.is_int_value() {
            match int_choice(op) {
                Some(IntSel::Arith(k)) => {
                    let p = self.emit(Instr::IntBin { op: k, a: lv, b: rv });
                    Ok(ValueRef::Reg { id: p, ty: val_ty(&lv) })
                },
                Some(IntSel::Cmp(pr)) => {
                    let p = self.emit(Instr::IntCmp { pred: pr, a: lv, b: rv });
                    Ok(ValueRef::Reg { id: p, ty: IrType::I1 })
                },
                None => Err(self.error(pos, "Unknown operation")),
            }
        } else if lv.is_float_value() && rv.is_float_value() {
            match float_choice(op) {
                Some(FloatSel::Arith(k)) => {
                    let p = self.emit(Instr::FloatBin { op: k, a: lv, b: rv });
                    Ok(ValueRef::Reg { id: p, ty: IrType::F64 })
                },
                Some(FloatSel::Cmp(pr)) => {
                    let c = self.emit(Instr::FloatCmp { pred: pr, a: lv, b: rv });
                    let p = self.emit(Instr::UiToFp { a: ValueRef::Reg { id: c, ty: IrType::I1 } });
                    Ok(ValueRef::Reg { id: p, ty: IrType::F64 })
                },
                None => Err(self.error(pos, "Unknown operation")),
            }
        } else {
            Err(self.error(pos, "Unknown operation"))
        }
    }

    /// Compile a binary node: the left operand fully, then the right,
    /// then the operator lowering over the two values.
    pub fn binary_op(&mut self, node: &Node) -> (r: Result<ValueRef, Error>)
        requires
            old(self).wf(),
            node is Binary,
            crate::ast::wf_node(*node),
            old(self).can_emit(),
        ensures
            final(self).wf(),
            final(self).can_emit(),
            final(self).builder == old(self).builder,
            final(self).fn_value_opt == old(self).fn_value_opt,
            module_extends(old(self).module, final(self).module),
            crate::terms_keep(old(self).module, final(self).module),
            frames_rest(*old(self), *final(self)),
            vars_keep(*old(self), *final(self)),
            ((*node) matches Node::Binary { op, .. } && (op == Op::DoubleEquals || op
                == Op::NotEquals)) ==> (r matches Ok(v) ==> v matches ValueRef::IntConst {
                ty,
                val,
            } && ty == IrType::I1 && val <= 1),
            (*node) matches Node::Binary { left, op, right, .. } ==> ((spec_lit_value(*left)
                is Some && spec_lit_value(*right) is Some) ==> ({
                let lv = spec_lit_value(*left)->Some_0;
                let rv = spec_lit_value(*right)->Some_0;
                let i = old(self).builder->Some_0 as int;
                let fb = old(self).module.functions@[i];
                let gb = final(self).module.functions@[i];
                &&& (spec_eq_ne_fold(op, lv, rv) matches Some(v) ==> r == Ok::<ValueRef, Error>(
                    v,
                ) && *final(self) == *old(self))
                &&& (spec_eq_ne_fold(op, lv, rv) is None && spec_is_int_value(lv)
                    && spec_is_int_value(rv) ==> (match spec_int_choice(op) {
                    Some(sel) => match sel {
                        IntSel::Arith(k) => gb.body@ == fb.body@.push(
                            Instr::IntBin { op: k, a: lv, b: rv },
                        ) && (r matches Ok(v) && v matches ValueRef::Reg { id, ty } && id
                            == fb.body@.len() && ty == IrType::I64),
                        IntSel::Cmp(p) => gb.body@ == fb.body@.push(
                            Instr::IntCmp { pred: p, a: lv, b: rv },
                        ) && (r matches Ok(v) && v matches ValueRef::Reg { id, ty } && id
                            == fb.body@.len() && ty == IrType::I1),
                    },
                    None => true,
                }))
                &&& (spec_eq_ne_fold(op, lv, rv) is None && spec_is_float_value(lv)
                    && spec_is_float_value(rv) ==> (match spec_float_choice(op) {
                    Some(sel) => match sel {
                        FloatSel::Arith(k) => gb.body@ == fb.body@.push(
                            Instr::FloatBin { op: k, a: lv, b: rv },
                        ) && (r matches Ok(v) && v matches ValueRef::Reg { id, ty } && id
                            == fb.body@.len() && ty == IrType::F64),
                        FloatSel::Cmp(p) => gb.body@ == fb.body@.push(
                            Instr::FloatCmp { pred: p, a: lv, b: rv },
                        ).push(
                            Instr::UiToFp {
                                a: ValueRef::Reg { id: fb.body@.len() as usize, ty: IrType::I1 },
                            },
                        ) && (r matches Ok(v) && v matches ValueRef::Reg { id, ty } && id
                            == fb.body@.len() + 1 && ty == IrType::F64),
                    },
                    None => (r matches Err(e) && e.msg@ == "Unknown operation"@ && e.pos
                        == spec_pos(*node) && *final(self) == *old(self)),
                }))
                &&& (spec_eq_ne_fold(op, lv, rv) is None && spec_val_ty(lv) != spec_val_ty(rv)
                    ==> (r matches Err(e) && e.msg@ == "Unknown operation"@ && e.pos == spec_pos(
                    *node,
                ) && *final(self) == *old(self)))
            })),
            (*node) matches Node::Binary { left, op, right, .. } ==> ((*left) matches Node::Var {
                name: n0, ..
            } ==> ((*right) matches Node::Var { name: n1, .. } ==> ({
                let vars = old(self).variables@;
                let i = old(self).builder->Some_0 as int;
                let fb = old(self).module.functions@[i];
                let gb = final(self).module.functions@[i];
                let n = fb.body@.len() as int;
                (vars.contains_key(n0@) && vars.contains_key(n1@)) ==> (vars[n0@].value
                    matches ValueRef::Slot { pointee: t0, .. } ==> (vars[n1@].value
                    matches ValueRef::Slot { pointee: t1, .. } ==> ({
                    &&& ((t0 == IrType::I64 && t1 == IrType::I64) ==> (match spec_int_choice(
                        op,
                    ) {
                        Some(sel) => match sel {
                            IntSel::Arith(k) => {
                                &&& gb.body@.len() == fb.body@.len() + 3
                                &&& (forall|q: int|
                                    0 <= q < n ==> #[trigger] gb.body@[q] == fb.body@[q])
                                &&& gb.body@[n] == (Instr::Load {
                                    slot: vars[n0@].value,
                                    ty: t0,
                                })
                                &&& gb.body@[n + 1] == (Instr::Load {
                                    slot: vars[n1@].value,
                                    ty: t1,
                                })
                                &&& (gb.body@[n + 2] matches Instr::IntBin { op: k2, a, b } && k2
                                    == k && (a matches ValueRef::Reg { id, ty } && id == n && ty
                                    == IrType::I64) && (b matches ValueRef::Reg { id, ty } && id
                                    == n + 1 && ty == IrType::I64))
                                &&& (r matches Ok(v) && v matches ValueRef::Reg { id, ty } && id
                                    == n + 2 && ty == IrType::I64)
                            },
                            IntSel::Cmp(p) => {
                                &&& gb.body@.len() == fb.body@.len() + 3
                                &&& (forall|q: int|
                                    0 <= q < n ==> #[trigger] gb.body@[q] == fb.body@[q])
                                &&& gb.body@[n] == (Instr::Load {
                                    slot: vars[n0@].value,
                                    ty: t0,
                                })
                                &&& gb.body@[n + 1] == (Instr::Load {
                                    slot: vars[n1@].value,
                                    ty: t1,
                                })
                                &&& (gb.body@[n + 2] matches Instr::IntCmp { pred, a, b } && pred
                                    == p && (a matches ValueRef::Reg { id, ty } && id == n && ty
                                    == IrType::I64) && (b matches ValueRef::Reg { id, ty } && id
                                    == n + 1 && ty == IrType::I64))
                                &&& (r matches Ok(v) && v matches ValueRef::Reg { id, ty } && id
                                    == n + 2 && ty == IrType::I1)
                            },
                        },
                        None => true,
                    }))
                    &&& ((t0 == IrType::F64 && t1 == IrType::F64 && spec_float_choice(op)
                        matches Some(FloatSel::Cmp(_))) ==> ({
                        let p = spec_float_choice(op)->Some_0->Cmp_0;
                        &&& gb.body@.len() == fb.body@.len() + 4
                        &&& (forall|q: int| 0 <= q < n ==> #[trigger] gb.body@[q] == fb.body@[q])
                        &&& gb.body@[n] == (Instr::Load { slot: vars[n0@].value, ty: t0 })
                        &&& gb.body@[n + 1] == (Instr::Load { slot: vars[n1@].value, ty: t1 })
                        &&& (gb.body@[n + 2] matches Instr::FloatCmp { pred, a, b } && pred == p
                            && (a matches ValueRef::Reg { id, ty } && id == n && ty
                            == IrType::F64) && (b matches ValueRef::Reg { id, ty } && id == n + 1
                            && ty == IrType::F64))
                        &&& (gb.body@[n + 3] matches Instr::UiToFp { a } && (a
                            matches ValueRef::Reg { id, ty } && id == n + 2 && ty == IrType::I1))
                        &&& (r matches Ok(v) && v matches ValueRef::Reg { id, ty } && id == n + 3
                            && ty == IrType::F64)
                    }))
                })))
            }))),
        decreases *node, 2int,
    {
        match node {
            Node::Binary { left, op, right, pos } => {
                let ghost c0 = *self;
                let lv = match self.compile_node(left) {
                    Ok(v) => v,
                    Err(e) => {
                        return Err(e);
                    },
                };
                let ghost c1 = *self;
                let rv = match self.compile_node(right) {
                    Ok(v) => v,
                    Err(e) => {
                        proof {
                            crate::lemma_evolve_trans(c0.module, c1.module, self.module);
                            lemma_frames_trans(c0, c1, *self);
                            lemma_vars_trans(c0, c1, *self);
                        }
                        return Err(e);
                    },
                };
                proof {
                    crate::lemma_evolve_trans(c0.module, c1.module, self.module);
                    lemma_frames_trans(c0, c1, *self);
                    lemma_vars_trans(c0, c1, *self);
                }
                let ghost c2 = *self;
                let res = self.lower_binary_vals(*op, lv, rv, *pos);
                let bi = match self.builder {
                    Some(i) => i,
                    None => {
                        proof {
                            assert(false);
                        }
                        0
                    },
                };
                let cur_len = self.module.functions[bi].body.len();
                proof {
                    crate::lemma_evolve_trans(c0.module, c2.module, self.module);
                    lemma_frames_trans(c0, c2, *self);
                    lemma_vars_trans(c0, c2, *self);
                }
                res
            },
            _ => {
                proof {
                    assert(false);
                }
                Err(self.error(node.get_pos(), "Unknown operation"))
            },
        }
    }

    /// Lower a unary operator over an already compiled operand value.
    /// Unary plus is the identity on any numeric operand; unary minus
    /// negates, preserving the operand's kind; anything else is the
    /// unknown-unary-operation error.
    pub fn lower_unary_val(&mut self, op: Op, v: ValueRef, pos: Pos) -> (res: Result<
        ValueRef,
        Error,
    >)
        requires
            old(self).can_emit(),
        ensures
            final(self).wf(),
            final(self).can_emit(),
            final(self).builder == old(self).builder,
            final(self).fn_value_opt == old(self).fn_value_opt,
            final(self).variables == old(self).variables,
            module_extends(old(self).module, final(self).module),
            crate::terms_keep(old(self).module, final(self).module),
            frames_rest(*old(self), *final(self)),
            final(self).module.functions@.len() == old(self).module.functions@.len(),
            (op == Op::Plus && (spec_is_int_value(v) || spec_is_float_value(v))) ==> res
                == Ok::<ValueRef, Error>(v) && *final(self) == *old(self),
            (op == Op::Minus && spec_is_float_value(v)) ==> ({
                let i = old(self).builder->Some_0 as int;
                let f = old(self).module.functions@[i];
                let g = final(self).module.functions@[i];
                &&& g.body@ == f.body@.push(Instr::FloatNeg { a: v })
                &&& res matches Ok(rv) && rv matches ValueRef::Reg { id, ty } && id
                    == f.body@.len() && ty == IrType::F64
            }),
            (op == Op::Minus && spec_is_int_value(v)) ==> ({
                let i = old(self).builder->Some_0 as int;
                let f = old(self).module.functions@[i];
                let g = final(self).module.functions@[i];
                &&& g.body@ == f.body@.push(Instr::IntNeg { a: v })
                &&& res matches Ok(rv) && rv matches ValueRef::Reg { id, ty } && id
                    == f.body@.len() && ty == spec_val_ty(v)
            }),
            (!(op == Op::Plus || op == Op::Minus) || !(spec_is_int_value(v)
                || spec_is_float_value(v))) ==> (res matches Err(e) && e.msg@
                == "Unknown unary operation"@ && e.pos == pos && *final(self) == *old(self)),
    {
        if v.is_float_value() {
            if op == Op::Plus {
                Ok(v)
            } else if op == Op::Minus {
                let p = self.emit(Instr::FloatNeg { a: v });
                Ok(ValueRef::Reg { id: p, ty: IrType::F64 })
            } else {
                Err(self.error(pos, "Unknown unary operation"))
            }
        } else if v.is_int_value() {
            if op == Op::Plus {
                Ok(v)
            } else if op == Op::Minus {
                let p = self.emit(Instr::IntNeg { a: v });
                Ok(ValueRef::Reg { id: p, ty: val_ty(&v) })
            } else {
                Err(self.error(pos, "Unknown unary operation"))
            }
        } else {
            Err(self.error(pos, "Unknown unary operation"))
        }
    }

    /// Compile a unary node: the operand, then the operator lowering
    /// over its value.
    pub fn unary_op(&mut self, node: &Node) -> (r: Result<ValueRef, Error>)
        requires
            old(self).wf(),
            node is Unary,
            crate::ast::wf_node(*node),
            old(self).can_emit(),
        ensures
            final(self).wf(),
            final(self).can_emit(),
            final(self).builder == old(self).builder,
            final(self).fn_value_opt == old(self).fn_value_opt,
            module_extends(old(self).module, final(self).module),
            crate::terms_keep(old(self).module, final(self).module),
            frames_rest(*old(self), *final(self)),
            vars_keep(*old(self), *final(self)),
            (*node) matches Node::Unary { op, operand, .. } ==> (spec_lit_value(*operand)
                is Some ==> ({
                let ov = spec_lit_value(*operand)->Some_0;
                let i = old(self).builder->Some_0 as int;
                let fb = old(self).module.functions@[i];
                let gb = final(self).module.functions@[i];
                &&& (op == Op::Plus ==> r == Ok::<ValueRef, Error>(ov) && *final(self) == *old(
                    self,
                ))
                &&& (op == Op::Minus && spec_is_int_value(ov) ==> gb.body@ == fb.body@.push(
                    Instr::IntNeg { a: ov },
                ) && (r matches Ok(w) && w matches ValueRef::Reg { id, ty } && id
                    == fb.body@.len() && ty == IrType::I64))
                &&& (op == Op::Minus && spec_is_float_value(ov) ==> gb.body@ == fb.body@.push(
                    Instr::FloatNeg { a: ov },
                ) && (r matches Ok(w) && w matches ValueRef::Reg { id, ty } && id
                    == fb.body@.len() && ty == IrType::F64))
                &&& (!(op == Op::Plus || op == Op::Minus) ==> (r matches Err(e) && e.msg@
                    == "Unknown unary operation"@ && e.pos == spec_pos(*node) && *final(self)
                    == *old(self)))
            })),
        decreases *node, 2int,
    {
        match node {
            Node::Unary { op, operand, pos } => {
                let ghost c0 = *self;
                let v = match self.compile_node(operand) {
                    Ok(v) => v,
                    Err(e) => {
                        return Err(e);
                    },
                };
                let ghost c1 = *self;
                let res = self.lower_unary_val(*op, v, *pos);
                proof {
                    crate::lemma_evolve_trans(c0.module, c1.module, self.module);
                    lemma_frames_trans(c0, c1, *self);
                    lemma_vars_trans(c0, c1, *self);
                }
                res
            },
            _ => {
                proof {
                    assert(false);
                }
                Err(self.error(node.get_pos(), "Unknown unary operation"))
            },
        }
    }
}

/// The body a two-integer-parameter function receives from compilation:
/// each parameter materialized into a stack slot, both loaded back, and
/// one selected instruction over the two loads, whose register the
/// function returns.
pub open spec fn spec_two_param_int_body(f: IrFunction, idx: usize, sel: IntSel) -> bool {
    &&& !f.deleted
    &&& !f.external
    &&& f.params@.len() == 2
    &&& f.params@[0].1 == IrType::I64
    &&& f.params@[1].1 == IrType::I64
    &&& f.body@.len() == 7
    &&& f.body@[0] == (Instr::Alloca { pointee: IrType::I64 })
    &&& f.body@[1] == (Instr::Store {
        slot: ValueRef::Slot { func: idx, id: 0, pointee: IrType::I64 },
        val: ValueRef::Arg { index: 0, ty: IrType::I64 },
    })
    &&& f.body@[2] == (Instr::Alloca { pointee: IrType::I64 })
    &&& f.body@[3] == (Instr::Store {
        slot: ValueRef::Slot { func: idx, id: 2, pointee: IrType::I64 },
        val: ValueRef::Arg { index: 1, ty: IrType::I64 },
    })
    &&& f.body@[4] == (Instr::Load {
        slot: ValueRef::Slot { func: idx, id: 0, pointee: IrType::I64 },
        ty: IrType::I64,
    })
    &&& f.body@[5] == (Instr::Load {
        slot: ValueRef::Slot { func: idx, id: 2, pointee: IrType::I64 },
        ty: IrType::I64,
    })
    &&& (match sel {
        IntSel::Arith(k) => f.body@[6] == (Instr::IntBin {
            op: k,
            a: ValueRef::Reg { id: 4, ty: IrType::I64 },
            b: ValueRef::Reg { id: 5, ty: IrType::I64 },
        }) && f.term == Some(Some(ValueRef::Reg { id: 6, ty: IrType::I64 })),
        IntSel::Cmp(p) => f.body@[6] == (Instr::IntCmp {
            pred: p,
            a: ValueRef::Reg { id: 4, ty: IrType::I64 },
            b: ValueRef::Reg { id: 5, ty: IrType::I64 },
        }) && f.term == Some(Some(ValueRef::Reg { id: 6, ty: IrType::I1 })),
    })
}

/// A function with the compiled two-integer-parameter arithmetic shape
/// passes structural verification.
pub proof fn lemma_two_param_int_body_wf(m: crate::ir::IrModule, idx: usize, sel: IntSel)
    requires
        idx < m.functions@.len(),
        sel is Arith,
        spec_two_param_int_body(m.functions@[idx as int], idx, sel),
        m.functions@[idx as int].ret == IrType::I64,
    ensures
        crate::ir::spec_fn_well_formed(m, idx as int),
{
    let f = m.functions@[idx as int];
    assert(crate::ir::spec_instr_wf(m, f, idx as int, 0));
    assert(crate::ir::spec_instr_wf(m, f, idx as int, 1));
    assert(crate::ir::spec_instr_wf(m, f, idx as int, 2));
    assert(crate::ir::spec_instr_wf(m, f, idx as int, 3));
    assert(crate::ir::spec_instr_wf(m, f, idx as int, 4));
    assert(crate::ir::spec_instr_wf(m, f, idx as int, 5));
    assert(crate::ir::spec_instr_wf(m, f, idx as int, 6));
    assert forall|i: int| 0 <= i < f.body@.len() implies crate::ir::spec_instr_wf(
        m,
        f,
        idx as int,
        i,
    ) by {}
    assert(crate::ir::spec_term_wf(m, f, idx as int));
}

/// A function with the compiled two-float-parameter comparison shape
/// passes structural verification.
pub proof fn lemma_two_param_float_cmp_body_wf(m: crate::ir::IrModule, idx: usize, p: FloatPred)
    requires
        idx < m.functions@.len(),
        spec_two_param_float_cmp_body(m.functions@[idx as int], idx, p),
        m.functions@[idx as int].ret == IrType::F64,
    ensures
        crate::ir::spec_fn_well_formed(m, idx as int),
{
    let f = m.functions@[idx as int];
    assert(crate::ir::spec_instr_wf(m, f, idx as int, 0));
    assert(crate::ir::spec_instr_wf(m, f, idx as int, 1));
    assert(crate::ir::spec_instr_wf(m, f, idx as int, 2));
    assert(crate::ir::spec_instr_wf(m, f, idx as int, 3));
    assert(crate::ir::spec_instr_wf(m, f, idx as int, 4));
    assert(crate::ir::spec_instr_wf(m, f, idx as int, 5));
    assert(crate::ir::spec_instr_wf(m, f, idx as int, 6));
    assert(crate::ir::spec_instr_wf(m, f, idx as int, 7));
    assert forall|i: int| 0 <= i < f.body@.len() implies crate::ir::spec_instr_wf(
        m,
        f,
        idx as int,
        i,
    ) by {}
    assert(crate::ir::spec_term_wf(m, f, idx as int));
}

/// Law: run end to end, a whole compiled function over two integer
/// parameters matches direct evaluation. A defined function with the
/// compiled shape of `spec_two_param_int_body` for the operator `op`,
/// called on the arguments `x` and `y`, evaluates under the runtime
/// semantics to the operator's direct unsigned result — for `add` on 2
/// and 3, the integer 5.
pub proof fn lemma_compiled_two_param_int_binop_evaluates(
    m: crate::ir::IrModule,
    idx: usize,
    op: Op,
    x: u64,
    y: u64,
)
    requires
        spec_int_choice(op) is Some,
        op == Op::Divide ==> y != 0,
        idx < m.functions@.len(),
        spec_two_param_int_body(m.functions@[idx as int], idx, spec_int_choice(op)->Some_0),
    ensures
        ({
            let args = seq![
                RtVal::Int { ty: IrType::I64, val: x },
                RtVal::Int { ty: IrType::I64, val: y },
            ];
            match spec_int_choice(op)->Some_0 {
                IntSel::Arith(k) => spec_eval_call(m, idx, args, 2) == Ok::<RtVal, EvalErr>(
                    RtVal::Int { ty: IrType::I64, val: spec_direct_int(op, x, y) },
                ),
                IntSel::Cmp(p) => spec_eval_call(m, idx, args, 2) == Ok::<RtVal, EvalErr>(
                    RtVal::Int {
                        ty: IrType::I1,
                        val: if spec_direct_rel(op, x, y) {
                            1
                        } else {
                            0
                        },
                    },
                ),
            }
        }),
{
    let f = m.functions@[idx as int];
    let xv = RtVal::Int { ty: IrType::I64, val: x };
    let yv = RtVal::Int { ty: IrType::I64, val: y };
    let args = seq![xv, yv];
    lemma_int_selection_sound(op, x, y);
    let mem0 = Seq::<(usize, RtVal)>::empty();
    let regs0 = Seq::<Option<RtVal>>::empty();
    let regs1 = regs0.push(None);
    let mem1 = mem0.push((0usize, xv));
    let regs2 = regs1.push(None);
    let regs3 = regs2.push(None);
    let mem2 = mem1.push((2usize, yv));
    let regs4 = regs3.push(None);
    let regs5 = regs4.push(Some(xv));
    let regs6 = regs5.push(Some(yv));
    assert(args.len() == f.params@.len());
    assert(spec_eval_call(m, idx, args, 2) == spec_eval_body(m, idx, 0, regs0, mem0, args, 1));
    assert(spec_eval_body(m, idx, 0, regs0, mem0, args, 1) == spec_eval_body(
        m, idx, 1, regs1, mem0, args, 1,
    ));
    assert(args[0] == xv && args[1] == yv);
    assert(spec_eval_body(m, idx, 1, regs1, mem0, args, 1) == spec_eval_body(
        m, idx, 2, regs2, mem1, args, 1,
    ));
    assert(spec_eval_body(m, idx, 2, regs2, mem1, args, 1) == spec_eval_body(
        m, idx, 3, regs3, mem1, args, 1,
    ));
    assert(spec_eval_body(m, idx, 3, regs3, mem1, args, 1) == spec_eval_body(
        m, idx, 4, regs4, mem2, args, 1,
    ));
    assert(mem2.last() == (2usize, yv));
    assert(mem2.drop_last() =~= mem1);
    assert(mem1.last() == (0usize, xv));
    assert(spec_assoc_get(mem1, 0) == Some(xv));
    assert(spec_assoc_get(mem2, 0) == Some(xv));
    assert(spec_eval_body(m, idx, 4, regs4, mem2, args, 1) == spec_eval_body(
        m, idx, 5, regs5, mem2, args, 1,
    ));
    assert(spec_assoc_get(mem2, 2) == Some(yv));
    assert(spec_eval_body(m, idx, 5, regs5, mem2, args, 1) == spec_eval_body(
        m, idx, 6, regs6, mem2, args, 1,
    ));
    assert(regs6[4] == Some(xv));
    assert(regs6[5] == Some(yv));
    match spec_int_choice(op)->Some_0 {
        IntSel::Arith(k) => {
            let out = RtVal::Int { ty: IrType::I64, val: spec_direct_int(op, x, y) };
            let regs7 = regs6.push(Some(out));
            assert(spec_int_arith(k, IrType::I64, x, y) == Some(spec_direct_int(op, x, y)));
            assert(spec_eval_body(m, idx, 6, regs6, mem2, args, 1) == spec_eval_body(
                m, idx, 7, regs7, mem2, args, 1,
            ));
            assert(regs7[6] == Some(out));
            assert(spec_eval_body(m, idx, 7, regs7, mem2, args, 1) == Ok::<RtVal, EvalErr>(out));
        },
        IntSel::Cmp(p) => {
            let out = RtVal::Int {
                ty: IrType::I1,
                val: if spec_direct_rel(op, x, y) {
                    1
                } else {
                    0
                },
            };
            let regs7 = regs6.push(Some(out));
            assert(spec_int_cmp(p, x, y) == spec_direct_rel(op, x, y));
            assert(spec_eval_body(m, idx, 6, regs6, mem2, args, 1) == spec_eval_body(
                m, idx, 7, regs7, mem2, args, 1,
            ));
            assert(regs7[6] == Some(out));
            assert(spec_eval_body(m, idx, 7, regs7, mem2, args, 1) == Ok::<RtVal, EvalErr>(out));
        },
    }
}

/// Law: run end to end, a compiled float comparison is a float. A
/// defined function whose body is the comparison-then-convert pair the
/// float table selects for an ordering over two float constants, and
/// which returns the converted register, evaluates to the bit pattern of
/// 1.0 when the predicate holds of the two operands and of 0.0 when it
/// does not — never to a native boolean.
pub proof fn lemma_compiled_float_cmp_matches_predicate(
    m: crate::ir::IrModule,
    idx: usize,
    op: Op,
    a: u64,
    b: u64,
)
    requires
        spec_float_choice(op) matches Some(FloatSel::Cmp(_)),
        idx < m.functions@.len(),
        ({
            let f = m.functions@[idx as int];
            let p = spec_float_choice(op)->Some_0->Cmp_0;
            &&& !f.deleted
            &&& !f.external
            &&& f.params@.len() == 0
            &&& f.body@.len() == 2
            &&& f.body@[0] == (Instr::FloatCmp {
                pred: p,
                a: ValueRef::FloatConst { bits: a },
                b: ValueRef::FloatConst { bits: b },
            })
            &&& f.body@[1] == (Instr::UiToFp {
                a: ValueRef::Reg { id: 0, ty: IrType::I1 },
            })
            &&& f.term == Some(Some(ValueRef::Reg { id: 1, ty: IrType::F64 }))
        }),
    ensures
        ({
            let p = spec_float_choice(op)->Some_0->Cmp_0;
            spec_eval_call(m, idx, Seq::empty(), 2) == Ok::<RtVal, EvalErr>(
                RtVal::Float {
                    bits: if spec_float_cmp(p, a, b) {
                        F64_ONE_BITS
                    } else {
                        F64_ZERO_BITS
                    },
                },
            )
        }),
{
    let f = m.functions@[idx as int];
    let p = spec_float_choice(op)->Some_0->Cmp_0;
    let none_regs = Seq::<Option<RtVal>>::empty();
    let none_mem = Seq::<(usize, RtVal)>::empty();
    let no_args = Seq::<RtVal>::empty();
    let c: u64 = if spec_float_cmp(p, a, b) {
        1
    } else {
        0
    };
    let cmp_out = RtVal::Int { ty: IrType::I1, val: c };
    let flt_out = RtVal::Float { bits: spec_uitofp(c) };
    let regs1 = none_regs.push(Some(cmp_out));
    let regs2 = regs1.push(Some(flt_out));
    assert(spec_eval_call(m, idx, no_args, 2) == spec_eval_body(
        m,
        idx,
        0,
        none_regs,
        none_mem,
        no_args,
        1,
    ));
    assert(spec_eval_body(m, idx, 0, none_regs, none_mem, no_args, 1) == spec_eval_body(
        m,
        idx,
        1,
        regs1,
        none_mem,
        no_args,
        1,
    ));
    assert(spec_eval_body(m, idx, 1, regs1, none_mem, no_args, 1) == spec_eval_body(
        m,
        idx,
        2,
        regs2,
        none_mem,
        no_args,
        1,
    ));
    assert(spec_eval_body(m, idx, 2, regs2, none_mem, no_args, 1) == Ok::<RtVal, EvalErr>(
        flt_out,
    ));
}

/// The body a two-float-parameter function receives from compiling a
/// float comparison: each parameter materialized into a stack slot, both
/// loaded back, the comparison over the two loads, and the conversion of
/// its one-bit result to a float, which the function returns.
pub open spec fn spec_two_param_float_cmp_body(f: IrFunction, idx: usize, p: FloatPred) -> bool {
    &&& !f.deleted
    &&& !f.external
    &&& f.params@.len() == 2
    &&& f.params@[0].1 == IrType::F64
    &&& f.params@[1].1 == IrType::F64
    &&& f.body@.len() == 8
    &&& f.body@[0] == (Instr::Alloca { pointee: IrType::F64 })
    &&& f.body@[1] == (Instr::Store {
        slot: ValueRef::Slot { func: idx, id: 0, pointee: IrType::F64 },
        val: ValueRef::Arg { index: 0, ty: IrType::F64 },
    })
    &&& f.body@[2] == (Instr::Alloca { pointee: IrType::F64 })
    &&& f.body@[3] == (Instr::Store {
        slot: ValueRef::Slot { func: idx, id: 2, pointee: IrType::F64 },
        val: ValueRef::Arg { index: 1, ty: IrType::F64 },
    })
    &&& f.body@[4] == (Instr::Load {
        slot: ValueRef::Slot { func: idx, id: 0, pointee: IrType::F64 },
        ty: IrType::F64,
    })
    &&& f.body@[5] == (Instr::Load {
        slot: ValueRef::Slot { func: idx, id: 2, pointee: IrType::F64 },
        ty: IrType::F64,
    })
    &&& f.body@[6] == (Instr::FloatCmp {
        pred: p,
        a: ValueRef::Reg { id: 4, ty: IrType::F64 },
        b: ValueRef::Reg { id: 5, ty: IrType::F64 },
    })
    &&& f.body@[7] == (Instr::UiToFp { a: ValueRef::Reg { id: 6, ty: IrType::I1 } })
    &&& f.term == Some(Some(ValueRef::Reg { id: 7, ty: IrType::F64 }))
}

/// Law: run end to end, a whole compiled float comparison function is a
/// float. A defined function with the compiled shape of
/// `spec_two_param_float_cmp_body` for the ordering `op`, called on two
/// float arguments, evaluates to the bit pattern of 1.0 when the selected
/// predicate holds of them and of 0.0 when it does not — so a
/// greater-than over 5.0 and 2.0 yields the float 1.0, and over 2.0 and
/// 5.0 the float 0.0.
pub proof fn lemma_compiled_two_param_float_cmp_evaluates(
    m: crate::ir::IrModule,
    idx: usize,
    op: Op,
    x: u64,
    y: u64,
)
    requires
        spec_float_choice(op) matches Some(FloatSel::Cmp(_)),
        idx < m.functions@.len(),
        spec_two_param_float_cmp_body(
            m.functions@[idx as int],
            idx,
            spec_float_choice(op)->Some_0->Cmp_0,
        ),
    ensures
        ({
            let p = spec_float_choice(op)->Some_0->Cmp_0;
            let args = seq![RtVal::Float { bits: x }, RtVal::Float { bits: y }];
            spec_eval_call(m, idx, args, 2) == Ok::<RtVal, EvalErr>(
                RtVal::Float {
                    bits: if spec_float_cmp(p, x, y) {
                        F64_ONE_BITS
                    } else {
                        F64_ZERO_BITS
                    },
                },
            )
        }),
{
    let f = m.functions@[idx as int];
    let p = spec_float_choice(op)->Some_0->Cmp_0;
    let xv = RtVal::Float { bits: x };
    let yv = RtVal::Float { bits: y };
    let args = seq![xv, yv];
    let c: u64 = if spec_float_cmp(p, x, y) {
        1
    } else {
        0
    };
    let cmp_out = RtVal::Int { ty: IrType::I1, val: c };
    let flt_out = RtVal::Float { bits: spec_uitofp(c) };
    let mem0 = Seq::<(usize, RtVal)>::empty();
    let regs0 = Seq::<Option<RtVal>>::empty();
    let regs1 = regs0.push(None);
    let mem1 = mem0.push((0usize, xv));
    let regs2 = regs1.push(None);
    let regs3 = regs2.push(None);
    let mem2 = mem1.push((2usize, yv));
    let regs4 = regs3.push(None);
    let regs5 = regs4.push(Some(xv));
    let regs6 = regs5.push(Some(yv));
    let regs7 = regs6.push(Some(cmp_out));
    let regs8 = regs7.push(Some(flt_out));
    assert(args.len() == f.params@.len());
    assert(spec_eval_call(m, idx, args, 2) == spec_eval_body(m, idx, 0, regs0, mem0, args, 1));
    assert(spec_eval_body(m, idx, 0, regs0, mem0, args, 1) == spec_eval_body(
        m, idx, 1, regs1, mem0, args, 1,
    ));
    assert(args[0] == xv && args[1] == yv);
    assert(spec_eval_body(m, idx, 1, regs1, mem0, args, 1) == spec_eval_body(
        m, idx, 2, regs2, mem1, args, 1,
    ));
    assert(spec_eval_body(m, idx, 2, regs2, mem1, args, 1) == spec_eval_body(
        m, idx, 3, regs3, mem1, args, 1,
    ));
    assert(spec_eval_body(m, idx, 3, regs3, mem1, args, 1) == spec_eval_body(
        m, idx, 4, regs4, mem2, args, 1,
    ));
    assert(mem2.last() == (2usize, yv));
    assert(mem2.drop_last() =~= mem1);
    assert(mem1.last() == (0usize, xv));
    assert(spec_assoc_get(mem1, 0) == Some(xv));
    assert(spec_assoc_get(mem2, 0) == Some(xv));
    assert(spec_eval_body(m, idx, 4, regs4, mem2, args, 1) == spec_eval_body(
        m, idx, 5, regs5, mem2, args, 1,
    ));
    assert(spec_assoc_get(mem2, 2) == Some(yv));
    assert(spec_eval_body(m, idx, 5, regs5, mem2, args, 1) == spec_eval_body(
        m, idx, 6, regs6, mem2, args, 1,
    ));
    assert(regs6[4] == Some(xv));
    assert(regs6[5] == Some(yv));
    assert(spec_eval_body(m, idx, 6, regs6, mem2, args, 1) == spec_eval_body(
        m, idx, 7, regs7, mem2, args, 1,
    ));
    assert(regs7[6] == Some(cmp_out));
    assert(spec_eval_body(m, idx, 7, regs7, mem2, args, 1) == spec_eval_body(
        m, idx, 8, regs8, mem2, args, 1,
    ));
    assert(regs8[7] == Some(flt_out));
    assert(spec_eval_body(m, idx, 8, regs8, mem2, args, 1) == Ok::<RtVal, EvalErr>(flt_out));
}

/// Law: `==` and `!=` fold uniformly for every pair of operand values,
/// whatever their kinds, to a one-bit constant — and neither operator
/// appears in the integer or float selection tables, so the fold always
/// comes first.
pub proof fn lemma_eq_ne_uniform(op: Op, l: ValueRef, r: ValueRef)
    requires
        op == Op::DoubleEquals || op == Op::NotEquals,
    ensures
        spec_eq_ne_fold(op, l, r) matches Some(v) && v matches ValueRef::IntConst { ty, val }
            && ty == IrType::I1 && val <= 1,
        op == Op::DoubleEquals ==> (spec_eq_ne_fold(op, l, r) == Some(
            ValueRef::IntConst { ty: IrType::I1, val: 1u64 },
        ) <==> l == r),
        op == Op::NotEquals ==> (spec_eq_ne_fold(op, l, r) == Some(
            ValueRef::IntConst { ty: IrType::I1, val: 1u64 },
        ) <==> l != r),
        spec_int_choice(op) is None,
        spec_float_choice(op) is None,
{
}

} // verus!
