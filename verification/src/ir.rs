//! The target representation: a module of functions, each with one entry
//! block of instructions in static single assignment form, plus the
//! structural/type verifier that every completed function must pass.
//!
//! Instruction results are positional: the instruction at index `i` of a
//! body defines the register `i` of that function.

use vstd::prelude::*;
use crate::ast::LangTy;

verus! {

/// Backend-level types.
#[derive(Clone, Copy, PartialEq, Eq, Structural, Debug)]
pub enum IrType {
    Void,
    /// One-bit integer, the result of comparisons and of `==`/`!=`.
    I1,
    /// The integer value type of the language.
    I64,
    /// Wide integer, used for the stand-in zero a void call produces.
    I128,
    /// The float value type of the language.
    F64,
    /// An opaque data pointer.
    Ptr,
}

/// Translation of a source-level type into a backend type.
pub open spec fn spec_to_ir(t: LangTy) -> IrType {
    match t {
        LangTy::Int => IrType::I64,
        LangTy::Float => IrType::F64,
        LangTy::Void => IrType::Void,
        LangTy::CharPtr => IrType::Ptr,
    }
}

/// Executable counterpart of `spec_to_ir`.
pub fn to_ir_type(t: LangTy) -> (r: IrType)
    ensures
        r == spec_to_ir(t),
{
    match t {
        LangTy::Int => IrType::I64,
        LangTy::Float => IrType::F64,
        LangTy::Void => IrType::Void,
        LangTy::CharPtr => IrType::Ptr,
    }
}

/// A value as the compiler sees it: a constant, the address of a function,
/// an incoming parameter, the address of a stack slot, or the result of a
/// previously emitted instruction.
#[derive(Clone, Copy, PartialEq, Eq, Structural, Debug)]
pub enum ValueRef {
    IntConst { ty: IrType, val: u64 },
    /// A float constant, held as its bit pattern.
    FloatConst { bits: u64 },
    /// The address of the function at index `idx` of the module.
    FnPtr { idx: usize },
    /// The `index`-th incoming parameter of the enclosing function.
    Arg { index: usize, ty: IrType },
    /// The address of the stack slot allocated by the instruction at
    /// position `id` of function `func`.
    Slot { func: usize, id: usize, pointee: IrType },
    /// The result of the instruction at position `id` of the enclosing
    /// function.
    Reg { id: usize, ty: IrType },
}

/// The backend type of a value.
pub open spec fn spec_val_ty(v: ValueRef) -> IrType {
    match v {
        ValueRef::IntConst { ty, .. } => ty,
        ValueRef::FloatConst { .. } => IrType::F64,
        ValueRef::FnPtr { .. } => IrType::Ptr,
        ValueRef::Arg { ty, .. } => ty,
        ValueRef::Slot { .. } => IrType::Ptr,
        ValueRef::Reg { ty, .. } => ty,
    }
}

/// Whether a backend type is an integer type.
pub open spec fn spec_is_int_ty(t: IrType) -> bool {
    t == IrType::I1 || t == IrType::I64 || t == IrType::I128
}

/// Whether a value is integer-kinded.
pub open spec fn spec_is_int_value(v: ValueRef) -> bool {
    spec_is_int_ty(spec_val_ty(v))
}

/// Whether a value is float-kinded.
pub open spec fn spec_is_float_value(v: ValueRef) -> bool {
    spec_val_ty(v) == IrType::F64
}

/// Whether a value is a function pointer, the only thing a call may target.
pub open spec fn spec_is_fn_ptr(v: ValueRef) -> bool {
    v is FnPtr
}

impl ValueRef {
    /// Executable integer-kind test.
    pub fn is_int_value(&self) -> (r: bool)
        ensures
            r == spec_is_int_value(*self),
    {
        match self {
            ValueRef::IntConst { ty, .. } => is_int_ty(*ty),
            ValueRef::Arg { ty, .. } => is_int_ty(*ty),
            ValueRef::Reg { ty, .. } => is_int_ty(*ty),
            _ => false,
        }
    }

    /// Executable float-kind test.
    pub fn is_float_value(&self) -> (r: bool)
        ensures
            r == spec_is_float_value(*self),
    {
        val_ty(self) == IrType::F64
    }

    /// Executable function-pointer test.
    pub fn is_fn_ptr(&self) -> (r: bool)
        ensures
            r == spec_is_fn_ptr(*self),
    {
        match self {
            ValueRef::FnPtr { .. } => true,
            _ => false,
        }
    }
}

/// Executable integer-type test.
pub fn is_int_ty(t: IrType) -> (r: bool)
    ensures
        r == spec_is_int_ty(t),
{
    match t {
        IrType::I1 => true,
        IrType::I64 => true,
        IrType::I128 => true,
        _ => false,
    }
}

/// Integer arithmetic and bitwise instructions.
#[derive(Clone, Copy, PartialEq, Eq, Structural, Debug)]
pub enum IntArith {
    Add,
    Sub,
    Mul,
    /// Unsigned division.
    Udiv,
    BitAnd,
    BitOr,
}

/// Unsigned integer comparison predicates.
#[derive(Clone, Copy, PartialEq, Eq, Structural, Debug)]
pub enum IntPred {
    Ult,
    Ugt,
    Ule,
    Uge,
}

/// Float arithmetic instructions.
#[derive(Clone, Copy, PartialEq, Eq, Structural, Debug)]
pub enum FloatArith {
    FAdd,
    FSub,
    FMul,
    FDiv,
}

/// Float comparison predicates. The `U` predicates are unordered: they
/// hold when either operand is a NaN. `Oge` is ordered: it fails when
/// either operand is a NaN.
#[derive(Clone, Copy, PartialEq, Eq, Structural, Debug)]
pub enum FloatPred {
    Ult,
    Ugt,
    Ule,
    Oge,
}

/// One instruction of a function body. The instruction at position `i`
/// defines register `i`; instructions without a result leave that register
/// undefined.
pub enum Instr {
    /// Reserve a stack slot for one value of type `pointee`.
    Alloca { pointee: IrType },
    /// Write `val` into the slot `slot` points to.
    Store { slot: ValueRef, val: ValueRef },
    /// Read a value of type `ty` from the slot `slot` points to.
    Load { slot: ValueRef, ty: IrType },
    IntBin { op: IntArith, a: ValueRef, b: ValueRef },
    IntCmp { pred: IntPred, a: ValueRef, b: ValueRef },
    FloatBin { op: FloatArith, a: ValueRef, b: ValueRef },
    FloatCmp { pred: FloatPred, a: ValueRef, b: ValueRef },
    /// Convert a one-bit integer to 0.0 or 1.0.
    UiToFp { a: ValueRef },
    IntNeg { a: ValueRef },
    FloatNeg { a: ValueRef },
    /// Indirect call through a function-pointer value; `ret` is the return
    /// type of the callee's declared signature.
    Call { callee: ValueRef, args: Vec<ValueRef>, ret: IrType },
}

/// A function of the module: a signature, linkage, and (for defined
/// functions) a single entry block of instructions plus a terminator.
/// `term` is `None` while the body is still being built, `Some(None)` for
/// a void return, and `Some(Some(v))` for a return of `v`.
pub struct IrFunction {
    pub name: String,
    pub params: Vec<(String, IrType)>,
    pub ret: IrType,
    pub variadic: bool,
    /// External linkage: declared here, defined elsewhere, never given a body.
    pub external: bool,
    pub body: Vec<Instr>,
    pub term: Option<Option<ValueRef>>,
    /// Set when a malformed function is unlinked after failed verification.
    pub deleted: bool,
}

/// The target module: the functions declared or defined so far, in the
/// order they were added.
pub struct IrModule {
    pub functions: Vec<IrFunction>,
}

/// A function the module actually defines: present, given a body, and not
/// an external declaration.
pub open spec fn spec_is_defined(f: IrFunction) -> bool {
    !f.deleted && !f.external && f.term is Some
}

/// Law: an unlinked function is never a defined one, so a lookup for
/// defined symbols cannot return a function that failed verification and
/// was deleted.
pub proof fn lemma_deleted_never_defined(f: IrFunction)
    requires
        f.deleted,
    ensures
        !spec_is_defined(f),
{
}

/// The type of the register an instruction defines, if any. `None` means
/// the instruction produces no register: stack slots are addressed through
/// `Slot` values, not registers, and stores and void calls have no result.
pub open spec fn spec_def_ty(ins: Instr) -> Option<IrType> {
    match ins {
        Instr::Alloca { .. } => None,
        Instr::Store { .. } => None,
        Instr::Load { ty, .. } => Some(ty),
        Instr::IntBin { a, .. } => Some(spec_val_ty(a)),
        Instr::IntCmp { .. } => Some(IrType::I1),
        Instr::FloatBin { .. } => Some(IrType::F64),
        Instr::FloatCmp { .. } => Some(IrType::I1),
        Instr::UiToFp { .. } => Some(IrType::F64),
        Instr::IntNeg { a } => Some(spec_val_ty(a)),
        Instr::FloatNeg { .. } => Some(IrType::F64),
        Instr::Call { ret, .. } => if ret == IrType::Void {
            None
        } else {
            Some(ret)
        },
    }
}

/// Whether value `v` is well formed when used by the instruction at
/// position `limit` of function `self_idx`: constants carry values that
/// fit their type, parameters and registers refer to existing definitions
/// of the matching type, and slots refer to earlier allocations of this
/// very function.
pub open spec fn spec_val_wf(m: IrModule, f: IrFunction, self_idx: int, limit: int, v: ValueRef) -> bool {
    match v {
        ValueRef::IntConst { ty, val } => spec_is_int_ty(ty) && (ty == IrType::I1 ==> val <= 1),
        ValueRef::FloatConst { .. } => true,
        ValueRef::FnPtr { idx } => idx < m.functions@.len(),
        ValueRef::Arg { index, ty } => {
            &&& index < f.params@.len()
            &&& f.params@[index as int].1 == ty
            &&& ty != IrType::Void
        },
        ValueRef::Slot { func, id, pointee } => {
            &&& func == self_idx
            &&& id < limit
            &&& id < f.body@.len()
            &&& f.body@[id as int] == (Instr::Alloca { pointee })
        },
        ValueRef::Reg { id, ty } => {
            &&& id < limit
            &&& id < f.body@.len()
            &&& spec_def_ty(f.body@[id as int]) == Some(ty)
        },
    }
}

/// Whether the instruction at position `i` of the function is well formed:
/// its operands are well formed at that position and their types fit the
/// instruction.
pub open spec fn spec_instr_wf(m: IrModule, f: IrFunction, self_idx: int, i: int) -> bool {
    match f.body@[i] {
        Instr::Alloca { pointee } => pointee != IrType::Void,
        Instr::Store { slot, val } => {
            &&& spec_val_wf(m, f, self_idx, i, slot)
            &&& spec_val_wf(m, f, self_idx, i, val)
            &&& slot matches ValueRef::Slot { pointee, .. } && spec_val_ty(val) == pointee
        },
        Instr::Load { slot, ty } => {
            &&& spec_val_wf(m, f, self_idx, i, slot)
            &&& slot matches ValueRef::Slot { pointee, .. } && pointee == ty
        },
        Instr::IntBin { op, a, b } => {
            &&& spec_val_wf(m, f, self_idx, i, a)
            &&& spec_val_wf(m, f, self_idx, i, b)
            &&& spec_is_int_value(a)
            &&& spec_val_ty(a) == spec_val_ty(b)
        },
        Instr::IntCmp { pred, a, b } => {
            &&& spec_val_wf(m, f, self_idx, i, a)
            &&& spec_val_wf(m, f, self_idx, i, b)
            &&& spec_is_int_value(a)
            &&& spec_val_ty(a) == spec_val_ty(b)
        },
        Instr::FloatBin { op, a, b } => {
            &&& spec_val_wf(m, f, self_idx, i, a)
            &&& spec_val_wf(m, f, self_idx, i, b)
            &&& spec_is_float_value(a)
            &&& spec_is_float_value(b)
        },
        Instr::FloatCmp { pred, a, b } => {
            &&& spec_val_wf(m, f, self_idx, i, a)
            &&& spec_val_wf(m, f, self_idx, i, b)
            &&& spec_is_float_value(a)
            &&& spec_is_float_value(b)
        },
        Instr::UiToFp { a } => {
            &&& spec_val_wf(m, f, self_idx, i, a)
            &&& spec_val_ty(a) == IrType::I1
        },
        Instr::IntNeg { a } => {
            &&& spec_val_wf(m, f, self_idx, i, a)
            &&& spec_is_int_value(a)
        },
        Instr::FloatNeg { a } => {
            &&& spec_val_wf(m, f, self_idx, i, a)
            &&& spec_is_float_value(a)
        },
        Instr::Call { callee, args, ret } => {
            &&& spec_val_wf(m, f, self_idx, i, callee)
            &&& callee matches ValueRef::FnPtr { idx } && m.functions@[idx as int].ret == ret
            &&& spec_vals_wf(m, f, self_idx, i, args@)
        },
    }
}

/// Whether every value of a sequence is well formed at position `limit`.
pub open spec fn spec_vals_wf(m: IrModule, f: IrFunction, self_idx: int, limit: int, vs: Seq<ValueRef>) -> bool {
    forall|j: int| 0 <= j < vs.len() ==> spec_val_wf(m, f, self_idx, limit, #[trigger] vs[j])
}

/// Whether the terminator of the function is well formed: present, and
/// returning a value exactly when the declared return type asks for one.
pub open spec fn spec_term_wf(m: IrModule, f: IrFunction, self_idx: int) -> bool {
    match f.term {
        None => false,
        Some(None) => f.ret == IrType::Void,
        Some(Some(v)) => {
            &&& f.ret != IrType::Void
            &&& spec_val_wf(m, f, self_idx, f.body@.len() as int, v)
            &&& spec_val_ty(v) == f.ret
        },
    }
}

/// Structural and type verification of one function: every instruction and
/// the terminator are well formed.
pub open spec fn spec_fn_well_formed(m: IrModule, idx: int) -> bool {
    let f = m.functions@[idx];
    &&& forall|i: int| 0 <= i < f.body@.len() ==> spec_instr_wf(m, f, idx, i)
    &&& spec_term_wf(m, f, idx)
}

/// Executable counterpart of `spec_def_ty`.
pub fn def_ty(ins: &Instr) -> (r: Option<IrType>)
    ensures
        r == spec_def_ty(*ins),
{
    match ins {
        Instr::Alloca { .. } => None,
        Instr::Store { .. } => None,
        Instr::Load { ty, .. } => Some(*ty),
        Instr::IntBin { a, .. } => Some(val_ty(a)),
        Instr::IntCmp { .. } => Some(IrType::I1),
        Instr::FloatBin { .. } => Some(IrType::F64),
        Instr::FloatCmp { .. } => Some(IrType::I1),
        Instr::UiToFp { .. } => Some(IrType::F64),
        Instr::IntNeg { a } => Some(val_ty(a)),
        Instr::FloatNeg { .. } => Some(IrType::F64),
        Instr::Call { ret, .. } => if *ret == IrType::Void {
            None
        } else {
            Some(*ret)
        },
    }
}

/// Executable counterpart of `spec_val_ty`.
pub fn val_ty(v: &ValueRef) -> (r: IrType)
    ensures
        r == spec_val_ty(*v),
{
    match v {
        ValueRef::IntConst { ty, .. } => *ty,
        ValueRef::FloatConst { .. } => IrType::F64,
        ValueRef::FnPtr { .. } => IrType::Ptr,
        ValueRef::Arg { ty, .. } => *ty,
        ValueRef::Slot { .. } => IrType::Ptr,
        ValueRef::Reg { ty, .. } => *ty,
    }
}

/// Executable counterpart of `spec_val_wf`.
pub fn check_val(m: &IrModule, self_idx: usize, limit: usize, v: &ValueRef) -> (r: bool)
    requires
        self_idx < m.functions@.len(),
    ensures
        r == spec_val_wf(*m, m.functions@[self_idx as int], self_idx as int, limit as int, *v),
{
    let f = &m.functions[self_idx];
    match v {
        ValueRef::IntConst { ty, val } => is_int_ty(*ty) && (*ty != IrType::I1 || *val <= 1),
        ValueRef::FloatConst { .. } => true,
        ValueRef::FnPtr { idx } => *idx < m.functions.len(),
        ValueRef::Arg { index, ty } => {
            *index < f.params.len() && f.params[*index].1 == *ty && *ty != IrType::Void
        },
        ValueRef::Slot { func, id, pointee } => {
            *func == self_idx && *id < limit && *id < f.body.len() && (match &f.body[*id] {
                Instr::Alloca { pointee: p } => *p == *pointee,
                _ => false,
            })
        },
        ValueRef::Reg { id, ty } => {
            *id < limit && *id < f.body.len() && (match def_ty(&f.body[*id]) {
                Some(t) => t == *ty,
                None => false,
            })
        },
    }
}

/// Executable counterpart of `spec_instr_wf` for the instruction at
/// position `i`.
pub fn check_instr(m: &IrModule, self_idx: usize, i: usize) -> (r: bool)
    requires
        self_idx < m.functions@.len(),
        i < m.functions@[self_idx as int].body@.len(),
    ensures
        r == spec_instr_wf(*m, m.functions@[self_idx as int], self_idx as int, i as int),
{
    let ins = &m.functions[self_idx].body[i];
    match ins {
        Instr::Alloca { pointee } => *pointee != IrType::Void,
        Instr::Store { slot, val } => {
            check_val(m, self_idx, i, slot) && check_val(m, self_idx, i, val) && (match slot {
                ValueRef::Slot { pointee, .. } => val_ty(val) == *pointee,
                _ => false,
            })
        },
        Instr::Load { slot, ty } => {
            check_val(m, self_idx, i, slot) && (match slot {
                ValueRef::Slot { pointee, .. } => *pointee == *ty,
                _ => false,
            })
        },
        Instr::IntBin { op, a, b } => {
            check_val(m, self_idx, i, a) && check_val(m, self_idx, i, b) && a.is_int_value()
                && val_ty(a) == val_ty(b)
        },
        Instr::IntCmp { pred, a, b } => {
            check_val(m, self_idx, i, a) && check_val(m, self_idx, i, b) && a.is_int_value()
                && val_ty(a) == val_ty(b)
        },
        Instr::FloatBin { op, a, b } => {
            check_val(m, self_idx, i, a) && check_val(m, self_idx, i, b) && a.is_float_value()
                && b.is_float_value()
        },
        Instr::FloatCmp { pred, a, b } => {
            check_val(m, self_idx, i, a) && check_val(m, self_idx, i, b) && a.is_float_value()
                && b.is_float_value()
        },
        Instr::UiToFp { a } => check_val(m, self_idx, i, a) && val_ty(a) == IrType::I1,
        Instr::IntNeg { a } => check_val(m, self_idx, i, a) && a.is_int_value(),
        Instr::FloatNeg { a } => check_val(m, self_idx, i, a) && a.is_float_value(),
        Instr::Call { callee, args, ret } => {
            let callee_ok = check_val(m, self_idx, i, callee) && (match callee {
                ValueRef::FnPtr { idx } => {
                    *idx < m.functions.len() && m.functions[*idx].ret == *ret
                },
                _ => false,
            });
            callee_ok && check_vals(m, self_idx, i, args)
        },
    }
}

/// Executable counterpart of `spec_vals_wf`.
pub fn check_vals(m: &IrModule, self_idx: usize, limit: usize, vs: &Vec<ValueRef>) -> (r: bool)
    requires
        self_idx < m.functions@.len(),
    ensures
        r == spec_vals_wf(*m, m.functions@[self_idx as int], self_idx as int, limit as int, vs@),
{
    let mut j: usize = 0;
    while j < vs.len()
        invariant
            self_idx < m.functions@.len(),
            j <= vs@.len(),
            forall|k: int|
                0 <= k < j ==> spec_val_wf(
                    *m,
                    m.functions@[self_idx as int],
                    self_idx as int,
                    limit as int,
                    #[trigger] vs@[k],
                ),
        decreases vs@.len() - j,
    {
        if !check_val(m, self_idx, limit, &vs[j]) {
            return false;
        }
        j += 1;
    }
    true
}

/// Executable counterpart of `spec_term_wf`.
pub fn check_term(m: &IrModule, self_idx: usize) -> (r: bool)
    requires
        self_idx < m.functions@.len(),
    ensures
        r == spec_term_wf(*m, m.functions@[self_idx as int], self_idx as int),
{
    let f = &m.functions[self_idx];
    match &f.term {
        None => false,
        Some(None) => f.ret == IrType::Void,
        Some(Some(v)) => {
            f.ret != IrType::Void && check_val(m, self_idx, f.body.len(), v) && val_ty(v) == f.ret
        },
    }
}

/// Run structural and type verification on the function at index `idx`,
/// as `spec_fn_well_formed` states it.
pub fn verify_fn(m: &IrModule, idx: usize) -> (r: bool)
    requires
        idx < m.functions@.len(),
    ensures
        r == spec_fn_well_formed(*m, idx as int),
{
    let n = m.functions[idx].body.len();
    let mut i: usize = 0;
    while i < n
        invariant
            idx < m.functions@.len(),
            n == m.functions@[idx as int].body@.len(),
            i <= n,
            forall|k: int|
                0 <= k < i ==> spec_instr_wf(
                    *m,
                    m.functions@[idx as int],
                    idx as int,
                    k,
                ),
        decreases n - i,
    {
        if !check_instr(m, idx, i) {
            return false;
        }
        i += 1;
    }
    check_term(m, idx)
}

impl IrModule {
    /// An empty module.
    pub fn new() -> (m: IrModule)
        ensures
            m.functions@.len() == 0,
    {
        IrModule { functions: Vec::new() }
    }

    /// Look up the first function the module defines under `name`:
    /// present, with a body, and not an external declaration. Unlinked
    /// (deleted) functions and externs are never found.
    pub fn lookup_defined(&self, name: &String) -> (r: Option<usize>)
        ensures
            match r {
                Some(i) => {
                    &&& i < self.functions@.len()
                    &&& spec_is_defined(self.functions@[i as int])
                    &&& self.functions@[i as int].name@ == name@
                },
                None => forall|i: int|
                    0 <= i < self.functions@.len() ==> !(spec_is_defined(
                        #[trigger] self.functions@[i],
                    ) && self.functions@[i].name@ == name@),
            },
    {
        let n = self.functions.len();
        let mut i: usize = 0;
        while i < n
            invariant
                n == self.functions@.len(),
                i <= n,
                forall|k: int|
                    0 <= k < i ==> !(spec_is_defined(#[trigger] self.functions@[k])
                        && self.functions@[k].name@ == name@),
            decreases n - i,
        {
            let f = &self.functions[i];
            if !f.deleted && !f.external && f.term.is_some() && f.name == *name {
                return Some(i);
            }
            i += 1;
        }
        None
    }

    /// Look up the first declaration or definition under `name` that is
    /// still linked into the module, external ones included.
    pub fn lookup_name(&self, name: &String) -> (r: Option<usize>)
        ensures
            match r {
                Some(i) => {
                    &&& i < self.functions@.len()
                    &&& !self.functions@[i as int].deleted
                    &&& self.functions@[i as int].name@ == name@
                },
                None => forall|i: int|
                    0 <= i < self.functions@.len() ==> !(!(#[trigger] self.functions@[i]).deleted
                        && self.functions@[i].name@ == name@),
            },
    {
        let n = self.functions.len();
        let mut i: usize = 0;
        while i < n
            invariant
                n == self.functions@.len(),
                i <= n,
                forall|k: int|
                    0 <= k < i ==> !(!(#[trigger] self.functions@[k]).deleted
                        && self.functions@[k].name@ == name@),
            decreases n - i,
        {
            let f = &self.functions[i];
            if !f.deleted && f.name == *name {
                return Some(i);
            }
            i += 1;
        }
        None
    }
}

} // verus!
