use ssa_codegen::Compiler;
use ssa_codegen::ast::Op;
use ssa_codegen::ast::Pos;
use ssa_codegen::eval::EvalErr;
use ssa_codegen::eval::RtVal;
use ssa_codegen::eval::eval_call;
use ssa_codegen::function::Prototype;
use ssa_codegen::ir::Instr;
use ssa_codegen::ir::IrType;
use ssa_codegen::ir::ValueRef;
use ssa_codegen::ir::verify_fn;
use ssa_codegen::symbol::SymTable;
use ssa_codegen::symbol::Symbol;

fn p() -> Pos {
    Pos { line: 1, col: 1 }
}

fn ic(v: u64) -> ValueRef {
    ValueRef::IntConst { ty: IrType::I64, val: v }
}

fn fc(x: f64) -> ValueRef {
    ValueRef::FloatConst { bits: x.to_bits() }
}

/// Lower one binary operator over two constant operands into a fresh
/// function, verify it, and evaluate it.
fn run_binop(op: Op, l: ValueRef, r: ValueRef, ret: IrType) -> Result<RtVal, EvalErr> {
    let mut c = Compiler::new();
    let proto = Prototype { name: Some("t".to_string()), args: vec![], ret_type: ret };
    let idx = c.compile_prototype(&proto).unwrap();
    c.builder = Some(idx);
    let v = match c.lower_binary_vals(op, l, r, p()) {
        Ok(v) => v,
        Err(e) => panic!("lowering failed: {}", e.msg),
    };
    c.module.functions[idx].term = Some(Some(v));
    assert!(verify_fn(&c.module, idx), "generated function must verify");
    eval_call(&c.module, idx, vec![], 16)
}

fn run_unop(op: Op, v: ValueRef, ret: IrType) -> Result<RtVal, EvalErr> {
    let mut c = Compiler::new();
    let proto = Prototype { name: Some("u".to_string()), args: vec![], ret_type: ret };
    let idx = c.compile_prototype(&proto).unwrap();
    c.builder = Some(idx);
    let out = match c.lower_unary_val(op, v, p()) {
        Ok(v) => v,
        Err(e) => panic!("lowering failed: {}", e.msg),
    };
    c.module.functions[idx].term = Some(Some(out));
    assert!(verify_fn(&c.module, idx), "generated function must verify");
    eval_call(&c.module, idx, vec![], 16)
}

fn i64v(v: u64) -> RtVal {
    RtVal::Int { ty: IrType::I64, val: v }
}

fn i1v(v: u64) -> RtVal {
    RtVal::Int { ty: IrType::I1, val: v }
}

fn fv(x: f64) -> RtVal {
    RtVal::Float { bits: x.to_bits() }
}

#[test]
fn integer_operators_match_unsigned_semantics() {
    let a = u64::MAX - 5;  // -6 if misread as signed
    let b = 3u64;
    assert_eq!(run_binop(Op::Plus, ic(a), ic(b), IrType::I64), Ok(i64v(a.wrapping_add(b))));
    assert_eq!(run_binop(Op::Minus, ic(b), ic(a), IrType::I64), Ok(i64v(b.wrapping_sub(a))));
    assert_eq!(run_binop(Op::Multiply, ic(a), ic(b), IrType::I64), Ok(i64v(a.wrapping_mul(b))));
    assert_eq!(run_binop(Op::Divide, ic(a), ic(b), IrType::I64), Ok(i64v(a / b)));
    // Unsigned ordering: the huge value is large, not negative.
    assert_eq!(run_binop(Op::LessThan, ic(a), ic(b), IrType::I1), Ok(i1v(0)));
    assert_eq!(run_binop(Op::GreaterThan, ic(a), ic(b), IrType::I1), Ok(i1v(1)));
    assert_eq!(run_binop(Op::LessThanEquals, ic(7), ic(7), IrType::I1), Ok(i1v(1)));
    assert_eq!(run_binop(Op::GreaterThanEquals, ic(6), ic(7), IrType::I1), Ok(i1v(0)));
    assert_eq!(run_binop(Op::Divide, ic(41), ic(7), IrType::I64), Ok(i64v(5)));
}

#[test]
fn division_by_zero_is_an_evaluation_error() {
    assert_eq!(run_binop(Op::Divide, ic(5), ic(0), IrType::I64), Err(EvalErr::DivideByZero));
}

#[test]
fn equality_folds_uniformly_across_kinds() {
    // Same integer constants: equal.
    assert_eq!(run_binop(Op::DoubleEquals, ic(3), ic(3), IrType::I1), Ok(i1v(1)));
    assert_eq!(run_binop(Op::DoubleEquals, ic(3), ic(4), IrType::I1), Ok(i1v(0)));
    assert_eq!(run_binop(Op::NotEquals, ic(3), ic(4), IrType::I1), Ok(i1v(1)));
    // Float constants fold the same way.
    assert_eq!(run_binop(Op::DoubleEquals, fc(1.5), fc(1.5), IrType::I1), Ok(i1v(1)));
    // Mixed kinds short-circuit before any int/float path: no error,
    // just an unequal-values result.
    assert_eq!(run_binop(Op::DoubleEquals, ic(1), fc(1.0), IrType::I1), Ok(i1v(0)));
    assert_eq!(run_binop(Op::NotEquals, ic(1), fc(1.0), IrType::I1), Ok(i1v(1)));
}

#[test]
fn float_comparisons_are_floats_with_nan_quirk() {
    let nan = f64::NAN;
    // Unordered predicates hold when a NaN is involved.
    assert_eq!(run_binop(Op::LessThan, fc(nan), fc(1.0), IrType::F64), Ok(fv(1.0)));
    assert_eq!(run_binop(Op::GreaterThan, fc(nan), fc(1.0), IrType::F64), Ok(fv(1.0)));
    assert_eq!(run_binop(Op::LessThanEquals, fc(1.0), fc(nan), IrType::F64), Ok(fv(1.0)));
    // Greater-or-equal uses the ordered predicate: a NaN fails it.
    assert_eq!(run_binop(Op::GreaterThanEquals, fc(nan), fc(1.0), IrType::F64), Ok(fv(0.0)));
    // Ordinary values.
    assert_eq!(run_binop(Op::GreaterThanEquals, fc(2.0), fc(2.0), IrType::F64), Ok(fv(1.0)));
    assert_eq!(run_binop(Op::LessThan, fc(-1.0), fc(0.5), IrType::F64), Ok(fv(1.0)));
    assert_eq!(run_binop(Op::LessThan, fc(-0.0), fc(0.0), IrType::F64), Ok(fv(0.0)));
    assert_eq!(run_binop(Op::LessThan, fc(-3.0), fc(-2.0), IrType::F64), Ok(fv(1.0)));
}

#[test]
fn unary_negation_preserves_kind() {
    assert_eq!(run_unop(Op::Minus, ic(5), IrType::I64), Ok(i64v(5u64.wrapping_neg())));
    assert_eq!(run_unop(Op::Minus, ic(0), IrType::I64), Ok(i64v(0)));
    assert_eq!(run_unop(Op::Minus, fc(2.5), IrType::F64), Ok(fv(-2.5)));
    assert_eq!(run_unop(Op::Minus, fc(-0.0), IrType::F64), Ok(fv(0.0)));
    assert_eq!(run_unop(Op::Plus, ic(17), IrType::I64), Ok(i64v(17)));
    assert_eq!(run_unop(Op::Plus, fc(1.25), IrType::F64), Ok(fv(1.25)));
}

#[test]
fn float_comparison_emits_compare_then_convert() {
    let mut c = Compiler::new();
    let proto = Prototype { name: Some("t".to_string()), args: vec![], ret_type: IrType::F64 };
    let idx = c.compile_prototype(&proto).unwrap();
    c.builder = Some(idx);
    let v = c.lower_binary_vals(Op::LessThan, fc(1.0), fc(2.0), p()).unwrap();
    let body = &c.module.functions[idx].body;
    assert_eq!(body.len(), 2);
    assert!(matches!(body[0], Instr::FloatCmp { .. }));
    assert!(matches!(body[1], Instr::UiToFp { .. }));
    assert!(matches!(v, ValueRef::Reg { id: 1, ty: IrType::F64 }));
}

#[test]
fn eq_emits_no_instruction() {
    let mut c = Compiler::new();
    let proto = Prototype { name: Some("t".to_string()), args: vec![], ret_type: IrType::I1 };
    let idx = c.compile_prototype(&proto).unwrap();
    c.builder = Some(idx);
    let v = c.lower_binary_vals(Op::DoubleEquals, ic(3), fc(3.0), p()).unwrap();
    assert_eq!(c.module.functions[idx].body.len(), 0);
    assert_eq!(v, ValueRef::IntConst { ty: IrType::I1, val: 0 });
}

#[test]
fn symbol_new_records_value_and_mutability() {
    let s = Symbol::new(ic(7), true);
    assert_eq!(s.value, ic(7));
    assert!(s.reassignable);
    let s2 = Symbol::new(fc(1.0), false);
    assert!(!s2.reassignable);
}

#[test]
fn symbol_table_shadows_and_looks_up() {
    let mut t = SymTable::new();
    assert!(t.get(&"x".to_string()).is_none());
    t.insert("x".to_string(), Symbol::new(ic(1), false));
    t.insert("y".to_string(), Symbol::new(ic(2), true));
    t.insert("x".to_string(), Symbol::new(ic(3), true));
    let x = t.get(&"x".to_string()).unwrap();
    assert_eq!(x.value, ic(3));
    assert!(x.reassignable);
    let y = t.get(&"y".to_string()).unwrap();
    assert_eq!(y.value, ic(2));
    assert!(t.get(&"z".to_string()).is_none());
}

#[test]
fn verifier_rejects_forward_references() {
    let mut c = Compiler::new();
    let proto = Prototype { name: Some("t".to_string()), args: vec![], ret_type: IrType::I64 };
    let idx = c.compile_prototype(&proto).unwrap();
    let f = &mut c.module.functions[idx];
    // A register that points past its own definition point is malformed.
    f.body.push(Instr::IntBin {
        op: ssa_codegen::ir::IntArith::Add,
        a: ValueRef::Reg { id: 0, ty: IrType::I64 },
        b: ic(1),
    });
    f.term = Some(Some(ValueRef::Reg { id: 0, ty: IrType::I64 }));
    assert!(!verify_fn(&c.module, idx));
}

#[test]
fn verifier_rejects_missing_terminator() {
    let mut c = Compiler::new();
    let proto = Prototype { name: Some("t".to_string()), args: vec![], ret_type: IrType::I64 };
    let idx = c.compile_prototype(&proto).unwrap();
    assert!(!verify_fn(&c.module, idx));
}

#[test]
fn out_of_fuel_and_missing_function_errors() {
    let c = Compiler::new();
    assert_eq!(eval_call(&c.module, 0, vec![], 16), Err(EvalErr::NoSuchFunction));
    assert_eq!(eval_call(&c.module, 0, vec![], 0), Err(EvalErr::OutOfFuel));
}

#[test]
fn unterminated_function_cannot_run() {
    let mut c = Compiler::new();
    let proto = Prototype { name: Some("open".to_string()), args: vec![], ret_type: IrType::I64 };
    let idx = c.compile_prototype(&proto).unwrap();
    assert_eq!(eval_call(&c.module, idx, vec![], 16), Err(EvalErr::MissingTerminator));
}

#[test]
fn arity_is_checked_at_run_time() {
    let mut c = Compiler::new();
    let proto = Prototype {
        name: Some("two".to_string()),
        args: vec![("a".to_string(), IrType::I64), ("b".to_string(), IrType::I64)],
        ret_type: IrType::I64,
    };
    let idx = c.compile_prototype(&proto).unwrap();
    c.module.functions[idx].term = Some(Some(ic(1)));
    assert_eq!(eval_call(&c.module, idx, vec![i64v(1)], 16), Err(EvalErr::ArityMismatch));
}

#[test]
fn float_arithmetic_is_emitted_but_not_evaluated() {
    // The compiler selects the float arithmetic instruction; the
    // evaluator declines to execute it.
    let r = run_binop(Op::Plus, fc(1.0), fc(2.0), IrType::F64);
    assert_eq!(r, Err(EvalErr::FloatArithUnsupported));
}

#[test]
fn non_function_node_is_not_a_function() {
    let c = Compiler::new();
    let node = ssa_codegen::ast::Node::IntLit { val: 1, pos: p() };
    match c.to_func_with_proto(&node) {
        Err(e) => assert_eq!(e.msg, "Not a functions"),
        Ok(_) => panic!("an integer literal is not a function definition"),
    }
}
