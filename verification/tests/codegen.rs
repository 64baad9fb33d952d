use ssa_codegen::Compiler;
use ssa_codegen::ast::LangTy;
use ssa_codegen::ast::Node;
use ssa_codegen::ast::Op;
use ssa_codegen::ast::Pos;
use ssa_codegen::eval::EvalErr;
use ssa_codegen::eval::RtVal;
use ssa_codegen::eval::eval_call;
use ssa_codegen::ir::IrType;
use ssa_codegen::ir::ValueRef;
use ssa_codegen::symbol::Symbol;

fn at(line: u64, col: u64) -> Pos {
    Pos { line, col }
}

fn p() -> Pos {
    at(1, 1)
}

fn int_lit(v: u64) -> Node {
    Node::IntLit { val: v, pos: p() }
}

fn float_lit(x: f64) -> Node {
    Node::FloatLit { bits: x.to_bits(), pos: p() }
}

fn var(name: &str) -> Node {
    Node::Var { name: name.to_string(), pos: p() }
}

fn bin(l: Node, op: Op, r: Node) -> Node {
    Node::Binary { left: Box::new(l), op, right: Box::new(r), pos: p() }
}

fn fun_def(name: &str, params: &[(&str, LangTy)], ret: LangTy, body: Node) -> Node {
    Node::FunDef {
        name: Some(name.to_string()),
        params: params.iter().map(|(n, t)| (n.to_string(), *t)).collect(),
        ret,
        body: Box::new(body),
        pos: p(),
    }
}

fn call_at(callee: Node, args: Vec<Node>, pos: Pos) -> Node {
    Node::Call { callee: Box::new(callee), args, pos }
}

fn ival(v: u64) -> RtVal {
    RtVal::Int { ty: IrType::I64, val: v }
}

fn fval(x: f64) -> RtVal {
    RtVal::Float { bits: x.to_bits() }
}

fn compile_ok(c: &mut Compiler, node: Node) {
    match c.compile_node(&node) {
        Ok(_) => {},
        Err(e) => panic!("unexpected compile error: {} at {}:{}", e.msg, e.pos.line, e.pos.col),
    }
}

fn eval_named(c: &Compiler, name: &str, args: Vec<RtVal>) -> Result<RtVal, EvalErr> {
    let idx = c.module.lookup_defined(&name.to_string()).expect("function not defined");
    eval_call(&c.module, idx, args, 64)
}

#[test]
fn add_function_compiles_and_computes() {
    let mut c = Compiler::new();
    let body = bin(var("a"), Op::Plus, var("b"));
    compile_ok(
        &mut c,
        fun_def("add", &[("a", LangTy::Int), ("b", LangTy::Int)], LangTy::Int, body),
    );
    assert_eq!(eval_named(&c, "add", vec![ival(2), ival(3)]), Ok(ival(5)));
}

#[test]
fn float_compare_yields_float_one_or_zero() {
    let mut c = Compiler::new();
    let body = bin(var("x"), Op::GreaterThan, var("y"));
    compile_ok(
        &mut c,
        fun_def("cmp", &[("x", LangTy::Float), ("y", LangTy::Float)], LangTy::Float, body),
    );
    assert_eq!(eval_named(&c, "cmp", vec![fval(5.0), fval(2.0)]), Ok(fval(1.0)));
    assert_eq!(eval_named(&c, "cmp", vec![fval(2.0), fval(5.0)]), Ok(fval(0.0)));
}

#[test]
fn float_less_than_is_a_float_value() {
    let mut c = Compiler::new();
    let body = bin(float_lit(3.0), Op::LessThan, float_lit(4.0));
    compile_ok(&mut c, fun_def("lt34", &[], LangTy::Float, body));
    let r = eval_named(&c, "lt34", vec![]).unwrap();
    match r {
        RtVal::Float { bits } => assert_eq!(bits, 1.0f64.to_bits()),
        _ => panic!("expected a float result, got {:?}", r),
    }
}

#[test]
fn unsigned_division_and_comparison() {
    let mut c = Compiler::new();
    compile_ok(
        &mut c,
        fun_def(
            "udiv",
            &[("a", LangTy::Int), ("b", LangTy::Int)],
            LangTy::Int,
            bin(var("a"), Op::Divide, var("b")),
        ),
    );
    // Interpreted as signed these would be -6 / 3; unsigned semantics
    // divide the huge value.
    let a = u64::MAX - 5;
    assert_eq!(eval_named(&c, "udiv", vec![ival(a), ival(3)]), Ok(ival(a / 3)));
}

#[test]
fn integer_arithmetic_wraps() {
    let mut c = Compiler::new();
    for (name, op) in [("wadd", Op::Plus), ("wsub", Op::Minus), ("wmul", Op::Multiply)] {
        compile_ok(
            &mut c,
            fun_def(
                name,
                &[("a", LangTy::Int), ("b", LangTy::Int)],
                LangTy::Int,
                bin(var("a"), op, var("b")),
            ),
        );
    }
    assert_eq!(eval_named(&c, "wadd", vec![ival(u64::MAX), ival(1)]), Ok(ival(0)));
    assert_eq!(eval_named(&c, "wsub", vec![ival(0), ival(1)]), Ok(ival(u64::MAX)));
    assert_eq!(
        eval_named(&c, "wmul", vec![ival(1 << 63), ival(2)]),
        Ok(ival(0)),
    );
    assert_eq!(eval_named(&c, "wadd", vec![ival(7), ival(35)]), Ok(ival(42)));
}

#[test]
fn keyword_and_or_are_bitwise() {
    let mut c = Compiler::new();
    compile_ok(
        &mut c,
        fun_def(
            "band",
            &[("a", LangTy::Int), ("b", LangTy::Int)],
            LangTy::Int,
            bin(var("a"), Op::And, var("b")),
        ),
    );
    compile_ok(
        &mut c,
        fun_def(
            "bor",
            &[("a", LangTy::Int), ("b", LangTy::Int)],
            LangTy::Int,
            bin(var("a"), Op::Or, var("b")),
        ),
    );
    assert_eq!(eval_named(&c, "band", vec![ival(0b1100), ival(0b1010)]), Ok(ival(0b1000)));
    assert_eq!(eval_named(&c, "bor", vec![ival(0b1100), ival(0b1010)]), Ok(ival(0b1110)));
}

#[test]
fn nested_function_as_callee_restores_context() {
    // A function defined as a sub-expression is compiled in place and
    // called indirectly; the outer function keeps compiling afterwards.
    let mut c = Compiler::new();
    let inner = fun_def(
        "inner_add",
        &[("a", LangTy::Int), ("b", LangTy::Int)],
        LangTy::Int,
        bin(var("a"), Op::Plus, var("b")),
    );
    let body = call_at(inner, vec![int_lit(2), int_lit(3)], p());
    compile_ok(&mut c, fun_def("outer", &[], LangTy::Int, body));
    assert_eq!(eval_named(&c, "outer", vec![]), Ok(ival(5)));
    // The inner function is a complete, verified definition of its own.
    assert_eq!(eval_named(&c, "inner_add", vec![ival(20), ival(22)]), Ok(ival(42)));
}

#[test]
fn callee_must_be_a_function_pointer() {
    let mut c = Compiler::new();
    let call_pos = at(7, 9);
    let body = call_at(int_lit(5), vec![], call_pos);
    let r = c.compile_node(&fun_def("main", &[], LangTy::Int, body));
    match r {
        Err(e) => {
            assert_eq!(e.msg, "Expected a Function pointer found something else");
            assert_eq!(e.pos, call_pos);
        },
        Ok(_) => panic!("calling an integer literal must fail"),
    }
}

#[test]
fn extern_twice_does_not_crash() {
    let mut c = Compiler::new();
    let printf = |pos| Node::Extern {
        name: "printf".to_string(),
        param_tys: vec![LangTy::CharPtr],
        ret: LangTy::Int,
        variadic: true,
        pos,
    };
    compile_ok(&mut c, printf(at(1, 1)));
    compile_ok(&mut c, printf(at(2, 1)));
    assert_eq!(c.module.functions.len(), 2);
    // Both are declarations only; no defined symbol exists under the name.
    assert!(c.module.lookup_name(&"printf".to_string()).is_some());
    assert!(c.module.lookup_defined(&"printf".to_string()).is_none());
}

#[test]
fn extern_printf_is_variadic_external_and_bodyless() {
    let mut c = Compiler::new();
    let printf = Node::Extern {
        name: "printf".to_string(),
        param_tys: vec![LangTy::CharPtr],
        ret: LangTy::Int,
        variadic: true,
        pos: p(),
    };
    // Declare printf as a sub-expression and call it at once.
    let body = call_at(printf, vec![int_lit(1)], p());
    compile_ok(&mut c, fun_def("main", &[], LangTy::Int, body));
    let idx = c.module.lookup_name(&"printf".to_string()).expect("printf not declared");
    let f = &c.module.functions[idx];
    assert!(f.external);
    assert!(f.variadic);
    assert!(f.term.is_none());
    assert_eq!(f.body.len(), 0);
    assert_eq!(f.ret, IrType::I64);
    assert_eq!(f.params.len(), 1);
    assert_eq!(f.params[0].1, IrType::Ptr);
    // Running it cannot work here: the definition lives outside the module.
    assert_eq!(eval_named(&c, "main", vec![]), Err(EvalErr::ExternalFunction));
}

#[test]
fn invalid_return_kind_fails_verification_and_is_deleted() {
    let mut c = Compiler::new();
    let body_pos = at(3, 5);
    let body = Node::FloatLit { bits: 2.5f64.to_bits(), pos: body_pos };
    let r = c.compile_node(&fun_def("bad", &[], LangTy::Int, body));
    match r {
        Err(e) => {
            assert_eq!(e.msg, "Invalid generated function");
            assert_eq!(e.pos, body_pos);
        },
        Ok(_) => panic!("a float body under an int return type must fail verification"),
    }
    // The malformed function was unlinked: no defined symbol remains.
    assert!(c.module.lookup_defined(&"bad".to_string()).is_none());
    // Compilation may continue with other declarations.
    compile_ok(&mut c, fun_def("good", &[], LangTy::Int, int_lit(11)));
    assert_eq!(eval_named(&c, "good", vec![]), Ok(ival(11)));
}

#[test]
fn void_call_produces_wide_zero_sentinel() {
    let mut c = Compiler::new();
    let inner = fun_def("noop", &[], LangTy::Void, int_lit(0));
    let body = call_at(inner, vec![], p());
    // The call's value is a zero of the wide integer type, which cannot
    // be returned under an int return type: the verifier rejects i128
    // against i64, the function is deleted.
    let r = c.compile_node(&fun_def("main", &[], LangTy::Int, body));
    assert!(r.is_err());
    // Under a matching body the sentinel shape is observable in the IR:
    let mut c2 = Compiler::new();
    let inner2 = fun_def("noop2", &[], LangTy::Void, int_lit(0));
    let body2 = call_at(inner2, vec![], p());
    let r2 = c2.compile_node(&fun_def("main2", &[], LangTy::Void, body2));
    assert!(r2.is_ok());
    assert_eq!(eval_named(&c2, "noop2", vec![]), Ok(RtVal::Unit));
}

#[test]
fn mixed_operand_kinds_are_unknown_operations() {
    let mut c = Compiler::new();
    let r = c.compile_node(
        &fun_def("mix", &[], LangTy::Int, bin(int_lit(1), Op::Plus, float_lit(1.0))),
    );
    match r {
        Err(e) => assert_eq!(e.msg, "Unknown operation"),
        Ok(_) => panic!("mixed int/float operands must fail"),
    }
    let r2 = c.compile_node(
        &fun_def("fand", &[], LangTy::Float, bin(float_lit(1.0), Op::And, float_lit(2.0))),
    );
    match r2 {
        Err(e) => assert_eq!(e.msg, "Unknown operation"),
        Ok(_) => panic!("the and keyword has no float meaning"),
    }
}

#[test]
fn unknown_unary_operation_is_reported() {
    let mut c = Compiler::new();
    let node = fun_def(
        "u",
        &[],
        LangTy::Int,
        Node::Unary { op: Op::Multiply, operand: Box::new(int_lit(1)), pos: p() },
    );
    match c.compile_node(&node) {
        Err(e) => assert_eq!(e.msg, "Unknown unary operation"),
        Ok(_) => panic!("unary multiply must fail"),
    }
}

#[test]
fn unary_minus_and_plus() {
    let mut c = Compiler::new();
    compile_ok(
        &mut c,
        fun_def(
            "negi",
            &[("a", LangTy::Int)],
            LangTy::Int,
            Node::Unary { op: Op::Minus, operand: Box::new(var("a")), pos: p() },
        ),
    );
    compile_ok(
        &mut c,
        fun_def(
            "negf",
            &[("x", LangTy::Float)],
            LangTy::Float,
            Node::Unary { op: Op::Minus, operand: Box::new(var("x")), pos: p() },
        ),
    );
    compile_ok(
        &mut c,
        fun_def(
            "plus",
            &[("a", LangTy::Int)],
            LangTy::Int,
            Node::Unary { op: Op::Plus, operand: Box::new(var("a")), pos: p() },
        ),
    );
    assert_eq!(eval_named(&c, "negi", vec![ival(5)]), Ok(ival(5u64.wrapping_neg())));
    assert_eq!(eval_named(&c, "negf", vec![fval(2.5)]), Ok(fval(-2.5)));
    assert_eq!(eval_named(&c, "plus", vec![ival(9)]), Ok(ival(9)));
}

#[test]
fn binding_without_storage_is_reported() {
    // A binding whose symbol is not a stack slot cannot be loaded.
    let mut c = Compiler::new();
    c.variables.insert(
        "x".to_string(),
        Symbol::new(ValueRef::IntConst { ty: IrType::I64, val: 1 }, false),
    );
    match c.compile_node(&fun_def("f", &[], LangTy::Int, var("x"))) {
        Err(e) => assert_eq!(e.msg, "Variable has no storage"),
        Ok(_) => panic!("a slotless binding must fail"),
    }
}

#[test]
fn unknown_variable_is_reported() {
    let mut c = Compiler::new();
    match c.compile_node(&fun_def("f", &[], LangTy::Int, var("nope"))) {
        Err(e) => assert_eq!(e.msg, "Unknown variable"),
        Ok(_) => panic!("an unbound name must fail"),
    }
}

#[test]
fn return_node_cannot_be_compiled() {
    let mut c = Compiler::new();
    let pos = at(4, 2);
    match c.compile_node(&Node::Return { pos }) {
        Err(e) => {
            assert_eq!(e.msg, "Node can't be compiled");
            assert_eq!(e.pos, pos);
        },
        Ok(_) => panic!("a bare return node must fail"),
    }
}

#[test]
fn anonymous_function_gets_generated_name() {
    let mut c = Compiler::new();
    let node = Node::FunDef {
        name: None,
        params: vec![],
        ret: LangTy::Int,
        body: Box::new(int_lit(1)),
        pos: p(),
    };
    compile_ok(&mut c, node);
    assert_eq!(c.module.functions.len(), 1);
    let name = &c.module.functions[0].name;
    assert_eq!(name.len(), 20);
    assert!(name.chars().all(|ch| ch.is_ascii_alphanumeric()));
}

#[test]
fn nested_function_cannot_use_outer_storage() {
    // A name bound in the enclosing function refers to that function's
    // stack slot; a nested definition that reads it would reference
    // storage across functions, which verification rejects, so the
    // nested function is unlinked.
    let mut c = Compiler::new();
    let inner = fun_def("leaky", &[], LangTy::Int, var("a"));
    let body = call_at(inner, vec![], p());
    let r = c.compile_node(&fun_def("outer2", &[("a", LangTy::Int)], LangTy::Int, body));
    match r {
        Err(e) => assert_eq!(e.msg, "Invalid generated function"),
        Ok(_) => panic!("reading outer storage from a nested function must fail"),
    }
    assert!(c.module.lookup_defined(&"leaky".to_string()).is_none());
}

#[test]
fn shadowing_parameter_names_keeps_latest_binding() {
    // Two parameters under one name: the later binding wins in the body.
    let mut c = Compiler::new();
    compile_ok(
        &mut c,
        fun_def(
            "shadow",
            &[("a", LangTy::Int), ("a", LangTy::Int)],
            LangTy::Int,
            var("a"),
        ),
    );
    assert_eq!(eval_named(&c, "shadow", vec![ival(1), ival(2)]), Ok(ival(2)));
}
