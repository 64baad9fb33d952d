//! Function compilation: prototypes, definitions with their entry block
//! and parameter stack slots, foreign declarations, indirect calls, and
//! the generic node dispatcher the components recurse through.

use vstd::prelude::*;
use crate::ast::Error;
use crate::ast::LangTy;
use crate::ast::Node;
use crate::ast::Op;
use crate::ast::Pos;
use crate::ast::spec_pos;
use crate::ast::wf_node;
use crate::ir::Instr;
use crate::ir::IrFunction;
use crate::ir::IrType;
use crate::ir::ValueRef;
use crate::ir::spec_fn_well_formed;
use crate::ir::spec_is_defined;
use crate::ir::to_ir_type;
use crate::ir::verify_fn;
use crate::names::random_fn_name;
use crate::symbol::Symbol;
use crate::Compiler;
use crate::module_extends;
use crate::frames_rest;
use crate::lemma_frames_trans;
use crate::vars_keep;
use crate::lemma_vars_trans;
use crate::terms_keep;
use crate::lemma_evolve_trans;
use crate::spec_needs_block;

verus! {

/// A function's signature: its (optional) name, the declared parameters
/// in order, and the return type.
pub struct Prototype {
    pub name: Option<String>,
    pub args: Vec<(String, IrType)>,
    pub ret_type: IrType,
}

/// Every declared parameter of a prototype has a value type.
pub open spec fn spec_proto_wf(p: Prototype) -> bool {
    forall|i: int| 0 <= i < p.args@.len() ==> (#[trigger] p.args@[i]).1 != IrType::Void
}

/// A function to compile: a prototype plus the body expression.
pub struct Function<'a> {
    pub prototype: Prototype,
    pub body: &'a Node,
}

/// The operator of a binary node; any other node gives a default.
pub open spec fn spec_binop_of(n: Node) -> Op {
    match n {
        Node::Binary { op, .. } => op,
        _ => Op::Plus,
    }
}

/// A source function of the flagship integer shape: two distinct
/// integer parameters, an integer return type, and a body applying an
/// arithmetic operator to the two parameter names.
pub open spec fn spec_two_int_param_arith_source(p: Prototype, body: Node) -> bool {
    &&& p.args@.len() == 2
    &&& p.args@[0].1 == IrType::I64
    &&& p.args@[1].1 == IrType::I64
    &&& p.args@[0].0@ != p.args@[1].0@
    &&& p.ret_type == IrType::I64
    &&& (body matches Node::Binary { left, op, right, .. } && (*left) matches Node::Var {
        name: n0,
        ..
    } && (*right) matches Node::Var { name: n1, .. } && n0@ == p.args@[0].0@ && n1@
        == p.args@[1].0@ && crate::operation::spec_int_choice(op) matches Some(
        crate::operation::IntSel::Arith(_),
    ))
}

/// A source function of the flagship float-comparison shape: two
/// distinct float parameters, a float return type, and a body comparing
/// the two parameter names.
pub open spec fn spec_two_float_param_cmp_source(p: Prototype, body: Node) -> bool {
    &&& p.args@.len() == 2
    &&& p.args@[0].1 == IrType::F64
    &&& p.args@[1].1 == IrType::F64
    &&& p.args@[0].0@ != p.args@[1].0@
    &&& p.ret_type == IrType::F64
    &&& (body matches Node::Binary { left, op, right, .. } && (*left) matches Node::Var {
        name: n0,
        ..
    } && (*right) matches Node::Var { name: n1, .. } && n0@ == p.args@[0].0@ && n1@
        == p.args@[1].0@ && crate::operation::spec_float_choice(op) matches Some(
        crate::operation::FloatSel::Cmp(_),
    ))
}

impl Compiler {
    /// Add a declaration with the prototype's signature to the module and
    /// return its index. An anonymous prototype receives a generated
    /// 20-character identifier. This step cannot fail.
    pub fn compile_prototype(&mut self, proto: &Prototype) -> (r: Result<usize, Error>)
        requires
            old(self).wf(),
        ensures
            final(self).wf(),
            final(self).builder == old(self).builder,
            final(self).fn_value_opt == old(self).fn_value_opt,
            final(self).variables == old(self).variables,
            module_extends(old(self).module, final(self).module),
            terms_keep(old(self).module, final(self).module),
            frames_rest(*old(self), *final(self)),
            final(self).module.functions@.len() == old(self).module.functions@.len() + 1,
            forall|j: int|
                0 <= j < old(self).module.functions@.len() ==> final(self).module.functions@[j]
                    == old(self).module.functions@[j],
            r matches Ok(idx) && idx == old(self).module.functions@.len(),
            ({
                let g = final(self).module.functions@[old(self).module.functions@.len() as int];
                &&& g.params@ == proto.args@
                &&& g.ret == proto.ret_type
                &&& !g.variadic
                &&& !g.external
                &&& g.body@.len() == 0
                &&& g.term is None
                &&& !g.deleted
                &&& (proto.name matches Some(n) ==> g.name@ == n@)
                &&& (proto.name is None ==> g.name@.len() == 20)
                &&& (proto.name is None ==> forall|i: int|
                    0 <= i < g.name@.len() ==> (('a' <= #[trigger] g.name@[i] && g.name@[i]
                        <= 'z') || ('A' <= g.name@[i] && g.name@[i] <= 'Z') || ('0' <= g.name@[i]
                        && g.name@[i] <= '9')))
            }),
    {
        let name = match &proto.name {
            Some(n) => n.clone(),
            None => random_fn_name(),
        };
        let mut params: Vec<(String, IrType)> = Vec::new();
        let mut k: usize = 0;
        while k < proto.args.len()
            invariant
                k <= proto.args@.len(),
                params@ == proto.args@.take(k as int),
            decreases proto.args@.len() - k,
        {
            let pname = proto.args[k].0.clone();
            let pty = proto.args[k].1;
            params.push((pname, pty));
            proof {
                assert(params@ =~= proto.args@.take(k as int + 1));
            }
            k += 1;
        }
        proof {
            assert(proto.args@.take(proto.args@.len() as int) =~= proto.args@);
        }
        let idx = self.module.functions.len();
        let f = IrFunction {
            name,
            params,
            ret: proto.ret_type,
            variadic: false,
            external: false,
            body: Vec::new(),
            term: None,
            deleted: false,
        };
        self.module.functions.push(f);
        Ok(idx)
    }

    /// Reserve a stack slot of the given type in the entry block of the
    /// function the builder is positioned on, and return its address.
    pub fn create_entry_block_alloca(&mut self, ty: IrType) -> (slot: ValueRef)
        requires
            old(self).can_emit(),
        ensures
            final(self).builder == old(self).builder,
            final(self).fn_value_opt == old(self).fn_value_opt,
            final(self).variables == old(self).variables,
            final(self).can_emit(),
            final(self).wf(),
            module_extends(old(self).module, final(self).module),
            terms_keep(old(self).module, final(self).module),
            frames_rest(*old(self), *final(self)),
            final(self).module.functions@.len() == old(self).module.functions@.len(),
            ({
                let i = old(self).builder->Some_0 as int;
                let f = old(self).module.functions@[i];
                let g = final(self).module.functions@[i];
                &&& g.body@ == f.body@.push(Instr::Alloca { pointee: ty })
                &&& slot == (ValueRef::Slot {
                    func: old(self).builder->Some_0,
                    id: f.body@.len() as usize,
                    pointee: ty,
                })
                &&& g.name == f.name
                &&& g.params == f.params
                &&& g.ret == f.ret
                &&& g.variadic == f.variadic
                &&& g.external == f.external
                &&& g.term == f.term
                &&& g.deleted == f.deleted
                &&& forall|j: int|
                    0 <= j < old(self).module.functions@.len() && j != i
                        ==> final(self).module.functions@[j] == old(self).module.functions@[j]
            }),
    {
        let func = match self.builder {
            Some(i) => i,
            None => {
                proof {
                    assert(false);
                }
                0
            },
        };
        let id = self.emit(Instr::Alloca { pointee: ty });
        ValueRef::Slot { func, id, pointee: ty }
    }

    /// Turn a function-definition node into a `Function` value: clone the
    /// declared name and parameters into a prototype and keep the body.
    /// Any other node is rejected.
    pub fn to_func_with_proto<'a>(&self, node: &'a Node) -> (r: Result<Function<'a>, Error>)
        ensures
            match *node {
                Node::FunDef { .. } => r is Ok,
                _ => r matches Err(e) && e.msg@ == "Not a functions"@ && e.pos == spec_pos(*node),
            },
            r matches Ok(f) ==> (node matches Node::FunDef { name, params, ret, body, pos } && {
                &&& f.prototype.name is Some <==> name is Some
                &&& (name matches Some(n) ==> f.prototype.name->Some_0@ == n@)
                &&& f.prototype.args@.len() == params@.len()
                &&& forall|i: int|
                    0 <= i < params@.len() ==> (#[trigger] f.prototype.args@[i]).1
                        == crate::ir::spec_to_ir(params@[i].1) && f.prototype.args@[i].0@
                        == params@[i].0@
                &&& f.prototype.ret_type == crate::ir::spec_to_ir(*ret)
                &&& f.body == &**body
            }),
    {
        match node {
            Node::FunDef { name, params, ret, body, pos } => {
                let pname = match name {
                    Some(n) => Some(n.clone()),
                    None => None,
                };
                let mut args: Vec<(String, IrType)> = Vec::new();
                let mut k: usize = 0;
                while k < params.len()
                    invariant
                        k <= params@.len(),
                        args@.len() == k,
                        forall|i: int|
                            0 <= i < k ==> (#[trigger] args@[i]).1 == crate::ir::spec_to_ir(
                                params@[i].1,
                            ) && args@[i].0@ == params@[i].0@,
                    decreases params@.len() - k,
                {
                    let aname = params[k].0.clone();
                    let aty = to_ir_type(params[k].1);
                    args.push((aname, aty));
                    k += 1;
                }
                Ok(Function {
                    prototype: Prototype { name: pname, args, ret_type: to_ir_type(*ret) },
                    body: &**body,
                })
            },
            _ => Err(self.error(node.get_pos(), "Not a functions")),
        }
    }

    /// Declare a foreign function: translate the parameter and return
    /// types, register a bodyless declaration with external linkage and
    /// the given variadic flag, and hand back its address as a value.
    pub fn fun_extern(&mut self, node: &Node) -> (r: Result<ValueRef, Error>)
        requires
            old(self).wf(),
            node is Extern,
        ensures
            final(self).wf(),
            final(self).builder == old(self).builder,
            final(self).fn_value_opt == old(self).fn_value_opt,
            final(self).variables == old(self).variables,
            old(self).can_emit() ==> final(self).can_emit(),
            module_extends(old(self).module, final(self).module),
            terms_keep(old(self).module, final(self).module),
            frames_rest(*old(self), *final(self)),
            final(self).module.functions@.len() == old(self).module.functions@.len() + 1,
            forall|j: int|
                0 <= j < old(self).module.functions@.len() ==> final(self).module.functions@[j]
                    == old(self).module.functions@[j],
            r matches Ok(v) && v matches ValueRef::FnPtr { idx } && idx == old(self).module.functions@.len(),
            (node matches Node::Extern { name, param_tys, ret, variadic, pos } ==> {
                let g = final(self).module.functions@[old(self).module.functions@.len() as int];
                &&& g.name@ == name@
                &&& g.params@.len() == param_tys@.len()
                &&& forall|i: int|
                    0 <= i < param_tys@.len() ==> (#[trigger] g.params@[i]).1
                        == crate::ir::spec_to_ir(param_tys@[i])
                &&& g.ret == crate::ir::spec_to_ir(*ret)
                &&& g.variadic == variadic
                &&& g.external
                &&& g.body@.len() == 0
                &&& g.term is None
                &&& !g.deleted
            }),
    {
        match node {
            Node::Extern { name, param_tys, ret, variadic, pos } => {
                let mut params: Vec<(String, IrType)> = Vec::new();
                let mut k: usize = 0;
                while k < param_tys.len()
                    invariant
                        k <= param_tys@.len(),
                        params@.len() == k,
                        forall|i: int|
                            0 <= i < k ==> (#[trigger] params@[i]).1 == crate::ir::spec_to_ir(
                                param_tys@[i],
                            ),
                    decreases param_tys@.len() - k,
                {
                    params.push((String::new(), to_ir_type(param_tys[k])));
                    k += 1;
                }
                let idx = self.module.functions.len();
                let f = IrFunction {
                    name: name.clone(),
                    params,
                    ret: to_ir_type(*ret),
                    variadic: *variadic,
                    external: true,
                    body: Vec::new(),
                    term: None,
                    deleted: false,
                };
                self.module.functions.push(f);
                Ok(ValueRef::FnPtr { idx })
            },
            _ => {
                proof {
                    assert(false);
                }
                Err(self.error(node.get_pos(), "Not a functions"))
            },
        }
    }

    /// A bare return node cannot be compiled as an expression; report it
    /// at its own position.
    pub fn ret(&self, node: &Node) -> (r: Result<ValueRef, Error>)
        requires
            node is Return,
        ensures
            r matches Err(e) && e.msg@ == "Node can't be compiled"@ && e.pos == spec_pos(*node),
    {
        Err(self.error(node.get_pos(), "Node can't be compiled"))
    }

    /// Compile one function definition: build its prototype, open its
    /// entry block, materialize the parameters into stack slots bound in
    /// the symbol table, compile the body, emit the return, restore the
    /// enclosing insertion point and active function on every exit path,
    /// and verify the result. A function that fails verification is
    /// unlinked from the module and reported at the body's position.
    /// The optimizer pass pipeline that would run over a function after
    /// successful verification is an external collaborator with no model
    /// here: a verified function is returned exactly as emitted.
    #[verifier::rlimit(60)]
    pub fn compile_fn(&mut self, func: Function<'_>) -> (r: Result<usize, Error>)
        requires
            old(self).wf(),
            spec_proto_wf(func.prototype),
            wf_node(*func.body),
        ensures
            final(self).wf(),
            module_extends(old(self).module, final(self).module),
            terms_keep(old(self).module, final(self).module),
            final(self).fn_value_opt == old(self).fn_value_opt,
            old(self).builder is Some ==> final(self).builder == old(self).builder,
            old(self).builder is None ==> (final(self).builder matches Some(i) && i == old(
                self,
            ).module.functions@.len()),
            old(self).can_emit() ==> final(self).can_emit(),
            vars_keep(*old(self), *final(self)),
            final(self).module.functions@.len() > old(self).module.functions@.len(),
            forall|j: int|
                0 <= j < old(self).module.functions@.len() ==> final(self).module.functions@[j]
                    == old(self).module.functions@[j],
            (func.prototype.ret_type == IrType::I64 && (*func.body) matches Node::IntLit { .. })
                ==> r is Ok,
            spec_two_int_param_arith_source(func.prototype, *func.body) ==> (r matches Ok(idx2)
                && crate::operation::spec_two_param_int_body(
                final(self).module.functions@[idx2 as int],
                idx2,
                crate::operation::spec_int_choice(spec_binop_of(*func.body))->Some_0,
            )),
            spec_two_float_param_cmp_source(func.prototype, *func.body) ==> (r matches Ok(idx2)
                && crate::operation::spec_two_param_float_cmp_body(
                final(self).module.functions@[idx2 as int],
                idx2,
                crate::operation::spec_float_choice(spec_binop_of(*func.body))->Some_0->Cmp_0,
            )),
            r matches Err(e) ==> !spec_is_defined(
                final(self).module.functions@[old(self).module.functions@.len() as int],
            ),
            r matches Ok(idx) ==> ({
                let g = final(self).module.functions@[idx as int];
                &&& idx == old(self).module.functions@.len()
                &&& spec_is_defined(g)
                &&& spec_fn_well_formed(final(self).module, idx as int)
                &&& g.ret == func.prototype.ret_type
                &&& g.params@.len() == func.prototype.args@.len()
                &&& (forall|t: int|
                    0 <= t < func.prototype.args@.len() ==> (#[trigger] g.params@[t]).1
                        == func.prototype.args@[t].1)
                &&& (func.prototype.name matches Some(n) ==> g.name@ == n@)
                &&& (func.prototype.name is None ==> g.name@.len() == 20)
            }),
            r matches Err(e) ==> ({
                let g = final(self).module.functions@[old(self).module.functions@.len() as int];
                &&& (g.deleted ==> e.msg@ == "Invalid generated function"@ && e.pos == spec_pos(
                    *func.body,
                ))
                &&& (g.term is Some ==> g.deleted)
            }),
        decreases *func.body, 4int,
    {
        let ghost c0 = *self;
        let parent = self.fn_value_opt;

        let idx = match self.compile_prototype(&func.prototype) {
            Ok(i) => i,
            Err(e) => {
                proof {
                    assert(false);
                }
                return Err(e);
            },
        };

        let parental_block = self.builder;
        self.builder = Some(idx);
        self.fn_value_opt = Some(idx);

        let n_args = func.prototype.args.len();
        let mut k: usize = 0;
        while k < n_args
            invariant
                n_args == func.prototype.args@.len(),
                k <= n_args,
                spec_proto_wf(func.prototype),
                idx == c0.module.functions@.len(),
                self.builder == Some(idx),
                self.fn_value_opt == Some(idx),
                self.module.functions@.len() == idx + 1,
                self.can_emit(),
                self.wf(),
                module_extends(c0.module, self.module),
                terms_keep(c0.module, self.module),
                vars_keep(c0, *self),
                forall|j: int|
                    0 <= j < idx ==> self.module.functions@[j] == c0.module.functions@[j],
                ({
                    let g = self.module.functions@[idx as int];
                    &&& g.params@.len() == func.prototype.args@.len()
                    &&& (forall|t: int|
                        0 <= t < g.params@.len() ==> (#[trigger] g.params@[t]).1
                            == func.prototype.args@[t].1)
                    &&& g.ret == func.prototype.ret_type
                    &&& !g.variadic
                    &&& !g.external
                    &&& g.term is None
                    &&& !g.deleted
                    &&& (func.prototype.name matches Some(n) ==> g.name@ == n@)
                    &&& (func.prototype.name is None ==> g.name@.len() == 20)
                    &&& g.body@.len() == 2 * k
                    &&& ((func.prototype.args@.len() == 2 && func.prototype.args@[0].0@
                        != func.prototype.args@[1].0@) ==> ({
                        &&& (k >= 1 ==> self.variables@.contains_key(func.prototype.args@[0].0@)
                            && self.variables@[func.prototype.args@[0].0@] == (Symbol {
                            value: ValueRef::Slot {
                                func: idx,
                                id: 0,
                                pointee: func.prototype.args@[0].1,
                            },
                            reassignable: false,
                        }))
                        &&& (k >= 2 ==> self.variables@.contains_key(func.prototype.args@[1].0@)
                            && self.variables@[func.prototype.args@[1].0@] == (Symbol {
                            value: ValueRef::Slot {
                                func: idx,
                                id: 2,
                                pointee: func.prototype.args@[1].1,
                            },
                            reassignable: false,
                        }))
                    }))
                    &&& (forall|i2: int|
                        0 <= i2 < g.body@.len() ==> #[trigger] g.body@[i2] == (if i2 % 2 == 0 {
                            Instr::Alloca { pointee: func.prototype.args@[i2 / 2].1 }
                        } else {
                            Instr::Store {
                                slot: ValueRef::Slot {
                                    func: idx,
                                    id: (i2 - 1) as usize,
                                    pointee: func.prototype.args@[i2 / 2].1,
                                },
                                val: ValueRef::Arg {
                                    index: (i2 / 2) as usize,
                                    ty: func.prototype.args@[i2 / 2].1,
                                },
                            }
                        }))
                }),
            decreases n_args - k,
        {
            let ghost cpre = *self;
            let ty = func.prototype.args[k].1;
            let slot = self.create_entry_block_alloca(ty);
            let ghost cmid = *self;
            self.emit(Instr::Store { slot, val: ValueRef::Arg { index: k, ty } });
            let pname = func.prototype.args[k].0.clone();
            self.variables.insert(pname, Symbol::new(slot, false));
            proof {
                lemma_evolve_trans(cpre.module, cmid.module, self.module);
                lemma_evolve_trans(c0.module, cpre.module, self.module);
                assert forall|k2: Seq<char>| c0.variables@.contains_key(k2) implies (
                #[trigger] self.variables@.contains_key(k2)) by {
                    assert(cpre.variables@.contains_key(k2));
                }
            }
            k += 1;
        }

        let ghost c2 = *self;
        let body_val = match self.compile_node(func.body) {
            Ok(v) => v,
            Err(e) => {
                proof {
                    lemma_evolve_trans(c0.module, c2.module, self.module);
                    lemma_vars_trans(c0, c2, *self);
                    assert forall|j: int|
                        0 <= j < c0.module.functions@.len() implies self.module.functions@[j]
                        == c0.module.functions@[j] by {
                        assert(c2.module.functions@[j] == c0.module.functions@[j]);
                    }
                }
                if parental_block.is_some() {
                    self.builder = parental_block;
                }
                self.fn_value_opt = parent;
                return Err(e);
            },
        };
        proof {
            lemma_evolve_trans(c0.module, c2.module, self.module);
            lemma_vars_trans(c0, c2, *self);
            assert forall|j: int|
                0 <= j < c0.module.functions@.len() implies self.module.functions@[j]
                == c0.module.functions@[j] by {
                assert(c2.module.functions@[j] == c0.module.functions@[j]);
            }
        }
        let ghost c3 = *self;

        let term_val = if func.prototype.ret_type == IrType::Void {
            None
        } else {
            Some(body_val)
        };
        let fref = &mut self.module.functions[idx];
        fref.term = Some(term_val);
        proof {
            assert forall|j: int|
                0 <= j < c0.module.functions@.len() implies self.module.functions@[j]
                == c0.module.functions@[j] by {
                assert(c3.module.functions@[j] == c0.module.functions@[j]);
            }
            assert forall|j: int| 0 <= j < c0.module.functions@.len() implies crate::sig_keeps(
                c0.module.functions@[j],
                #[trigger] self.module.functions@[j],
            ) by {
                assert(crate::sig_keeps(c0.module.functions@[j], c3.module.functions@[j]));
            }
            assert forall|j: int|
                0 <= j < c0.module.functions@.len() && c0.module.functions@[j].term is None
                    && !c0.module.functions@[j].deleted implies (
            #[trigger] self.module.functions@[j]).term is None
                && !self.module.functions@[j].deleted by {
                assert(c3.module.functions@[j].term is None && !c3.module.functions@[j].deleted);
            }
        }

        if parental_block.is_some() {
            self.builder = parental_block;
        }
        self.fn_value_opt = parent;

        let body_len_now = self.module.functions[idx].body.len();
        proof {
            if func.prototype.ret_type == IrType::I64 && (*func.body) matches Node::IntLit {
                ..
            } {
                assert(c3 == c2);
                let mfin = self.module;
                let gfn = mfin.functions@[idx as int];
                assert(gfn.body@ == c2.module.functions@[idx as int].body@);
                assert(gfn.body@.len() == 2 * (n_args as int));
                assert(gfn.params@ == c2.module.functions@[idx as int].params@);
                assert(gfn.term == Some(Some(body_val)));
                assert(body_val is IntConst && crate::ir::spec_val_ty(body_val) == IrType::I64);
                assert forall|i2: int|
                    0 <= i2 < gfn.body@.len() implies crate::ir::spec_instr_wf(
                    mfin,
                    gfn,
                    idx as int,
                    i2,
                ) by {
                    let t = i2 / 2;
                    assert(0 <= t < func.prototype.args@.len());
                    assert(func.prototype.args@[t].1 != IrType::Void);
                    if i2 % 2 == 0 {
                        assert(gfn.body@[i2] == (Instr::Alloca {
                            pointee: func.prototype.args@[t].1,
                        }));
                        assert(crate::ir::spec_instr_wf(mfin, gfn, idx as int, i2));
                    } else {
                        assert(i2 < body_len_now as int);
                        assert((i2 - 1) as usize == i2 - 1);
                        assert((i2 - 1) % 2 == 0);
                        assert((i2 - 1) / 2 == t);
                        assert(gfn.body@[i2] == (Instr::Store {
                            slot: ValueRef::Slot {
                                func: idx,
                                id: (i2 - 1) as usize,
                                pointee: func.prototype.args@[t].1,
                            },
                            val: ValueRef::Arg {
                                index: t as usize,
                                ty: func.prototype.args@[t].1,
                            },
                        }));
                        assert(gfn.body@[i2 - 1] == (Instr::Alloca {
                            pointee: func.prototype.args@[t].1,
                        }));
                        assert(gfn.params@.len() == func.prototype.args@.len());
                        assert(gfn.params@[t].1 == func.prototype.args@[t].1);
                        assert(crate::ir::spec_val_wf(mfin, gfn, idx as int, i2, ValueRef::Slot {
                            func: idx,
                            id: (i2 - 1) as usize,
                            pointee: func.prototype.args@[t].1,
                        }));
                        assert(crate::ir::spec_val_wf(mfin, gfn, idx as int, i2, ValueRef::Arg {
                            index: t as usize,
                            ty: func.prototype.args@[t].1,
                        }));
                        assert(crate::ir::spec_instr_wf(mfin, gfn, idx as int, i2));
                    }
                }
                assert(crate::ir::spec_term_wf(mfin, gfn, idx as int));
                assert(spec_fn_well_formed(mfin, idx as int));
            }
            if spec_two_int_param_arith_source(func.prototype, *func.body) {
                let sel = crate::operation::spec_int_choice(spec_binop_of(*func.body))->Some_0;
                assert(crate::operation::spec_two_param_int_body(
                    self.module.functions@[idx as int],
                    idx,
                    sel,
                ));
                crate::operation::lemma_two_param_int_body_wf(self.module, idx, sel);
            }
            if spec_two_float_param_cmp_source(func.prototype, *func.body) {
                let pr = crate::operation::spec_float_choice(
                    spec_binop_of(*func.body),
                )->Some_0->Cmp_0;
                assert(crate::operation::spec_two_param_float_cmp_body(
                    self.module.functions@[idx as int],
                    idx,
                    pr,
                ));
                crate::operation::lemma_two_param_float_cmp_body_wf(self.module, idx, pr);
            }
        }

        if verify_fn(&self.module, idx) {
            Ok(idx)
        } else {
            let dref = &mut self.module.functions[idx];
            dref.deleted = true;
            proof {
                assert forall|j: int|
                    0 <= j < c0.module.functions@.len() implies self.module.functions@[j]
                    == c0.module.functions@[j] by {
                    assert(c3.module.functions@[j] == c0.module.functions@[j]);
                }
                assert forall|j: int|
                    0 <= j < c0.module.functions@.len() implies crate::sig_keeps(
                    c0.module.functions@[j],
                    #[trigger] self.module.functions@[j],
                ) by {
                    assert(crate::sig_keeps(c0.module.functions@[j], c3.module.functions@[j]));
                }
                assert forall|j: int|
                    0 <= j < c0.module.functions@.len() && c0.module.functions@[j].term is None
                        && !c0.module.functions@[j].deleted implies (
                #[trigger] self.module.functions@[j]).term is None
                    && !self.module.functions@[j].deleted by {
                    assert(c3.module.functions@[j].term is None
                        && !c3.module.functions@[j].deleted);
                }
            }
            Err(self.error(func.body.get_pos(), "Invalid generated function"))
        }
    }

    /// Compile a function-definition node and hand back the new
    /// function's address as a value.
    pub fn fun_decl(&mut self, node: &Node) -> (r: Result<ValueRef, Error>)
        requires
            old(self).wf(),
            node is FunDef,
            wf_node(*node),
        ensures
            final(self).wf(),
            module_extends(old(self).module, final(self).module),
            terms_keep(old(self).module, final(self).module),
            final(self).fn_value_opt == old(self).fn_value_opt,
            old(self).builder is Some ==> final(self).builder == old(self).builder,
            old(self).can_emit() ==> final(self).can_emit(),
            vars_keep(*old(self), *final(self)),
            final(self).module.functions@.len() > old(self).module.functions@.len(),
            forall|j: int|
                0 <= j < old(self).module.functions@.len() ==> final(self).module.functions@[j]
                    == old(self).module.functions@[j],
            (*node) matches Node::FunDef { ret, body, .. } ==> ((ret == LangTy::Int && (*body)
                matches Node::IntLit { .. }) ==> r is Ok),
            r matches Err(e) ==> ({
                let g = final(self).module.functions@[old(self).module.functions@.len() as int];
                &&& !spec_is_defined(g)
                &&& (g.term is Some ==> g.deleted)
                &&& (g.deleted ==> ((*node) matches Node::FunDef { body, .. } && e.msg@
                    == "Invalid generated function"@ && e.pos == spec_pos(*body)))
            }),
            r matches Ok(v) ==> ({
                &&& v matches ValueRef::FnPtr { idx }
                &&& v->FnPtr_idx == old(self).module.functions@.len()
                &&& (v->FnPtr_idx as int) < final(self).module.functions@.len()
                &&& spec_is_defined(final(self).module.functions@[v->FnPtr_idx as int])
                &&& spec_fn_well_formed(final(self).module, v->FnPtr_idx as int)
            }),
        decreases *node, 2int,
    {
        match node {
            Node::FunDef { params, body, .. } => {
                let func = match self.to_func_with_proto(node) {
                    Ok(f) => f,
                    Err(e) => {
                        proof {
                            assert(false);
                        }
                        return Err(e);
                    },
                };
                proof {
                    assert forall|i: int|
                        0 <= i < func.prototype.args@.len() implies (
                    #[trigger] func.prototype.args@[i]).1 != IrType::Void by {
                        assert(params@[i].1 != LangTy::Void);
                    }
                }
                let idx = match self.compile_fn(func) {
                    Ok(i) => i,
                    Err(e) => return Err(e),
                };
                Ok(ValueRef::FnPtr { idx })
            },
            _ => {
                proof {
                    assert(false);
                }
                Err(self.error(node.get_pos(), "Not a functions"))
            },
        }
    }

    /// Emit an indirect call to an already compiled callee value. Only a
    /// function-pointer value is callable: anything else fails with the
    /// non-callable-callee error at the given position. A call to a
    /// void-returning callee produces a stand-in zero of the wide integer
    /// type, so every expression yields a value.
    pub fn emit_call_value(&mut self, callee: ValueRef, cargs: Vec<ValueRef>, pos: Pos) -> (res:
        Result<ValueRef, Error>)
        requires
            old(self).can_emit(),
        ensures
            final(self).wf(),
            final(self).can_emit(),
            final(self).builder == old(self).builder,
            final(self).fn_value_opt == old(self).fn_value_opt,
            final(self).variables == old(self).variables,
            module_extends(old(self).module, final(self).module),
            terms_keep(old(self).module, final(self).module),
            frames_rest(*old(self), *final(self)),
            final(self).module.functions@.len() == old(self).module.functions@.len(),
            (callee matches ValueRef::FnPtr { idx } && idx < old(self).module.functions@.len())
                ==> ({
                let i = old(self).builder->Some_0 as int;
                let f = old(self).module.functions@[i];
                let g = final(self).module.functions@[i];
                let cret = old(self).module.functions@[callee->FnPtr_idx as int].ret;
                &&& g.body@ == f.body@.push(Instr::Call { callee, args: cargs, ret: cret })
                &&& (cret == IrType::Void ==> res == Ok::<ValueRef, Error>(
                    ValueRef::IntConst { ty: IrType::I128, val: 0 },
                ))
                &&& (cret != IrType::Void ==> (res matches Ok(v) && v matches ValueRef::Reg {
                    id,
                    ty,
                } && id == f.body@.len() && ty == cret))
            }),
            (callee matches ValueRef::FnPtr { idx } && idx >= old(self).module.functions@.len())
                ==> (res matches Err(e) && e.msg@
                == "Expected a Function pointer found something else"@ && e.pos == pos && *final(self) == *old(self)),
            !(callee is FnPtr) ==> (res matches Err(e) && e.msg@
                == "Expected a Function pointer found something else"@ && e.pos == pos && *final(self) == *old(self)),
    {
        match callee {
            ValueRef::FnPtr { idx } => {
                if idx < self.module.functions.len() {
                    let cret = self.module.functions[idx].ret;
                    let p = self.emit(Instr::Call { callee, args: cargs, ret: cret });
                    if cret == IrType::Void {
                        Ok(ValueRef::IntConst { ty: IrType::I128, val: 0 })
                    } else {
                        Ok(ValueRef::Reg { id: p, ty: cret })
                    }
                } else {
                    Err(self.error(pos, "Expected a Function pointer found something else"))
                }
            },
            _ => Err(self.error(pos, "Expected a Function pointer found something else")),
        }
    }

    /// Compile a call node: the argument expressions left to right, then
    /// the callee expression, then the indirect call through the callee's
    /// function-pointer value.
    pub fn fun_call(&mut self, node: &Node) -> (r: Result<ValueRef, Error>)
        requires
            old(self).wf(),
            node is Call,
            wf_node(*node),
            old(self).can_emit(),
        ensures
            final(self).wf(),
            final(self).can_emit(),
            final(self).builder == old(self).builder,
            final(self).fn_value_opt == old(self).fn_value_opt,
            module_extends(old(self).module, final(self).module),
            terms_keep(old(self).module, final(self).module),
            frames_rest(*old(self), *final(self)),
            vars_keep(*old(self), *final(self)),
            (*node) matches Node::Call { callee, args, .. } ==> ((crate::ast::spec_all_literals(
                args@,
            ) && crate::operation::spec_lit_value(*callee) is Some) ==> (r matches Err(e)
                && e.msg@ == "Expected a Function pointer found something else"@ && e.pos
                == spec_pos(*node) && *final(self) == *old(self))),
            (*node) matches Node::Call { callee, args, .. } ==> (crate::ast::spec_all_literals(
                args@,
            ) ==> ((*callee) matches Node::Extern { ret, .. } ==> ({
                let i = old(self).builder->Some_0 as int;
                let fb = old(self).module.functions@[i];
                let gb = final(self).module.functions@[i];
                let cret = crate::ir::spec_to_ir(ret);
                &&& final(self).module.functions@.len() == old(self).module.functions@.len() + 1
                &&& gb.body@.len() == fb.body@.len() + 1
                &&& (gb.body@.last() matches Instr::Call { callee: cv, args: cargs, ret: irt }
                    && cv == (ValueRef::FnPtr {
                    idx: old(self).module.functions@.len() as usize,
                }) && cargs@.len() == args@.len() && irt == cret)
                &&& (cret == IrType::Void ==> r == Ok::<ValueRef, Error>(
                    ValueRef::IntConst { ty: IrType::I128, val: 0 },
                ))
                &&& (cret != IrType::Void ==> (r matches Ok(v) && v matches ValueRef::Reg {
                    id,
                    ty,
                } && id == fb.body@.len() && ty == cret))
            }))),
        decreases *node, 2int,
    {
        match node {
            Node::Call { callee, args, pos } => {
                let mut compiled_args: Vec<ValueRef> = Vec::new();
                let mut j: usize = 0;
                while j < args.len()
                    invariant
                        *node matches Node::Call { callee: c2, args: a2, pos: p2 } && a2 == *args
                            && c2 == *callee,
                        wf_node(*node),
                        j <= args@.len(),
                        self.wf(),
                        self.can_emit(),
                        self.builder == old(self).builder,
                        self.fn_value_opt == old(self).fn_value_opt,
                        module_extends(old(self).module, self.module),
                        terms_keep(old(self).module, self.module),
                        frames_rest(*old(self), *self),
                        vars_keep(*old(self), *self),
                        compiled_args@.len() == j,
                        crate::ast::spec_all_literals(args@) ==> *self == *old(self),
                    decreases args@.len() - j,
                {
                    proof {
                        assert(wf_node(args@[j as int]));
                    }
                    let ghost cpre = *self;
                    match self.compile_node(&args[j]) {
                        Ok(v) => {
                            compiled_args.push(v);
                        },
                        Err(e) => {
                            proof {
                                lemma_evolve_trans(old(self).module, cpre.module, self.module);
                                lemma_frames_trans(*old(self), cpre, *self);
                                lemma_vars_trans(*old(self), cpre, *self);
                            }
                            return Err(e);
                        },
                    }
                    proof {
                        lemma_evolve_trans(old(self).module, cpre.module, self.module);
                        lemma_frames_trans(*old(self), cpre, *self);
                        lemma_vars_trans(*old(self), cpre, *self);
                    }
                    j += 1;
                }
                let ghost cmid = *self;
                let func_val = match self.compile_node(callee) {
                    Ok(v) => v,
                    Err(e) => {
                        proof {
                            lemma_evolve_trans(old(self).module, cmid.module, self.module);
                            lemma_frames_trans(*old(self), cmid, *self);
                            lemma_vars_trans(*old(self), cmid, *self);
                        }
                        return Err(e);
                    },
                };
                proof {
                    lemma_evolve_trans(old(self).module, cmid.module, self.module);
                    lemma_frames_trans(*old(self), cmid, *self);
                    lemma_vars_trans(*old(self), cmid, *self);
                }
                let ghost clast = *self;
                let res = self.emit_call_value(func_val, compiled_args, node.get_pos());
                proof {
                    lemma_evolve_trans(old(self).module, clast.module, self.module);
                    lemma_frames_trans(*old(self), clast, *self);
                    lemma_vars_trans(*old(self), clast, *self);
                }
                res
            },
            _ => {
                proof {
                    assert(false);
                }
                Err(self.error(node.get_pos(), "Not a functions"))
            },
        }
    }

    /// The generic dispatcher: route a node to the component that
    /// compiles it. Literals become constants, a name access loads from
    /// its bound stack slot, and the composite shapes recurse through
    /// their own compilers.
    pub fn compile_node(&mut self, node: &Node) -> (r: Result<ValueRef, Error>)
        requires
            old(self).wf(),
            wf_node(*node),
            spec_needs_block(*node) ==> old(self).can_emit(),
        ensures
            final(self).wf(),
            module_extends(old(self).module, final(self).module),
            terms_keep(old(self).module, final(self).module),
            final(self).fn_value_opt == old(self).fn_value_opt,
            old(self).builder is Some ==> final(self).builder == old(self).builder,
            old(self).can_emit() ==> final(self).can_emit(),
            frames_rest(*old(self), *final(self)),
            vars_keep(*old(self), *final(self)),
            (*node) matches Node::IntLit { val, .. } ==> r == Ok::<ValueRef, Error>(
                ValueRef::IntConst { ty: IrType::I64, val },
            ) && *final(self) == *old(self),
            (*node) matches Node::FloatLit { bits, .. } ==> r == Ok::<ValueRef, Error>(
                ValueRef::FloatConst { bits },
            ) && *final(self) == *old(self),
            (*node) matches Node::Return { .. } ==> r matches Err(e) && e.msg@
                == "Node can't be compiled"@ && e.pos == spec_pos(*node),
            (*node) matches Node::Var { name, .. } ==> ({
                let vars = old(self).variables@;
                &&& (!vars.contains_key(name@) ==> (r matches Err(e) && e.msg@
                    == "Unknown variable"@ && e.pos == spec_pos(*node) && *final(self) == *old(
                    self,
                )))
                &&& (vars.contains_key(name@) ==> (match vars[name@].value {
                    ValueRef::Slot { pointee, .. } => ({
                        let i = old(self).builder->Some_0 as int;
                        let f = old(self).module.functions@[i];
                        let g = final(self).module.functions@[i];
                        &&& g.body@ == f.body@.push(
                            Instr::Load { slot: vars[name@].value, ty: pointee },
                        )
                        &&& (r matches Ok(v) && v matches ValueRef::Reg { id, ty } && id
                            == f.body@.len() && ty == pointee)
                        &&& final(self).variables == old(self).variables
                        &&& final(self).builder == old(self).builder
                        &&& final(self).module.functions@.len() == old(
                            self,
                        ).module.functions@.len()
                    }),
                    _ => (r matches Err(e) && e.msg@ == "Variable has no storage"@ && e.pos
                        == spec_pos(*node) && *final(self) == *old(self)),
                }))
            }),
            (*node) matches Node::FunDef { .. } ==> (r matches Ok(v) ==> v matches ValueRef::FnPtr {
                idx,
            } && idx == old(self).module.functions@.len() && (idx as int) < final(self).module.functions@.len() && spec_is_defined(final(self).module.functions@[idx as int])
                && spec_fn_well_formed(final(self).module, idx as int)),
            (*node) matches Node::Extern { .. } ==> (r matches Ok(v) && v matches ValueRef::FnPtr {
                idx,
            } && idx == old(self).module.functions@.len()),
            (*node) matches Node::Extern { ret, .. } ==> ({
                let g = final(self).module.functions@[old(self).module.functions@.len() as int];
                &&& final(self).module.functions@.len() == old(self).module.functions@.len() + 1
                &&& forall|j: int|
                    0 <= j < old(self).module.functions@.len()
                        ==> final(self).module.functions@[j] == old(self).module.functions@[j]
                &&& final(self).variables == old(self).variables
                &&& final(self).builder == old(self).builder
                &&& g.external
                &&& !g.deleted
                &&& g.term is None
                &&& g.ret == crate::ir::spec_to_ir(ret)
                &&& g.body@.len() == 0
            }),
            (*node) matches Node::FunDef { ret, body, .. } ==> ((ret == LangTy::Int && (*body)
                matches Node::IntLit { .. }) ==> r is Ok),
            (*node) matches Node::FunDef { body, .. } ==> (r matches Err(e) ==> ({
                let g = final(self).module.functions@[old(self).module.functions@.len() as int];
                &&& final(self).module.functions@.len() > old(self).module.functions@.len()
                &&& !spec_is_defined(g)
                &&& (g.term is Some ==> g.deleted)
                &&& (g.deleted ==> e.msg@ == "Invalid generated function"@ && e.pos == spec_pos(
                    *body,
                ))
            })),
            ((*node) matches Node::Binary { op, .. } && (op == crate::ast::Op::DoubleEquals || op
                == crate::ast::Op::NotEquals)) ==> (r matches Ok(v) ==> v
                matches ValueRef::IntConst { ty, val } && ty == IrType::I1 && val <= 1),
            (*node) matches Node::Binary { left, op, right, .. } ==> ((*left) matches Node::Var {
                name: n0, ..
            } ==> ((*right) matches Node::Var { name: n1, .. } ==> ({
                let vars = old(self).variables@;
                let i = old(self).builder->Some_0 as int;
                let fb = old(self).module.functions@[i];
                let gb = final(self).module.functions@[i];
                let n = fb.body@.len() as int;
                (vars.contains_key(n0@) && vars.contains_key(n1@)) ==> (vars[n0@].value
                    matches ValueRef::Slot { pointee: t0, .. } ==> (vars[n1@].value
                    matches ValueRef::Slot { pointee: t1, .. } ==> ({
                    &&& ((t0 == IrType::I64 && t1 == IrType::I64) ==> (match crate::operation::spec_int_choice(
                        op,
                    ) {
                        Some(sel) => match sel {
                            crate::operation::IntSel::Arith(k) => {
                                &&& gb.body@.len() == fb.body@.len() + 3
                                &&& (forall|q: int|
                                    0 <= q < n ==> #[trigger] gb.body@[q] == fb.body@[q])
                                &&& gb.body@[n] == (Instr::Load {
                                    slot: vars[n0@].value,
                                    ty: t0,
                                })
                                &&& gb.body@[n + 1] == (Instr::Load {
                                    slot: vars[n1@].value,
                                    ty: t1,
                                })
                                &&& (gb.body@[n + 2] matches Instr::IntBin { op: k2, a, b } && k2
                                    == k && (a matches ValueRef::Reg { id, ty } && id == n && ty
                                    == IrType::I64) && (b matches ValueRef::Reg { id, ty } && id
                                    == n + 1 && ty == IrType::I64))
                                &&& (r matches Ok(v) && v matches ValueRef::Reg { id, ty } && id
                                    == n + 2 && ty == IrType::I64)
                            },
                            crate::operation::IntSel::Cmp(p) => {
                                &&& gb.body@.len() == fb.body@.len() + 3
                                &&& (forall|q: int|
                                    0 <= q < n ==> #[trigger] gb.body@[q] == fb.body@[q])
                                &&& gb.body@[n] == (Instr::Load {
                                    slot: vars[n0@].value,
                                    ty: t0,
                                })
                                &&& gb.body@[n + 1] == (Instr::Load {
                                    slot: vars[n1@].value,
                                    ty: t1,
                                })
                                &&& (gb.body@[n + 2] matches Instr::IntCmp { pred, a, b } && pred
                                    == p && (a matches ValueRef::Reg { id, ty } && id == n && ty
                                    == IrType::I64) && (b matches ValueRef::Reg { id, ty } && id
                                    == n + 1 && ty == IrType::I64))
                                &&& (r matches Ok(v) && v matches ValueRef::Reg { id, ty } && id
                                    == n + 2 && ty == IrType::I1)
                            },
                        },
                        None => true,
                    }))
                    &&& ((t0 == IrType::F64 && t1 == IrType::F64 && crate::operation::spec_float_choice(op)
                        matches Some(crate::operation::FloatSel::Cmp(_))) ==> ({
                        let p = crate::operation::spec_float_choice(op)->Some_0->Cmp_0;
                        &&& gb.body@.len() == fb.body@.len() + 4
                        &&& (forall|q: int| 0 <= q < n ==> #[trigger] gb.body@[q] == fb.body@[q])
                        &&& gb.body@[n] == (Instr::Load { slot: vars[n0@].value, ty: t0 })
                        &&& gb.body@[n + 1] == (Instr::Load { slot: vars[n1@].value, ty: t1 })
                        &&& (gb.body@[n + 2] matches Instr::FloatCmp { pred, a, b } && pred == p
                            && (a matches ValueRef::Reg { id, ty } && id == n && ty
                            == IrType::F64) && (b matches ValueRef::Reg { id, ty } && id == n + 1
                            && ty == IrType::F64))
                        &&& (gb.body@[n + 3] matches Instr::UiToFp { a } && (a
                            matches ValueRef::Reg { id, ty } && id == n + 2 && ty == IrType::I1))
                        &&& (r matches Ok(v) && v matches ValueRef::Reg { id, ty } && id == n + 3
                            && ty == IrType::F64)
                    }))
                })))
            }))),
        decreases *node, 3int,
    {
        match node {
            Node::IntLit { val, .. } => Ok(ValueRef::IntConst { ty: IrType::I64, val: *val }),
            Node::FloatLit { bits, .. } => Ok(ValueRef::FloatConst { bits: *bits }),
            Node::Var { name, pos } => {
                let symopt = self.variables.get(name);
                match symopt {
                    Some(sym) => match sym.value {
                        ValueRef::Slot { func, id, pointee } => {
                            let p = self.emit(Instr::Load { slot: sym.value, ty: pointee });
                            Ok(ValueRef::Reg { id: p, ty: pointee })
                        },
                        _ => Err(self.error(*pos, "Variable has no storage")),
                    },
                    None => Err(self.error(*pos, "Unknown variable")),
                }
            },
            Node::FunDef { .. } => self.fun_decl(node),
            Node::Call { .. } => self.fun_call(node),
            Node::Extern { .. } => self.fun_extern(node),
            Node::Return { .. } => self.ret(node),
            Node::Binary { .. } => self.binary_op(node),
            Node::Unary { .. } => self.unary_op(node),
        }
    }
}

} // verus!
