//! Code-generation core of a small imperative language: it lowers a typed
//! abstract syntax tree into a module of single-entry-block functions in a
//! low-level SSA form, with type-directed instruction selection, a scoped
//! symbol table, foreign declarations, indirect calls, and structural
//! verification of every completed function.

pub mod ast;
pub mod eval;
pub mod fbits;
pub mod function;
pub mod ir;
pub mod names;
pub mod operation;
pub mod symbol;

use vstd::prelude::*;
use crate::ast::Error;
use crate::ast::Node;
use crate::ast::Pos;
use crate::ir::Instr;
use crate::ir::IrFunction;
use crate::ir::IrModule;
use crate::symbol::SymTable;

verus! {

/// What every compilation step preserves of a function already in the
/// module: its signature and linkage; a deleted function stays deleted;
/// and a completed function (terminator set) is never touched again.
pub open spec fn sig_keeps(f: IrFunction, g: IrFunction) -> bool {
    &&& g.name@ == f.name@
    &&& g.params@.len() == f.params@.len()
    &&& forall|i: int|
        0 <= i < f.params@.len() ==> (#[trigger] g.params@[i]).1 == f.params@[i].1
            && g.params@[i].0@ == f.params@[i].0@
    &&& g.ret == f.ret
    &&& g.variadic == f.variadic
    &&& g.external == f.external
    &&& (f.deleted ==> g.deleted)
    &&& (f.term is Some ==> g.term == f.term && g.body@ == f.body@ && g.deleted == f.deleted)
}

/// How a module may evolve under compilation: functions are only added,
/// and the ones already present keep what `sig_keeps` states.
pub open spec fn module_extends(a: IrModule, b: IrModule) -> bool {
    &&& a.functions@.len() <= b.functions@.len()
    &&& forall|i: int|
        0 <= i < a.functions@.len() ==> sig_keeps(a.functions@[i], #[trigger] b.functions@[i])
}

/// `module_extends` is transitive.
pub proof fn lemma_extends_trans(a: IrModule, b: IrModule, c: IrModule)
    requires
        module_extends(a, b),
        module_extends(b, c),
    ensures
        module_extends(a, c),
{
    assert forall|i: int| 0 <= i < a.functions@.len() implies sig_keeps(
        a.functions@[i],
        #[trigger] c.functions@[i],
    ) by {
        assert(sig_keeps(a.functions@[i], b.functions@[i]));
        assert(sig_keeps(b.functions@[i], c.functions@[i]));
    }
}

/// A function whose body is still open (no terminator) stays open: only
/// the compilation that created a function ever sets its terminator, so
/// every step keeps the terminators of the functions that existed before
/// it unset or untouched.
pub open spec fn terms_keep(a: IrModule, b: IrModule) -> bool {
    forall|i: int|
        0 <= i < a.functions@.len() && a.functions@[i].term is None && !a.functions@[i].deleted
            ==> (#[trigger] b.functions@[i]).term is None && !b.functions@[i].deleted
}

/// `module_extends` and `terms_keep` compose over a sequence of steps.
pub proof fn lemma_evolve_trans(a: IrModule, b: IrModule, c: IrModule)
    requires
        module_extends(a, b),
        terms_keep(a, b),
        module_extends(b, c),
        terms_keep(b, c),
    ensures
        module_extends(a, c),
        terms_keep(a, c),
{
    lemma_extends_trans(a, b, c);
    assert forall|i: int|
        0 <= i < a.functions@.len() && a.functions@[i].term is None && !a.functions@[i].deleted
            implies (#[trigger] c.functions@[i]).term is None && !c.functions@[i].deleted by {
        assert(b.functions@[i].term is None && !b.functions@[i].deleted);
    }
}

/// What a compilation step leaves untouched: every function of the
/// module other than the one the builder is positioned on. Only the
/// builder's target receives instructions; new functions are only
/// appended.
pub open spec fn frames_rest(a: Compiler, b: Compiler) -> bool {
    forall|j: int|
        0 <= j < a.module.functions@.len() && (a.builder matches Some(i) ==> j != i)
            ==> #[trigger] b.module.functions@[j] == a.module.functions@[j]
}

/// `frames_rest` composes over steps that keep the builder in place.
pub proof fn lemma_frames_trans(a: Compiler, b: Compiler, c: Compiler)
    requires
        a.builder == b.builder,
        a.module.functions@.len() <= b.module.functions@.len(),
        frames_rest(a, b),
        frames_rest(b, c),
    ensures
        frames_rest(a, c),
{
    assert forall|j: int|
        0 <= j < a.module.functions@.len() && (a.builder matches Some(i) ==> j != i) implies (
    #[trigger] c.module.functions@[j]) == a.module.functions@[j] by {
        assert(b.module.functions@[j] == a.module.functions@[j]);
    }
}

/// Bindings are only added or shadowed, never removed: a name bound in
/// the symbol table stays bound through every compilation step, though a
/// nested definition's parameters may shadow it with new storage.
pub open spec fn vars_keep(a: Compiler, b: Compiler) -> bool {
    forall|k: Seq<char>|
        a.variables@.contains_key(k) ==> #[trigger] b.variables@.contains_key(k)
}

/// `vars_keep` composes over steps.
pub proof fn lemma_vars_trans(a: Compiler, b: Compiler, c: Compiler)
    requires
        vars_keep(a, b),
        vars_keep(b, c),
    ensures
        vars_keep(a, c),
{
    assert forall|k: Seq<char>| a.variables@.contains_key(k) implies #[trigger] c.variables@.contains_key(
        k,
    ) by {
        assert(b.variables@.contains_key(k));
    }
}

/// Whether compiling this node may append instructions, so that the
/// builder must be positioned on an open block first. Literals, function
/// definitions, foreign declarations and the uncompilable return node
/// never append to the current block.
pub open spec fn spec_needs_block(n: Node) -> bool {
    match n {
        Node::IntLit { .. } => false,
        Node::FloatLit { .. } => false,
        Node::FunDef { .. } => false,
        Node::Extern { .. } => false,
        Node::Return { .. } => false,
        Node::Var { .. } => true,
        Node::Call { .. } => true,
        Node::Binary { .. } => true,
        Node::Unary { .. } => true,
    }
}

/// The single mutable compilation context: the target module, the
/// builder's insertion point (the function whose entry block receives new
/// instructions), the function currently being compiled, and the symbol
/// table of that function.
pub struct Compiler {
    pub module: IrModule,
    /// The insertion point: index of the function whose entry block new
    /// instructions are appended to, or `None` when not positioned.
    pub builder: Option<usize>,
    /// The function currently being compiled, restored around nested
    /// function definitions.
    pub fn_value_opt: Option<usize>,
    pub variables: SymTable,
}

impl Compiler {
    /// The context is well formed: the insertion point, if set, names a
    /// function of the module.
    pub open spec fn wf(self) -> bool {
        match self.builder {
            None => true,
            Some(i) => i < self.module.functions@.len(),
        }
    }

    /// Instructions can be appended: the builder is positioned on a
    /// function whose body is still open (no terminator yet).
    pub open spec fn can_emit(self) -> bool {
        match self.builder {
            None => false,
            Some(i) => {
                &&& i < self.module.functions@.len()
                &&& self.module.functions@[i as int].term is None
                &&& !self.module.functions@[i as int].deleted
            },
        }
    }

    /// A fresh context over an empty module.
    pub fn new() -> (c: Compiler)
        ensures
            c.module.functions@.len() == 0,
            c.builder is None,
            c.fn_value_opt is None,
            c.wf(),
    {
        Compiler {
            module: IrModule::new(),
            builder: None,
            fn_value_opt: None,
            variables: SymTable::new(),
        }
    }

    /// Build the structured error every fallible step returns.
    pub fn error(&self, pos: Pos, description: &str) -> (e: Error)
        ensures
            e.msg@ == description@,
            e.pos == pos,
    {
        Error { msg: description.to_owned(), pos }
    }

    /// Append one instruction to the entry block the builder points at and
    /// return its position, which is also the register it defines.
    fn emit(&mut self, ins: Instr) -> (pos: usize)
        requires
            old(self).can_emit(),
        ensures
            final(self).builder == old(self).builder,
            final(self).fn_value_opt == old(self).fn_value_opt,
            final(self).variables == old(self).variables,
            ({
                let i = old(self).builder->Some_0 as int;
                let f = old(self).module.functions@[i];
                let g = final(self).module.functions@[i];
                &&& pos == f.body@.len()
                &&& final(self).module.functions@.len() == old(self).module.functions@.len()
                &&& forall|j: int|
                    0 <= j < old(self).module.functions@.len() && j != i
                        ==> final(self).module.functions@[j] == old(
                        self,
                    ).module.functions@[j]
                &&& g.body@ == f.body@.push(ins)
                &&& g.name == f.name
                &&& g.params == f.params
                &&& g.ret == f.ret
                &&& g.variadic == f.variadic
                &&& g.external == f.external
                &&& g.term == f.term
                &&& g.deleted == f.deleted
            }),
            final(self).can_emit(),
            final(self).wf(),
            module_extends(old(self).module, final(self).module),
            terms_keep(old(self).module, final(self).module),
            frames_rest(*old(self), *final(self)),
    {
        let i = match self.builder {
            Some(i) => i,
            None => {
                proof {
                    assert(false);
                }
                0
            },
        };
        let ghost mold = self.module;
        let f = &mut self.module.functions[i];
        let pos = f.body.len();
        f.body.push(ins);
        proof {
            assert forall|j: int| 0 <= j < mold.functions@.len() implies sig_keeps(
                mold.functions@[j],
                #[trigger] self.module.functions@[j],
            ) by {}
        }
        pos
    }
}

} // verus!
