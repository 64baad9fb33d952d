//! Source-level syntax: typed AST nodes, operator tokens, source positions
//! and the structured error every fallible compilation step returns.

use vstd::prelude::*;

verus! {

/// A position in the source text, carried by every node for diagnostics.
#[derive(Clone, Copy, PartialEq, Eq, Structural, Debug)]
pub struct Pos {
    pub line: u64,
    pub col: u64,
}

/// A structured compile error: a human-readable message and the source
/// position of the node that caused it.
#[derive(Clone, Debug)]
pub struct Error {
    pub msg: String,
    pub pos: Pos,
}

/// Operator tokens. `And` and `Or` stand for the language keywords `and`
/// and `or`; the rest are the symbolic operators.
#[derive(Clone, Copy, PartialEq, Eq, Structural, Debug)]
pub enum Op {
    Plus,
    Minus,
    Multiply,
    Divide,
    LessThan,
    GreaterThan,
    LessThanEquals,
    GreaterThanEquals,
    DoubleEquals,
    NotEquals,
    And,
    Or,
}

/// Source-level types, fully resolved by the type checker before
/// compilation starts.
#[derive(Clone, Copy, PartialEq, Eq, Structural, Debug)]
pub enum LangTy {
    Int,
    Float,
    Void,
    CharPtr,
}

/// The AST shapes this core compiles. Nodes are immutable once parsed;
/// the compiler only reads them.
pub enum Node {
    IntLit { val: u64, pos: Pos },
    FloatLit { bits: u64, pos: Pos },
    Var { name: String, pos: Pos },
    FunDef {
        name: Option<String>,
        params: Vec<(String, LangTy)>,
        ret: LangTy,
        body: Box<Node>,
        pos: Pos,
    },
    Call { callee: Box<Node>, args: Vec<Node>, pos: Pos },
    Extern {
        name: String,
        param_tys: Vec<LangTy>,
        ret: LangTy,
        variadic: bool,
        pos: Pos,
    },
    Return { pos: Pos },
    Binary { left: Box<Node>, op: Op, right: Box<Node>, pos: Pos },
    Unary { op: Op, operand: Box<Node>, pos: Pos },
}

/// The source position a node carries.
pub open spec fn spec_pos(n: Node) -> Pos {
    match n {
        Node::IntLit { pos, .. } => pos,
        Node::FloatLit { pos, .. } => pos,
        Node::Var { pos, .. } => pos,
        Node::FunDef { pos, .. } => pos,
        Node::Call { pos, .. } => pos,
        Node::Extern { pos, .. } => pos,
        Node::Return { pos, .. } => pos,
        Node::Binary { pos, .. } => pos,
        Node::Unary { pos, .. } => pos,
    }
}

/// A node is well formed when every declared parameter type, anywhere in
/// the tree, is a value type: a `Void` parameter has no storable value and
/// no stack slot, so such a declaration never reaches the compiler.
pub open spec fn wf_node(n: Node) -> bool
    decreases n,
{
    match n {
        Node::IntLit { .. } => true,
        Node::FloatLit { .. } => true,
        Node::Var { .. } => true,
        Node::Return { .. } => true,
        Node::FunDef { params, body, .. } => {
            &&& forall|i: int|
                0 <= i < params@.len() ==> (#[trigger] params@[i]).1 != LangTy::Void
            &&& wf_node(*body)
        },
        Node::Call { callee, args, .. } => {
            &&& wf_node(*callee)
            &&& forall|i: int| 0 <= i < args@.len() ==> wf_node(#[trigger] args@[i])
        },
        Node::Extern { param_tys, .. } => forall|i: int|
            0 <= i < param_tys@.len() ==> #[trigger] param_tys@[i] != LangTy::Void,
        Node::Binary { left, right, .. } => wf_node(*left) && wf_node(*right),
        Node::Unary { operand, .. } => wf_node(*operand),
    }
}

/// Every node of the sequence is an integer or float literal.
pub open spec fn spec_all_literals(s: Seq<Node>) -> bool {
    forall|i: int|
        0 <= i < s.len() ==> ((#[trigger] s[i]) matches Node::IntLit { .. } || s[i]
            matches Node::FloatLit { .. })
}

impl Node {
    /// The source position of this node.
    pub fn get_pos(&self) -> (p: Pos)
        ensures
            p == spec_pos(*self),
    {
        match self {
            Node::IntLit { pos, .. } => *pos,
            Node::FloatLit { pos, .. } => *pos,
            Node::Var { pos, .. } => *pos,
            Node::FunDef { pos, .. } => *pos,
            Node::Call { pos, .. } => *pos,
            Node::Extern { pos, .. } => *pos,
            Node::Return { pos, .. } => *pos,
            Node::Binary { pos, .. } => *pos,
            Node::Unary { pos, .. } => *pos,
        }
    }
}

} // verus!
