//! The scoped symbol table: source names bound to storage locations, with
//! a mutability mark. Re-inserting a name shadows the earlier binding;
//! only the latest binding per name is visible.

use vstd::prelude::*;
use crate::ir::ValueRef;

verus! {

/// One bound name: its storage location and whether the binding may be
/// written to again after initialization.
#[derive(Clone, Copy, Debug)]
pub struct Symbol {
    pub value: ValueRef,
    pub reassignable: bool,
}

impl Symbol {
    /// Bind a storage location with the given mutability mark.
    pub fn new(value: ValueRef, reassignable: bool) -> (s: Symbol)
        ensures
            s.value == value,
            s.reassignable == reassignable,
    {
        Symbol { value, reassignable }
    }
}

/// The map a sequence of bindings denotes: later entries shadow earlier
/// ones with the same name.
pub open spec fn spec_bindings(s: Seq<(String, Symbol)>) -> Map<Seq<char>, Symbol>
    decreases s.len(),
{
    if s.len() == 0 {
        Map::empty()
    } else {
        spec_bindings(s.drop_last()).insert(s.last().0@, s.last().1)
    }
}

/// The symbol table of the function currently being compiled.
pub struct SymTable {
    pub entries: Vec<(String, Symbol)>,
}

impl SymTable {
    /// The name-to-symbol map this table currently denotes.
    pub open spec fn view(&self) -> Map<Seq<char>, Symbol> {
        spec_bindings(self.entries@)
    }

    /// An empty table.
    pub fn new() -> (t: SymTable)
        ensures
            t@ == Map::<Seq<char>, Symbol>::empty(),
    {
        let t = SymTable { entries: Vec::new() };
        proof {
            assert(t.entries@.len() == 0);
        }
        t
    }

    /// Bind `name` to `sym`, shadowing any earlier binding of that name.
    pub fn insert(&mut self, name: String, sym: Symbol)
        ensures
            final(self)@ == old(self)@.insert(name@, sym),
    {
        let ghost before = self.entries@;
        self.entries.push((name, sym));
        proof {
            assert(self.entries@.drop_last() =~= before);
        }
    }

    /// The latest binding of the entries up to (excluding) index `j`.
    fn get_upto(&self, name: &String, j: usize) -> (r: Option<Symbol>)
        requires
            j <= self.entries@.len(),
        ensures
            r == if spec_bindings(self.entries@.take(j as int)).contains_key(name@) {
                Some(spec_bindings(self.entries@.take(j as int))[name@])
            } else {
                Option::<Symbol>::None
            },
        decreases j,
    {
        if j == 0 {
            proof {
                assert(self.entries@.take(0) =~= Seq::<(String, Symbol)>::empty());
            }
            None
        } else {
            let ghost pre = self.entries@.take(j as int);
            proof {
                assert(pre.drop_last() =~= self.entries@.take(j as int - 1));
                assert(pre.last() == self.entries@[j as int - 1]);
            }
            let entry = &self.entries[j - 1];
            if entry.0 == *name {
                Some(entry.1)
            } else {
                self.get_upto(name, j - 1)
            }
        }
    }

    /// Look up the latest binding of `name`, if any.
    pub fn get(&self, name: &String) -> (r: Option<Symbol>)
        ensures
            r == if self@.contains_key(name@) {
                Some(self@[name@])
            } else {
                Option::<Symbol>::None
            },
    {
        let n = self.entries.len();
        proof {
            assert(self.entries@.take(n as int) =~= self.entries@);
        }
        self.get_upto(name, n)
    }
}

} // verus!
