//! A chain of symbol tables: each scope has its own table and sees the
//! names of the tables it is nested in.
use vstd::prelude::*;
use crate::values::value_type::{ValueType, SpecType};

verus! {

/// A declared name: its type and whether it may be assigned to.
#[derive(Debug)]
pub struct Symbol {
    pub value_type: ValueType,
    pub is_mutable: bool,
}

impl Symbol {
    pub fn new(value_type: ValueType, is_mutable: bool) -> (r: Self)
        ensures
            r.value_type == value_type,
            r.is_mutable == is_mutable,
    {
        Symbol { value_type, is_mutable }
    }

    pub fn is_mutable(&self) -> (r: bool)
        ensures
            r == self.is_mutable,
    {
        self.is_mutable
    }

    pub fn value_type(&self) -> (r: &ValueType)
        ensures
            *r == self.value_type,
    {
        &self.value_type
    }
}

/// The place of the first entry named `name` in `s`, searching from `i` on.
pub open spec fn find_from(s: Seq<(String, Symbol)>, name: Seq<char>, i: int) -> Option<int>
    decreases s.len() - i,
{
    if i < 0 || i >= s.len() {
        None
    } else if s[i].0@ == name {
        Some(i)
    } else {
        find_from(s, name, i + 1)
    }
}

/// The place of the entry named `name` in `s`.
pub open spec fn find_name(s: Seq<(String, Symbol)>, name: Seq<char>) -> Option<int> {
    find_from(s, name, 0)
}

/// No two entries of `s` have the same name.
pub open spec fn distinct_names(s: Seq<(String, Symbol)>) -> bool {
    forall|i: int, j: int| 0 <= i < j < s.len() ==> s[i].0@ != s[j].0@
}

/// The symbols of one scope, and the table of the scope around it.
#[derive(Debug)]
pub struct SymbolTable {
    pub symbols: Vec<(String, Symbol)>,
    pub parent: Option<Box<SymbolTable>>,
}

impl SymbolTable {
    /// Each table of the chain holds each name at most once.
    pub open spec fn wf(self) -> bool
        decreases self,
    {
        &&& distinct_names(self.symbols@)
        &&& match self.parent {
            Some(p) => p.wf(),
            None => true,
        }
    }

    /// Whether `name` is declared in this table or in one around it.
    pub open spec fn spec_has(self, name: Seq<char>) -> bool
        decreases self,
    {
        find_name(self.symbols@, name) is Some || match self.parent {
            Some(p) => p.spec_has(name),
            None => false,
        }
    }

    /// Whether the nearest declaration of `name` is mutable; false where
    /// there is none.
    pub open spec fn spec_is_mutable(self, name: Seq<char>) -> bool
        decreases self,
    {
        match find_name(self.symbols@, name) {
            Some(i) => self.symbols@[i].1.is_mutable,
            None => match self.parent {
                Some(p) => p.spec_is_mutable(name),
                None => false,
            },
        }
    }

    pub fn new(parent: Option<Box<SymbolTable>>) -> (r: Self)
        ensures
            r.symbols@ == Seq::<(String, Symbol)>::empty(),
            r.parent == parent,
    {
        SymbolTable { symbols: Vec::new(), parent }
    }

    pub fn symbols(&self) -> (r: &Vec<(String, Symbol)>)
        ensures
            *r == self.symbols,
    {
        &self.symbols
    }

    pub fn parent(&self) -> (r: &Option<Box<SymbolTable>>)
        ensures
            *r == self.parent,
    {
        &self.parent
    }

    /// The place of `name` among the symbols of this table alone.
    fn find_own(&self, name: &str) -> (r: Option<usize>)
        ensures
            match r {
                Some(i) => i < self.symbols@.len() && find_name(self.symbols@, name@) == Some(i as int),
                None => find_name(self.symbols@, name@) is None,
            },
    {
        let mut i: usize = 0;
        while i < self.symbols.len()
            invariant
                i <= self.symbols@.len(),
                find_from(self.symbols@, name@, 0) == find_from(self.symbols@, name@, i as int),
            decreases self.symbols@.len() - i,
        {
            if crate::text::str_eq(self.symbols[i].0.as_str(), name) {
                return Some(i);
            }
            i = i + 1;
        }
        None
    }

    pub fn has(&self, name: &str) -> (r: bool)
        ensures
            r == self.spec_has(name@),
        decreases self,
    {
        if self.find_own(name).is_some() {
            return true;
        }
        match &self.parent {
            Some(p) => p.has(name),
            None => false,
        }
    }

    pub fn is_mutable(&self, name: &str) -> (r: bool)
        ensures
            r == self.spec_is_mutable(name@),
        decreases self,
    {
        match self.find_own(name) {
            Some(i) => self.symbols[i].1.is_mutable(),
            None => match &self.parent {
                Some(p) => p.is_mutable(name),
                None => false,
            },
        }
    }

    /// The symbol `name` in this table. A name that only a table around
    /// this one declares is not found.
    pub fn get(&self, name: &str) -> (r: Option<&Symbol>)
        ensures
            r == (match find_name(self.symbols@, name@) {
                Some(i) => Some(&self.symbols@[i].1),
                None => None,
            }),
    {
        if self.has(name) {
            return match self.find_own(name) {
                Some(i) => Some(&self.symbols[i].1),
                None => None,
            };
        }
        None
    }

    /// Declares `name` in this table, unless it is already declared here or
    /// in a table around this one; says whether it did.
    pub fn declare(&mut self, name: &str, symbol: Symbol) -> (r: bool)
        ensures
            r == !old(self).spec_has(name@),
            r ==> final(self).symbols@ == old(self).symbols@.push((final(self).symbols@.last().0, symbol)),
            r ==> final(self).symbols@.last().0@ == name@,
            !r ==> final(self).symbols@ == old(self).symbols@,
            final(self).parent == old(self).parent,
            old(self).wf() ==> final(self).wf(),
    {
        if self.has(name) {
            return false;
        }

        self.symbols.push((crate::text::string_of(name), symbol));
        proof {
            assert(forall|i: int| 0 <= i < old(self).symbols@.len() ==> #[trigger] old(self).symbols@[i].0@ != name@) by {
                lemma_find_none(old(self).symbols@, name@, 0);
            }
        }
        true
    }
}

/// Where the search from `i` finds nothing, no entry from `i` on has the
/// name.
proof fn lemma_find_none(s: Seq<(String, Symbol)>, name: Seq<char>, i: int)
    requires
        0 <= i,
        find_from(s, name, i) is None,
    ensures
        forall|j: int| i <= j < s.len() ==> #[trigger] s[j].0@ != name,
    decreases s.len() - i,
{
    if i < s.len() {
        lemma_find_none(s, name, i + 1);
    }
}

/// Declaring a name that the chain does not hold yet, as `declare` does,
/// makes the table find it, as its last symbol, with the mutability of the
/// new symbol.
pub proof fn law_declared_is_found(before: SymbolTable, after: SymbolTable, name: Seq<char>, symbol: Symbol)
    requires
        !before.spec_has(name),
        after.symbols@ == before.symbols@.push((after.symbols@.last().0, symbol)),
        after.symbols@.last().0@ == name,
        after.parent == before.parent,
    ensures
        after.spec_has(name),
        find_name(after.symbols@, name) == Some(before.symbols@.len() as int),
        after.spec_is_mutable(name) == symbol.is_mutable,
{
    lemma_find_none(before.symbols@, name, 0);
    assert forall|j: int| 0 <= j < after.symbols@.len() - 1 implies #[trigger] after.symbols@[j].0@ != name by {
        assert(after.symbols@[j] == before.symbols@[j]);
    }
    lemma_find_last(after.symbols@, name, 0);
}

/// In a sequence whose last entry alone has the name, the search finds the
/// last entry.
proof fn lemma_find_last(s: Seq<(String, Symbol)>, name: Seq<char>, i: int)
    requires
        0 <= i < s.len(),
        s.last().0@ == name,
        forall|j: int| i <= j < s.len() - 1 ==> #[trigger] s[j].0@ != name,
    ensures
        find_from(s, name, i) == Some(s.len() - 1),
    decreases s.len() - i,
{
    if i < s.len() - 1 {
        lemma_find_last(s, name, i + 1);
    }
}

} // verus!
