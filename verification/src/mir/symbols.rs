//! The symbol table: the value of each label and each constant, by name.
use vstd::hash_map::StringHashMap;
use vstd::prelude::*;

verus! {

/// A table from names to values. Names are compared letter for letter.
pub struct SymbolTable {
    names: StringHashMap<i32>,
}

impl View for SymbolTable {
    type V = Map<Seq<char>, i32>;

    closed spec fn view(&self) -> Map<Seq<char>, i32> {
        self.names@
    }
}

/// The value that a table gives to a name, if it holds the name.
pub open spec fn lookup(symbols: Map<Seq<char>, i32>, name: Seq<char>) -> Option<i32> {
    if symbols.contains_key(name) {
        Some(symbols[name])
    } else {
        None
    }
}

impl SymbolTable {
    /// A table that holds no name.
    pub fn new() -> (table: SymbolTable)
        ensures
            table@ == Map::<Seq<char>, i32>::empty(),
    {
        SymbolTable { names: StringHashMap::new() }
    }

    /// Whether the table holds the name.
    pub fn contains(&self, name: &str) -> (r: bool)
        ensures
            r == self@.contains_key(name@),
    {
        self.names.contains_key(name)
    }

    /// The value of a name.
    pub fn get(&self, name: &str) -> (r: Option<i32>)
        ensures
            r == lookup(self@, name@),
    {
        match self.names.get(name) {
            Some(v) => Some(*v),
            None => None,
        }
    }

    /// Gives a name a value, and returns the value that it had before.
    pub fn insert(&mut self, name: String, value: i32) -> (previous: Option<i32>)
        ensures
            final(self)@ == old(self)@.insert(name@, value),
            previous == lookup(old(self)@, name@),
    {
        let previous = self.get(name.as_str());
        self.names.insert(name, value);
        previous
    }
}

} // verus!
