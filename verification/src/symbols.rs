//! A name-to-value symbol table with last-write-wins semantics: inserting
//! under an existing name overwrites the prior entry, and no duplicate-name
//! error is ever raised.

use crate::helpers::str_eq;
use vstd::prelude::*;

verus! {

/// A symbol table. Its mathematical value is the map from each name that
/// was ever inserted to the value inserted under it last.
pub struct SymbolTable<V> {
    entries: Vec<(String, V)>,
}

/// The map that a sequence of insertions builds up, later entries
/// overwriting earlier ones.
pub open spec fn entries_map<V>(s: Seq<(String, V)>) -> Map<Seq<char>, V>
    decreases s.len(),
{
    if s.len() == 0 {
        Map::empty()
    } else {
        entries_map(s.drop_last()).insert(s.last().0@, s.last().1)
    }
}

impl<V> View for SymbolTable<V> {
    type V = Map<Seq<char>, V>;

    closed spec fn view(&self) -> Map<Seq<char>, V> {
        entries_map(self.entries@)
    }
}

impl<V> SymbolTable<V> {
    /// An empty table.
    pub fn new() -> (r: SymbolTable<V>)
        ensures
            r@ == Map::<Seq<char>, V>::empty(),
    {
        SymbolTable { entries: Vec::new() }
    }

    /// Register `value` under `key`. A prior entry under the same key is
    /// overwritten: the table maps each name to the value written last.
    pub fn insert(&mut self, key: String, value: V)
        ensures
            final(self)@ == old(self)@.insert(key@, value),
    {
        self.entries.push((key, value));
        proof {
            assert(self.entries@.drop_last() =~= old(self).entries@);
        }
    }

    /// Look up the value registered under `key` last, if any.
    pub fn get(&self, key: &str) -> (r: Option<&V>)
        ensures
            r is Some <==> self@.contains_key(key@),
            r matches Some(v) ==> self@.contains_key(key@) && *v == self@[key@],
    {
        let mut i = self.entries.len();
        proof {
            assert(self.entries@.take(self.entries@.len() as int) =~= self.entries@);
        }
        while i > 0
            invariant
                i <= self.entries@.len(),
                self@.contains_key(key@) <==> entries_map(
                    self.entries@.take(i as int),
                ).contains_key(key@),
                entries_map(self.entries@.take(i as int)).contains_key(key@)
                    ==> entries_map(self.entries@.take(i as int))[key@] == self@[key@],
            decreases i,
        {
            i = i - 1;
            if str_eq(self.entries[i].0.as_str(), key) {
                proof {
                    assert(self.entries@.take(i + 1 as int).last() == self.entries@[i as int]);
                    assert(entries_map(self.entries@.take(i + 1 as int))[key@]
                        == self.entries@[i as int].1);
                }
                return Some(&self.entries[i].1);
            }
            proof {
                assert(self.entries@.take(i + 1 as int).drop_last() =~= self.entries@.take(
                    i as int,
                ));
                assert(self.entries@.take(i + 1 as int).last() == self.entries@[i as int]);
            }
        }
        proof {
            assert(self.entries@.take(0) =~= Seq::<(String, V)>::empty());
        }
        None
    }

    /// Whether any value is registered under `key`.
    pub fn contains_key(&self, key: &str) -> (r: bool)
        ensures
            r == self@.contains_key(key@),
    {
        match self.get(key) {
            Some(_) => true,
            None => false,
        }
    }
}

} // verus!
