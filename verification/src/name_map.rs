//! Tables keyed by name.
//!
//! The constants of a program and the variables that a hint may read are both
//! looked up by name. A [`NameMap`] keeps its entries in the order in which
//! they were added; a later entry of the same name replaces an earlier one.

use vstd::prelude::*;
use vstd::string::StringExecFns;

verus! {

/// The map that a list of entries stands for: each entry overrides those
/// before it.
pub open spec fn entries_map<V>(entries: Seq<(String, V)>) -> Map<Seq<char>, V>
    decreases entries.len(),
{
    if entries.len() == 0 {
        Map::empty()
    } else {
        entries_map(entries.drop_last()).insert(entries.last().0@, entries.last().1)
    }
}

/// A table from names to values.
pub struct NameMap<V> {
    entries: Vec<(String, V)>,
}

impl<V> View for NameMap<V> {
    type V = Map<Seq<char>, V>;

    closed spec fn view(&self) -> Map<Seq<char>, V> {
        entries_map(self.entries@)
    }
}

impl<V> NameMap<V> {
    /// The empty table.
    pub fn new() -> (r: NameMap<V>)
        ensures
            r@ == Map::<Seq<char>, V>::empty(),
    {
        NameMap { entries: Vec::new() }
    }

    /// Binds `name` to `value`, in place of what it was bound to before.
    pub fn insert(&mut self, name: &str, value: V)
        ensures
            final(self)@ == old(self)@.insert(name@, value),
    {
        let key = String::from_str(name);
        self.entries.push((key, value));
        assert(self.entries@.drop_last() == old(self).entries@);
    }

    /// What `name` is bound to.
    pub fn get(&self, name: &str) -> (r: Option<&V>)
        ensures
            match r {
                Some(value) => self@.contains_key(name@) && *value == self@[name@],
                None => !self@.contains_key(name@),
            },
    {
        let key = String::from_str(name);
        let mut i = self.entries.len();
        assert(self.entries@.subrange(0, i as int) == self.entries@);
        while i > 0
            invariant
                i <= self.entries@.len(),
                key@ == name@,
                entries_map(self.entries@).contains_key(name@) == entries_map(
                    self.entries@.subrange(0, i as int),
                ).contains_key(name@),
                entries_map(self.entries@).contains_key(name@) ==> entries_map(self.entries@)[name@] == entries_map(
                    self.entries@.subrange(0, i as int),
                )[name@],
            decreases i,
        {
            let ghost prefix = self.entries@.subrange(0, i as int);
            assert(prefix.drop_last() == self.entries@.subrange(0, i - 1));
            assert(prefix.last() == self.entries@[i - 1]);
            i -= 1;
            if self.entries[i].0 == key {
                return Some(&self.entries[i].1);
            }
        }
        assert(self.entries@.subrange(0, 0) =~= Seq::<(String, V)>::empty());
        None
    }
}

} // verus!
