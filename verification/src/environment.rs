//! The variable environment: a name-to-string store. Assignments are
//! appended; a lookup scans from the most recent entry backwards, so the
//! latest assignment to a name wins.

use vstd::prelude::*;
use crate::text::str_eq;

verus! {

/// What a name resolves to in a store: the value of its most recent
/// assignment, or nothing if it was never assigned.
pub open spec fn lookup(entries: Seq<(String, String)>, name: Seq<char>) -> Option<Seq<char>>
    decreases entries.len(),
{
    if entries.len() == 0 {
        None
    } else if entries.last().0@ == name {
        Some(entries.last().1@)
    } else {
        lookup(entries.drop_last(), name)
    }
}

/// Assigning a name and then resolving it yields exactly the assigned
/// value, whatever the store held before.
pub proof fn lemma_environment_round_trip(
    entries: Seq<(String, String)>,
    name: String,
    value: String,
)
    ensures
        lookup(entries.push((name, value)), name@) == Some(value@),
{
    assert(entries.push((name, value)).last() == (name, value));
}

/// A name-to-string variable store.
#[derive(Debug)]
pub struct Environment {
    pub entries: Vec<(String, String)>,
}

impl Environment {
    /// An empty store: every lookup fails.
    pub fn new() -> (r: Self)
        ensures
            r.entries@.len() == 0,
    {
        Environment { entries: Vec::new() }
    }

    /// Record an assignment. Later lookups of `name` now yield `value`;
    /// every other name is unaffected.
    pub fn set_variable(&mut self, name: String, value: String)
        ensures
            final(self).entries@ == old(self).entries@.push((name, value)),
    {
        self.entries.push((name, value));
    }

    /// Resolve a name to the value of its most recent assignment.
    pub fn get_variable(&self, name: &str) -> (r: Option<String>)
        ensures
            match r {
                Some(v) => lookup(self.entries@, name@) == Some(v@),
                None => lookup(self.entries@, name@) is None,
            },
    {
        let n: usize = self.entries.len();
        let mut i: usize = n;
        assert(self.entries@.subrange(0, n as int) =~= self.entries@);
        while i > 0
            invariant
                i <= n,
                n == self.entries@.len(),
                lookup(self.entries@, name@) == lookup(
                    self.entries@.subrange(0, i as int),
                    name@,
                ),
            decreases i,
        {
            i = i - 1;
            let entry_name: &String = &self.entries[i].0;
            proof {
                assert(self.entries@.subrange(0, i as int + 1).last() == self.entries@[i as int]);
                assert(self.entries@.subrange(0, i as int + 1).drop_last() =~= self.entries@
                    .subrange(0, i as int));
            }
            if str_eq(entry_name.as_str(), name) {
                return Some(self.entries[i].1.clone());
            }
        }
        assert(self.entries@.subrange(0, 0) =~= Seq::<(String, String)>::empty());
        None
    }
}

} // verus!
