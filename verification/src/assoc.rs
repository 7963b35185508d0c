//! A small string-keyed association container used by the override resolver.
//!
//! Entries are kept newest-first, so a lookup returns the value of the latest
//! insertion for a key: exactly the "last writer wins" rule of the directive
//! language.
use crate::strutil::str_eq;
use vstd::prelude::*;

verus! {

/// Returns the value of the newest entry whose key reads `k`, if any.
pub open spec fn assoc_lookup<V>(s: Seq<(String, V)>, k: Seq<char>) -> Option<V>
    decreases s.len(),
{
    if s.len() == 0 {
        None
    } else if s[0].0@ == k {
        Some(s[0].1)
    } else {
        assoc_lookup(s.drop_first(), k)
    }
}

/// A mapping from strings to values with "last writer wins" update semantics.
#[derive(Debug)]
pub struct StrMap<V> {
    /// The bindings, newest first.
    pub entries: Vec<(String, V)>,
}

impl<V> StrMap<V> {
    /// The value currently bound to key `k`, if any.
    pub open spec fn spec_get(self, k: Seq<char>) -> Option<V> {
        assoc_lookup(self.entries@, k)
    }

    /// An empty mapping.
    pub fn new() -> (r: StrMap<V>)
        ensures
            forall|k: Seq<char>| r.spec_get(k) is None,
    {
        StrMap { entries: Vec::new() }
    }

    /// Binds `k` to `v`, replacing any earlier binding of `k` and leaving
    /// every other key untouched.
    pub fn set_value(&mut self, k: &str, v: V)
        ensures
            final(self).spec_get(k@) == Some(v),
            forall|k2: Seq<char>| k2 != k@ ==> final(self).spec_get(k2) == old(self).spec_get(k2),
    {
        let ghost pre = self.entries@;
        self.entries.insert(0, (k.to_owned(), v));
        proof {
            assert(self.entries@.drop_first() =~= pre);
        }
    }

    /// Looks the key up, returning a reference to its current value.
    pub fn get_value(&self, k: &str) -> (r: Option<&V>)
        ensures
            match r {
                Some(v) => self.spec_get(k@) == Some(*v),
                None => self.spec_get(k@) is None,
            },
    {
        let n = self.entries.len();
        let mut i: usize = 0;
        proof {
            assert(self.entries@.skip(0) =~= self.entries@);
        }
        while i < n
            invariant
                n == self.entries@.len(),
                i <= n,
                assoc_lookup(self.entries@, k@) == assoc_lookup(self.entries@.skip(i as int), k@),
            decreases n - i,
        {
            let entry = &self.entries[i];
            let ghost rest = self.entries@.skip(i as int);
            proof {
                assert(rest[0] == self.entries@[i as int]);
                assert(rest.drop_first() =~= self.entries@.skip(i as int + 1));
            }
            if str_eq(entry.0.as_str(), k) {
                return Some(&entry.1);
            }
            i = i + 1;
        }
        proof {
            assert(self.entries@.skip(n as int) =~= Seq::<(String, V)>::empty());
        }
        None
    }
}

} // verus!
