use vstd::prelude::*;

verus! {

/// One dynamically typed argument value, as a caller supplied it.
pub enum ArgValue {
    Text(String),
    Integer(i128),
    Boolean(bool),
    /// Any other shape (a fraction, a list, an object, null).
    Other,
}

/// An unordered mapping from parameter name to argument value.
///
/// Entries are kept in insertion order; a later entry for a name shadows an
/// earlier one, so each name maps to the value it was last given.
pub struct ArgumentBundle {
    entries: Vec<(String, ArgValue)>,
}

/// The value of the last of the first `n` entries of `s` named `key`.
pub open spec fn find_in_prefix(s: Seq<(String, ArgValue)>, n: int, key: Seq<char>) -> Option<
    ArgValue,
>
    decreases n,
{
    if n <= 0 {
        None
    } else if s[n - 1].0@ == key {
        Some(s[n - 1].1)
    } else {
        find_in_prefix(s, n - 1, key)
    }
}

proof fn lemma_find_push(s: Seq<(String, ArgValue)>, e: (String, ArgValue), n: int, key: Seq<char>)
    requires
        n <= s.len(),
    ensures
        find_in_prefix(s.push(e), n, key) == find_in_prefix(s, n, key),
    decreases n,
{
    if n > 0 {
        lemma_find_push(s, e, n - 1, key);
    }
}

impl ArgumentBundle {
    /// The value that `key` maps to, if any.
    pub closed spec fn lookup(&self, key: Seq<char>) -> Option<ArgValue> {
        find_in_prefix(self.entries@, self.entries@.len() as int, key)
    }

    /// A bundle that maps no name.
    pub fn new() -> (r: Self)
        ensures
            forall|k: Seq<char>| #[trigger] r.lookup(k) is None,
    {
        ArgumentBundle { entries: Vec::new() }
    }

    /// Maps `key` to `value`, replacing what it mapped to before.
    pub fn insert(&mut self, key: String, value: ArgValue)
        ensures
            final(self).lookup(key@) == Some(value),
            forall|k: Seq<char>| k != key@ ==> #[trigger] final(self).lookup(k) == old(self).lookup(k),
    {
        let ghost before = self.entries@;
        self.entries.push((key, value));
        proof {
            assert forall|k: Seq<char>| k != key@ implies #[trigger] self.lookup(k) == find_in_prefix(
                before,
                before.len() as int,
                k,
            ) by {
                lemma_find_push(before, (key, value), before.len() as int, k);
            }
        }
    }

    /// The value that `key` maps to, if any.
    pub fn get(&self, key: &str) -> (r: Option<&ArgValue>)
        ensures
            match r {
                Some(v) => self.lookup(key@) == Some(*v),
                None => self.lookup(key@) is None,
            },
    {
        let wanted = String::from_str(key);
        let mut i: usize = self.entries.len();
        while i > 0
            invariant
                i <= self.entries@.len(),
                wanted@ == key@,
                find_in_prefix(self.entries@, i as int, key@) == self.lookup(key@),
            decreases i,
        {
            if self.entries[i - 1].0 == wanted {
                return Some(&self.entries[i - 1].1);
            }
            i = i - 1;
        }
        None
    }
}

} // verus!
