//! The values a preference form has collected, keyed by field.
use vstd::prelude::*;

use crate::message::FieldValue;

verus! {

/// The map that a sequence of entries stands for: a later entry wins.
pub open spec fn map_of(s: Seq<(String, FieldValue)>) -> Map<Seq<char>, FieldValue>
    decreases s.len(),
{
    if s.len() == 0 {
        Map::empty()
    } else {
        map_of(s.drop_last()).insert(s.last().0@, s.last().1)
    }
}

/// No two entries share a key.
pub open spec fn keys_unique(s: Seq<(String, FieldValue)>) -> bool {
    forall|i: int, j: int| 0 <= i < s.len() && 0 <= j < s.len() && i != j ==> s[i].0@ != s[j].0@
}

proof fn lemma_map_of_absent(s: Seq<(String, FieldValue)>, k: Seq<char>)
    requires
        forall|i: int| 0 <= i < s.len() ==> s[i].0@ != k,
    ensures
        !map_of(s).contains_key(k),
    decreases s.len(),
{
    if s.len() > 0 {
        lemma_map_of_absent(s.drop_last(), k);
    }
}

proof fn lemma_map_of_index(s: Seq<(String, FieldValue)>, i: int)
    requires
        keys_unique(s),
        0 <= i < s.len(),
    ensures
        map_of(s).contains_key(s[i].0@),
        map_of(s)[s[i].0@] == s[i].1,
    decreases s.len(),
{
    if i < s.len() - 1 {
        lemma_map_of_index(s.drop_last(), i);
    }
}

proof fn lemma_map_of_update(s: Seq<(String, FieldValue)>, i: int, e: (String, FieldValue))
    requires
        keys_unique(s),
        0 <= i < s.len(),
        s[i].0@ == e.0@,
    ensures
        map_of(s.update(i, e)) == map_of(s).insert(e.0@, e.1),
    decreases s.len(),
{
    let t = s.update(i, e);
    if i == s.len() - 1 {
        assert(t.drop_last() =~= s.drop_last());
        assert(map_of(t) =~= map_of(s).insert(e.0@, e.1));
    } else {
        assert(t.drop_last() =~= s.drop_last().update(i, e));
        lemma_map_of_update(s.drop_last(), i, e);
        assert(s.last().0@ != e.0@);
        assert(map_of(t) =~= map_of(s).insert(e.0@, e.1));
    }
}

/// The values collected from a preference form: at most one value per field
/// key, a new value for a key replacing the old one.
#[derive(Debug, Clone)]
pub struct PreferenceValues {
    entries: Vec<(String, FieldValue)>,
}

impl PreferenceValues {
    pub closed spec fn view(&self) -> Map<Seq<char>, FieldValue> {
        map_of(self.entries@)
    }

    pub closed spec fn wf(&self) -> bool {
        keys_unique(self.entries@)
    }

    pub fn new() -> (r: Self)
        ensures
            r.wf(),
            r@ == Map::<Seq<char>, FieldValue>::empty(),
    {
        PreferenceValues { entries: Vec::new() }
    }

    /// Sets the value of a field, replacing the value it had.
    pub fn set(&mut self, key: String, value: FieldValue)
        requires
            old(self).wf(),
        ensures
            final(self).wf(),
            final(self)@ == old(self)@.insert(key@, value),
    {
        let ghost k = key@;
        let n = self.entries.len();
        let mut i: usize = 0;
        while i < n
            invariant
                n == self.entries.len(),
                self.entries@ == old(self).entries@,
                keys_unique(self.entries@),
                key@ == k,
                0 <= i <= n,
                forall|j: int| 0 <= j < i ==> self.entries@[j].0@ != k,
            decreases n - i,
        {
            if self.entries[i].0 == key {
                proof {
                    lemma_map_of_update(self.entries@, i as int, (key, value));
                }
                self.entries.set(i, (key, value));
                return;
            }
            i = i + 1;
        }
        proof {
            lemma_map_of_absent(self.entries@, k);
        }
        self.entries.push((key, value));
        proof {
            assert(self.entries@.drop_last() =~= old(self).entries@);
        }
    }

    /// The value of a field, if the form has one.
    pub fn get(&self, key: &String) -> (r: Option<&FieldValue>)
        requires
            self.wf(),
        ensures
            r matches Some(v) ==> self@.contains_key(key@) && self@[key@] == *v,
            r is None ==> !self@.contains_key(key@),
    {
        let n = self.entries.len();
        let mut i: usize = 0;
        while i < n
            invariant
                n == self.entries.len(),
                keys_unique(self.entries@),
                0 <= i <= n,
                forall|j: int| 0 <= j < i ==> self.entries@[j].0@ != key@,
            decreases n - i,
        {
            if self.entries[i].0 == *key {
                proof {
                    lemma_map_of_index(self.entries@, i as int);
                }
                return Some(&self.entries[i].1);
            }
            i = i + 1;
        }
        proof {
            lemma_map_of_absent(self.entries@, key@);
        }
        None
    }

    /// The number of fields with a value.
    pub fn len(&self) -> (r: usize)
        requires
            self.wf(),
        ensures
            r == self@.len(),
    {
        proof {
            lemma_len_of_unique(self.entries@);
        }
        self.entries.len()
    }

    /// The entries, one per field key.
    pub fn entries(&self) -> (r: &Vec<(String, FieldValue)>)
        ensures
            map_of(r@) == self@,
            self.wf() ==> keys_unique(r@),
    {
        &self.entries
    }
}

proof fn lemma_len_of_unique(s: Seq<(String, FieldValue)>)
    requires
        keys_unique(s),
    ensures
        map_of(s).dom().finite(),
        map_of(s).len() == s.len(),
    decreases s.len(),
{
    if s.len() > 0 {
        let p = s.drop_last();
        assert(keys_unique(p));
        lemma_len_of_unique(p);
        lemma_map_of_absent(p, s.last().0@);
    }
}

/// The value a single-choice field takes when `picked` is chosen: the index
/// of the first option equal to it (0 where none is), with the options.
pub fn choice_index(options: &Vec<String>, picked: &String) -> (r: usize)
    ensures
        (exists|i: int| 0 <= i < options@.len() && #[trigger] options@[i]@ == picked@) ==> (r
            < options@.len() && options@[r as int]@ == picked@ && forall|j: int|
            0 <= j < r ==> #[trigger] options@[j]@ != picked@),
        !(exists|i: int| 0 <= i < options@.len() && #[trigger] options@[i]@ == picked@) ==> r == 0,
{
    let n = options.len();
    let mut i: usize = 0;
    while i < n
        invariant
            n == options@.len(),
            0 <= i <= n,
            forall|j: int| 0 <= j < i ==> #[trigger] options@[j]@ != picked@,
        decreases n - i,
    {
        if options[i] == *picked {
            return i;
        }
        i = i + 1;
    }
    0
}

} // verus!
