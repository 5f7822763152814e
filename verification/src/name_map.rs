use vstd::prelude::*;
use crate::text::same_text;

verus! {

/// A map from names to values, kept as a list in which a later entry for a name
/// replaces the earlier ones.
#[derive(Debug)]
pub struct NameMap<V> {
    entries: Vec<(String, V)>,
}

/// The position of the entry that is in force for `name`, if there is one.
pub open spec fn ruling_entry<V>(entries: Seq<(String, V)>, name: Seq<char>) -> Option<int>
    decreases entries.len(),
{
    if entries.len() == 0 {
        None
    } else if entries.last().0@ == name {
        Some(entries.len() - 1)
    } else {
        ruling_entry(entries.drop_last(), name)
    }
}

pub proof fn lemma_ruling_entry<V>(entries: Seq<(String, V)>, name: Seq<char>)
    ensures
        match ruling_entry(entries, name) {
            Some(i) => 0 <= i < entries.len() && entries[i].0@ == name && forall|j: int|
                i < j < entries.len() ==> (#[trigger] entries[j]).0@ != name,
            None => forall|j: int| 0 <= j < entries.len() ==> (#[trigger] entries[j]).0@ != name,
        },
    decreases entries.len(),
{
    if entries.len() > 0 && entries.last().0@ != name {
        lemma_ruling_entry(entries.drop_last(), name);
        assert forall|j: int| 0 <= j < entries.len() - 1 implies entries[j] == entries.drop_last()[j] by {}
    }
}

/// The rightmost entry for a name is the one in force.
pub proof fn lemma_ruling_entry_is_rightmost<V>(entries: Seq<(String, V)>, name: Seq<char>, i: int)
    requires
        0 <= i < entries.len(),
        entries[i].0@ == name,
        forall|j: int| i < j < entries.len() ==> (#[trigger] entries[j]).0@ != name,
    ensures
        ruling_entry(entries, name) == Some(i),
{
    lemma_ruling_entry(entries, name);
}

/// Lists that agree on their names, entry by entry, have the same entry in force for each name.
pub proof fn lemma_ruling_entry_by_names<V, W>(left: Seq<(String, V)>, right: Seq<(String, W)>, name: Seq<char>)
    requires
        left.len() == right.len(),
        forall|i: int| 0 <= i < left.len() ==> (#[trigger] left[i]).0@ == right[i].0@,
    ensures
        ruling_entry(left, name) == ruling_entry(right, name),
    decreases left.len(),
{
    if left.len() > 0 {
        assert(left.last().0@ == right.last().0@);
        if left.last().0@ != name {
            assert forall|i: int| 0 <= i < left.len() - 1 implies (#[trigger] left.drop_last()[i]).0@
                == right.drop_last()[i].0@ by {
                assert(left.drop_last()[i] == left[i]);
            }
            lemma_ruling_entry_by_names(left.drop_last(), right.drop_last(), name);
        }
    }
}

impl<V> NameMap<V> {
    /// The entries, oldest first.
    pub closed spec fn entries(&self) -> Seq<(String, V)> {
        self.entries@
    }

    /// Whether the map has a value for `name`.
    pub open spec fn has(&self, name: Seq<char>) -> bool {
        ruling_entry(self.entries(), name) is Some
    }

    /// The value that the map has for `name`.
    pub open spec fn value(&self, name: Seq<char>) -> V
        recommends
            self.has(name),
    {
        self.entries()[ruling_entry(self.entries(), name).unwrap()].1
    }

    pub fn new() -> (r: Self)
        ensures
            r.entries() == Seq::<(String, V)>::empty(),
            r@ == Map::<Seq<char>, V>::empty(),
    {
        let r = NameMap { entries: Vec::new() };
        assert(r@ =~= Map::<Seq<char>, V>::empty());
        r
    }

    /// Binds `name` to `value` in a new entry, which replaces the earlier ones of that name.
    pub fn append(&mut self, name: String, value: V)
        ensures
            final(self).entries() == old(self).entries().push((name, value)),
            final(self)@ == old(self)@.insert(name@, value),
    {
        self.entries.push((name, value));
        proof {
            let before = old(self).entries();
            let after = self.entries();
            assert(after.drop_last() =~= before);
            assert forall|k: Seq<char>| #[trigger] self@.dom().contains(k) == old(self)@.insert(name@, value).dom().contains(k) by {}
            assert forall|k: Seq<char>| self@.dom().contains(k) implies #[trigger] self@[k] == old(self)@.insert(name@, value)[k] by {
                if k != name@ {
                    lemma_ruling_entry(before, k);
                    let i = ruling_entry(before, k).unwrap();
                    assert(after[i] == before[i]);
                }
            }
            assert(self@ =~= old(self)@.insert(name@, value));
        }
    }

    /// The position of the entry that is in force for `name`.
    fn position(&self, name: &str) -> (r: Option<usize>)
        ensures
            match r {
                Some(at) => at < self.entries().len() && ruling_entry(self.entries(), name@) == Some(at as int),
                None => ruling_entry(self.entries(), name@) is None,
            },
    {
        let mut i: usize = self.entries.len();
        while i > 0
            invariant
                i <= self.entries.len(),
                forall|j: int| i <= j < self.entries.len() ==> (#[trigger] self.entries@[j]).0@ != name@,
            decreases i,
        {
            i -= 1;
            if same_text(self.entries[i].0.as_str(), name) {
                proof {
                    lemma_ruling_entry_is_rightmost(self.entries(), name@, i as int);
                }
                return Some(i);
            }
        }
        proof {
            lemma_ruling_entry(self.entries(), name@);
        }
        None
    }

    /// Binds `name` to `value`, in place of whatever it was bound to. A name that
    /// is bound keeps its entry, so that binding adds no entry for it.
    pub fn insert(&mut self, name: String, value: V)
        ensures
            final(self)@ == old(self)@.insert(name@, value),
            old(self)@.dom().contains(name@) ==> final(self).entries().len() == old(self).entries().len(),
            !old(self)@.dom().contains(name@) ==> final(self).entries() == old(self).entries().push((name, value)),
    {
        match self.position(name.as_str()) {
            Some(at) => {
                self.entries.set(at, (name, value));
                proof {
                    let before = old(self).entries();
                    let after = self.entries();
                    lemma_ruling_entry(before, name@);
                    assert forall|i: int| 0 <= i < after.len() implies (#[trigger] after[i]).0@ == before[i].0@ by {}
                    assert forall|k: Seq<char>| ruling_entry(after, k) == ruling_entry(before, k) by {
                        lemma_ruling_entry_by_names(after, before, k);
                    }
                    assert forall|k: Seq<char>| self@.dom().contains(k) implies #[trigger] self@[k] == old(self)@.insert(
                        name@,
                        value,
                    )[k] by {
                        lemma_ruling_entry(before, k);
                        assert(ruling_entry(after, k) == ruling_entry(before, k));
                        assert(self@[k] == after[ruling_entry(after, k).unwrap()].1);
                    }
                    assert(self@ =~= old(self)@.insert(name@, value));
                }
            },
            None => self.append(name, value),
        }
    }

    /// The value bound to `name`.
    pub fn get(&self, name: &str) -> (r: Option<&V>)
        ensures
            r.is_some() == self@.dom().contains(name@),
            r matches Some(v) ==> *v == self@[name@],
    {
        match self.position(name) {
            Some(at) => Some(&self.entries[at].1),
            None => None,
        }
    }

    /// The number of entries, those that a later one replaces included.
    pub fn len(&self) -> (r: usize)
        ensures
            r == self.entries().len(),
    {
        self.entries.len()
    }

    /// The name of the entry at `index`, counting from the oldest.
    pub fn name_at(&self, index: usize) -> (r: &String)
        requires
            index < self.entries().len(),
        ensures
            *r == self.entries()[index as int].0,
    {
        &self.entries[index].0
    }

    /// The value of the entry at `index`, counting from the oldest.
    pub fn value_at(&self, index: usize) -> (r: &V)
        requires
            index < self.entries().len(),
        ensures
            *r == self.entries()[index as int].1,
    {
        &self.entries[index].1
    }

    /// Whether `name` is bound.
    pub fn contains_key(&self, name: &str) -> (r: bool)
        ensures
            r == self@.dom().contains(name@),
    {
        self.get(name).is_some()
    }
}

impl<V> View for NameMap<V> {
    type V = Map<Seq<char>, V>;

    open spec fn view(&self) -> Map<Seq<char>, V> {
        Map::new(|name: Seq<char>| self.has(name), |name: Seq<char>| self.value(name))
    }
}

} // verus!
