use vstd::prelude::*;
use crate::location::Location;
use crate::search::{last_match, lemma_last_match_found, lemma_last_match_none};
use crate::types::{Ty, Type};

verus! {

/// The attribute tag of a variable's reassignment. A variable has one attribute, its type.
#[derive(Clone, Copy, Debug, PartialEq, Eq, Structural)]
pub struct TracedTypeChange;

/// The attribute tag of a change to an aggregate's shape, with the property's name.
#[derive(Debug)]
pub enum TracedTypeMuation {
    Add(String),
    Remove(String),
    Update(String),
}

/// The mathematical value of a [`TracedTypeMuation`].
pub enum Mutation {
    Add(Seq<char>),
    Remove(Seq<char>),
    Update(Seq<char>),
}

impl Mutation {
    /// The property that the mutation is about.
    pub open spec fn name(self) -> Seq<char> {
        match self {
            Mutation::Add(name) => name,
            Mutation::Remove(name) => name,
            Mutation::Update(name) => name,
        }
    }
}

impl View for TracedTypeChange {
    type V = TracedTypeChange;

    open spec fn view(&self) -> TracedTypeChange {
        TracedTypeChange
    }
}

impl View for TracedTypeMuation {
    type V = Mutation;

    open spec fn view(&self) -> Mutation {
        match self {
            TracedTypeMuation::Add(name) => Mutation::Add(name@),
            TracedTypeMuation::Remove(name) => Mutation::Remove(name@),
            TracedTypeMuation::Update(name) => Mutation::Update(name@),
        }
    }
}

impl Clone for TracedTypeMuation {
    fn clone(&self) -> (r: TracedTypeMuation)
        ensures
            r@ == self@,
    {
        match self {
            TracedTypeMuation::Add(name) => TracedTypeMuation::Add(name.clone()),
            TracedTypeMuation::Remove(name) => TracedTypeMuation::Remove(name.clone()),
            TracedTypeMuation::Update(name) => TracedTypeMuation::Update(name.clone()),
        }
    }
}

impl TracedTypeMuation {
    /// The property that the mutation is about.
    pub fn name(&self) -> (r: &str)
        ensures
            r@ == self@.name(),
    {
        match self {
            TracedTypeMuation::Add(name) => name.as_str(),
            TracedTypeMuation::Remove(name) => name.as_str(),
            TracedTypeMuation::Update(name) => name.as_str(),
        }
    }
}

/// One entry of a change trace: from `loc` on, `attribute` has `current_type`.
#[derive(Debug)]
pub struct TraceSet<T> {
    pub attribute: T,
    pub loc: Location,
    pub current_type: Type,
}

/// The mathematical value of a [`TraceSet`].
pub struct Change<A> {
    pub attribute: A,
    pub loc: Location,
    pub current_type: Ty,
}

impl<T: View> View for TraceSet<T> {
    type V = Change<T::V>;

    open spec fn view(&self) -> Change<T::V> {
        Change { attribute: self.attribute@, loc: self.loc, current_type: self.current_type@ }
    }
}

/// An append-only log of changes, oldest first.
#[derive(Debug)]
pub struct ChangeTrace<TC> {
    changes: Vec<TraceSet<TC>>,
}

impl<TC: View> View for ChangeTrace<TC> {
    type V = Seq<Change<TC::V>>;

    open spec fn view(&self) -> Seq<Change<TC::V>> {
        self.entries().map_values(|entry: TraceSet<TC>| entry@)
    }
}

/// Whether a reassignment recorded at `change` is in force at byte `offset`.
pub open spec fn in_force_at(change: Change<TracedTypeChange>, offset: u32) -> bool {
    change.loc.start <= offset
}

/// The type that a variable's trace gives it at byte `offset`, where it gives one.
pub open spec fn traced_type(trace: Seq<Change<TracedTypeChange>>, offset: u32) -> Option<Ty> {
    match last_match(trace, |change: Change<TracedTypeChange>| in_force_at(change, offset)) {
        Some(i) => Some(trace[i].current_type),
        None => None,
    }
}

impl<TC> ChangeTrace<TC> {
    /// The entries, oldest first.
    pub closed spec fn entries(&self) -> Seq<TraceSet<TC>> {
        self.changes@
    }

    pub fn new() -> (r: Self)
        ensures
            r.entries() == Seq::<TraceSet<TC>>::empty(),
    {
        ChangeTrace { changes: Vec::new() }
    }

    /// The number of entries.
    pub fn len(&self) -> (r: usize)
        ensures
            r == self.entries().len(),
    {
        self.changes.len()
    }

    /// The entry at `index`, counting from the oldest.
    pub fn entry(&self, index: usize) -> (r: &TraceSet<TC>)
        requires
            index < self.entries().len(),
        ensures
            *r == self.entries()[index as int],
    {
        &self.changes[index]
    }

    /// Appends an entry: from `location` on, `change` has type `new_type`.
    pub fn change(&mut self, change: TC, new_type: Type, location: Location)
        ensures
            final(self).entries() == old(self).entries().push(
                TraceSet { attribute: change, loc: location, current_type: new_type },
            ),
    {
        self.changes.push(TraceSet { attribute: change, loc: location, current_type: new_type });
    }

    /// The most recent entry that `callback` accepts.
    pub fn find<F: Fn(&TraceSet<TC>) -> bool>(&self, callback: F) -> (r: Option<&TraceSet<TC>>)
        requires
            forall|entry: &TraceSet<TC>| call_requires(callback, (entry,)),
        ensures
            match r {
                Some(found) => exists|i: int|
                    {
                        &&& 0 <= i < self.entries().len()
                        &&& *found == #[trigger] self.entries()[i]
                        &&& call_ensures(callback, (&self.entries()[i],), true)
                        &&& forall|j: int|
                            i < j < self.entries().len() ==> call_ensures(
                                callback,
                                (&#[trigger] self.entries()[j],),
                                false,
                            )
                    },
                None => forall|j: int|
                    0 <= j < self.entries().len() ==> call_ensures(callback, (&#[trigger] self.entries()[j],), false),
            },
    {
        let mut i: usize = self.changes.len();
        while i > 0
            invariant
                i <= self.changes.len(),
                forall|entry: &TraceSet<TC>| call_requires(callback, (entry,)),
                forall|j: int|
                    i <= j < self.changes@.len() ==> call_ensures(callback, (&#[trigger] self.changes@[j],), false),
            decreases i,
        {
            i -= 1;
            if callback(&self.changes[i]) {
                assert(self.changes[i as int] == self.entries()[i as int]);
                return Some(&self.changes[i]);
            }
        }
        None
    }
}

impl<TC: View> ChangeTrace<TC> {
    /// Appending an entry appends its value to the trace's value.
    pub proof fn lemma_change_view(before: Self, after: Self, entry: TraceSet<TC>)
        requires
            after.entries() == before.entries().push(entry),
        ensures
            after@ == before@.push(entry@),
    {
        assert(after@ =~= before@.push(entry@));
    }
}

impl Clone for ChangeTrace<TracedTypeChange> {
    fn clone(&self) -> (r: Self)
        ensures
            r@ == self@,
    {
        let mut copy: ChangeTrace<TracedTypeChange> = ChangeTrace::new();
        let mut i: usize = 0;
        while i < self.changes.len()
            invariant
                i <= self.changes.len(),
                copy.changes@.len() == i,
                forall|j: int| 0 <= j < i ==> (#[trigger] copy.changes@[j])@ == self.changes@[j]@,
            decreases self.changes.len() - i,
        {
            let entry = &self.changes[i];
            copy.changes.push(
                TraceSet { attribute: TracedTypeChange, loc: entry.loc, current_type: entry.current_type.clone() },
            );
            i += 1;
        }
        assert(copy@ =~= self@);
        copy
    }
}

impl Clone for ChangeTrace<TracedTypeMuation> {
    fn clone(&self) -> (r: Self)
        ensures
            r@ == self@,
    {
        let mut copy: ChangeTrace<TracedTypeMuation> = ChangeTrace::new();
        let mut i: usize = 0;
        while i < self.changes.len()
            invariant
                i <= self.changes.len(),
                copy.changes@.len() == i,
                forall|j: int| 0 <= j < i ==> (#[trigger] copy.changes@[j])@ == self.changes@[j]@,
            decreases self.changes.len() - i,
        {
            let entry = &self.changes[i];
            copy.changes.push(
                TraceSet {
                    attribute: entry.attribute.clone(),
                    loc: entry.loc,
                    current_type: entry.current_type.clone(),
                },
            );
            i += 1;
        }
        assert(copy@ =~= self@);
        copy
    }
}

impl ChangeTrace<TracedTypeChange> {
    /// The most recent reassignment that is in force at the start of `location`.
    pub fn query(&self, attribute: TracedTypeChange, location: &Location) -> (r: Option<&TraceSet<TracedTypeChange>>)
        ensures
            match last_match(self@, |change: Change<TracedTypeChange>| in_force_at(change, location.start)) {
                Some(i) => r == Some(&self.entries()[i]),
                None => r is None,
            },
            r matches Some(found) ==> traced_type(self@, location.start) == Some(found.current_type@),
            r is None ==> traced_type(self@, location.start) is None,
    {
        let ghost wanted = |change: Change<TracedTypeChange>| in_force_at(change, location.start);
        let mut i: usize = self.changes.len();
        while i > 0
            invariant
                i <= self.changes.len(),
                wanted == (|change: Change<TracedTypeChange>| in_force_at(change, location.start)),
                forall|j: int| i <= j < self@.len() ==> !wanted(#[trigger] self@[j]),
            decreases i,
        {
            i -= 1;
            if self.changes[i].loc.start <= location.start {
                proof {
                    assert(wanted(self@[i as int]));
                    lemma_last_match_found(self@, wanted, i as int);
                }
                return Some(&self.changes[i]);
            }
            assert(!wanted(self@[i as int]));
        }
        proof {
            lemma_last_match_none(self@, wanted);
        }
        None
    }
}

} // verus!
