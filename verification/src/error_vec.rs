use vstd::prelude::*;
use crate::expression_meta_data::ErrorRef;
use crate::search::{last_match, lemma_last_match, lemma_last_match_found, lemma_last_match_none};

verus! {

/// The set of published diagnostics, by handle, in the order in which they came.
/// `insert` puts no handle in twice.
#[derive(Debug)]
pub struct ErrorVec {
    members: Vec<ErrorRef>,
}

/// Whether two handles are the same.
pub open spec fn same_handle(member: ErrorRef, error: ErrorRef) -> bool {
    member == error
}

/// `members` with `error` in it: appended, unless it is a member already.
pub open spec fn inserted(members: Seq<ErrorRef>, error: ErrorRef) -> Seq<ErrorRef> {
    if members.contains(error) {
        members
    } else {
        members.push(error)
    }
}

/// `members` without its last `error`.
pub open spec fn removed(members: Seq<ErrorRef>, error: ErrorRef) -> Seq<ErrorRef> {
    match last_match(members, |member: ErrorRef| same_handle(member, error)) {
        Some(at) => members.remove(at),
        None => members,
    }
}

/// Inserting a handle keeps every handle single.
pub proof fn lemma_inserted_stays_single(members: Seq<ErrorRef>, error: ErrorRef)
    requires
        members.no_duplicates(),
    ensures
        inserted(members, error).no_duplicates(),
        inserted(members, error).contains(error),
        forall|other: ErrorRef| members.contains(other) ==> inserted(members, error).contains(other),
{
    let after = inserted(members, error);
    if !members.contains(error) {
        assert(after[members.len() as int] == error);
        assert forall|other: ErrorRef| members.contains(other) implies after.contains(other) by {
            let i = members.index_of(other);
            assert(after[i] == other);
        }
    }
}

/// Removing a handle keeps every handle single, and the handle is gone.
pub proof fn lemma_removed_stays_single(members: Seq<ErrorRef>, error: ErrorRef)
    requires
        members.no_duplicates(),
    ensures
        removed(members, error).no_duplicates(),
        !removed(members, error).contains(error),
        forall|other: ErrorRef|
            other != error ==> (removed(members, error).contains(other) <==> members.contains(other)),
{
    let after = removed(members, error);
    let wanted = |member: ErrorRef| same_handle(member, error);
    lemma_last_match(members, wanted);
    match last_match(members, wanted) {
        Some(at) => {
            members.remove_ensures(at);
            assert forall|i: int, j: int| 0 <= i < after.len() && 0 <= j < after.len() && i != j implies after[i]
                != after[j] by {
                let a = if i < at { i } else { i + 1 };
                let b = if j < at { j } else { j + 1 };
                assert(after[i] == members[a] && after[j] == members[b]);
            }
            if after.contains(error) {
                let i = after.index_of(error);
                let a = if i < at { i } else { i + 1 };
                assert(after[i] == members[a]);
            }
            assert forall|other: ErrorRef| other != error implies (after.contains(other) <==> members.contains(
                other,
            )) by {
                if after.contains(other) {
                    let i = after.index_of(other);
                    let a = if i < at { i } else { i + 1 };
                    assert(after[i] == members[a]);
                }
                if members.contains(other) {
                    let a = members.index_of(other);
                    let i = if a < at { a } else { a - 1 };
                    assert(after[i] == members[a]);
                }
            }
        },
        None => {
            if members.contains(error) {
                let i = members.index_of(error);
                assert(wanted(members[i]));
            }
        },
    }
}

impl View for ErrorVec {
    type V = Seq<ErrorRef>;

    closed spec fn view(&self) -> Seq<ErrorRef> {
        self.members@
    }
}

impl ErrorVec {
    pub fn new() -> (r: Self)
        ensures
            r@ == Seq::<ErrorRef>::empty(),
    {
        ErrorVec { members: Vec::new() }
    }

    pub fn len(&self) -> (r: usize)
        ensures
            r == self@.len(),
    {
        self.members.len()
    }

    /// The position of the last `error` among the members.
    fn position(&self, error: ErrorRef) -> (r: Option<usize>)
        ensures
            match r {
                Some(at) => at < self@.len() && last_match(self@, |member: ErrorRef| same_handle(member, error))
                    == Some(at as int) && self@.contains(error),
                None => last_match(self@, |member: ErrorRef| same_handle(member, error)) is None && !self@.contains(error),
            },
    {
        let ghost wanted = |member: ErrorRef| same_handle(member, error);
        let mut i: usize = self.members.len();
        while i > 0
            invariant
                i <= self.members.len(),
                wanted == (|member: ErrorRef| same_handle(member, error)),
                forall|j: int| i <= j < self.members@.len() ==> !wanted(#[trigger] self.members@[j]),
            decreases i,
        {
            i -= 1;
            if self.members[i] == error {
                proof {
                    assert(wanted(self.members@[i as int]));
                    lemma_last_match_found(self.members@, wanted, i as int);
                }
                return Some(i);
            }
        }
        proof {
            lemma_last_match_none(self.members@, wanted);
            if self.members@.contains(error) {
                let j = self.members@.index_of(error);
                assert(wanted(self.members@[j]));
            }
        }
        None
    }

    pub fn contains(&self, error: ErrorRef) -> (r: bool)
        ensures
            r == self@.contains(error),
    {
        self.position(error).is_some()
    }

    /// Puts `error` into the set. Returns whether it was new to the set.
    pub fn insert(&mut self, error: ErrorRef) -> (r: bool)
        ensures
            final(self)@ == inserted(old(self)@, error),
            r == !old(self)@.contains(error),
            old(self)@.no_duplicates() ==> final(self)@.no_duplicates(),
    {
        proof {
            if self@.no_duplicates() {
                lemma_inserted_stays_single(self@, error);
            }
        }
        match self.position(error) {
            Some(_) => false,
            None => {
                self.members.push(error);
                true
            },
        }
    }

    /// Takes `error` out of the set. Returns whether it was in the set.
    pub fn remove(&mut self, error: ErrorRef) -> (r: bool)
        ensures
            final(self)@ == removed(old(self)@, error),
            r == old(self)@.contains(error),
            old(self)@.no_duplicates() ==> final(self)@.no_duplicates() && !final(self)@.contains(error),
    {
        proof {
            if self@.no_duplicates() {
                lemma_removed_stays_single(self@, error);
            }
        }
        match self.position(error) {
            Some(at) => {
                let _ = self.members.remove(at);
                true
            },
            None => false,
        }
    }

    /// The member at `index`, counting in the order of insertion.
    pub fn get(&self, index: usize) -> (r: ErrorRef)
        requires
            index < self@.len(),
        ensures
            r == self@[index as int],
    {
        self.members[index]
    }
}

} // verus!
