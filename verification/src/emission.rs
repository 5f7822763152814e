use vstd::prelude::*;
use vstd::seq_lib::{to_multiset_build, to_multiset_remove};
use crate::context::Context;
use crate::error::Diagnostic;
use crate::expression_meta_data::ErrorRef;

verus! {

/// The byte at which the diagnostic behind `handle` starts. A handle that is none
/// of `diagnostics` counts as the start of the source.
pub open spec fn start_of(diagnostics: Seq<Diagnostic>, handle: ErrorRef) -> u32 {
    if handle < diagnostics.len() {
        diagnostics[handle as int].location().start
    } else {
        0
    }
}

/// Whether `handles` are in the order of the places that their diagnostics point at.
pub open spec fn in_source_order(diagnostics: Seq<Diagnostic>, handles: Seq<ErrorRef>) -> bool {
    forall|i: int, j: int|
        0 <= i < j < handles.len() ==> start_of(diagnostics, #[trigger] handles[i]) <= start_of(
            diagnostics,
            #[trigger] handles[j],
        )
}

/// Putting `handle` in at `at` adds it to what the list holds, and nothing else.
proof fn lemma_insert_holds(handles: Seq<ErrorRef>, at: int, handle: ErrorRef)
    requires
        0 <= at <= handles.len(),
    ensures
        handles.insert(at, handle).to_multiset() == handles.to_multiset().insert(handle),
{
    let after = handles.insert(at, handle);
    handles.insert_ensures(at, handle);
    assert(after.remove(at) =~= handles);
    to_multiset_remove(after, at);
    assert(after[at] == handle);
    after.to_multiset_ensures();
    assert(after.contains(handle));
    assert(after.to_multiset() =~= handles.to_multiset().insert(handle));
}

/// The byte at which the diagnostic behind `handle` starts.
fn start<'own>(context: &Context<'own>, handle: ErrorRef) -> (r: u32)
    ensures
        r == start_of(context@.diagnostics, handle),
{
    match context.diagnostic(handle) {
        Some(error) => error.location().start,
        None => 0,
    }
}

/// The published diagnostics in the order of the source: by the byte at which
/// they start.
pub fn sorted_errors<'own>(context: &Context<'own>) -> (r: Vec<ErrorRef>)
    ensures
        r@.to_multiset() == context@.errors.to_multiset(),
        in_source_order(context@.diagnostics, r@),
{
    let errors = context.errors();
    let mut sorted: Vec<ErrorRef> = Vec::new();
    let mut i: usize = 0;
    assert(context@.errors.take(0) =~= Seq::empty());
    while i < errors.len()
        invariant
            i <= errors@.len(),
            errors@ == context@.errors,
            sorted@.to_multiset() == context@.errors.take(i as int).to_multiset(),
            in_source_order(context@.diagnostics, sorted@),
        decreases errors@.len() - i,
    {
        let handle = errors.get(i);
        let key = start(context, handle);
        let mut at: usize = sorted.len();
        while at > 0 && start(context, sorted[at - 1]) > key
            invariant
                at <= sorted@.len(),
                key == start_of(context@.diagnostics, handle),
                forall|k: int| at <= k < sorted@.len() ==> start_of(context@.diagnostics, #[trigger] sorted@[k]) > key,
            decreases at,
        {
            at -= 1;
        }
        proof {
            let before = sorted@;
            let after = before.insert(at as int, handle);
            before.insert_ensures(at as int, handle);
            lemma_insert_holds(before, at as int, handle);
            to_multiset_build(context@.errors.take(i as int), handle);
            assert(context@.errors.take(i + 1) =~= context@.errors.take(i as int).push(handle));
            assert forall|a: int, b: int| 0 <= a < b < after.len() implies start_of(
                context@.diagnostics,
                #[trigger] after[a],
            ) <= start_of(context@.diagnostics, #[trigger] after[b]) by {
                let x = if a < at { a } else { a - 1 };
                let y = if b < at { b } else { b - 1 };
                if a != at && b != at {
                    assert(after[a] == before[x] && after[b] == before[y]);
                } else if a == at {
                    assert(after[b] == before[y]);
                } else {
                    assert(after[a] == before[x]);
                    if at > 0 {
                        assert(start_of(context@.diagnostics, before[at - 1]) <= key);
                    }
                }
            }
        }
        sorted.insert(at, handle);
        i += 1;
    }
    assert(context@.errors.take(i as int) =~= context@.errors);
    sorted
}

} // verus!
