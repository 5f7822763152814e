use vstd::prelude::*;
use crate::ast::Statement;
use crate::context::ContextModel;
use crate::error::Diagnostic;
use crate::error_vec::{lemma_inserted_stays_single, lemma_removed_stays_single, removed};
use crate::expression_meta_data::MetaRef;
use crate::meta_data_collection::collected;
use crate::nodes::ExpressionNodeStruct;
use crate::store::StoreModel;
use crate::traveler::{traveled, EventModel};
use crate::validation::{
    guarded, inherited, reported, stepped, validated_consequent, validated_events,
    validated_simply, validated_statement, validated_statements,
};

verus! {

/// Whether every published diagnostic is published once, and is one of the
/// diagnostics that the context keeps.
pub open spec fn published_once(context: ContextModel) -> bool {
    &&& context.errors.no_duplicates()
    &&& forall|i: int| 0 <= i < context.errors.len() ==> (#[trigger] context.errors[i]) < context.diagnostics.len()
}

/// Publishing a diagnostic leaves every diagnostic published once.
pub proof fn lemma_published_once(context: ContextModel, handle: MetaRef, diagnostic: Diagnostic)
    requires
        published_once(context),
    ensures
        published_once(context.published(handle, diagnostic)),
{
    let fresh = context.diagnostics.len() as usize;
    if handle < context.metas.len() && context.metas[handle as int].error is None {
        lemma_inserted_stays_single(context.errors, fresh);
        if context.errors.contains(fresh) {
            let i = context.errors.index_of(fresh);
            assert(context.errors[i] < context.diagnostics.len());
        }
        let after = context.published(handle, diagnostic);
        assert forall|i: int| 0 <= i < after.errors.len() implies (#[trigger] after.errors[i])
            < after.diagnostics.len() by {
            if i < context.errors.len() {
                assert(after.errors[i] == context.errors[i]);
            }
        }
    }
}

/// Announcing a diagnostic leaves every diagnostic published once.
pub proof fn lemma_announced_once(context: ContextModel, diagnostic: Diagnostic)
    requires
        published_once(context),
    ensures
        published_once(context.announced(diagnostic)),
{
    let roomier = ContextModel { metas: context.metas.push(crate::expression_meta_data::MetaModel::empty()), ..context };
    lemma_published_once(roomier, context.metas.len() as usize, diagnostic);
}

/// Withdrawing a diagnostic leaves every other diagnostic published once.
pub proof fn lemma_withdrawn_once(context: ContextModel, node: usize)
    requires
        published_once(context),
    ensures
        published_once(context.withdrawn(node)),
{
    match context.meta_of(node).error {
        Some(error) => {
            lemma_removed_stays_single(context.errors, error);
            let after = removed(context.errors, error);
            assert forall|i: int| 0 <= i < after.len() implies (#[trigger] after[i]) < context.diagnostics.len() by {
                assert(after.contains(after[i]));
                if after[i] != error {
                    assert(context.errors.contains(after[i]));
                    let j = context.errors.index_of(after[i]);
                    assert(context.errors[j] < context.diagnostics.len());
                }
            }
        },
        None => {},
    }
}

/// Reporting a finding leaves every diagnostic published once.
pub proof fn lemma_reported_once(context: ContextModel, handle: Option<MetaRef>, finding: Option<Diagnostic>)
    requires
        published_once(context),
    ensures
        published_once(reported(context, handle, finding)),
{
    match (handle, finding) {
        (Some(handle), Some(diagnostic)) => lemma_published_once(context, handle, diagnostic),
        _ => {},
    }
}

/// Validating one event leaves every diagnostic published once.
pub proof fn lemma_stepped_once(store: StoreModel, context: ContextModel, event: EventModel)
    requires
        published_once(context),
    ensures
        published_once(stepped(store, context, event).1),
{
    let found = collected(store, context, event);
    assert(found.context.errors == context.errors);
    assert(found.context.diagnostics == context.diagnostics);
    match event {
        EventModel::Assignment { left, right, .. } => {
            lemma_reported_once(inherited(found.context, found.handle, right.id, left.id), found.handle, found.finding);
        },
        EventModel::Addition { left, right, .. } => {},
        EventModel::Equality { left, right, .. } => {
            lemma_reported_once(found.context, found.handle, found.finding);
        },
        EventModel::ConsequentBody { .. } => {},
        EventModel::AlternateBody { .. } => {},
        EventModel::AfterIf { .. } => {},
        _ => {
            lemma_reported_once(found.context, found.handle, found.finding);
        },
    }
}

/// Validating events that are no bodies leaves every diagnostic published once.
pub proof fn lemma_validated_simply_once(store: StoreModel, context: ContextModel, events: Seq<EventModel>, count: nat)
    requires
        published_once(context),
    ensures
        published_once(validated_simply(store, context, events, count).1),
    decreases count,
{
    if !(count == 0 || count > events.len()) {
        lemma_validated_simply_once(store, context, events, (count - 1) as nat);
        let before = validated_simply(store, context, events, (count - 1) as nat);
        lemma_stepped_once(before.0, before.1, events[count - 1]);
    }
}

/// Entering the body of an `if` leaves every diagnostic published once.
pub proof fn lemma_guarded_once(store: StoreModel, context: ContextModel, test: ExpressionNodeStruct)
    requires
        published_once(context),
    ensures
        published_once(guarded(store, context, test).1),
{
    lemma_withdrawn_once(context, test.id);
    let cleared = context.withdrawn(test.id);
    match context.meta_of(test.id).comparison {
        Some(comparison) => {
            lemma_announced_once(
                cleared,
                Diagnostic::NonsensicalComparison {
                    expression: crate::ast::expression_text(*test.expression),
                    location: test.location,
                },
            );
        },
        None => {},
    }
}

/// Validating the body of an `if` leaves every diagnostic published once.
pub proof fn lemma_validated_consequent_once(
    store: StoreModel,
    context: ContextModel,
    test: ExpressionNodeStruct,
    statement: &Statement,
)
    requires
        published_once(context),
    ensures
        published_once(validated_consequent(store, context, test, statement).1),
    decreases statement, 1nat,
{
    lemma_guarded_once(store, context, test);
    let inside = guarded(store, context, test);
    lemma_validated_statement_once(inside.0, inside.1, statement);
}

/// Validating a statement leaves every diagnostic published once.
pub proof fn lemma_validated_statement_once(store: StoreModel, context: ContextModel, statement: &Statement)
    requires
        published_once(context),
    ensures
        published_once(validated_statement(store, context, statement).1),
    decreases statement, 0nat,
{
    match statement {
        Statement::Expression(expression) => {
            let walk = traveled(expression, context.nodes);
            lemma_validated_simply_once(store, context.with_nodes(walk.nodes), walk.events, walk.events.len());
        },
        Statement::If { test, consequent, .. } => {
            let walk = traveled(test, context.nodes);
            lemma_validated_simply_once(store, context.with_nodes(walk.nodes), walk.events, walk.events.len());
            let tested = validated_simply(store, context.with_nodes(walk.nodes), walk.events, walk.events.len());
            lemma_validated_consequent_once(tested.0, tested.1, walk.node, &**consequent);
        },
        Statement::Block(statements) => {
            lemma_validated_statements_once(store, context, statements, statements@.len());
        },
        _ => {},
    }
}

/// Validating statements leaves every diagnostic published once.
pub proof fn lemma_validated_statements_once(
    store: StoreModel,
    context: ContextModel,
    statements: &Vec<Statement>,
    count: nat,
)
    requires
        published_once(context),
    ensures
        published_once(validated_statements(store, context, statements, count).1),
    decreases statements, count,
{
    if !(count == 0 || count > statements@.len()) {
        lemma_validated_statements_once(store, context, statements, (count - 1) as nat);
        let before = validated_statements(store, context, statements, (count - 1) as nat);
        lemma_validated_statement_once(before.0, before.1, &statements@[count - 1]);
    }
}

/// The diagnostic set of a validation pass holds every diagnostic at most once:
/// validating events of a context in which this is so leaves it so, and it is so
/// in the context that a pass begins with.
pub proof fn lemma_validated_events_once(store: StoreModel, context: ContextModel, events: Seq<EventModel>, count: nat)
    requires
        published_once(context),
    ensures
        published_once(validated_events(store, context, events, count).1),
        published_once(ContextModel::initial(context.scope)),
    decreases count,
{
    if !(count == 0 || count > events.len()) {
        lemma_validated_events_once(store, context, events, (count - 1) as nat);
        let before = validated_events(store, context, events, (count - 1) as nat);
        match events[count - 1] {
            EventModel::ConsequentBody { test, statement } => {
                lemma_validated_consequent_once(before.0, before.1, test, statement);
            },
            _ => {
                lemma_stepped_once(before.0, before.1, events[count - 1]);
            },
        }
    }
}

} // verus!
