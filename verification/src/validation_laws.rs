use vstd::prelude::*;
use crate::ast::Statement;
use crate::context::ContextModel;
use crate::custom_type::CustomTypeObject;
use crate::expression_meta_data::MetaModel;
use crate::location::Location;
use crate::meta_data_collection::{concrete, narrowed};
use crate::nodes::ExpressionNodeStruct;
use crate::scope::{ScopeModel, ScopeRef};
use crate::store::StoreModel;
use crate::traveler::{traveled, EventModel};
use crate::types::Ty;
use crate::typing_laws::{lemma_extends_goes_on, lemma_grows, lemma_typed_extends};
use crate::validation::{
    guarded, stepped, validated_consequent, validated_events, validated_simply,
    validated_statement, validated_statements,
};

verus! {

/// Whether `child` is a scope that `base` had not, and binds and declares nothing
/// that `base` had.
pub open spec fn keeps_to_itself(store: StoreModel, child: ScopeRef, base: StoreModel) -> bool {
    &&& base.scopes.len() <= child < store.scopes.len()
    &&& forall|name: Seq<char>|
        store.scopes[child as int].variables.dom().contains(name) ==> base.variables.len()
            <= #[trigger] store.scopes[child as int].variables[name]
    &&& forall|id: u128|
        store.scopes[child as int].type_declarations.dom().contains(id) ==> match #[trigger] store.scopes[child as int].type_declarations[id] {
            CustomTypeObject::Object(handle) => base.objects.len() <= handle,
            CustomTypeObject::Function(handle) => base.functions.len() <= handle,
        }
}

/// Validating one event that is no body takes nothing away from the store.
pub proof fn lemma_stepped_grows(store: StoreModel, context: ContextModel, event: EventModel)
    ensures
        stepped(store, context, event).0.no_smaller_than(store),
{
    match event {
        EventModel::PropertyAccess { object, .. } => lemma_grows(store, context.scope, *object.expression),
        EventModel::Array { node, .. } => lemma_grows(store, context.scope, *node.expression),
        EventModel::Object { node, .. } => lemma_grows(store, context.scope, *node.expression),
        EventModel::Function { node, .. } => lemma_grows(store, context.scope, *node.expression),
        EventModel::Class { node, .. } => lemma_grows(store, context.scope, *node.expression),
        EventModel::Sequence { node, .. } => lemma_grows(store, context.scope, *node.expression),
        _ => {},
    }
}

/// Validating one event that is no body changes nothing that is in the store.
pub proof fn lemma_stepped_extends(store: StoreModel, context: ContextModel, event: EventModel)
    requires
        stepped(store, context, event).0.fits(),
    ensures
        stepped(store, context, event).0.extends(store),
{
    match event {
        EventModel::PropertyAccess { object, .. } => lemma_typed_extends(store, context.scope, *object.expression),
        EventModel::Array { node, .. } => lemma_typed_extends(store, context.scope, *node.expression),
        EventModel::Object { node, .. } => lemma_typed_extends(store, context.scope, *node.expression),
        EventModel::Function { node, .. } => lemma_typed_extends(store, context.scope, *node.expression),
        EventModel::Class { node, .. } => lemma_typed_extends(store, context.scope, *node.expression),
        EventModel::Sequence { node, .. } => lemma_typed_extends(store, context.scope, *node.expression),
        _ => {},
    }
}

/// Validating events that are no bodies takes nothing away from the store.
pub proof fn lemma_validated_simply_grows(store: StoreModel, context: ContextModel, events: Seq<EventModel>, count: nat)
    ensures
        validated_simply(store, context, events, count).0.no_smaller_than(store),
    decreases count,
{
    if !(count == 0 || count > events.len()) {
        lemma_validated_simply_grows(store, context, events, (count - 1) as nat);
        let before = validated_simply(store, context, events, (count - 1) as nat);
        lemma_stepped_grows(before.0, before.1, events[count - 1]);
    }
}

/// Validating events that are no bodies changes nothing that is in the store.
pub proof fn lemma_validated_simply_extends(
    store: StoreModel,
    context: ContextModel,
    events: Seq<EventModel>,
    count: nat,
)
    requires
        validated_simply(store, context, events, count).0.fits(),
    ensures
        validated_simply(store, context, events, count).0.extends(store),
    decreases count,
{
    if !(count == 0 || count > events.len()) {
        let before = validated_simply(store, context, events, (count - 1) as nat);
        lemma_stepped_grows(before.0, before.1, events[count - 1]);
        lemma_validated_simply_extends(store, context, events, (count - 1) as nat);
        lemma_stepped_extends(before.0, before.1, events[count - 1]);
        lemma_extends_goes_on(validated_simply(store, context, events, count).0, before.0, store);
    }
}

/// Narrowing takes nothing away from the store.
pub proof fn lemma_narrowed_grows(
    store: StoreModel,
    context: ContextModel,
    scope: ScopeRef,
    subject: MetaModel,
    target: Ty,
    place: Location,
)
    ensures
        narrowed(store, context, scope, subject, target, place).no_smaller_than(store),
{
}

/// Narrowing inside a scope that keeps to itself changes nothing that the store
/// had before the scope: what is narrowed is a copy that the scope got for itself.
pub proof fn lemma_narrowed_extends(
    store: StoreModel,
    context: ContextModel,
    scope: ScopeRef,
    subject: MetaModel,
    target: Ty,
    place: Location,
    base: StoreModel,
)
    requires
        store.extends(base),
        keeps_to_itself(store, scope, base),
        narrowed(store, context, scope, subject, target, place).fits(),
    ensures
        narrowed(store, context, scope, subject, target, place).extends(base),
        keeps_to_itself(narrowed(store, context, scope, subject, target, place), scope, base),
{
    let first = match subject.property_access {
        Some((object, property)) => match CustomTypeObject::named_by(context.type_of(object.id)) {
            Some(aggregate) => if concrete(target) {
                store.bind_type(scope, aggregate).0.aggregate_changed(
                    store.bind_type(scope, aggregate).1,
                    crate::change_trace::Mutation::Update(property.value@),
                    target,
                    place,
                )
            } else {
                store
            },
            None => store,
        },
        None => store,
    };
    assert(first.extends(base) && keeps_to_itself(first, scope, base)) by {
        match subject.property_access {
            Some((object, property)) => match CustomTypeObject::named_by(context.type_of(object.id)) {
                Some(aggregate) => {
                    if concrete(target) {
                        let bound = store.bind_type(scope, aggregate);
                        assert(bound.0.extends(base));
                        assert(keeps_to_itself(bound.0, scope, base));
                        match bound.1 {
                            CustomTypeObject::Object(handle) => {
                                assert(handle < bound.0.objects.len() ==> base.objects.len() <= handle);
                            },
                            CustomTypeObject::Function(handle) => {
                                assert(handle < bound.0.functions.len() ==> base.functions.len() <= handle);
                            },
                        }
                    }
                },
                None => {},
            },
            None => {},
        }
    }
    match subject.variable {
        Some(variable) => {
            let bound = first.bind_variable(scope, variable);
            assert(bound.0.extends(base));
            assert(keeps_to_itself(bound.0, scope, base));
            assert(bound.1 < bound.0.variables.len() ==> base.variables.len() <= bound.1);
        },
        None => {},
    }
}

/// Entering the body of an `if` takes nothing away from the store.
pub proof fn lemma_guarded_grows(store: StoreModel, context: ContextModel, test: ExpressionNodeStruct)
    ensures
        guarded(store, context, test).0.no_smaller_than(store),
{
    let child = store.scopes.len() as usize;
    let inside = store.with_scope(ScopeModel::empty("IfConsequentBlockScope"@, Some(context.scope)));
    let cleared = context.withdrawn(test.id);
    match context.meta_of(test.id).comparison {
        Some(comparison) => {
            let left = cleared.meta_of(comparison.members.0.id);
            let right = cleared.meta_of(comparison.members.1.id);
            let once = narrowed(inside, cleared, child, left, right.shown_type(), test.location);
            lemma_narrowed_grows(inside, cleared, child, left, right.shown_type(), test.location);
            lemma_narrowed_grows(once, cleared, child, right, left.shown_type(), test.location);
        },
        None => {},
    }
}

/// Entering the body of an `if` changes nothing that is in the store: the new
/// scope gets copies of what is narrowed.
pub proof fn lemma_guarded_extends(store: StoreModel, context: ContextModel, test: ExpressionNodeStruct)
    requires
        guarded(store, context, test).0.fits(),
    ensures
        guarded(store, context, test).0.extends(store),
{
    let child = store.scopes.len() as usize;
    let inside = store.with_scope(ScopeModel::empty("IfConsequentBlockScope"@, Some(context.scope)));
    let cleared = context.withdrawn(test.id);
    match context.meta_of(test.id).comparison {
        Some(comparison) => {
            let left = cleared.meta_of(comparison.members.0.id);
            let right = cleared.meta_of(comparison.members.1.id);
            let once = narrowed(inside, cleared, child, left, right.shown_type(), test.location);
            lemma_narrowed_grows(once, cleared, child, right, left.shown_type(), test.location);
            lemma_narrowed_grows(inside, cleared, child, left, right.shown_type(), test.location);
            assert(inside.extends(store));
            assert(keeps_to_itself(inside, child, store));
            lemma_narrowed_extends(inside, cleared, child, left, right.shown_type(), test.location, store);
            lemma_narrowed_extends(once, cleared, child, right, left.shown_type(), test.location, store);
        },
        None => {},
    }
}

/// Validating the body of an `if` takes nothing away from the store.
pub proof fn lemma_validated_consequent_grows(
    store: StoreModel,
    context: ContextModel,
    test: ExpressionNodeStruct,
    statement: &Statement,
)
    ensures
        validated_consequent(store, context, test, statement).0.no_smaller_than(store),
    decreases statement, 1nat,
{
    lemma_guarded_grows(store, context, test);
    let inside = guarded(store, context, test);
    lemma_validated_statement_grows(inside.0, inside.1, statement);
}

/// Validating a statement takes nothing away from the store.
pub proof fn lemma_validated_statement_grows(store: StoreModel, context: ContextModel, statement: &Statement)
    ensures
        validated_statement(store, context, statement).0.no_smaller_than(store),
    decreases statement, 0nat,
{
    match statement {
        Statement::Expression(expression) => {
            let walk = traveled(expression, context.nodes);
            lemma_validated_simply_grows(store, context.with_nodes(walk.nodes), walk.events, walk.events.len());
        },
        Statement::If { test, consequent, .. } => {
            let walk = traveled(test, context.nodes);
            lemma_validated_simply_grows(store, context.with_nodes(walk.nodes), walk.events, walk.events.len());
            let tested = validated_simply(store, context.with_nodes(walk.nodes), walk.events, walk.events.len());
            lemma_validated_consequent_grows(tested.0, tested.1, walk.node, &**consequent);
        },
        Statement::Block(statements) => {
            lemma_validated_statements_grow(store, context, statements, statements@.len());
        },
        _ => {},
    }
}

/// Validating statements takes nothing away from the store.
pub proof fn lemma_validated_statements_grow(
    store: StoreModel,
    context: ContextModel,
    statements: &Vec<Statement>,
    count: nat,
)
    ensures
        validated_statements(store, context, statements, count).0.no_smaller_than(store),
    decreases statements, count,
{
    if !(count == 0 || count > statements@.len()) {
        lemma_validated_statements_grow(store, context, statements, (count - 1) as nat);
        let before = validated_statements(store, context, statements, (count - 1) as nat);
        lemma_validated_statement_grows(before.0, before.1, &statements@[count - 1]);
    }
}

/// Validating the body of an `if` changes nothing that is in the store.
pub proof fn lemma_validated_consequent_extends(
    store: StoreModel,
    context: ContextModel,
    test: ExpressionNodeStruct,
    statement: &Statement,
)
    requires
        validated_consequent(store, context, test, statement).0.fits(),
    ensures
        validated_consequent(store, context, test, statement).0.extends(store),
    decreases statement, 1nat,
{
    let inside = guarded(store, context, test);
    lemma_validated_statement_grows(inside.0, inside.1, statement);
    lemma_guarded_extends(store, context, test);
    lemma_validated_statement_extends(inside.0, inside.1, statement);
    lemma_extends_goes_on(validated_statement(inside.0, inside.1, statement).0, inside.0, store);
}

/// Validating a statement changes nothing that is in the store.
pub proof fn lemma_validated_statement_extends(store: StoreModel, context: ContextModel, statement: &Statement)
    requires
        validated_statement(store, context, statement).0.fits(),
    ensures
        validated_statement(store, context, statement).0.extends(store),
    decreases statement, 0nat,
{
    match statement {
        Statement::Expression(expression) => {
            let walk = traveled(expression, context.nodes);
            lemma_validated_simply_extends(store, context.with_nodes(walk.nodes), walk.events, walk.events.len());
        },
        Statement::If { test, consequent, .. } => {
            let walk = traveled(test, context.nodes);
            let tested = validated_simply(store, context.with_nodes(walk.nodes), walk.events, walk.events.len());
            lemma_validated_consequent_grows(tested.0, tested.1, walk.node, &**consequent);
            lemma_validated_simply_extends(store, context.with_nodes(walk.nodes), walk.events, walk.events.len());
            lemma_validated_consequent_extends(tested.0, tested.1, walk.node, &**consequent);
            lemma_extends_goes_on(validated_statement(store, context, statement).0, tested.0, store);
        },
        Statement::Block(statements) => {
            lemma_validated_statements_extend(store, context, statements, statements@.len());
        },
        _ => {},
    }
}

/// Validating statements changes nothing that is in the store.
pub proof fn lemma_validated_statements_extend(
    store: StoreModel,
    context: ContextModel,
    statements: &Vec<Statement>,
    count: nat,
)
    requires
        validated_statements(store, context, statements, count).0.fits(),
    ensures
        validated_statements(store, context, statements, count).0.extends(store),
    decreases statements, count,
{
    if !(count == 0 || count > statements@.len()) {
        let before = validated_statements(store, context, statements, (count - 1) as nat);
        lemma_validated_statement_grows(before.0, before.1, &statements@[count - 1]);
        lemma_validated_statements_extend(store, context, statements, (count - 1) as nat);
        lemma_validated_statement_extends(before.0, before.1, &statements@[count - 1]);
        lemma_extends_goes_on(validated_statements(store, context, statements, count).0, before.0, store);
    }
}

/// Validating events takes nothing away from the store.
pub proof fn lemma_validated_events_grow(store: StoreModel, context: ContextModel, events: Seq<EventModel>, count: nat)
    ensures
        validated_events(store, context, events, count).0.no_smaller_than(store),
    decreases count,
{
    if !(count == 0 || count > events.len()) {
        lemma_validated_events_grow(store, context, events, (count - 1) as nat);
        let before = validated_events(store, context, events, (count - 1) as nat);
        match events[count - 1] {
            EventModel::ConsequentBody { test, statement } => {
                lemma_validated_consequent_grows(before.0, before.1, test, statement);
            },
            _ => {
                lemma_stepped_grows(before.0, before.1, events[count - 1]);
            },
        }
    }
}

/// The validation pass changes no variable, aggregate or scope that the store has
/// when the pass begins: it adds to the store, and what it narrows are copies that
/// the scope of a guard gets for itself.
pub proof fn lemma_validated_events_extend(store: StoreModel, context: ContextModel, events: Seq<EventModel>, count: nat)
    requires
        validated_events(store, context, events, count).0.fits(),
    ensures
        validated_events(store, context, events, count).0.extends(store),
    decreases count,
{
    if !(count == 0 || count > events.len()) {
        let before = validated_events(store, context, events, (count - 1) as nat);
        match events[count - 1] {
            EventModel::ConsequentBody { test, statement } => {
                lemma_validated_consequent_grows(before.0, before.1, test, statement);
                lemma_validated_events_extend(store, context, events, (count - 1) as nat);
                lemma_validated_consequent_extends(before.0, before.1, test, statement);
            },
            _ => {
                lemma_stepped_grows(before.0, before.1, events[count - 1]);
                lemma_validated_events_extend(store, context, events, (count - 1) as nat);
                lemma_stepped_extends(before.0, before.1, events[count - 1]);
            },
        }
        lemma_extends_goes_on(validated_events(store, context, events, count).0, before.0, store);
    }
}

} // verus!
