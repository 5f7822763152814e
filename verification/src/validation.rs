use vstd::prelude::*;
use crate::ast::{expression_text, Statement};
use crate::context::{Context, ContextModel};
use crate::error::{Diagnostic, ValidationError};
use crate::expression_meta_data::{MetaCarry, MetaRef};
use crate::meta_data_collection::{
    collect_meta_data, collected, narrowed, optional_diagnostic, track_type_assignment,
};
use crate::nodes::{ExpressionNodeStruct, Node};
use crate::scope::ScopeModel;
use crate::store::{Store, StoreModel};
use crate::traveler::{event_models, traveled, traveled_statements, AstEvent, EventModel};

verus! {

/// The store and the context of a validation pass.
pub type State<'ast> = (StoreModel, ContextModel<'ast>);

/// The context with the finding published on the record `handle`, if there is
/// a finding and a record.
pub open spec fn reported<'ast>(context: ContextModel<'ast>, handle: Option<MetaRef>, finding: Option<Diagnostic>) -> ContextModel<
    'ast,
> {
    match (handle, finding) {
        (Some(handle), Some(diagnostic)) => context.published(handle, diagnostic),
        _ => context,
    }
}

/// The context in which the record `handle` has adopted the errors of the nodes
/// `first` and `second`, in that order.
pub open spec fn inherited<'ast>(context: ContextModel<'ast>, handle: Option<MetaRef>, first: usize, second: usize) -> ContextModel<
    'ast,
> {
    match handle {
        Some(handle) => context.adopted(handle, first).adopted(handle, second),
        None => context,
    }
}

/// Validating one event that is not the body of an `if`: its metadata is collected,
/// the errors of its operands are adopted, and its finding is published.
pub open spec fn stepped<'ast>(store: StoreModel, context: ContextModel<'ast>, event: EventModel<'ast>) -> State<'ast> {
    let found = collected(store, context, event);
    match event {
        EventModel::Assignment { left, right, .. } => (found.store, reported(
            inherited(found.context, found.handle, right.id, left.id),
            found.handle,
            found.finding,
        )),
        EventModel::Addition { left, right, .. } => (found.store, inherited(
            found.context,
            found.handle,
            left.id,
            right.id,
        )),
        EventModel::Equality { left, right, .. } => (found.store, inherited(
            reported(found.context, found.handle, found.finding),
            found.handle,
            left.id,
            right.id,
        )),
        EventModel::ConsequentBody { .. } => (store, context),
        EventModel::AlternateBody { .. } => (store, context),
        EventModel::AfterIf { .. } => (store, context),
        _ => (found.store, reported(found.context, found.handle, found.finding)),
    }
}

/// Validating the first `count` of `events`, none of which is the body of an `if`.
pub open spec fn validated_simply<'ast>(
    store: StoreModel,
    context: ContextModel<'ast>,
    events: Seq<EventModel<'ast>>,
    count: nat,
) -> State<'ast>
    decreases count,
{
    if count == 0 || count > events.len() {
        (store, context)
    } else {
        let before = validated_simply(store, context, events, (count - 1) as nat);
        stepped(before.0, before.1, events[count - 1])
    }
}

/// Entering the body of an `if` whose test is `test`: a new scope
/// `IfConsequentBlockScope`, in which both sides of a comparison are narrowed to
/// each other's type. The diagnostic of the test is withdrawn, as the test is a
/// guard; a comparison of two values that are no variables is reported as
/// nonsensical.
pub open spec fn guarded<'ast>(store: StoreModel, context: ContextModel<'ast>, test: ExpressionNodeStruct<'ast>) -> State<
    'ast,
> {
    let child = store.scopes.len() as usize;
    let inside = store.with_scope(ScopeModel::empty("IfConsequentBlockScope"@, Some(context.scope)));
    let cleared = context.withdrawn(test.id);
    match context.meta_of(test.id).comparison {
        Some(comparison) => {
            let left = cleared.meta_of(comparison.members.0.id);
            let right = cleared.meta_of(comparison.members.1.id);
            let told = if left.variable is None && right.variable is None {
                cleared.announced(
                    Diagnostic::NonsensicalComparison {
                        expression: expression_text(*test.expression),
                        location: test.location,
                    },
                )
            } else {
                cleared
            };
            let once = narrowed(inside, cleared, child, left, right.shown_type(), test.location);
            let twice = narrowed(once, cleared, child, right, left.shown_type(), test.location);
            (twice, told.entered(child))
        },
        None => (inside, cleared.entered(child)),
    }
}

/// Validating the body of an `if`: the body is validated in the scope of the
/// guard, and afterwards the pass is back in the scope around it.
pub open spec fn validated_consequent<'ast>(
    store: StoreModel,
    context: ContextModel<'ast>,
    test: ExpressionNodeStruct<'ast>,
    statement: &'ast Statement,
) -> State<'ast>
    decreases statement, 1nat,
{
    let inside = guarded(store, context, test);
    let after = validated_statement(inside.0, inside.1, statement);
    (after.0, after.1.entered(context.scope))
}

/// Validating one statement: its expressions are walked and their events
/// validated in order, and the body of an `if` is validated under its guard.
pub open spec fn validated_statement<'ast>(store: StoreModel, context: ContextModel<'ast>, statement: &'ast Statement) -> State<
    'ast,
>
    decreases statement, 0nat,
{
    match statement {
        Statement::Expression(expression) => {
            let walk = traveled(expression, context.nodes);
            validated_simply(store, context.with_nodes(walk.nodes), walk.events, walk.events.len())
        },
        Statement::If { test, consequent, .. } => {
            let walk = traveled(test, context.nodes);
            let tested = validated_simply(store, context.with_nodes(walk.nodes), walk.events, walk.events.len());
            validated_consequent(tested.0, tested.1, walk.node, &**consequent)
        },
        Statement::Block(statements) => validated_statements(store, context, statements, statements@.len()),
        _ => (store, context),
    }
}

/// Validating the first `count` of `statements`, one after the other.
pub open spec fn validated_statements<'ast>(
    store: StoreModel,
    context: ContextModel<'ast>,
    statements: &'ast Vec<Statement>,
    count: nat,
) -> State<'ast>
    decreases statements, count,
{
    if count == 0 || count > statements@.len() {
        (store, context)
    } else {
        let before = validated_statements(store, context, statements, (count - 1) as nat);
        validated_statement(before.0, before.1, &statements@[count - 1])
    }
}

/// Validating one event of any kind.
pub open spec fn validated_event<'ast>(store: StoreModel, context: ContextModel<'ast>, event: EventModel<'ast>) -> State<
    'ast,
> {
    match event {
        EventModel::ConsequentBody { test, statement } => validated_consequent(store, context, test, statement),
        _ => stepped(store, context, event),
    }
}

/// Validating the first `count` of `events`, in order.
pub open spec fn validated_events<'ast>(
    store: StoreModel,
    context: ContextModel<'ast>,
    events: Seq<EventModel<'ast>>,
    count: nat,
) -> State<'ast>
    decreases count,
{
    if count == 0 || count > events.len() {
        (store, context)
    } else {
        let before = validated_events(store, context, events, (count - 1) as nat);
        validated_event(before.0, before.1, events[count - 1])
    }
}

/// Publishes `finding` on the record `handle`, if there is a finding and a record.
fn report<'ast>(context: &mut Context<'ast>, handle: Option<MetaRef>, finding: Option<ValidationError>)
    ensures
        final(context)@ == reported(old(context)@, handle, optional_diagnostic(finding)),
{
    match handle {
        Some(handle) => match finding {
            Some(error) => context.publish(handle, error),
            None => {},
        },
        None => {},
    }
}

/// Lets the record `handle` adopt the errors of `first` and of `second`.
fn inherit<'ast>(
    context: &mut Context<'ast>,
    handle: Option<MetaRef>,
    first: &ExpressionNodeStruct<'ast>,
    second: &ExpressionNodeStruct<'ast>,
)
    ensures
        final(context)@ == inherited(old(context)@, handle, first.id, second.id),
{
    match handle {
        Some(handle) => {
            context.adopt_errors(handle, first);
            context.adopt_errors(handle, second);
        },
        None => {},
    }
}

/// Validates one event that is not the body of an `if`.
pub fn validate_simple_event<'ast>(event: &AstEvent<'ast>, store: &mut Store, context: &mut Context<'ast>)
    ensures
        (final(store)@, final(context)@) == stepped(old(store)@, old(context)@, event@),
{
    match event {
        AstEvent::ConsequentBody { .. } => {},
        AstEvent::AlternateBody { .. } => {},
        AstEvent::AfterIf { .. } => {},
        AstEvent::Assignment { left, right, .. } => {
            let found = collect_meta_data(event, store, context);
            inherit(context, found.handle, right, left);
            report(context, found.handle, found.finding);
        },
        AstEvent::Addition { left, right, .. } => {
            let found = collect_meta_data(event, store, context);
            inherit(context, found.handle, left, right);
        },
        AstEvent::Equality { left, right, .. } => {
            let found = collect_meta_data(event, store, context);
            report(context, found.handle, found.finding);
            inherit(context, found.handle, left, right);
        },
        _ => {
            let found = collect_meta_data(event, store, context);
            report(context, found.handle, found.finding);
        },
    }
}

/// Validates `events`, none of which is the body of an `if`, in order.
fn validate_simply<'ast>(events: &Vec<AstEvent<'ast>>, store: &mut Store, context: &mut Context<'ast>)
    ensures
        (final(store)@, final(context)@) == validated_simply(
            old(store)@,
            old(context)@,
            event_models(events@),
            events@.len(),
        ),
{
    let ghost first = (store@, context@);
    let mut i: usize = 0;
    while i < events.len()
        invariant
            i <= events.len(),
            (store@, context@) == validated_simply(first.0, first.1, event_models(events@), i as nat),
        decreases events.len() - i,
    {
        validate_simple_event(&events[i], store, context);
        i += 1;
    }
}

/// Enters the body of an `if` whose test is `test`.
fn guard<'ast>(test: &ExpressionNodeStruct<'ast>, store: &mut Store, context: &mut Context<'ast>)
    ensures
        (final(store)@, final(context)@) == guarded(old(store)@, old(context)@, *test),
{
    let child = store.new_scope("IfConsequentBlockScope".to_owned(), Some(context.scope()));
    let nothing = MetaCarry::new();
    let comparison = context.meta_or(test, &nothing).comparison();
    context.clear_error(test);
    match comparison {
        Some(comparison_meta) => {
            let (left_expression, right_expression) = comparison_meta.members();
            let left_meta = context.meta_or(left_expression, &nothing);
            let right_meta = context.meta_or(right_expression, &nothing);
            let left_type = left_meta.expression_type();
            let right_type = right_meta.expression_type();
            let nonsensical = left_meta.variable().is_none() && right_meta.variable().is_none();
            track_type_assignment(left_meta, &right_type, &test.location, child, store, context);
            track_type_assignment(right_meta, &left_type, &test.location, child, store, context);
            if nonsensical {
                context.announce(
                    ValidationError::NonsensicalComparison { expression: test.source(), location: test.location },
                );
            }
        },
        None => {},
    }
    context.enter(child);
}

/// Validates the body of an `if` under its guard.
fn validate_consequent<'ast>(
    test: &ExpressionNodeStruct<'ast>,
    statement: &'ast Statement,
    store: &mut Store,
    context: &mut Context<'ast>,
)
    ensures
        (final(store)@, final(context)@) == validated_consequent(old(store)@, old(context)@, *test, statement),
    decreases statement, 1nat,
{
    let outside = context.scope();
    guard(test, store, context);
    validate_statement(statement, store, context);
    context.enter(outside);
}

/// Validates one statement.
#[verifier::loop_isolation(false)]
pub fn validate_statement<'ast>(statement: &'ast Statement, store: &mut Store, context: &mut Context<'ast>)
    ensures
        (final(store)@, final(context)@) == validated_statement(old(store)@, old(context)@, statement),
    decreases statement, 0nat,
{
    match statement {
        Statement::Expression(expression) => {
            let (_, events) = context.travel(expression);
            validate_simply(&events, store, context);
        },
        Statement::If { test, consequent, .. } => {
            let (node, events) = context.travel(test);
            validate_simply(&events, store, context);
            validate_consequent(&node, consequent, store, context);
        },
        Statement::Block(statements) => {
            let ghost first = (store@, context@);
            let mut i: usize = 0;
            while i < statements.len()
                invariant
                    i <= statements.len(),
                    (store@, context@) == validated_statements(first.0, first.1, statements, i as nat),
                decreases statements.len() - i,
            {
                validate_statement(&statements[i], store, context);
                i += 1;
            }
        },
        _ => {},
    }
}

/// Validates one event of any kind.
pub fn validate_event<'ast>(event: &AstEvent<'ast>, store: &mut Store, context: &mut Context<'ast>)
    ensures
        (final(store)@, final(context)@) == validated_event(old(store)@, old(context)@, event@),
{
    match event {
        AstEvent::ConsequentBody { test, statement } => validate_consequent(test, statement, store, context),
        _ => validate_simple_event(event, store, context),
    }
}

/// Validates `event_record` in order: metadata is collected for every node, and
/// the diagnostics that the events call for are published in `context`.
pub fn validate_events<'ast>(event_record: Vec<AstEvent<'ast>>, store: &mut Store, context: &mut Context<'ast>)
    ensures
        (final(store)@, final(context)@) == validated_events(
            old(store)@,
            old(context)@,
            event_models(event_record@),
            event_record@.len(),
        ),
{
    let ghost first = (store@, context@);
    let mut i: usize = 0;
    while i < event_record.len()
        invariant
            i <= event_record.len(),
            (store@, context@) == validated_events(first.0, first.1, event_models(event_record@), i as nat),
        decreases event_record.len() - i,
    {
        validate_event(&event_record[i], store, context);
        i += 1;
    }
}

/// Validates the statements of `ast` in the scope of `context`: walks them and
/// validates their events.
pub fn validation_pass<'ast>(ast: &'ast Vec<Statement>, store: &mut Store, context: &mut Context<'ast>)
    ensures
        (final(store)@, final(context)@) == validated_events(
            old(store)@,
            old(context)@.with_nodes(traveled_statements(ast, ast@.len(), old(context)@.nodes).1),
            traveled_statements(ast, ast@.len(), old(context)@.nodes).0,
            traveled_statements(ast, ast@.len(), old(context)@.nodes).0.len(),
        ),
{
    let event_record = context.travel_ast(ast);
    validate_events(event_record, store, context);
}

} // verus!
