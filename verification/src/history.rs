use vstd::prelude::*;
use crate::analysis::{analyzed, analyzed_declarators, analyzed_statements, declared_variable, with_declaration};
use crate::ast::{Declarator, Expression, ExpressionNode, Statement};
use crate::context::ContextModel;
use crate::expressions::{typed, typed_list};
use crate::location::Location;
use crate::scope::{ScopeModel, ScopeRef};
use crate::store::StoreModel;
use crate::tracing::{traced, traced_assignment, traced_expression};
use crate::traveler::EventModel;
use crate::types::Ty;
use crate::typing_laws::{lemma_grows, lemma_list_grows, lemma_typed_extends, lemma_typed_list_extends};
use crate::validation::validated_events;
use crate::validation_laws::lemma_validated_events_extend;
use crate::variable::VariableKind;

verus! {

impl StoreModel {
    /// Whether this store is a later state of `earlier`: all that `earlier` held is
    /// there, with the identity, the declared type and the static shape that it
    /// had; a name that was given has stayed; and every trace and log has at most
    /// grown at its end.
    pub open spec fn continues(self, earlier: StoreModel) -> bool {
        &&& self.no_smaller_than(earlier)
        &&& forall|h: int|
            0 <= h < earlier.objects.len() ==> {
                &&& (#[trigger] self.objects[h]).id == earlier.objects[h].id
                &&& self.objects[h].is_array == earlier.objects[h].is_array
                &&& self.objects[h].prototype == earlier.objects[h].prototype
                &&& self.objects[h].properties == earlier.objects[h].properties
                &&& earlier.objects[h].trace.is_prefix_of(self.objects[h].trace)
                &&& (earlier.objects[h].name is Some ==> self.objects[h].name == earlier.objects[h].name)
            }
        &&& forall|h: int|
            0 <= h < earlier.functions.len() ==> {
                &&& (#[trigger] self.functions[h]).id == earlier.functions[h].id
                &&& self.functions[h].arguments == earlier.functions[h].arguments
                &&& self.functions[h].properties == earlier.functions[h].properties
                &&& earlier.functions[h].trace.is_prefix_of(self.functions[h].trace)
                &&& earlier.functions[h].invocations.is_prefix_of(self.functions[h].invocations)
                &&& (earlier.functions[h].name is Some ==> self.functions[h].name == earlier.functions[h].name)
            }
        &&& forall|h: int|
            0 <= h < earlier.variables.len() ==> {
                &&& (#[trigger] self.variables[h]).name == earlier.variables[h].name
                &&& self.variables[h].current_type == earlier.variables[h].current_type
                &&& self.variables[h].kind == earlier.variables[h].kind
                &&& earlier.variables[h].trace.is_prefix_of(self.variables[h].trace)
            }
        &&& forall|h: int|
            0 <= h < earlier.scopes.len() ==> {
                &&& (#[trigger] self.scopes[h]).parent == earlier.scopes[h].parent
                &&& self.scopes[h].name == earlier.scopes[h].name
            }
    }
}

/// A store continues itself.
pub proof fn lemma_continues_itself(store: StoreModel)
    ensures
        store.continues(store),
{
}

/// A store that holds all that an earlier one held continues it.
pub proof fn lemma_extension_continues(later: StoreModel, earlier: StoreModel)
    requires
        later.extends(earlier),
    ensures
        later.continues(earlier),
{
    assert forall|h: int| 0 <= h < earlier.objects.len() implies earlier.objects[h].trace.is_prefix_of(
        (#[trigger] later.objects[h]).trace,
    ) by {}
}

/// What continues a store that continues a third continues the third.
pub proof fn lemma_continues_goes_on(last: StoreModel, middle: StoreModel, first: StoreModel)
    requires
        last.continues(middle),
        middle.continues(first),
    ensures
        last.continues(first),
{
    assert forall|h: int| 0 <= h < first.objects.len() implies {
        &&& (#[trigger] last.objects[h]).id == first.objects[h].id
        &&& last.objects[h].is_array == first.objects[h].is_array
        &&& last.objects[h].prototype == first.objects[h].prototype
        &&& last.objects[h].properties == first.objects[h].properties
        &&& first.objects[h].trace.is_prefix_of(last.objects[h].trace)
        &&& (first.objects[h].name is Some ==> last.objects[h].name == first.objects[h].name)
    } by {
        let m = middle.objects[h];
        assert(first.objects[h].trace.is_prefix_of(m.trace));
    }
    assert forall|h: int| 0 <= h < first.functions.len() implies {
        &&& (#[trigger] last.functions[h]).id == first.functions[h].id
        &&& last.functions[h].arguments == first.functions[h].arguments
        &&& last.functions[h].properties == first.functions[h].properties
        &&& first.functions[h].trace.is_prefix_of(last.functions[h].trace)
        &&& first.functions[h].invocations.is_prefix_of(last.functions[h].invocations)
        &&& (first.functions[h].name is Some ==> last.functions[h].name == first.functions[h].name)
    } by {
        let m = middle.functions[h];
        assert(first.functions[h].trace.is_prefix_of(m.trace));
        assert(first.functions[h].invocations.is_prefix_of(m.invocations));
    }
    assert forall|h: int| 0 <= h < first.variables.len() implies {
        &&& (#[trigger] last.variables[h]).name == first.variables[h].name
        &&& last.variables[h].current_type == first.variables[h].current_type
        &&& last.variables[h].kind == first.variables[h].kind
        &&& first.variables[h].trace.is_prefix_of(last.variables[h].trace)
    } by {
        let m = middle.variables[h];
        assert(first.variables[h].trace.is_prefix_of(m.trace));
    }
    assert forall|h: int| 0 <= h < first.scopes.len() implies {
        &&& (#[trigger] last.scopes[h]).parent == first.scopes[h].parent
        &&& last.scopes[h].name == first.scopes[h].name
    } by {
        let m = middle.scopes[h];
    }
}

/// Typing continues the store.
pub proof fn lemma_typed_continues(store: StoreModel, scope: ScopeRef, expression: Expression)
    requires
        typed(store, scope, expression).0.fits(),
    ensures
        typed(store, scope, expression).0.continues(store),
{
    lemma_typed_extends(store, scope, expression);
    lemma_extension_continues(typed(store, scope, expression).0, store);
}

/// Tracing an assignment continues the store: it appends to one trace.
pub proof fn lemma_traced_assignment_continues(
    store: StoreModel,
    scope: ScopeRef,
    receiver: Expression,
    assigned: Ty,
    place: Location,
)
    requires
        traced_assignment(store, scope, receiver, assigned, place).0.fits(),
    ensures
        traced_assignment(store, scope, receiver, assigned, place).0.continues(store),
{
    match receiver {
        Expression::Member { object, property } => {
            let after = typed(store, scope, object.item);
            lemma_typed_continues(store, scope, object.item);
            let last = traced_assignment(store, scope, receiver, assigned, place).0;
            assert(last.continues(after.0));
            lemma_continues_goes_on(last, after.0, store);
        },
        _ => {},
    }
}

/// Tracing one expression statement continues the store.
pub proof fn lemma_traced_expression_continues(store: StoreModel, scope: ScopeRef, expression: ExpressionNode)
    requires
        traced_expression(store, scope, expression).0.fits(),
    ensures
        traced_expression(store, scope, expression).0.continues(store),
{
    let last = traced_expression(store, scope, expression).0;
    match expression.item {
        Expression::Binary { operator, left, right } => {
            if operator == crate::ast::OperatorKind::Assign {
                let after = typed(store, scope, right.item);
                match after.1 {
                    Ok(assigned) => {
                        lemma_traced_assignment_grows(after.0, scope, left.item, assigned, expression.spec_location());
                        lemma_typed_continues(store, scope, right.item);
                        lemma_traced_assignment_continues(after.0, scope, left.item, assigned, expression.spec_location());
                        lemma_continues_goes_on(last, after.0, store);
                    },
                    Err(_) => {
                        lemma_typed_continues(store, scope, right.item);
                    },
                }
            }
        },
        Expression::Call { callee, arguments } => {
            let middle = typed_list(store, scope, arguments@, arguments@.len());
            match middle.1 {
                Ok(types) => {
                    let after = typed(middle.0, scope, callee.item);
                    lemma_grows(middle.0, scope, callee.item);
                    lemma_typed_list_extends(store, scope, arguments@, arguments@.len());
                    lemma_extension_continues(middle.0, store);
                    lemma_typed_continues(middle.0, scope, callee.item);
                    assert(last.continues(after.0));
                    lemma_continues_goes_on(after.0, middle.0, store);
                    lemma_continues_goes_on(last, after.0, store);
                },
                Err(_) => {
                    lemma_typed_list_extends(store, scope, arguments@, arguments@.len());
                    lemma_extension_continues(middle.0, store);
                },
            }
        },
        _ => {},
    }
}

/// Tracing an assignment takes nothing away from the store.
pub proof fn lemma_traced_assignment_grows(
    store: StoreModel,
    scope: ScopeRef,
    receiver: Expression,
    assigned: Ty,
    place: Location,
)
    ensures
        traced_assignment(store, scope, receiver, assigned, place).0.no_smaller_than(store),
{
    match receiver {
        Expression::Member { object, property } => {
            lemma_grows(store, scope, object.item);
        },
        _ => {},
    }
}

/// Tracing one expression statement takes nothing away from the store.
pub proof fn lemma_traced_expression_grows(store: StoreModel, scope: ScopeRef, expression: ExpressionNode)
    ensures
        traced_expression(store, scope, expression).0.no_smaller_than(store),
{
    match expression.item {
        Expression::Binary { operator, left, right } => {
            if operator == crate::ast::OperatorKind::Assign {
                let after = typed(store, scope, right.item);
                lemma_grows(store, scope, right.item);
                match after.1 {
                    Ok(assigned) => {
                        lemma_traced_assignment_grows(after.0, scope, left.item, assigned, expression.spec_location());
                    },
                    Err(_) => {},
                }
            }
        },
        Expression::Call { callee, arguments } => {
            let middle = typed_list(store, scope, arguments@, arguments@.len());
            lemma_list_grows(store, scope, arguments@, arguments@.len());
            if middle.1 is Ok {
                lemma_grows(middle.0, scope, callee.item);
            }
        },
        _ => {},
    }
}

/// The tracing pass changes no identity, no declared type and no static shape, and
/// takes no name back: all that it does to what is in the store is to append to
/// traces and to the logs of calls.
pub proof fn lemma_traced_continues(store: StoreModel, scope: ScopeRef, ast: Seq<Statement>, count: nat)
    requires
        traced(store, scope, ast, count).0.fits(),
    ensures
        traced(store, scope, ast, count).0.continues(store),
    decreases count,
{
    if !(count == 0 || count > ast.len()) {
        let before = traced(store, scope, ast, (count - 1) as nat);
        match ast[count - 1] {
            Statement::Expression(expression) => {
                lemma_traced_expression_grows(before.0, scope, expression);
                lemma_traced_continues(store, scope, ast, (count - 1) as nat);
                lemma_traced_expression_continues(before.0, scope, expression);
                lemma_continues_goes_on(traced(store, scope, ast, count).0, before.0, store);
            },
            _ => {
                lemma_traced_continues(store, scope, ast, (count - 1) as nat);
            },
        }
    }
}

/// Declaring one variable takes nothing away from the store.
pub proof fn lemma_declared_grows(store: StoreModel, scope: ScopeRef, declarator: Declarator, kind: VariableKind)
    ensures
        declared_variable(store, scope, declarator, kind).0.no_smaller_than(store),
        declared_variable(store, scope, declarator, kind).1 matches Ok(variable) ==> with_declaration(
            declared_variable(store, scope, declarator, kind).0,
            scope,
            variable,
        ).no_smaller_than(store),
{
    match declarator.init {
        Some(init) => {
            lemma_grows(store, scope, init.item);
        },
        None => {},
    }
}

/// Declaring one variable continues the store: an aggregate may get its first
/// name, and the scope a variable and a type.
pub proof fn lemma_declared_continues(store: StoreModel, scope: ScopeRef, declarator: Declarator, kind: VariableKind)
    requires
        declared_variable(store, scope, declarator, kind).0.fits(),
        declared_variable(store, scope, declarator, kind).1 matches Ok(variable) ==> with_declaration(
            declared_variable(store, scope, declarator, kind).0,
            scope,
            variable,
        ).fits(),
    ensures
        declared_variable(store, scope, declarator, kind).0.continues(store),
        declared_variable(store, scope, declarator, kind).1 matches Ok(variable) ==> with_declaration(
            declared_variable(store, scope, declarator, kind).0,
            scope,
            variable,
        ).continues(store),
{
    let found = match declarator.init {
        Some(init) => typed(store, scope, init.item),
        None => (store, Ok(Ty::Undefined)),
    };
    match declarator.init {
        Some(init) => {
            lemma_typed_continues(store, scope, init.item);
        },
        None => {},
    }
    let named = declared_variable(store, scope, declarator, kind);
    assert(named.0.continues(found.0));
    lemma_continues_goes_on(named.0, found.0, store);
    match named.1 {
        Ok(variable) => {
            let last = with_declaration(named.0, scope, variable);
            assert(last.continues(named.0));
            lemma_continues_goes_on(last, named.0, store);
        },
        Err(_) => {},
    }
}

/// The walk over the declarators of one declaration takes nothing away from the store.
pub proof fn lemma_analyzed_declarators_grow(
    store: StoreModel,
    scope: ScopeRef,
    kind: VariableKind,
    declarators: Seq<Declarator>,
    count: nat,
)
    ensures
        analyzed_declarators(store, scope, kind, declarators, count).0.no_smaller_than(store),
    decreases count,
{
    if !(count == 0 || count > declarators.len()) {
        lemma_analyzed_declarators_grow(store, scope, kind, declarators, (count - 1) as nat);
        let before = analyzed_declarators(store, scope, kind, declarators, (count - 1) as nat);
        lemma_declared_grows(before.0, scope, declarators[count - 1], kind);
    }
}

/// The walk over the declarators of one declaration continues the store.
pub proof fn lemma_analyzed_declarators_continue(
    store: StoreModel,
    scope: ScopeRef,
    kind: VariableKind,
    declarators: Seq<Declarator>,
    count: nat,
)
    requires
        analyzed_declarators(store, scope, kind, declarators, count).0.fits(),
    ensures
        analyzed_declarators(store, scope, kind, declarators, count).0.continues(store),
    decreases count,
{
    if !(count == 0 || count > declarators.len()) {
        let before = analyzed_declarators(store, scope, kind, declarators, (count - 1) as nat);
        lemma_declared_grows(before.0, scope, declarators[count - 1], kind);
        lemma_analyzed_declarators_continue(store, scope, kind, declarators, (count - 1) as nat);
        lemma_declared_continues(before.0, scope, declarators[count - 1], kind);
        lemma_continues_goes_on(analyzed_declarators(store, scope, kind, declarators, count).0, before.0, store);
    }
}

/// The walk over statements takes nothing away from the store.
pub proof fn lemma_analyzed_statements_grow(store: StoreModel, scope: ScopeRef, body: Seq<Statement>, count: nat)
    ensures
        analyzed_statements(store, scope, body, count).0.no_smaller_than(store),
    decreases count,
{
    if !(count == 0 || count > body.len()) {
        lemma_analyzed_statements_grow(store, scope, body, (count - 1) as nat);
        let before = analyzed_statements(store, scope, body, (count - 1) as nat);
        match body[count - 1] {
            Statement::Declaration { kind, declarators } => {
                lemma_analyzed_declarators_grow(before.0, scope, kind, declarators@, declarators@.len());
            },
            _ => {},
        }
    }
}

/// The walk over statements continues the store.
pub proof fn lemma_analyzed_statements_continue(store: StoreModel, scope: ScopeRef, body: Seq<Statement>, count: nat)
    requires
        analyzed_statements(store, scope, body, count).0.fits(),
    ensures
        analyzed_statements(store, scope, body, count).0.continues(store),
    decreases count,
{
    if !(count == 0 || count > body.len()) {
        let before = analyzed_statements(store, scope, body, (count - 1) as nat);
        match body[count - 1] {
            Statement::Declaration { kind, declarators } => {
                lemma_analyzed_declarators_grow(before.0, scope, kind, declarators@, declarators@.len());
                lemma_analyzed_statements_continue(store, scope, body, (count - 1) as nat);
                lemma_analyzed_declarators_continue(before.0, scope, kind, declarators@, declarators@.len());
                lemma_continues_goes_on(analyzed_statements(store, scope, body, count).0, before.0, store);
            },
            _ => {
                lemma_analyzed_statements_continue(store, scope, body, (count - 1) as nat);
            },
        }
    }
}

/// The declaration walk changes no identity, no declared type and no static shape
/// of what is in the store, and takes no name back: it adds the scope of the
/// module and the variables, and gives aggregates their first names.
pub proof fn lemma_analyzed_continues(store: StoreModel, root: ScopeRef, body: Seq<Statement>)
    requires
        analyzed(store, root, body).0.fits(),
    ensures
        analyzed(store, root, body).0.continues(store),
{
    let begun = store.with_scope(ScopeModel::empty("ModuleScope"@, Some(root)));
    lemma_analyzed_statements_continue(begun, store.scopes.len() as usize, body, body.len());
    assert(begun.continues(store));
    lemma_continues_goes_on(analyzed(store, root, body).0, begun, store);
}

/// The validation pass continues the store.
pub proof fn lemma_validated_continues(store: StoreModel, context: ContextModel, events: Seq<EventModel>, count: nat)
    requires
        validated_events(store, context, events, count).0.fits(),
    ensures
        validated_events(store, context, events, count).0.continues(store),
{
    lemma_validated_events_extend(store, context, events, count);
    lemma_extension_continues(validated_events(store, context, events, count).0, store);
}

} // verus!
