use vstd::prelude::*;
use crate::ast::{expression_text, expression_to_string, Expression, ExpressionNode, OperatorKind, Statement};
use crate::change_trace::{Mutation, TracedTypeMuation};
use crate::custom_type::CustomTypeObject;
use crate::error::{AnalysisError, Fault, TypeError};
use crate::expressions::{determine_expression_type, type_list, typed, typed_list};
use crate::location::Location;
use crate::scope::ScopeRef;
use crate::store::{Store, StoreModel};
use crate::types::{Ty, Type};

verus! {

/// What tracing one statement gives: the store afterwards, and what went wrong, if anything did.
pub type Traced = (StoreModel, Option<Fault>);

/// Whether every expression statement of `ast` ends before the last byte that a
/// location can name, so that the place just behind it can be named too.
pub open spec fn traceable(ast: Seq<Statement>) -> bool {
    forall|i: int| 0 <= i < ast.len() ==> (#[trigger] ast[i] matches Statement::Expression(expression)
        ==> expression.end < u32::MAX)
}

/// The change of shape that an assignment to `property` is: an update of a property
/// that the static map has, else an addition.
pub open spec fn shape_change(store: StoreModel, target: Ty, property: Seq<char>) -> Mutation {
    if store.properties(target).dom().contains(property) {
        Mutation::Update(property)
    } else {
        Mutation::Add(property)
    }
}

/// Tracing the assignment of a value of type `assigned` to `receiver`.
pub open spec fn traced_assignment(
    store: StoreModel,
    scope: ScopeRef,
    receiver: Expression,
    assigned: Ty,
    place: Location,
) -> Traced {
    match receiver {
        Expression::Identifier(name) => match store.located(scope, name@) {
            Ok(variable) => (store.variable_changed(variable, assigned, place), None),
            Err(fault) => (store, Some(fault)),
        },
        Expression::Member { object, property } => match typed(store, scope, object.item) {
            (after, Ok(target)) => match CustomTypeObject::named_by(target) {
                Some(aggregate) => (
                    after.aggregate_changed(
                        aggregate,
                        shape_change(after, target, property.name@),
                        assigned,
                        place.collapsed(true),
                    ),
                    None,
                ),
                None => (after, Some(
                    Fault::PrimitivePropertyWrite { subject: after.type_text(target), property: property.name@ },
                )),
            },
            (after, Err(fault)) => (after, Some(fault)),
        },
        _ => (store, None),
    }
}

/// Tracing one expression statement: an assignment is traced on its receiver, a call
/// on the function that is called, and nothing else is traced.
pub open spec fn traced_expression(store: StoreModel, scope: ScopeRef, expression: ExpressionNode) -> Traced {
    match expression.item {
        Expression::Binary { operator, left, right } => if operator == OperatorKind::Assign {
            match typed(store, scope, right.item) {
                (after, Ok(assigned)) => traced_assignment(after, scope, left.item, assigned, expression.spec_location()),
                (after, Err(fault)) => (after, Some(fault)),
            }
        } else {
            (store, None)
        },
        Expression::Call { callee, arguments } => match typed_list(store, scope, arguments@, arguments@.len()) {
            (middle, Ok(types)) => match typed(middle, scope, callee.item) {
                (after, Ok(Ty::Function(function))) => (
                    after.invoked(function, types, expression.spec_location()),
                    None,
                ),
                (after, Ok(_)) => (after, Some(Fault::NotFunction { subject: expression_text(expression.item) })),
                (after, Err(fault)) => (after, Some(fault)),
            },
            (middle, Err(fault)) => (middle, Some(fault)),
        },
        _ => (store, None),
    }
}

/// Tracing the first `count` statements of `ast`: the store afterwards and all that
/// went wrong, in order.
pub open spec fn traced(store: StoreModel, scope: ScopeRef, ast: Seq<Statement>, count: nat) -> (
    StoreModel,
    Seq<Fault>,
)
    decreases count,
{
    if count == 0 || count > ast.len() {
        (store, Seq::empty())
    } else {
        let before = traced(store, scope, ast, (count - 1) as nat);
        match ast[count - 1] {
            Statement::Expression(expression) => match traced_expression(before.0, scope, expression) {
                (after, Some(fault)) => (after, before.1.push(fault)),
                (after, None) => (after, before.1),
            },
            _ => before,
        }
    }
}

/// The values of a list of errors.
pub open spec fn faults(errors: Seq<AnalysisError>) -> Seq<Fault> {
    errors.map_values(|error: AnalysisError| error@)
}

/// The value of an error that there may be.
pub open spec fn optional_fault(error: Option<AnalysisError>) -> Option<Fault> {
    match error {
        Some(error) => Some(error@),
        None => None,
    }
}

/// Traces the assignment of a value of type `assigned` to `receiver`.
fn trace_assignment(
    receiver: &Expression,
    assigned: Type,
    place: Location,
    scope: ScopeRef,
    store: &mut Store,
) -> (r: Option<AnalysisError>)
    requires
        place.end < u32::MAX,
    ensures
        (final(store)@, optional_fault(r)) == traced_assignment(old(store)@, scope, *receiver, assigned@, place),
{
    match receiver {
        Expression::Identifier(name) => match store.locate(scope, name.as_str()) {
            Ok(variable) => {
                store.change_variable(variable, assigned, place);
                None
            },
            Err(error) => Some(AnalysisError::Scope(error)),
        },
        Expression::Member { object, property } => {
            let target = match determine_expression_type(&object.item, scope, store) {
                Ok(target) => target,
                Err(error) => {
                    return Some(error);
                },
            };
            match CustomTypeObject::of_type(&target) {
                Some(aggregate) => {
                    let change = if target.has_property(property.name.as_str(), store) {
                        TracedTypeMuation::Update(property.name.clone())
                    } else {
                        TracedTypeMuation::Add(property.name.clone())
                    };
                    store.change_aggregate(aggregate, change, assigned, place.collapse(true));
                    None
                },
                None => Some(
                    AnalysisError::Type(
                        TypeError::PrimitivePropertyWrite {
                            subject: target.to_string(store),
                            property: property.name.clone(),
                        },
                    ),
                ),
            }
        },
        _ => None,
    }
}

/// Traces one expression statement.
pub fn trace_expression(expression: &ExpressionNode, scope: ScopeRef, store: &mut Store) -> (r: Option<
    AnalysisError,
>)
    requires
        expression.end < u32::MAX,
    ensures
        (final(store)@, optional_fault(r)) == traced_expression(old(store)@, scope, *expression),
{
    match &expression.item {
        Expression::Binary { operator, left, right } => {
            match operator {
                OperatorKind::Assign => {},
                _ => {
                    return None;
                },
            }
            let assigned = match determine_expression_type(&right.item, scope, store) {
                Ok(assigned) => assigned,
                Err(error) => {
                    return Some(error);
                },
            };
            trace_assignment(&left.item, assigned, expression.location(), scope, store)
        },
        Expression::Call { callee, arguments } => {
            let types = match type_list(arguments, scope, store) {
                Ok(types) => types,
                Err(error) => {
                    return Some(error);
                },
            };
            let function = match determine_expression_type(&callee.item, scope, store) {
                Ok(function) => function,
                Err(error) => {
                    return Some(error);
                },
            };
            match function {
                Type::Function(handle) => {
                    store.trace_invocation(handle, types, expression.location());
                    None
                },
                _ => Some(
                    AnalysisError::Type(TypeError::NotFunction { subject: expression_to_string(&expression.item) }),
                ),
            }
        },
        _ => None,
    }
}

/// Traces the expression statements of `ast` in `scope`, in source order: every
/// assignment and call leaves its mark in the traces of the store. Returns what went wrong.
pub fn tracing_pass(ast: &Vec<Statement>, scope: ScopeRef, store: &mut Store) -> (r: Vec<AnalysisError>)
    requires
        traceable(ast@),
    ensures
        (final(store)@, faults(r@)) == traced(old(store)@, scope, ast@, ast@.len()),
{
    let ghost start = store@;
    let mut error_collection: Vec<AnalysisError> = Vec::new();
    let mut i: usize = 0;
    assert(faults(error_collection@) =~= Seq::empty());
    while i < ast.len()
        invariant
            i <= ast.len(),
            traceable(ast@),
            (store@, faults(error_collection@)) == traced(start, scope, ast@, i as nat),
        decreases ast.len() - i,
    {
        let ghost so_far = faults(error_collection@);
        match &ast[i] {
            Statement::Expression(expression) => {
                match trace_expression(expression, scope, store) {
                    Some(error) => {
                        error_collection.push(error);
                        assert(faults(error_collection@) =~= so_far.push(error@));
                    },
                    None => {},
                }
            },
            _ => {},
        }
        i += 1;
    }
    error_collection
}

} // verus!
