use vstd::prelude::*;
use crate::ast::{expression_text, expression_to_string};
use crate::change_trace::{Mutation, TracedTypeMuation};
use crate::context::{Context, ContextModel};
use crate::custom_type::CustomTypeObject;
use crate::error::{AnalysisError, Diagnostic, Fault, TypeError, ValidationError};
use crate::expression_meta_data::{
    ComparisonMeta, ComparisonType, MetaCarry, MetaModel, MetaRef, PropertyAccessMeta,
};
use crate::expressions::{determine_expression_type, typed};
use crate::location::Location;
use crate::nodes::{ExpressionNodeStruct, Node};
use crate::scope::{ScopeRef, VariableRef};
use crate::store::{Store, StoreModel};
use crate::traits::BindableScope;
use crate::traveler::{AstEvent, EventModel};
use crate::types::{lemma_mixed_view, type_models, Ty, Type};

verus! {

/// What collecting the metadata of one event gives: the store and the context
/// afterwards, the record of the event's node, and the diagnostic that the event
/// calls for, if it calls for one.
pub struct Collected<'ast> {
    pub store: StoreModel,
    pub context: ContextModel<'ast>,
    pub handle: Option<MetaRef>,
    pub finding: Option<Diagnostic>,
}

/// What `collect_meta_data` hands on: the record of the event's node, and the
/// diagnostic that the event calls for.
#[derive(Debug)]
pub struct Collection {
    pub handle: Option<MetaRef>,
    pub finding: Option<ValidationError>,
}

/// The diagnostic that there may be.
pub open spec fn optional_diagnostic(error: Option<ValidationError>) -> Option<Diagnostic> {
    match error {
        Some(error) => Some(error@),
        None => None,
    }
}

impl StoreModel {
    /// The type that the variable has when control reaches byte `offset`: that of the
    /// last reassignment that starts before `offset`, else the declared type.
    pub open spec fn type_before(self, variable: VariableRef, offset: u32) -> Ty {
        match self.variable(variable) {
            Some(found) => if offset == 0 {
                found.current_type
            } else {
                found.effective_type((offset - 1) as u32)
            },
            None => Ty::Undefined,
        }
    }

    /// The declared type of the variable behind `variable`.
    pub open spec fn declared_type(self, variable: VariableRef) -> Ty {
        match self.variable(variable) {
            Some(found) => found.current_type,
            None => Ty::Undefined,
        }
    }

    /// The type of a sum: a string when a side is a string or the left side is an
    /// array, else a number.
    pub open spec fn sum_type(self, left: Ty, right: Ty) -> Ty {
        if left == Ty::String || right == Ty::String {
            Ty::String
        } else if left matches Ty::Composed { outer, .. } && self.is_array(outer) {
            Ty::String
        } else {
            Ty::Number
        }
    }
}

/// The type of a conditional expression whose branches have the types `consequent`
/// and `alternate`.
pub open spec fn joined_type(consequent: Ty, alternate: Ty) -> Ty {
    if alternate != consequent {
        Ty::Mixed(seq![alternate, consequent])
    } else {
        alternate
    }
}

/// The record and the finding for a node that is typed as an expression.
pub open spec fn collected_typing<'ast>(
    store: StoreModel,
    context: ContextModel<'ast>,
    node: ExpressionNodeStruct<'ast>,
) -> Collected<'ast> {
    match typed(store, context.scope, *node.expression) {
        (after, Ok(found)) => Collected {
            store: after,
            context: context.noted(node.id, MetaModel::of_type(found)),
            handle: Some(context.metas.len() as usize),
            finding: None,
        },
        (after, Err(fault)) => Collected {
            store: after,
            context: context.noted(node.id, MetaModel::empty()),
            handle: Some(context.metas.len() as usize),
            finding: Some(Diagnostic::of_fault(fault, expression_text(*node.expression), node.location)),
        },
    }
}

/// A new record `meta` for `node`, and the finding that goes with it.
pub open spec fn collected_record<'ast>(
    store: StoreModel,
    context: ContextModel<'ast>,
    node: ExpressionNodeStruct<'ast>,
    meta: MetaModel<'ast>,
    finding: Option<Diagnostic>,
) -> Collected<'ast> {
    Collected {
        store,
        context: context.noted(node.id, meta),
        handle: Some(context.metas.len() as usize),
        finding,
    }
}

/// The metadata of one event: what the event says of its node, given what is
/// known of the operands.
pub open spec fn collected<'ast>(store: StoreModel, context: ContextModel<'ast>, event: EventModel<'ast>) -> Collected<
    'ast,
> {
    match event {
        EventModel::Identifier { node, identifier } => match store.located(context.scope, identifier@) {
            Ok(variable) => collected_record(
                store,
                context,
                node,
                MetaModel {
                    variable: Some(variable),
                    expression_type: Some(store.type_before(variable, node.location.start)),
                    ..MetaModel::empty()
                },
                None,
            ),
            Err(fault) => collected_record(
                store,
                context,
                node,
                MetaModel::empty(),
                Some(Diagnostic::of_fault(fault, expression_text(*node.expression), node.location)),
            ),
        },
        EventModel::Literal { node, literal } => collected_record(
            store,
            context,
            node,
            MetaModel::of_type(literal.ty()),
            None,
        ),
        EventModel::Assignment { node, left, right } => {
            let own = context.type_of(left.id);
            let their = context.type_of(right.id);
            collected_record(
                store,
                context,
                node,
                MetaModel::of_type(their),
                if own == their || own == Ty::Null {
                    None
                } else {
                    Some(
                        Diagnostic::AssignTypeMismatch {
                            target: expression_text(*left.expression),
                            own_type: store.type_text(own),
                            their_type: store.type_text(their),
                            location: left.location,
                        },
                    )
                },
            )
        },
        EventModel::PropertyAccess { node, object, property } => match typed(
            store,
            context.scope,
            *object.expression,
        ) {
            (after, Ok(found)) => match after.query_property(found, property.value@, property.location) {
                Some(member) => collected_record(
                    after,
                    context,
                    node,
                    MetaModel { property_access: Some((object, property)), ..MetaModel::of_type(member) },
                    None,
                ),
                None => collected_record(
                    after,
                    context,
                    node,
                    MetaModel { property_access: Some((object, property)), ..MetaModel::of_type(Ty::Undefined) },
                    Some(
                        Diagnostic::UnknownProperty {
                            object: expression_text(*object.expression),
                            property: property.value@,
                            location: property.location,
                        },
                    ),
                ),
            },
            (after, Err(fault)) => collected_record(
                after,
                context,
                node,
                MetaModel { property_access: Some((object, property)), ..MetaModel::empty() },
                Some(Diagnostic::of_fault(fault, expression_text(*object.expression), object.location)),
            ),
        },
        EventModel::Addition { node, left, right } => collected_record(
            store,
            context,
            node,
            MetaModel::of_type(store.sum_type(context.type_of(left.id), context.type_of(right.id))),
            None,
        ),
        EventModel::Equality { node, left, right } => collected_record(
            store,
            context,
            node,
            MetaModel {
                comparison: Some(ComparisonMeta { kind: ComparisonType::Equality, members: (left, right) }),
                ..MetaModel::of_type(Ty::Boolean)
            },
            if context.type_of(left.id) != context.type_of(right.id) {
                Some(
                    Diagnostic::CompareTypeMismatch {
                        left_type: store.type_text(context.type_of(left.id)),
                        right_type: store.type_text(context.type_of(right.id)),
                        location: node.location,
                    },
                )
            } else {
                None
            },
        ),
        EventModel::Conditional { node, consequent, alternate, .. } => collected_record(
            store,
            context,
            node,
            MetaModel::of_type(joined_type(context.type_of(consequent.id), context.type_of(alternate.id))),
            None,
        ),
        EventModel::DynamicPropertyAccess { node, property, .. } => collected_record(
            store,
            context,
            node,
            MetaModel::of_type(Ty::Undefined),
            if context.type_of(property.id) != Ty::String {
                Some(
                    Diagnostic::InvalidType {
                        expression: expression_text(*property.expression),
                        current_type: store.type_text(context.type_of(property.id)),
                        expected_type: "String"@,
                        location: node.location,
                    },
                )
            } else {
                None
            },
        ),
        EventModel::Array { node, .. } => collected_typing(store, context, node),
        EventModel::Object { node, .. } => collected_typing(store, context, node),
        EventModel::Function { node, .. } => collected_typing(store, context, node),
        EventModel::Class { node, .. } => collected_typing(store, context, node),
        EventModel::Sequence { node, .. } => collected_typing(store, context, node),
        EventModel::This { node } => collected_record(store, context, node, MetaModel::of_type(Ty::Undefined), None),
        EventModel::Template { node } => collected_record(store, context, node, MetaModel::of_type(Ty::String), None),
        EventModel::FunctionCall { node, function, .. } => match store.located(
            context.scope,
            expression_text(*function.expression),
        ) {
            Ok(variable) => match store.declared_type(variable) {
                Ty::Function(_) => collected_record(store, context, node, MetaModel::of_type(Ty::Undefined), None),
                _ => collected_record(
                    store,
                    context,
                    node,
                    MetaModel::empty(),
                    Some(
                        Diagnostic::of_fault(
                            Fault::NotFunction { subject: expression_text(*function.expression) },
                            expression_text(*node.expression),
                            node.location,
                        ),
                    ),
                ),
            },
            Err(fault) => collected_record(
                store,
                context,
                node,
                MetaModel::empty(),
                Some(Diagnostic::of_fault(fault, expression_text(*node.expression), node.location)),
            ),
        },
        EventModel::Spread { node, argument } => Collected {
            store,
            context: context.shared(node.id, argument.id),
            handle: context.shared(node.id, argument.id).meta_handle(node.id),
            finding: None,
        },
        EventModel::PreOrPostFix { node, operand, .. } => Collected {
            store,
            context: context.shared(node.id, operand.id),
            handle: context.shared(node.id, operand.id).meta_handle(node.id),
            finding: None,
        },
        EventModel::ConsequentBody { test, .. } => Collected {
            store,
            context,
            handle: context.meta_handle(test.id),
            finding: None,
        },
        EventModel::AlternateBody { expression } => Collected {
            store,
            context,
            handle: context.meta_handle(expression.id),
            finding: None,
        },
        EventModel::AfterIf { expression } => Collected {
            store,
            context,
            handle: context.meta_handle(expression.id),
            finding: None,
        },
    }
}

/// Whether a type says something: every type but `Undefined` does.
pub open spec fn concrete(t: Ty) -> bool {
    !(t is Undefined)
}

/// Narrowing on one side of a comparison, inside the scope `scope`: a property of
/// an aggregate is narrowed on a copy of the aggregate that the scope gets for
/// itself, a variable on a copy of the variable.
pub open spec fn narrowed<'ast>(
    store: StoreModel,
    context: ContextModel<'ast>,
    scope: ScopeRef,
    subject: MetaModel<'ast>,
    target: Ty,
    place: Location,
) -> StoreModel {
    let first = match subject.property_access {
        Some((object, property)) => match CustomTypeObject::named_by(context.type_of(object.id)) {
            Some(aggregate) => if concrete(target) {
                store.bind_type(scope, aggregate).0.aggregate_changed(
                    store.bind_type(scope, aggregate).1,
                    Mutation::Update(property.value@),
                    target,
                    place,
                )
            } else {
                store
            },
            None => store,
        },
        None => store,
    };
    match subject.variable {
        Some(variable) => first.bind_variable(scope, variable).0.variable_changed(
            first.bind_variable(scope, variable).1,
            target,
            place,
        ),
        None => first,
    }
}

/// The type that the variable has when control reaches `location`.
pub fn type_before(store: &Store, variable: VariableRef, location: &Location) -> (r: Type)
    ensures
        r@ == store@.type_before(variable, location.start),
{
    match store.variable(variable) {
        Some(found) => {
            if location.start == 0 {
                found.current_type().clone()
            } else {
                let before = Location { start: location.start - 1, end: location.end, line: 0, column: 0 };
                found.effective_type(&before)
            }
        },
        None => Type::Undefined,
    }
}

/// The type of a sum of a value of type `left` and one of type `right`.
pub fn sum_type(store: &Store, left: &Type, right: &Type) -> (r: Type)
    ensures
        r@ == store@.sum_type(left@, right@),
{
    if left.same(&Type::String) || right.same(&Type::String) {
        return Type::String;
    }
    match left {
        Type::Composed { outer, .. } => {
            if store.is_array(*outer) {
                return Type::String;
            }
        },
        _ => {},
    }
    Type::Number
}

/// Registers `meta` as the record of `node`.
fn note<'ast>(
    context: &mut Context<'ast>,
    node: &ExpressionNodeStruct<'ast>,
    meta: MetaCarry<'ast>,
    finding: Option<ValidationError>,
) -> (r: Collection)
    ensures
        final(context)@ == old(context)@.noted(node.id, meta@),
        r.handle == Some(old(context)@.metas.len() as usize),
        r.finding == finding,
{
    let handle = context.set_node_meta_data(node, meta);
    Collection { handle: Some(handle), finding }
}

/// Types `node` as an expression and registers the result.
fn collect_typing<'ast>(node: &ExpressionNodeStruct<'ast>, store: &mut Store, context: &mut Context<'ast>) -> (r:
    Collection)
    ensures
        (Collected {
            store: final(store)@,
            context: final(context)@,
            handle: r.handle,
            finding: optional_diagnostic(r.finding),
        }) == collected_typing(old(store)@, old(context)@, *node),
{
    let mut meta_data = MetaCarry::new();
    match determine_expression_type(node.expression, context.scope(), store) {
        Ok(found) => {
            meta_data.set_expression_type(found);
            note(context, node, meta_data, None)
        },
        Err(error) => {
            let finding = ValidationError::from_analysis_error(error, node.source(), node.location);
            note(context, node, meta_data, Some(finding))
        },
    }
}

/// Collects the metadata of one event: registers what the event says of its node
/// and hands on the diagnostic that the event calls for.
pub fn collect_meta_data<'ast>(event: &AstEvent<'ast>, store: &mut Store, context: &mut Context<'ast>) -> (r:
    Collection)
    ensures
        (Collected {
            store: final(store)@,
            context: final(context)@,
            handle: r.handle,
            finding: optional_diagnostic(r.finding),
        }) == collected(old(store)@, old(context)@, event@),
{
    match event {
        AstEvent::Identifier { node, identifier } => {
            let mut meta_data = MetaCarry::new();
            match store.locate(context.scope(), identifier.as_str()) {
                Ok(variable) => {
                    meta_data.set_variable(Some(variable));
                    meta_data.set_expression_type(type_before(store, variable, &node.location));
                    note(context, node, meta_data, None)
                },
                Err(error) => {
                    let finding = ValidationError::from_analysis_error(
                        AnalysisError::Scope(error),
                        node.source(),
                        node.location,
                    );
                    note(context, node, meta_data, Some(finding))
                },
            }
        },
        AstEvent::Literal { node, literal } => {
            let mut meta_data = MetaCarry::new();
            meta_data.set_expression_type(literal.to_type());
            note(context, node, meta_data, None)
        },
        AstEvent::Assignment { node, left, right } => {
            let mut meta_data = MetaCarry::new();
            let their_type = context.type_of(right);
            let own_type = context.type_of(left);
            let finding = if own_type.same(&their_type) || own_type.same(&Type::Null) {
                None
            } else {
                Some(
                    ValidationError::AssignTypeMismatch {
                        target: left.source(),
                        own_type: own_type.to_string(store),
                        their_type: their_type.to_string(store),
                        location: left.location,
                    },
                )
            };
            meta_data.set_expression_type(their_type);
            note(context, node, meta_data, finding)
        },
        AstEvent::PropertyAccess { node, object, property } => {
            let mut meta_data = MetaCarry::new();
            meta_data.set_property_access(PropertyAccessMeta::new(*object, property.clone()));
            match determine_expression_type(object.expression, context.scope(), store) {
                Ok(found) => match found.query_property(property.value.as_str(), &property.location, store) {
                    Some(member) => {
                        meta_data.set_expression_type(member);
                        note(context, node, meta_data, None)
                    },
                    None => {
                        meta_data.set_expression_type(Type::Undefined);
                        let finding = ValidationError::UnknownProperty {
                            object: expression_to_string(object.expression),
                            property: property.source(),
                            location: property.location,
                        };
                        note(context, node, meta_data, Some(finding))
                    },
                },
                Err(error) => {
                    let finding = ValidationError::from_analysis_error(error, object.source(), object.location);
                    note(context, node, meta_data, Some(finding))
                },
            }
        },
        AstEvent::Addition { node, left, right } => {
            let mut meta_data = MetaCarry::new();
            let left_type = context.type_of(left);
            let right_type = context.type_of(right);
            meta_data.set_expression_type(sum_type(store, &left_type, &right_type));
            note(context, node, meta_data, None)
        },
        AstEvent::Equality { node, left, right } => {
            let mut meta_data = MetaCarry::new();
            meta_data.set_comparison(ComparisonMeta { kind: ComparisonType::Equality, members: (*left, *right) });
            meta_data.set_expression_type(Type::Boolean);
            let left_type = context.type_of(left);
            let right_type = context.type_of(right);
            let finding = if !left_type.same(&right_type) {
                Some(
                    ValidationError::CompareTypeMismatch {
                        left_type: left_type.to_string(store),
                        right_type: right_type.to_string(store),
                        location: node.location,
                    },
                )
            } else {
                None
            };
            note(context, node, meta_data, finding)
        },
        AstEvent::Conditional { node, consequent, alternate, .. } => {
            let mut meta_data = MetaCarry::new();
            let consequent_type = context.type_of(consequent);
            let alternate_type = context.type_of(alternate);
            let cond_type = if !alternate_type.same(&consequent_type) {
                let members = vec![alternate_type, consequent_type];
                proof {
                    lemma_mixed_view(members);
                    assert(type_models(members@) =~= seq![alternate_type@, consequent_type@]);
                }
                Type::Mixed(members)
            } else {
                alternate_type
            };
            meta_data.set_expression_type(cond_type);
            note(context, node, meta_data, None)
        },
        AstEvent::DynamicPropertyAccess { node, property, .. } => {
            let mut meta_data = MetaCarry::new();
            let property_type = context.type_of(property);
            let finding = if !property_type.same(&Type::String) {
                Some(
                    ValidationError::InvalidType {
                        expression: property.source(),
                        current_type: property_type.to_string(store),
                        expected_type: Type::String.to_string(store),
                        location: node.location,
                    },
                )
            } else {
                None
            };
            meta_data.set_expression_type(Type::Undefined);
            note(context, node, meta_data, finding)
        },
        AstEvent::Array { node, .. } => collect_typing(node, store, context),
        AstEvent::Object { node, .. } => collect_typing(node, store, context),
        AstEvent::Function { node, .. } => collect_typing(node, store, context),
        AstEvent::Class { node, .. } => collect_typing(node, store, context),
        AstEvent::Sequence { node, .. } => collect_typing(node, store, context),
        AstEvent::This { node } => {
            let mut meta_data = MetaCarry::new();
            meta_data.set_expression_type(Type::Undefined);
            note(context, node, meta_data, None)
        },
        AstEvent::Template { node } => {
            let mut meta_data = MetaCarry::new();
            meta_data.set_expression_type(Type::String);
            note(context, node, meta_data, None)
        },
        AstEvent::FunctionCall { node, function, arguments } => {
            let mut meta_data = MetaCarry::new();
            let name = expression_to_string(function.expression);
            match store.locate(context.scope(), name.as_str()) {
                Ok(variable) => {
                    let declared = match store.variable(variable) {
                        Some(found) => found.current_type().clone(),
                        None => Type::Undefined,
                    };
                    match declared {
                        Type::Function(handle) => {
                            let argument_types = map_argument_types(arguments, context);
                            let return_type = match store.function(handle) {
                                Some(definition) => definition.return_type(&argument_types),
                                None => Type::Undefined,
                            };
                            meta_data.set_expression_type(return_type);
                            note(context, node, meta_data, None)
                        },
                        _ => {
                            let finding = ValidationError::from_analysis_error(
                                AnalysisError::Type(TypeError::NotFunction { subject: name }),
                                node.source(),
                                node.location,
                            );
                            note(context, node, meta_data, Some(finding))
                        },
                    }
                },
                Err(error) => {
                    let finding = ValidationError::from_analysis_error(
                        AnalysisError::Scope(error),
                        node.source(),
                        node.location,
                    );
                    note(context, node, meta_data, Some(finding))
                },
            }
        },
        AstEvent::Spread { node, argument } => {
            context.share_node_meta_data(node, argument);
            Collection { handle: context.node_meta_data(node), finding: None }
        },
        AstEvent::PreOrPostFix { node, operand, .. } => {
            context.share_node_meta_data(node, operand);
            Collection { handle: context.node_meta_data(node), finding: None }
        },
        AstEvent::ConsequentBody { test, .. } => Collection { handle: context.node_meta_data(test), finding: None },
        AstEvent::AlternateBody { expression } => Collection {
            handle: context.node_meta_data(expression),
            finding: None,
        },
        AstEvent::AfterIf { expression } => Collection { handle: context.node_meta_data(expression), finding: None },
    }
}

/// The types recorded for `args`, in order.
pub fn map_argument_types<'ast>(args: &Vec<ExpressionNodeStruct<'ast>>, context: &Context<'ast>) -> (r: Vec<Type>)
    ensures
        r@.len() == args@.len(),
        forall|i: int| 0 <= i < args@.len() ==> (#[trigger] r@[i])@ == context@.type_of(args@[i].id),
{
    let mut types: Vec<Type> = Vec::new();
    let mut i: usize = 0;
    while i < args.len()
        invariant
            i <= args.len(),
            types@.len() == i,
            forall|j: int| 0 <= j < i ==> (#[trigger] types@[j])@ == context@.type_of(args@[j].id),
        decreases args.len() - i,
    {
        types.push(context.type_of(&args[i]));
        i += 1;
    }
    types
}

/// Records that, from `location` on, `property` of the aggregate `object` has the
/// type `new_type`.
pub fn update_object_property_type(
    store: &mut Store,
    object: CustomTypeObject,
    property: &str,
    new_type: &Type,
    location: &Location,
)
    ensures
        final(store)@ == old(store)@.aggregate_changed(object, Mutation::Update(property@), new_type@, *location),
{
    store.change_aggregate(object, TracedTypeMuation::Update(property.to_owned()), new_type.clone(), *location);
}

/// Narrows one side of a comparison to `target_type` inside `scope`: the property
/// or the variable that the side stands for is narrowed on a copy that the scope
/// gets for itself.
pub fn track_type_assignment<'ast>(
    node_meta: &MetaCarry<'ast>,
    target_type: &Type,
    location: &Location,
    scope: ScopeRef,
    store: &mut Store,
    context: &Context<'ast>,
)
    ensures
        final(store)@ == narrowed(old(store)@, context@, scope, node_meta@, target_type@, *location),
{
    match node_meta.property_access() {
        Some(prop_access) => {
            let object_type = context.type_of(prop_access.object());
            match CustomTypeObject::of_type(&object_type) {
                Some(aggregate) => {
                    if !target_type.same(&Type::Undefined) {
                        let copy = store.bind(scope, &aggregate);
                        update_object_property_type(
                            store,
                            copy,
                            prop_access.property().value.as_str(),
                            target_type,
                            location,
                        );
                    }
                },
                None => {},
            }
        },
        None => {},
    }
    match node_meta.variable() {
        Some(variable) => {
            let copy = store.bind(scope, variable);
            store.change_variable(copy, target_type.clone(), *location);
        },
        None => {},
    }
}

} // verus!
