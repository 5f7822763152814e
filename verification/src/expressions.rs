use vstd::prelude::*;
use vstd::string::*;
use crate::ast::{
    expression_text, expression_to_string, property_key_text, property_to_string, Class, Expression,
    ExpressionNode, Property,
};
use crate::custom_type::CustomTypeObject;
use crate::error::{AccessError, AnalysisError, Fault, TypeError};
use crate::function_type::{FunctionModel, FunctionType};
use crate::location::Location;
use crate::name_map::NameMap;
use crate::object_type::{ObjectModel, ObjectType};
use crate::scope::ScopeRef;
use crate::store::{Store, StoreModel, ARRAY_PROTOTYPE, OBJECT_PROTOTYPE};
use crate::types::{
    lemma_mixed_view, lemma_property_models_insert, optional_model, property_models, type_models, Ty, Type,
};

verus! {

/// A typing outcome: the store as typing left it, and the type or why there is none.
pub type Typed = (StoreModel, Result<Ty, Fault>);

/// The value of what typing answers.
pub open spec fn typing_model(r: Result<Type, AnalysisError>) -> Result<Ty, Fault> {
    match r {
        Ok(t) => Ok(t@),
        Err(error) => Err(error@),
    }
}

/// The value of the types of a list, or of why there are none.
pub open spec fn list_model(r: Result<Vec<Type>, AnalysisError>) -> Result<Seq<Ty>, Fault> {
    match r {
        Ok(types) => Ok(type_models(types@)),
        Err(error) => Err(error@),
    }
}

/// The prototype that an object literal gets, given the type of its `__proto__` member.
pub open spec fn literal_prototype(proto: Option<Ty>) -> Option<CustomTypeObject> {
    match proto {
        Some(Ty::Object(handle)) => Some(CustomTypeObject::Object(handle)),
        Some(Ty::Function(handle)) => Some(CustomTypeObject::Function(handle)),
        Some(Ty::Undefined) => None,
        Some(_) => Some(CustomTypeObject::Object(OBJECT_PROTOTYPE)),
        None => Some(CustomTypeObject::Object(OBJECT_PROTOTYPE)),
    }
}

/// The name of a class's prototype.
pub open spec fn prototype_name(name: Option<String>) -> Option<Seq<char>> {
    match name {
        Some(name) => Some(name@ + "Prototype"@),
        None => None,
    }
}

impl StoreModel {
    /// The store with a fresh function aggregate that has no parameters.
    pub open spec fn with_fresh_function(self) -> StoreModel {
        self.issued().with_function(FunctionModel::fresh(self.next_id, Seq::empty()))
    }

    /// The declared type of the variable that `name` means in `scope`.
    pub open spec fn identifier_typed(self, scope: ScopeRef, name: Seq<char>) -> Result<Ty, Fault> {
        match self.located(scope, name) {
            Ok(variable) => Ok(
                match self.variable(variable) {
                    Some(found) => found.current_type,
                    None => Ty::Undefined,
                },
            ),
            Err(fault) => Err(fault),
        }
    }

    /// The type of the member `property` of a value of type `object`, asked at `at`.
    pub open spec fn member_typed(self, object: Ty, property: Seq<char>, at: Location) -> Result<Ty, Fault> {
        match self.query_property(object, property, at) {
            Some(found) => Ok(found),
            None => Err(Fault::UndefinedProperty { property, object: self.type_text(object) }),
        }
    }

    /// What spreading a value of type `container` contributes.
    pub open spec fn spread_typed(self, container: Ty) -> Ty {
        match container {
            Ty::Composed { outer, inner } => if self.is_array(outer) {
                *inner
            } else {
                container
            },
            _ => container,
        }
    }

    /// The store with the constructor and the prototype of a class, and the
    /// constructor's type.
    pub open spec fn class_built(self, name: Option<String>, parent: Option<CustomTypeObject>) -> Typed {
        let constructor = self.functions.len() as usize;
        let unnamed = FunctionModel::fresh(self.next_id, Seq::empty());
        let with_constructor = self.issued().with_function(
            match name {
                Some(name) => unnamed.named(name@),
                None => unnamed,
            },
        );
        let prototype = with_constructor.objects.len() as usize;
        let with_prototype = with_constructor.issued().with_object(
            ObjectModel {
                id: with_constructor.next_id,
                name: prototype_name(name),
                properties: Map::<Seq<char>, Ty>::empty().insert("constructor"@, Ty::Function(constructor)),
                is_array: false,
                prototype: parent,
                trace: Seq::empty(),
            },
        );
        (with_prototype.function_property_set(constructor, "prototype"@, Ty::Object(prototype)), Ok(
            Ty::Function(constructor),
        ))
    }

    /// The store with the aggregate of an object literal, and the literal's type.
    pub open spec fn literal_built(self, properties: Map<Seq<char>, Ty>, proto: Option<Ty>) -> Typed {
        (
            self.issued().with_object(
                ObjectModel {
                    id: self.next_id,
                    name: None,
                    properties,
                    is_array: false,
                    prototype: literal_prototype(proto),
                    trace: Seq::empty(),
                },
            ),
            Ok(Ty::Object(self.objects.len() as usize)),
        )
    }
}

/// The type of `expression` in `scope`. Typing reads the store and may add fresh
/// aggregates to it; it changes nothing that was there.
pub open spec fn typed(store: StoreModel, scope: ScopeRef, expression: Expression) -> Typed
    decreases expression, 0nat,
{
    match expression {
        Expression::Void => (store, Ok(Ty::Undefined)),
        Expression::This => (store, Ok(Ty::Undefined)),
        Expression::Binary { .. } => (store, Ok(Ty::Undefined)),
        Expression::Template => (store, Ok(Ty::String)),
        Expression::Literal(literal) => (store, Ok(literal.ty())),
        Expression::Identifier(name) => (store, store.identifier_typed(scope, name@)),
        Expression::Array(items) => match typed_list(store, scope, items@, items@.len()) {
            (after, Ok(types)) => (after, Ok(
                Ty::Composed { outer: ARRAY_PROTOTYPE, inner: Box::new(Ty::Mixed(types)) },
            )),
            (after, Err(fault)) => (after, Err(fault)),
        },
        Expression::Object(properties) => match properties_typed(store, scope, properties@, properties@.len()) {
            (after, Ok((map, proto))) => after.literal_built(map, proto),
            (after, Err(fault)) => (after, Err(fault)),
        },
        Expression::Function { .. } => (store.with_fresh_function(), Ok(Ty::Function(store.functions.len() as usize))),
        Expression::Arrow { .. } => (store.with_fresh_function(), Ok(Ty::Function(store.functions.len() as usize))),
        Expression::Member { object, property } => match typed(store, scope, object.item) {
            (after, Ok(found)) => (after, after.member_typed(found, property.name@, property.spec_location())),
            (after, Err(fault)) => (after, Err(fault)),
        },
        Expression::ComputedMember { object, property } => match typed(store, scope, object.item) {
            (after, Ok(found)) => (after, after.member_typed(
                found,
                expression_text(property.item),
                property.spec_location(),
            )),
            (after, Err(fault)) => (after, Err(fault)),
        },
        Expression::Conditional { test, consequent, alternate } => match typed(store, scope, alternate.item) {
            (middle, Ok(left)) => match typed(middle, scope, consequent.item) {
                (after, Ok(right)) => if left == right {
                    (after, Ok(left))
                } else {
                    (after, Ok(Ty::Mixed(seq![left, right])))
                },
                (after, Err(fault)) => (after, Err(fault)),
            },
            (middle, Err(fault)) => (middle, Err(fault)),
        },
        Expression::Call { callee, arguments } => match typed(store, scope, callee.item) {
            (middle, Ok(function)) => match typed_list(middle, scope, arguments@, arguments@.len()) {
                (after, Ok(_)) => match function {
                    Ty::Function(_) => (after, Ok(Ty::Undefined)),
                    _ => (after, Err(Fault::NotFunction { subject: expression_text(callee.item) })),
                },
                (after, Err(fault)) => (after, Err(fault)),
            },
            (middle, Err(fault)) => (middle, Err(fault)),
        },
        Expression::Sequence(items) => if items@.len() == 0 {
            (store, Ok(Ty::Undefined))
        } else {
            typed(store, scope, items@[items@.len() - 1].item)
        },
        Expression::TaggedTemplate { tag, .. } => typed(store, scope, tag.item),
        Expression::Prefix { operand, .. } => typed(store, scope, operand.item),
        Expression::Postfix { operand, .. } => typed(store, scope, operand.item),
        Expression::Spread { argument } => match typed(store, scope, argument.item) {
            (after, Ok(container)) => (after, Ok(after.spread_typed(container))),
            (after, Err(fault)) => (after, Err(fault)),
        },
        Expression::Class(class) => match class.extends {
            Some(parent) => match typed(store, scope, parent.item) {
                (after, Ok(found)) => match CustomTypeObject::named_by(found) {
                    Some(aggregate) => after.class_built(class.name, Some(aggregate)),
                    None => (after, Err(Fault::IncompatiblePrototype { prototype: after.type_text(found) })),
                },
                (after, Err(fault)) => (after, Err(fault)),
            },
            None => store.class_built(class.name, None),
        },
    }
}

/// The types of the first `count` of `items`, in order. The first failure ends it.
pub open spec fn typed_list(store: StoreModel, scope: ScopeRef, items: Seq<ExpressionNode>, count: nat) -> (
    StoreModel,
    Result<Seq<Ty>, Fault>,
)
    decreases items, count,
{
    if count == 0 || count > items.len() {
        (store, Ok(Seq::empty()))
    } else {
        match typed_list(store, scope, items, (count - 1) as nat) {
            (middle, Ok(types)) => match typed(middle, scope, items[count - 1].item) {
                (after, Ok(found)) => (after, Ok(types.push(found))),
                (after, Err(fault)) => (after, Err(fault)),
            },
            (middle, Err(fault)) => (middle, Err(fault)),
        }
    }
}

/// The name and the type that one member of an object literal contributes.
pub open spec fn property_typed(store: StoreModel, scope: ScopeRef, property: Property) -> (
    StoreModel,
    Result<(Seq<char>, Ty), Fault>,
)
    decreases property, 0nat,
{
    match property {
        Property::Literal { key, value } => match typed(store, scope, value.item) {
            (after, Ok(found)) => (after, Ok((property_key_text(key), found))),
            (after, Err(fault)) => (after, Err(fault)),
        },
        Property::Shorthand(name) => match store.identifier_typed(scope, name@) {
            Ok(found) => (store, Ok((name@, found))),
            Err(fault) => (store, Err(fault)),
        },
        Property::Method { key, .. } => (store.with_fresh_function(), Ok(
            (property_key_text(key), Ty::Function(store.functions.len() as usize)),
        )),
    }
}

/// The property map that the first `count` members of an object literal make, and
/// the type of the last `__proto__` among them, which is kept out of the map.
pub open spec fn properties_typed(store: StoreModel, scope: ScopeRef, properties: Seq<Property>, count: nat) -> (
    StoreModel,
    Result<(Map<Seq<char>, Ty>, Option<Ty>), Fault>,
)
    decreases properties, count,
{
    if count == 0 || count > properties.len() {
        (store, Ok((Map::empty(), None)))
    } else {
        match properties_typed(store, scope, properties, (count - 1) as nat) {
            (middle, Ok((map, proto))) => match property_typed(middle, scope, properties[count - 1]) {
                (after, Ok((name, found))) => if name == "__proto__"@ {
                    (after, Ok((map, Some(found))))
                } else {
                    (after, Ok((map.insert(name, found), proto)))
                },
                (after, Err(fault)) => (after, Err(fault)),
            },
            (middle, Err(fault)) => (middle, Err(fault)),
        }
    }
}

/// The type of an object literal with the members `properties`.
pub open spec fn literal_typed(store: StoreModel, scope: ScopeRef, properties: Seq<Property>) -> Typed {
    match properties_typed(store, scope, properties, properties.len()) {
        (after, Ok((map, proto))) => after.literal_built(map, proto),
        (after, Err(fault)) => (after, Err(fault)),
    }
}

/// The type of the member `property` of `expression`.
pub open spec fn member_typed(store: StoreModel, scope: ScopeRef, expression: Expression, property: Seq<char>, at: Location) -> Typed {
    match typed(store, scope, expression) {
        (after, Ok(found)) => (after, after.member_typed(found, property, at)),
        (after, Err(fault)) => (after, Err(fault)),
    }
}

/// Once typing a list has failed, typing more of the list fails the same way.
pub proof fn lemma_typed_list_sticks(store: StoreModel, scope: ScopeRef, items: Seq<ExpressionNode>, failed: nat, count: nat)
    requires
        failed <= count <= items.len(),
        typed_list(store, scope, items, failed).1 is Err,
    ensures
        typed_list(store, scope, items, count) == typed_list(store, scope, items, failed),
    decreases count,
{
    if failed < count {
        lemma_typed_list_sticks(store, scope, items, failed, (count - 1) as nat);
    }
}

/// Once typing the members of an object literal has failed, typing more of them
/// fails the same way.
pub proof fn lemma_properties_typed_sticks(
    store: StoreModel,
    scope: ScopeRef,
    properties: Seq<Property>,
    failed: nat,
    count: nat,
)
    requires
        failed <= count <= properties.len(),
        properties_typed(store, scope, properties, failed).1 is Err,
    ensures
        properties_typed(store, scope, properties, count) == properties_typed(store, scope, properties, failed),
    decreases count,
{
    if failed < count {
        lemma_properties_typed_sticks(store, scope, properties, failed, (count - 1) as nat);
    }
}

/// Takes a fresh function aggregate without parameters into the store.
pub fn fresh_function(store: &mut Store) -> (r: Type)
    ensures
        final(store)@ == old(store)@.with_fresh_function(),
        r@ == Ty::Function(old(store)@.functions.len() as usize),
{
    let id = store.issue_id();
    let function = FunctionType::new(id, Vec::new());
    assert(crate::variable::variable_models(Seq::<crate::variable::Variable>::empty()) =~= Seq::empty());
    Type::Function(store.own_function(function))
}

/// The declared type of the variable that `name` means in `scope`.
pub fn identifier_type(store: &Store, scope: ScopeRef, name: &str) -> (r: Result<Type, AnalysisError>)
    ensures
        typing_model(r) == store@.identifier_typed(scope, name@),
{
    match store.locate(scope, name) {
        Ok(variable) => match store.variable(variable) {
            Some(found) => Ok(found.current_type().clone()),
            None => Ok(Type::Undefined),
        },
        Err(error) => Err(AnalysisError::Scope(error)),
    }
}

/// The type of the member `property` of a value of type `object`, asked at `location`.
pub fn member_type(store: &Store, object: &Type, property: &str, location: &Location) -> (r: Result<
    Type,
    AnalysisError,
>)
    ensures
        typing_model(r) == store@.member_typed(object@, property@, *location),
{
    match object.query_property(property, location, store) {
        Some(found) => Ok(found),
        None => Err(
            AnalysisError::Access(
                AccessError::UndefinedProperty {
                    property: property.to_owned(),
                    object: object.to_string(store),
                },
            ),
        ),
    }
}

/// The types of `items`, in order; the first failure ends it.
#[verifier::loop_isolation(false)]
pub fn type_list(items: &Vec<ExpressionNode>, scope: ScopeRef, store: &mut Store) -> (r: Result<
    Vec<Type>,
    AnalysisError,
>)
    ensures
        (final(store)@, list_model(r)) == typed_list(old(store)@, scope, items@, items@.len()),
    decreases items, 0nat,
{
    let ghost start = store@;
    let mut types: Vec<Type> = Vec::new();
    let mut i: usize = 0;
    assert(type_models(types@) =~= Seq::empty());
    while i < items.len()
        invariant
            i <= items.len(),
            (store@, Ok::<Seq<Ty>, Fault>(type_models(types@))) == typed_list(start, scope, items@, i as nat),
        decreases items.len() - i,
    {
        let ghost so_far = type_models(types@);
        match determine_expression_type(&items[i].item, scope, store) {
            Ok(found) => {
                types.push(found);
                assert(type_models(types@) =~= so_far.push(found@));
            },
            Err(error) => {
                proof {
                    lemma_typed_list_sticks(start, scope, items@, (i + 1) as nat, items@.len());
                }
                return Err(error);
            },
        }
        i += 1;
    }
    Ok(types)
}

/// The type of an object literal with the members `properties`: a fresh object
/// aggregate whose property map is made of the members.
#[verifier::loop_isolation(false)]
pub fn type_from_properties(properties: &Vec<Property>, scope: ScopeRef, store: &mut Store) -> (r: Result<
    Type,
    AnalysisError,
>)
    ensures
        (final(store)@, typing_model(r)) == literal_typed(old(store)@, scope, properties@),
    decreases properties, 0nat,
{
    let ghost start = store@;
    let mut map: NameMap<Type> = NameMap::new();
    let mut proto: Option<Type> = None;
    let mut i: usize = 0;
    assert(property_models(map) =~= Map::empty());
    while i < properties.len()
        invariant
            i <= properties.len(),
            (store@, Ok::<(Map<Seq<char>, Ty>, Option<Ty>), Fault>((property_models(map), optional_model(proto))))
                == properties_typed(start, scope, properties@, i as nat),
        decreases properties.len() - i,
    {
        let ghost middle = store@;
        let ghost so_far = (property_models(map), optional_model(proto));
        let contribution = match &properties[i] {
            Property::Literal { key, value } => match determine_expression_type(&value.item, scope, store) {
                Ok(found) => Ok((property_to_string(key), found)),
                Err(error) => Err(error),
            },
            Property::Shorthand(name) => match identifier_type(store, scope, name.as_str()) {
                Ok(found) => Ok((name.clone(), found)),
                Err(error) => Err(error),
            },
            Property::Method { key, .. } => Ok((property_to_string(key), fresh_function(store))),
        };
        proof {
            let expected = property_typed(middle, scope, properties@[i as int]);
            assert(store@ == expected.0);
            assert(match contribution {
                Ok((name, found)) => expected.1 == Ok::<(Seq<char>, Ty), Fault>((name@, found@)),
                Err(error) => expected.1 == Err::<(Seq<char>, Ty), Fault>(error@),
            });
            assert(properties_typed(start, scope, properties@, i as nat) == (middle, Ok::<
                (Map<Seq<char>, Ty>, Option<Ty>),
                Fault,
            >(so_far)));
        }
        match contribution {
            Ok((name, found)) => {
                if crate::text::same_text(name.as_str(), "__proto__") {
                    proto = Some(found);
                } else {
                    let ghost before = map;
                    map.insert(name, found);
                    proof {
                        lemma_property_models_insert(before, map, name@, found);
                    }
                }
            },
            Err(error) => {
                proof {
                    lemma_properties_typed_sticks(start, scope, properties@, (i + 1) as nat, properties@.len());
                }
                return Err(error);
            },
        }
        i += 1;
    }
    let prototype = match &proto {
        Some(Type::Object(handle)) => Some(CustomTypeObject::Object(*handle)),
        Some(Type::Function(handle)) => Some(CustomTypeObject::Function(*handle)),
        Some(Type::Undefined) => None,
        Some(_) => Some(CustomTypeObject::Object(OBJECT_PROTOTYPE)),
        None => Some(CustomTypeObject::Object(OBJECT_PROTOTYPE)),
    };
    let id = store.issue_id();
    let handle = store.own_object(ObjectType::new(id, None, map, prototype));
    Ok(Type::Object(handle))
}

/// The type of the member `property` of `expression`, asked at `location`.
pub fn determine_member_type(
    expression: &Expression,
    property: &str,
    location: &Location,
    scope: ScopeRef,
    store: &mut Store,
) -> (r: Result<Type, AnalysisError>)
    ensures
        (final(store)@, typing_model(r)) == member_typed(old(store)@, scope, *expression, property@, *location),
    decreases expression, 1nat,
{
    match determine_expression_type(expression, scope, store) {
        Ok(object) => member_type(store, &object, property, location),
        Err(error) => Err(error),
    }
}

/// Takes the constructor and the prototype of a class into the store.
fn build_class(store: &mut Store, name: &Option<String>, parent: Option<CustomTypeObject>) -> (r: Type)
    ensures
        (final(store)@, Ok::<Ty, Fault>(r@)) == old(store)@.class_built(*name, parent),
{
    let id = store.issue_id();
    let mut constructor = FunctionType::new(id, Vec::new());
    assert(crate::variable::variable_models(Seq::<crate::variable::Variable>::empty()) =~= Seq::empty());
    match name {
        Some(name) => constructor.assign_name(name.clone()),
        None => {},
    }
    let constructor_handle = store.own_function(constructor);
    let mut prototype_properties: NameMap<Type> = NameMap::new();
    let ghost none = prototype_properties;
    prototype_properties.insert("constructor".to_owned(), Type::Function(constructor_handle));
    proof {
        assert(property_models(none) =~= Map::empty());
        lemma_property_models_insert(none, prototype_properties, "constructor"@, Type::Function(constructor_handle));
    }
    let prototype_name = match name {
        Some(name) => Some(crate::text::joined(name.as_str(), "Prototype")),
        None => None,
    };
    let id = store.issue_id();
    let prototype = store.own_object(ObjectType::new(id, prototype_name, prototype_properties, parent));
    store.set_function_property(constructor_handle, "prototype".to_owned(), Type::Object(prototype));
    Type::Function(constructor_handle)
}

/// The type of `expression` in `scope`.
pub fn determine_expression_type(expression: &Expression, scope: ScopeRef, store: &mut Store) -> (r: Result<
    Type,
    AnalysisError,
>)
    ensures
        (final(store)@, typing_model(r)) == typed(old(store)@, scope, *expression),
    decreases expression, 0nat,
{
    match expression {
        Expression::Void => Ok(Type::Undefined),
        Expression::Literal(literal) => Ok(literal.to_type()),
        Expression::Identifier(name) => identifier_type(store, scope, name.as_str()),
        Expression::This => Ok(Type::Undefined),
        Expression::Array(items) => match type_list(items, scope, store) {
            Ok(types) => {
                proof {
                    lemma_mixed_view(types);
                }
                Ok(Type::Composed { outer: ARRAY_PROTOTYPE, inner: Box::new(Type::Mixed(types)) })
            },
            Err(error) => Err(error),
        },
        Expression::Object(properties) => type_from_properties(properties, scope, store),
        Expression::Function { .. } => Ok(fresh_function(store)),
        Expression::Arrow { .. } => Ok(fresh_function(store)),
        Expression::Binary { .. } => Ok(Type::Undefined),
        Expression::Member { object, property } => {
            let location = property.location();
            determine_member_type(&object.item, property.name.as_str(), &location, scope, store)
        },
        Expression::ComputedMember { object, property } => {
            let name = expression_to_string(&property.item);
            let location = property.location();
            determine_member_type(&object.item, name.as_str(), &location, scope, store)
        },
        Expression::Conditional { consequent, alternate, .. } => {
            let left = match determine_expression_type(&alternate.item, scope, store) {
                Ok(left) => left,
                Err(error) => {
                    return Err(error);
                },
            };
            let right = match determine_expression_type(&consequent.item, scope, store) {
                Ok(right) => right,
                Err(error) => {
                    return Err(error);
                },
            };
            if left.same(&right) {
                Ok(left)
            } else {
                let members = vec![left, right];
                proof {
                    lemma_mixed_view(members);
                    assert(type_models(members@) =~= seq![left@, right@]);
                }
                Ok(Type::Mixed(members))
            }
        },
        Expression::Call { callee, arguments } => {
            let function = match determine_expression_type(&callee.item, scope, store) {
                Ok(function) => function,
                Err(error) => {
                    return Err(error);
                },
            };
            let argument_types = match type_list(arguments, scope, store) {
                Ok(types) => types,
                Err(error) => {
                    return Err(error);
                },
            };
            match function {
                Type::Function(handle) => match store.function(handle) {
                    Some(found) => Ok(found.return_type(&argument_types)),
                    None => Ok(Type::Undefined),
                },
                _ => Err(AnalysisError::Type(TypeError::NotFunction { subject: expression_to_string(&callee.item) })),
            }
        },
        Expression::Sequence(items) => {
            if items.len() == 0 {
                Ok(Type::Undefined)
            } else {
                determine_expression_type(&items[items.len() - 1].item, scope, store)
            }
        },
        Expression::Template => Ok(Type::String),
        Expression::TaggedTemplate { tag, .. } => determine_expression_type(&tag.item, scope, store),
        Expression::Prefix { operand, .. } => determine_expression_type(&operand.item, scope, store),
        Expression::Postfix { operand, .. } => determine_expression_type(&operand.item, scope, store),
        Expression::Spread { argument } => match determine_expression_type(&argument.item, scope, store) {
            Ok(container) => match container {
                Type::Composed { outer, inner } => {
                    if !store.is_array(outer) {
                        Ok(Type::Composed { outer, inner })
                    } else {
                        Ok(*inner)
                    }
                },
                other => Ok(other),
            },
            Err(error) => Err(error),
        },
        Expression::Class(class) => {
            let parent = match &class.extends {
                Some(parent) => match determine_expression_type(&parent.item, scope, store) {
                    Ok(found) => match CustomTypeObject::of_type(&found) {
                        Some(aggregate) => Some(aggregate),
                        None => {
                            return Err(
                                AnalysisError::Type(
                                    TypeError::IncompatiblePrototype { prototype: found.to_string(store) },
                                ),
                            );
                        },
                    },
                    Err(error) => {
                        return Err(error);
                    },
                },
                None => None,
            };
            Ok(build_class(store, &class.name, parent))
        },
    }
}

} // verus!
