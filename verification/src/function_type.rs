use vstd::prelude::*;
use crate::change_trace::{Change, ChangeTrace, Mutation, TraceSet, TracedTypeMuation};
use crate::location::Location;
use crate::traits::TracedChange;
use crate::name_map::NameMap;
use crate::object_type::{first_name, optional_text, queried_property, query_trace};
use crate::types::{clone_properties, optional_model, property_models, type_models, Ty, Type};
use crate::variable::{clone_variables, variable_models, Variable, VariableModel};

verus! {

/// A function aggregate: an object's shape, the declared parameters and the calls seen.
#[derive(Debug)]
pub struct FunctionType {
    id: u128,
    name: Option<String>,
    arguments: Vec<Variable>,
    properties: NameMap<Type>,
    properties_change_trace: ChangeTrace<TracedTypeMuation>,
    invocations: Vec<(Vec<Type>, Location)>,
}

/// The mathematical value of a [`FunctionType`].
pub struct FunctionModel {
    pub id: u128,
    pub name: Option<Seq<char>>,
    pub arguments: Seq<VariableModel>,
    pub properties: Map<Seq<char>, Ty>,
    pub trace: Seq<Change<Mutation>>,
    pub invocations: Seq<(Seq<Ty>, Location)>,
}

impl FunctionModel {
    /// The aggregate once `name` was assigned to it.
    pub open spec fn named(self, name: Seq<char>) -> FunctionModel {
        FunctionModel { name: first_name(self.name, name), ..self }
    }

    /// The aggregate with one more entry in its trace.
    pub open spec fn changed(self, change: Mutation, new_type: Ty, location: Location) -> FunctionModel {
        FunctionModel {
            trace: self.trace.push(Change { attribute: change, loc: location, current_type: new_type }),
            ..self
        }
    }

    /// The aggregate with one more call in its log.
    pub open spec fn invoked(self, arguments: Seq<Ty>, location: Location) -> FunctionModel {
        FunctionModel { invocations: self.invocations.push((arguments, location)), ..self }
    }

    /// The aggregate with `property` bound to `value` in its static map.
    pub open spec fn with_property(self, property: Seq<char>, value: Ty) -> FunctionModel {
        FunctionModel { properties: self.properties.insert(property, value), ..self }
    }

    /// The name under which the aggregate is shown.
    pub open spec fn shown_name(self) -> Seq<char> {
        match self.name {
            Some(name) => name,
            None => "AnonymousFunction"@,
        }
    }

    /// The type of `property` at `at`.
    pub open spec fn property_at(self, property: Seq<char>, at: Location) -> Option<Ty> {
        queried_property(self.properties, self.trace, property, at)
    }

    /// A function with the identity `id` that has nothing but its parameters.
    pub open spec fn fresh(id: u128, arguments: Seq<VariableModel>) -> FunctionModel {
        FunctionModel {
            id,
            name: None,
            arguments,
            properties: Map::empty(),
            trace: Seq::empty(),
            invocations: Seq::empty(),
        }
    }
}

/// The values of a log of calls.
pub open spec fn invocation_models(invocations: Seq<(Vec<Type>, Location)>) -> Seq<(Seq<Ty>, Location)> {
    invocations.map_values(|call: (Vec<Type>, Location)| (type_models(call.0@), call.1))
}

/// A copy of a list of types.
pub fn clone_types(types: &Vec<Type>) -> (r: Vec<Type>)
    ensures
        type_models(r@) == type_models(types@),
{
    let mut copy: Vec<Type> = Vec::new();
    let mut i: usize = 0;
    while i < types.len()
        invariant
            i <= types.len(),
            copy@.len() == i,
            forall|j: int| 0 <= j < i ==> (#[trigger] copy@[j])@ == types@[j]@,
        decreases types.len() - i,
    {
        copy.push(types[i].clone());
        i += 1;
    }
    assert(type_models(copy@) =~= type_models(types@));
    copy
}

impl View for FunctionType {
    type V = FunctionModel;

    closed spec fn view(&self) -> FunctionModel {
        FunctionModel {
            id: self.id,
            name: optional_text(self.name),
            arguments: variable_models(self.arguments@),
            properties: property_models(self.properties),
            trace: self.properties_change_trace@,
            invocations: invocation_models(self.invocations@),
        }
    }
}

impl FunctionType {
    /// A function with the identity `id` that has nothing but its parameters.
    pub fn new(id: u128, arguments: Vec<Variable>) -> (r: Self)
        ensures
            r@ == FunctionModel::fresh(id, variable_models(arguments@)),
    {
        let r = FunctionType {
            id,
            name: None,
            arguments,
            properties: NameMap::new(),
            properties_change_trace: ChangeTrace::new(),
            invocations: Vec::new(),
        };
        assert(r.properties_change_trace@ =~= Seq::empty());
        assert(invocation_models(r.invocations@) =~= Seq::empty());
        assert(property_models(r.properties) =~= Map::empty());
        r
    }

    /// The type of a call's result. Calls are not looked into: it is `Undefined`,
    /// whatever the arguments.
    pub fn return_type(&self, arguments: &Vec<Type>) -> (r: Type)
        ensures
            r@ == Ty::Undefined,
    {
        Type::Undefined
    }

    /// Logs a call with the types of its arguments.
    pub fn trace_invocation(&mut self, arguments: Vec<Type>, location: Location)
        ensures
            final(self)@ == old(self)@.invoked(type_models(arguments@), location),
    {
        self.invocations.push((arguments, location));
        assert(invocation_models(self.invocations@) =~= invocation_models(old(self).invocations@).push(
            (type_models(arguments@), location),
        ));
    }

    /// The type of `property` as it is at `location`.
    pub fn query_property(&self, property: &str, location: &Location) -> (r: Option<Type>)
        ensures
            optional_model(r) == self@.property_at(property@, *location),
    {
        query_trace(&self.properties, &self.properties_change_trace, property, location)
    }

    /// Whether the static map has `property`.
    pub fn has_property(&self, property: &str) -> (r: bool)
        ensures
            r == self@.properties.dom().contains(property@),
    {
        self.properties.contains_key(property)
    }

    /// The static property map.
    pub fn properties(&self) -> (r: &NameMap<Type>)
        ensures
            property_models(*r) == self@.properties,
    {
        &self.properties
    }

    /// The trace of the changes of shape.
    pub fn properties_change_trace(&self) -> (r: &ChangeTrace<TracedTypeMuation>)
        ensures
            r@ == self@.trace,
    {
        &self.properties_change_trace
    }

    /// Binds `property` to `value` in the static map.
    pub fn set_property(&mut self, property: String, value: Type)
        ensures
            final(self)@ == old(self)@.with_property(property@, value@),
    {
        let ghost before = self.properties;
        self.properties.insert(property, value);
        proof {
            crate::types::lemma_property_models_insert(before, self.properties, property@, value);
        }
    }

    /// The declared parameters, in order.
    pub fn arguments(&self) -> (r: &Vec<Variable>)
        ensures
            variable_models(r@) == self@.arguments,
    {
        &self.arguments
    }

    /// The calls seen so far: the types of the arguments and the place of each.
    pub fn invocations(&self) -> (r: &Vec<(Vec<Type>, Location)>)
        ensures
            invocation_models(r@) == self@.invocations,
    {
        &self.invocations
    }

    /// Names the aggregate, unless it has a name already.
    pub fn assign_name(&mut self, name: String)
        ensures
            final(self)@ == old(self)@.named(name@),
    {
        match self.name {
            Some(_) => {},
            None => {
                self.name = Some(name);
            },
        }
    }

    /// The name under which the aggregate is shown.
    pub fn name(&self) -> (r: &str)
        ensures
            r@ == self@.shown_name(),
    {
        match &self.name {
            Some(name) => name.as_str(),
            None => "AnonymousFunction",
        }
    }

    pub fn id(&self) -> (r: u128)
        ensures
            r == self@.id,
    {
        self.id
    }

    /// A function is no array.
    pub fn is_array(&self) -> (r: bool)
        ensures
            !r,
    {
        false
    }

}

impl Clone for FunctionType {
    fn clone(&self) -> (r: Self)
        ensures
            r@ == self@,
    {
        let mut invocations: Vec<(Vec<Type>, Location)> = Vec::new();
        let mut i: usize = 0;
        while i < self.invocations.len()
            invariant
                i <= self.invocations.len(),
                invocations@.len() == i,
                forall|j: int|
                    0 <= j < i ==> type_models((#[trigger] invocations@[j]).0@) == type_models(self.invocations@[j].0@)
                        && invocations@[j].1 == self.invocations@[j].1,
            decreases self.invocations.len() - i,
        {
            invocations.push((clone_types(&self.invocations[i].0), self.invocations[i].1));
            i += 1;
        }
        assert(invocation_models(invocations@) =~= invocation_models(self.invocations@));
        FunctionType {
            id: self.id,
            name: match &self.name {
                Some(name) => Some(name.clone()),
                None => None,
            },
            arguments: clone_variables(&self.arguments),
            properties: clone_properties(&self.properties),
            properties_change_trace: self.properties_change_trace.clone(),
            invocations,
        }
    }
}

impl TracedChange<TracedTypeMuation, Type, Location> for FunctionType {
    /// Appends a change of shape to the trace.
    fn change(&mut self, change: TracedTypeMuation, new_type: Type, location: Location)
        ensures
            final(self)@ == old(self)@.changed(change@, new_type@, location),
    {
        let ghost before = self.properties_change_trace;
        self.properties_change_trace.change(change, new_type, location);
        proof {
            ChangeTrace::lemma_change_view(
                before,
                self.properties_change_trace,
                TraceSet { attribute: change, loc: location, current_type: new_type },
            );
        }
    }
}

} // verus!
