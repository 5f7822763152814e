use vstd::prelude::*;
use crate::change_trace::{Change, ChangeTrace, Mutation, TraceSet, TracedTypeMuation};
use crate::custom_type::CustomTypeObject;
use crate::location::Location;
use crate::traits::TracedChange;
use crate::name_map::NameMap;
use crate::search::{last_match, lemma_last_match_found, lemma_last_match_none};
use crate::text::same_text;
use crate::types::{clone_properties, optional_model, property_models, Ty, Type};

verus! {

/// Whether `change` speaks of `property` and is in force at the end of `at`.
pub open spec fn concerns(change: Change<Mutation>, property: Seq<char>, at: Location) -> bool {
    change.loc.start <= at.end && change.attribute.name() == property
}

/// The type of `property` at `at`: what the last change in force says, a removal
/// meaning that there is none; without such a change, what the static map says.
pub open spec fn queried_property(
    properties: Map<Seq<char>, Ty>,
    trace: Seq<Change<Mutation>>,
    property: Seq<char>,
    at: Location,
) -> Option<Ty> {
    match last_match(trace, |change: Change<Mutation>| concerns(change, property, at)) {
        Some(i) => match trace[i].attribute {
            Mutation::Remove(_) => None,
            _ => Some(trace[i].current_type),
        },
        None => if properties.dom().contains(property) {
            Some(properties[property])
        } else {
            None
        },
    }
}

/// Where the trace has changes of `property` in force at `at`, the last of them
/// decides: a removal means that there is no such property, and any other change
/// gives the property its type.
pub proof fn lemma_last_change_decides(
    properties: Map<Seq<char>, Ty>,
    trace: Seq<Change<Mutation>>,
    property: Seq<char>,
    at: Location,
    last: int,
)
    requires
        0 <= last < trace.len(),
        trace[last].attribute.name() == property,
        trace[last].loc.start <= at.end,
        forall|later: int|
            last < later < trace.len() ==> !((#[trigger] trace[later]).attribute.name() == property
                && trace[later].loc.start <= at.end),
    ensures
        queried_property(properties, trace, property, at) == (if trace[last].attribute is Remove {
            None
        } else {
            Some(trace[last].current_type)
        }),
{
    let wanted = |change: Change<Mutation>| concerns(change, property, at);
    assert(wanted(trace[last]));
    assert forall|later: int| last < later < trace.len() implies !wanted(#[trigger] trace[later]) by {}
    lemma_last_match_found(trace, wanted, last);
}

/// Where the trace has no change of `property` in force at `at`, the static map
/// decides, and a property that it has not is none.
pub proof fn lemma_static_map_decides(
    properties: Map<Seq<char>, Ty>,
    trace: Seq<Change<Mutation>>,
    property: Seq<char>,
    at: Location,
)
    requires
        forall|i: int|
            0 <= i < trace.len() ==> !((#[trigger] trace[i]).attribute.name() == property && trace[i].loc.start
                <= at.end),
    ensures
        queried_property(properties, trace, property, at) == (if properties.dom().contains(property) {
            Some(properties[property])
        } else {
            None
        }),
{
    let wanted = |change: Change<Mutation>| concerns(change, property, at);
    assert forall|i: int| 0 <= i < trace.len() implies !wanted(#[trigger] trace[i]) by {}
    lemma_last_match_none(trace, wanted);
}

/// The name that an aggregate has once `name` was assigned to it: the first one stays.
pub open spec fn first_name(current: Option<Seq<char>>, name: Seq<char>) -> Option<Seq<char>> {
    match current {
        Some(_) => current,
        None => Some(name),
    }
}

/// An entry of an aggregate's trace.
pub type MutationEntry = TraceSet<TracedTypeMuation>;

/// Walks a trace backwards for the last change that concerns `property` at `location`.
pub fn query_trace(
    properties: &NameMap<Type>,
    trace: &ChangeTrace<TracedTypeMuation>,
    property: &str,
    location: &Location,
) -> (r: Option<Type>)
    ensures
        optional_model(r) == queried_property(property_models(*properties), trace@, property@, *location),
{
    let ghost wanted = |change: Change<Mutation>| concerns(change, property@, *location);
    let speaks_of_it = |entry: &MutationEntry| -> (b: bool)
        ensures
            b == concerns(entry@, property@, *location),
        { entry.loc.start <= location.end && same_text(entry.attribute.name(), property) };
    let found = trace.find(speaks_of_it);
    match found {
        Some(entry) => {
            proof {
                let i = choose|i: int|
                    {
                        &&& 0 <= i < trace.entries().len()
                        &&& *entry == #[trigger] trace.entries()[i]
                        &&& wanted(trace.entries()[i]@)
                        &&& forall|j: int| i < j < trace.entries().len() ==> !wanted((#[trigger] trace.entries()[j])@)
                    };
                assert forall|j: int| i < j < trace@.len() implies !wanted(#[trigger] trace@[j]) by {
                    assert(trace@[j] == trace.entries()[j]@);
                }
                lemma_last_match_found(trace@, wanted, i);
            }
            match &entry.attribute {
                TracedTypeMuation::Remove(_) => None,
                _ => Some(entry.current_type.clone()),
            }
        },
        None => {
            proof {
                assert forall|j: int| 0 <= j < trace@.len() implies !wanted(#[trigger] trace@[j]) by {
                    assert(trace@[j] == trace.entries()[j]@);
                }
                lemma_last_match_none(trace@, wanted);
            }
            match properties.get(property) {
                Some(found) => Some(found.clone()),
                None => None,
            }
        },
    }
}

/// An object aggregate: a property map whose shape changes are traced by location.
#[derive(Debug)]
pub struct ObjectType {
    id: u128,
    name: Option<String>,
    properties: NameMap<Type>,
    is_array: bool,
    prototype: Option<CustomTypeObject>,
    properties_change_trace: ChangeTrace<TracedTypeMuation>,
}

/// The mathematical value of an [`ObjectType`].
pub struct ObjectModel {
    pub id: u128,
    pub name: Option<Seq<char>>,
    pub properties: Map<Seq<char>, Ty>,
    pub is_array: bool,
    pub prototype: Option<CustomTypeObject>,
    pub trace: Seq<Change<Mutation>>,
}

impl ObjectModel {
    /// The aggregate once `name` was assigned to it.
    pub open spec fn named(self, name: Seq<char>) -> ObjectModel {
        ObjectModel { name: first_name(self.name, name), ..self }
    }

    /// The aggregate with one more entry in its trace.
    pub open spec fn changed(self, change: Mutation, new_type: Ty, location: Location) -> ObjectModel {
        ObjectModel {
            trace: self.trace.push(Change { attribute: change, loc: location, current_type: new_type }),
            ..self
        }
    }

    /// The name under which the aggregate is shown.
    pub open spec fn shown_name(self) -> Seq<char> {
        match self.name {
            Some(name) => name,
            None => "ObjectLiteral"@,
        }
    }

    /// The type of `property` at `at`.
    pub open spec fn property_at(self, property: Seq<char>, at: Location) -> Option<Ty> {
        queried_property(self.properties, self.trace, property, at)
    }
}

/// The text of an optional name.
pub open spec fn optional_text(name: Option<String>) -> Option<Seq<char>> {
    match name {
        Some(name) => Some(name@),
        None => None,
    }
}

impl View for ObjectType {
    type V = ObjectModel;

    closed spec fn view(&self) -> ObjectModel {
        ObjectModel {
            id: self.id,
            name: optional_text(self.name),
            properties: property_models(self.properties),
            is_array: self.is_array,
            prototype: self.prototype,
            trace: self.properties_change_trace@,
        }
    }
}

impl ObjectType {
    /// A plain object with the identity `id` and nothing traced yet.
    pub fn new(id: u128, name: Option<String>, properties: NameMap<Type>, prototype: Option<CustomTypeObject>) -> (r:
        Self)
        ensures
            r@ == (ObjectModel {
                id,
                name: optional_text(name),
                properties: property_models(properties),
                is_array: false,
                prototype,
                trace: Seq::empty(),
            }),
    {
        let r = ObjectType {
            id,
            name,
            properties,
            prototype,
            is_array: false,
            properties_change_trace: ChangeTrace::new(),
        };
        assert(r.properties_change_trace@ =~= Seq::empty());
        r
    }

    /// An array container with the identity `id` and nothing traced yet.
    pub fn new_array(id: u128, name: Option<String>, properties: NameMap<Type>, prototype: Option<CustomTypeObject>) -> (r:
        Self)
        ensures
            r@ == (ObjectModel {
                id,
                name: optional_text(name),
                properties: property_models(properties),
                is_array: true,
                prototype,
                trace: Seq::empty(),
            }),
    {
        let r = ObjectType {
            id,
            name,
            properties,
            prototype,
            is_array: true,
            properties_change_trace: ChangeTrace::new(),
        };
        assert(r.properties_change_trace@ =~= Seq::empty());
        r
    }

    /// The type of `property` as it is at `location`.
    pub fn query_property(&self, property: &str, location: &Location) -> (r: Option<Type>)
        ensures
            optional_model(r) == self@.property_at(property@, *location),
    {
        query_trace(&self.properties, &self.properties_change_trace, property, location)
    }

    /// Whether the static map has `property`.
    pub fn has_property(&self, property: &str) -> (r: bool)
        ensures
            r == self@.properties.dom().contains(property@),
    {
        self.properties.contains_key(property)
    }

    /// The static property map.
    pub fn properties(&self) -> (r: &NameMap<Type>)
        ensures
            property_models(*r) == self@.properties,
    {
        &self.properties
    }

    /// The trace of the changes of shape.
    pub fn properties_change_trace(&self) -> (r: &ChangeTrace<TracedTypeMuation>)
        ensures
            r@ == self@.trace,
    {
        &self.properties_change_trace
    }

    /// Names the aggregate, unless it has a name already.
    pub fn assign_name(&mut self, name: String)
        ensures
            final(self)@ == old(self)@.named(name@),
    {
        match self.name {
            Some(_) => {},
            None => {
                self.name = Some(name);
            },
        }
    }

    /// The name under which the aggregate is shown.
    pub fn name(&self) -> (r: &str)
        ensures
            r@ == self@.shown_name(),
    {
        match &self.name {
            Some(name) => name.as_str(),
            None => "ObjectLiteral",
        }
    }

    pub fn id(&self) -> (r: u128)
        ensures
            r == self@.id,
    {
        self.id
    }

    pub fn is_array(&self) -> (r: bool)
        ensures
            r == self@.is_array,
    {
        self.is_array
    }

    pub fn prototype(&self) -> (r: Option<CustomTypeObject>)
        ensures
            r == self@.prototype,
    {
        self.prototype
    }


    /// The shown name, as an owned string.
    pub fn to_string(&self) -> (r: String)
        ensures
            r@ == self@.shown_name(),
    {
        self.name().to_owned()
    }
}

impl Clone for ObjectType {
    fn clone(&self) -> (r: Self)
        ensures
            r@ == self@,
    {
        ObjectType {
            id: self.id,
            name: match &self.name {
                Some(name) => Some(name.clone()),
                None => None,
            },
            properties: clone_properties(&self.properties),
            is_array: self.is_array,
            prototype: self.prototype,
            properties_change_trace: self.properties_change_trace.clone(),
        }
    }
}

impl TracedChange<TracedTypeMuation, Type, Location> for ObjectType {
    /// Appends a change of shape to the trace.
    fn change(&mut self, change: TracedTypeMuation, new_type: Type, location: Location)
        ensures
            final(self)@ == old(self)@.changed(change@, new_type@, location),
    {
        let ghost before = self.properties_change_trace;
        self.properties_change_trace.change(change, new_type, location);
        proof {
            ChangeTrace::lemma_change_view(
                before,
                self.properties_change_trace,
                TraceSet { attribute: change, loc: location, current_type: new_type },
            );
        }
    }
}

} // verus!
