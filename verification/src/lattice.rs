use vstd::prelude::*;
use vstd::string::*;
use crate::custom_type::CustomTypeObject;
use crate::location::Location;
use crate::store::{Store, StoreModel, OBJECT_PROTOTYPE};
use crate::name_map::NameMap;
use crate::types::{optional_model, property_models, Ty, Type};

verus! {

impl StoreModel {
    /// The static property map that stands behind `t`: an aggregate's own, and for
    /// every other type that of the object prototype.
    pub open spec fn properties(self, t: Ty) -> Map<Seq<char>, Ty> {
        match t {
            Ty::Object(handle) => match self.object(handle) {
                Some(object) => object.properties,
                None => Map::empty(),
            },
            Ty::Function(handle) => match self.function(handle) {
                Some(function) => function.properties,
                None => Map::empty(),
            },
            _ => match self.object(OBJECT_PROTOTYPE) {
                Some(object) => object.properties,
                None => Map::empty(),
            },
        }
    }

    /// The type of `property` of `t` at `at`. Only aggregates answer.
    pub open spec fn query_property(self, t: Ty, property: Seq<char>, at: Location) -> Option<Ty> {
        match t {
            Ty::Object(handle) => match self.object(handle) {
                Some(object) => object.property_at(property, at),
                None => None,
            },
            Ty::Function(handle) => match self.function(handle) {
                Some(function) => function.property_at(property, at),
                None => None,
            },
            _ => None,
        }
    }

    /// The store once `name` was assigned to `t`. Only an aggregate takes a name,
    /// and only its first.
    pub open spec fn assign_name(self, t: Ty, name: Seq<char>) -> StoreModel {
        match CustomTypeObject::named_by(t) {
            Some(target) => self.aggregate_named(target, name),
            None => self,
        }
    }

    /// The name under which the object aggregate behind `handle` is shown.
    pub open spec fn object_name(self, handle: usize) -> Seq<char> {
        match self.object(handle) {
            Some(object) => object.shown_name(),
            None => "ObjectLiteral"@,
        }
    }

    /// The name under which the function aggregate behind `handle` is shown.
    pub open spec fn function_name(self, handle: usize) -> Seq<char> {
        match self.function(handle) {
            Some(function) => function.shown_name(),
            None => "AnonymousFunction"@,
        }
    }

    /// Whether the object aggregate behind `handle` is an array.
    pub open spec fn is_array(self, handle: usize) -> bool {
        match self.object(handle) {
            Some(object) => object.is_array,
            None => false,
        }
    }

    /// The canonical display of `t`.
    pub open spec fn type_text(self, t: Ty) -> Seq<char>
        decreases t, 0nat,
    {
        match t {
            Ty::Number => "Number"@,
            Ty::String => "String"@,
            Ty::Boolean => "Boolean"@,
            Ty::RegExp => "RegExp"@,
            Ty::Undefined => "Undefined"@,
            Ty::Null => "Null"@,
            Ty::Object(handle) => self.object_name(handle),
            Ty::Function(handle) => self.function_name(handle),
            Ty::Mixed(members) => self.union_text(members, members.len()),
            Ty::Composed { outer, inner } => self.object_name(outer) + "<"@ + self.type_text(*inner) + ">"@,
        }
    }

    /// The displays of the first `count` of `members`, joined by ` | `.
    pub open spec fn union_text(self, members: Seq<Ty>, count: nat) -> Seq<char>
        decreases members, count,
    {
        if count == 0 || count > members.len() {
            Seq::empty()
        } else if count == 1 {
            self.type_text(members[0])
        } else {
            self.union_text(members, (count - 1) as nat) + " | "@ + self.type_text(members[count - 1])
        }
    }
}

impl Store {
    /// Whether the object aggregate behind `handle` is an array.
    pub fn is_array(&self, handle: usize) -> (r: bool)
        ensures
            r == self@.is_array(handle),
    {
        match self.object(handle) {
            Some(object) => object.is_array(),
            None => false,
        }
    }

    /// The name under which the object aggregate behind `handle` is shown.
    pub fn object_name(&self, handle: usize) -> (r: String)
        ensures
            r@ == self@.object_name(handle),
    {
        match self.object(handle) {
            Some(object) => object.name().to_owned(),
            None => "ObjectLiteral".to_owned(),
        }
    }

    /// The name under which the function aggregate behind `handle` is shown.
    pub fn function_name(&self, handle: usize) -> (r: String)
        ensures
            r@ == self@.function_name(handle),
    {
        match self.function(handle) {
            Some(function) => function.name().to_owned(),
            None => "AnonymousFunction".to_owned(),
        }
    }
}

impl Type {
    /// The static property map that stands behind the type: an aggregate's own, and
    /// for every other type that of the object prototype. There is none behind a
    /// handle that is not of `store`.
    pub fn properties<'a>(&self, store: &'a Store) -> (r: Option<&'a NameMap<Type>>)
        ensures
            match r {
                Some(map) => property_models(*map) == store@.properties(self@),
                None => store@.properties(self@) == Map::<Seq<char>, Ty>::empty(),
            },
    {
        match self {
            Type::Object(handle) => match store.object(*handle) {
                Some(object) => Some(object.properties()),
                None => None,
            },
            Type::Function(handle) => match store.function(*handle) {
                Some(function) => Some(function.properties()),
                None => None,
            },
            _ => match store.object(OBJECT_PROTOTYPE) {
                Some(object) => Some(object.properties()),
                None => None,
            },
        }
    }

    /// Whether the static map behind the type has `property`.
    pub fn has_property(&self, property: &str, store: &Store) -> (r: bool)
        ensures
            r == store@.properties(self@).dom().contains(property@),
    {
        match self.properties(store) {
            Some(map) => {
                assert(property_models(*map).dom().contains(property@) == map@.dom().contains(property@));
                map.contains_key(property)
            },
            None => false,
        }
    }

    /// The type of `property` as it is at `location`. Only aggregates answer.
    pub fn query_property(&self, property: &str, location: &Location, store: &Store) -> (r: Option<Type>)
        ensures
            optional_model(r) == store@.query_property(self@, property@, *location),
    {
        match self {
            Type::Object(handle) => match store.object(*handle) {
                Some(object) => object.query_property(property, location),
                None => None,
            },
            Type::Function(handle) => match store.function(*handle) {
                Some(function) => function.query_property(property, location),
                None => None,
            },
            _ => None,
        }
    }

    /// Names the aggregate that the type stands for, unless it has a name already.
    /// Other types take no name.
    pub fn assign_name(&self, name: &str, store: &mut Store)
        ensures
            final(store)@ == old(store)@.assign_name(self@, name@),
    {
        match CustomTypeObject::of_type(self) {
            Some(target) => store.name_aggregate(target, name.to_owned()),
            None => {},
        }
    }

    /// The canonical display of the type.
    #[verifier::loop_isolation(false)]
    pub fn to_string(&self, store: &Store) -> (r: String)
        ensures
            r@ == store@.type_text(self@),
        decreases self,
    {
        match self {
            Type::String => "String".to_owned(),
            Type::Number => "Number".to_owned(),
            Type::Object(handle) => store.object_name(*handle),
            Type::Function(handle) => store.function_name(*handle),
            Type::RegExp => "RegExp".to_owned(),
            Type::Boolean => "Boolean".to_owned(),
            Type::Mixed(members) => {
                let ghost values = self@->Mixed_0;
                let mut out = String::new();
                let mut i: usize = 0;
                while i < members.len()
                    invariant
                        i <= members.len(),
                        values.len() == members.len(),
                        forall|j: int| 0 <= j < members.len() ==> values[j] == members@[j]@,
                        out@ == store@.union_text(values, i as nat),
                    decreases members.len() - i,
                {
                    let member = members[i].to_string(store);
                    if i > 0 {
                        out.append(" | ");
                    }
                    out.append(member.as_str());
                    i += 1;
                    assert(out@ =~= store@.union_text(values, i as nat));
                }
                out
            },
            Type::Undefined => "Undefined".to_owned(),
            Type::Null => "Null".to_owned(),
            Type::Composed { outer, inner } => {
                let mut out = store.object_name(*outer);
                out.append("<");
                let element = inner.to_string(store);
                out.append(element.as_str());
                out.append(">");
                out
            },
        }
    }
}

/// Assigning a name twice leaves the first name: the second assignment changes
/// nothing, whatever name it brings.
pub proof fn lemma_assign_name_first_wins(store: StoreModel, t: Ty, first: Seq<char>, second: Seq<char>)
    ensures
        store.assign_name(t, first).assign_name(t, second) == store.assign_name(t, first),
        store.assign_name(t, first).assign_name(t, first) == store.assign_name(t, first),
{
    let once = store.assign_name(t, first);
    match CustomTypeObject::named_by(t) {
        Some(CustomTypeObject::Object(handle)) => {
            if handle < store.objects.len() {
                assert(once.assign_name(t, second).objects =~= once.objects);
            }
        },
        Some(CustomTypeObject::Function(handle)) => {
            if handle < store.functions.len() {
                assert(once.assign_name(t, second).functions =~= once.functions);
            }
        },
        None => {},
    }
}

} // verus!
