use vstd::prelude::*;
use crate::name_map::{NameMap, lemma_ruling_entry_by_names};

verus! {

/// Handle of an object aggregate: its slot in the store.
pub type ObjectRef = usize;

/// Handle of a function aggregate: its slot in the store.
pub type FunctionRef = usize;

/// The mathematical value of a [`Type`].
pub enum Ty {
    Number,
    String,
    Boolean,
    RegExp,
    Object(ObjectRef),
    Function(FunctionRef),
    Undefined,
    Null,
    Mixed(Seq<Ty>),
    Composed { outer: ObjectRef, inner: Box<Ty> },
}

/// A type of the analysed language.
///
/// Aggregates are named by handle, so a copy of a `Type` refers to the same aggregate.
#[derive(Debug)]
pub enum Type {
    Number,
    String,
    Boolean,
    RegExp,
    Object(ObjectRef),
    Function(FunctionRef),
    Undefined,
    Null,
    /// The join of branches that disagree; members stay in source order, duplicates included.
    Mixed(Vec<Type>),
    /// A container (`outer`) with an element type (`inner`).
    Composed { outer: ObjectRef, inner: Box<Type> },
}

/// The value of `t`, member by member.
pub open spec fn type_model(t: Type) -> Ty
    decreases t,
{
    match t {
        Type::Number => Ty::Number,
        Type::String => Ty::String,
        Type::Boolean => Ty::Boolean,
        Type::RegExp => Ty::RegExp,
        Type::Object(handle) => Ty::Object(handle),
        Type::Function(handle) => Ty::Function(handle),
        Type::Undefined => Ty::Undefined,
        Type::Null => Ty::Null,
        Type::Mixed(members) => Ty::Mixed(
            Seq::new(
                members@.len(),
                |i: int| if 0 <= i < members@.len() { type_model(members@[i]) } else { Ty::Undefined },
            ),
        ),
        Type::Composed { outer, inner } => Ty::Composed { outer, inner: Box::new(type_model(*inner)) },
    }
}

/// The values of a sequence of types.
pub open spec fn type_models(types: Seq<Type>) -> Seq<Ty> {
    types.map_values(|t: Type| t@)
}

impl View for Type {
    type V = Ty;

    open spec fn view(&self) -> Ty {
        type_model(*self)
    }
}

/// The value of a type that may be missing.
pub open spec fn optional_model(t: Option<Type>) -> Option<Ty> {
    match t {
        Some(t) => Some(t@),
        None => None,
    }
}

impl Ty {
    /// The element type of a container, any other type unchanged.
    pub open spec fn unwrapped(self) -> Ty {
        match self {
            Ty::Composed { outer, inner } => *inner,
            other => other,
        }
    }
}

/// A `Mixed` type's value is the `Mixed` of its members' values.
pub proof fn lemma_mixed_view(members: Vec<Type>)
    ensures
        Type::Mixed(members)@ == Ty::Mixed(type_models(members@)),
{
    assert(Type::Mixed(members)@->Mixed_0 =~= type_models(members@));
}

impl Clone for Type {
    #[verifier::loop_isolation(false)]
    fn clone(&self) -> (r: Type)
        ensures
            r@ == self@,
        decreases self,
    {
        match self {
            Type::Number => Type::Number,
            Type::String => Type::String,
            Type::Boolean => Type::Boolean,
            Type::RegExp => Type::RegExp,
            Type::Object(handle) => Type::Object(*handle),
            Type::Function(handle) => Type::Function(*handle),
            Type::Undefined => Type::Undefined,
            Type::Null => Type::Null,
            Type::Mixed(members) => {
                let mut copies: Vec<Type> = Vec::new();
                let mut i: usize = 0;
                while i < members.len()
                    invariant
                        i <= members.len(),
                        copies.len() == i,
                        forall|j: int| 0 <= j < i ==> copies@[j]@ == members@[j]@,
                    decreases members.len() - i,
                {
                    copies.push(members[i].clone());
                    i += 1;
                }
                let r = Type::Mixed(copies);
                assert(r@->Mixed_0 =~= self@->Mixed_0);
                r
            },
            Type::Composed { outer, inner } => Type::Composed { outer: *outer, inner: Box::new((**inner).clone()) },
        }
    }
}

impl Type {
    /// Structural equality; aggregates are equal when they are the same aggregate.
    #[verifier::loop_isolation(false)]
    pub fn same(&self, other: &Type) -> (r: bool)
        ensures
            r == (self@ == other@),
        decreases self,
    {
        match self {
            Type::Number => matches!(other, Type::Number),
            Type::String => matches!(other, Type::String),
            Type::Boolean => matches!(other, Type::Boolean),
            Type::RegExp => matches!(other, Type::RegExp),
            Type::Undefined => matches!(other, Type::Undefined),
            Type::Null => matches!(other, Type::Null),
            Type::Object(a) => match other {
                Type::Object(b) => *a == *b,
                _ => false,
            },
            Type::Function(a) => match other {
                Type::Function(b) => *a == *b,
                _ => false,
            },
            Type::Mixed(a) => match other {
                Type::Mixed(b) => {
                    if a.len() != b.len() {
                        assert(self@->Mixed_0.len() != other@->Mixed_0.len());
                        return false;
                    }
                    let mut i: usize = 0;
                    while i < a.len()
                        invariant
                            i <= a.len(),
                            forall|j: int| 0 <= j < i ==> a@[j]@ == b@[j]@,
                        decreases a.len() - i,
                    {
                        if !a[i].same(&b[i]) {
                            assert(self@->Mixed_0[i as int] == a@[i as int]@);
                            assert(other@->Mixed_0[i as int] == b@[i as int]@);
                            return false;
                        }
                        i += 1;
                    }
                    assert(self@->Mixed_0 =~= other@->Mixed_0);
                    true
                },
                _ => false,
            },
            Type::Composed { outer: o1, inner: i1 } => match other {
                Type::Composed { outer: o2, inner: i2 } => *o1 == *o2 && i1.same(i2),
                _ => false,
            },
        }
    }

    /// The element type of a container; any other type as it is.
    pub fn unwrap(&self) -> (r: Type)
        ensures
            r@ == self@.unwrapped(),
            match *self {
                Type::Composed { inner, .. } => r@ == inner@,
                _ => r@ == self@,
            },
    {
        match self {
            Type::Composed { inner, .. } => (**inner).clone(),
            _ => self.clone(),
        }
    }
}

/// The values of a property map, name by name.
pub open spec fn property_models(properties: NameMap<Type>) -> Map<Seq<char>, Ty> {
    Map::new(|name: Seq<char>| properties.has(name), |name: Seq<char>| properties.value(name)@)
}

/// Binding a name binds it in the map's values too.
pub proof fn lemma_property_models_insert(before: NameMap<Type>, after: NameMap<Type>, name: Seq<char>, value: Type)
    requires
        after@ == before@.insert(name, value),
    ensures
        property_models(after) == property_models(before).insert(name, value@),
{
    assert forall|k: Seq<char>| after.has(k) == (k == name || before.has(k)) by {
        assert(after@.dom().contains(k) == after.has(k));
        assert(before@.dom().contains(k) == before.has(k));
        assert(after@.dom().contains(k) == before@.insert(name, value).dom().contains(k));
    }
    assert forall|k: Seq<char>| after.has(k) implies after.value(k) == (if k == name { value } else { before.value(k) }) by {
        assert(after@.dom().contains(k));
        assert(after@[k] == after.value(k));
        if k != name {
            assert(before@.dom().contains(k));
            assert(before@[k] == before.value(k));
        }
        assert(after@[k] == before@.insert(name, value)[k]);
    }
    assert(property_models(after) =~= property_models(before).insert(name, value@));
}

/// A copy of a property map, entry by entry.
pub fn clone_properties(properties: &NameMap<Type>) -> (r: NameMap<Type>)
    ensures
        property_models(r) == property_models(*properties),
{
    let mut copy: NameMap<Type> = NameMap::new();
    let mut i: usize = 0;
    while i < properties.len()
        invariant
            i <= properties.entries().len(),
            copy.entries().len() == i,
            forall|j: int|
                0 <= j < i ==> (#[trigger] copy.entries()[j]).0@ == properties.entries()[j].0@ && copy.entries()[j].1@
                    == properties.entries()[j].1@,
        decreases properties.entries().len() - i,
    {
        copy.append(properties.name_at(i).clone(), properties.value_at(i).clone());
        i += 1;
    }
    proof {
        assert forall|name: Seq<char>| copy.has(name) == properties.has(name) && (copy.has(name) ==> copy.value(
            name,
        )@ == properties.value(name)@) by {
            lemma_ruling_entry_by_names(copy.entries(), properties.entries(), name);
            crate::name_map::lemma_ruling_entry(copy.entries(), name);
        }
        assert(property_models(copy) =~= property_models(*properties));
    }
    copy
}

impl PartialEq for Type {
    fn eq(&self, other: &Type) -> (r: bool) {
        self.same(other)
    }
}

impl vstd::std_specs::cmp::PartialEqSpecImpl for Type {
    open spec fn obeys_eq_spec() -> bool {
        true
    }

    open spec fn eq_spec(&self, other: &Type) -> bool {
        self@ == other@
    }
}

/// A copy of the type of an aggregate names the same aggregate: copying a type
/// copies the handle, not what is behind it.
pub proof fn lemma_copies_share_the_aggregate(first: Type, copy: Type)
    requires
        copy@ == first@,
    ensures
        first matches Type::Object(handle) ==> copy == Type::Object(handle),
        first matches Type::Function(handle) ==> copy == Type::Function(handle),
{
}

} // verus!
