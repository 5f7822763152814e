use vstd::prelude::*;
use crate::function_type::FunctionType;
use crate::object_type::ObjectType;
use crate::types::{FunctionRef, ObjectRef, Type};

verus! {

/// A handle of an aggregate of either kind.
#[derive(Clone, Copy, Debug, PartialEq, Eq, Structural)]
pub enum CustomTypeObject {
    Function(FunctionRef),
    Object(ObjectRef),
}

/// A borrowed aggregate of either kind.
#[derive(Clone, Copy)]
pub enum CustomTypeRef<'a> {
    Function(&'a FunctionType),
    Object(&'a ObjectType),
}

impl CustomTypeObject {
    /// The type that names this aggregate.
    pub open spec fn as_ty(self) -> crate::types::Ty {
        match self {
            CustomTypeObject::Function(handle) => crate::types::Ty::Function(handle),
            CustomTypeObject::Object(handle) => crate::types::Ty::Object(handle),
        }
    }

    /// The type that names this aggregate.
    pub fn as_type(&self) -> (r: Type)
        ensures
            r@ == self.as_ty(),
    {
        match self {
            CustomTypeObject::Function(handle) => Type::Function(*handle),
            CustomTypeObject::Object(handle) => Type::Object(*handle),
        }
    }

    /// The aggregate that `t` names, if it names one.
    pub fn of_type(t: &Type) -> (r: Option<CustomTypeObject>)
        ensures
            r == Self::named_by(t@),
    {
        match t {
            Type::Function(handle) => Some(CustomTypeObject::Function(*handle)),
            Type::Object(handle) => Some(CustomTypeObject::Object(*handle)),
            _ => None,
        }
    }

    /// The aggregate that a type names, if it names one.
    pub open spec fn named_by(t: crate::types::Ty) -> Option<CustomTypeObject> {
        match t {
            crate::types::Ty::Function(handle) => Some(CustomTypeObject::Function(handle)),
            crate::types::Ty::Object(handle) => Some(CustomTypeObject::Object(handle)),
            _ => None,
        }
    }
}

impl<'a> CustomTypeRef<'a> {
    /// The stable identity of the aggregate.
    pub fn id(&self) -> (r: u128)
        ensures
            r == self.spec_id(),
    {
        match self {
            CustomTypeRef::Function(function) => function.id(),
            CustomTypeRef::Object(object) => object.id(),
        }
    }

    /// The stable identity of the aggregate.
    pub open spec fn spec_id(&self) -> u128 {
        match self {
            CustomTypeRef::Function(function) => function@.id,
            CustomTypeRef::Object(object) => object@.id,
        }
    }
}

} // verus!
