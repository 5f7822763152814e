use vstd::prelude::*;
use crate::nodes::{ExpressionNodeStruct, StringNodeStruct};
use crate::scope::VariableRef;
use crate::types::{optional_model, Ty, Type};

verus! {

/// Handle of a published diagnostic: its slot in the context.
pub type ErrorRef = usize;

/// Handle of a metadata record: its slot in the context.
pub type MetaRef = usize;

/// The kinds of comparison.
#[derive(Clone, Copy, Debug, PartialEq, Eq, Structural)]
pub enum ComparisonType {
    Equality,
    Greater,
    Lesser,
}

/// What is known of a comparison: its kind and the nodes of its two sides.
#[derive(Clone, Copy, Debug)]
pub struct ComparisonMeta<'ast> {
    pub kind: ComparisonType,
    pub members: (ExpressionNodeStruct<'ast>, ExpressionNodeStruct<'ast>),
}

/// What is known of a property access: the node of the object and the property's name.
#[derive(Debug)]
pub struct PropertyAccessMeta<'ast> {
    object: ExpressionNodeStruct<'ast>,
    property: StringNodeStruct,
}

/// What the validation pass knows of one node.
#[derive(Debug)]
pub struct MetaCarry<'ast> {
    error: Option<ErrorRef>,
    variable: Option<VariableRef>,
    expression_type: Option<Type>,
    comparison: Option<ComparisonMeta<'ast>>,
    property_access: Option<PropertyAccessMeta<'ast>>,
}

/// The mathematical value of a [`MetaCarry`].
pub struct MetaModel<'ast> {
    pub error: Option<ErrorRef>,
    pub variable: Option<VariableRef>,
    pub expression_type: Option<Ty>,
    pub comparison: Option<ComparisonMeta<'ast>>,
    pub property_access: Option<(ExpressionNodeStruct<'ast>, StringNodeStruct)>,
}

impl<'ast> MetaModel<'ast> {
    /// The record of a node of which nothing is known.
    pub open spec fn empty() -> Self {
        MetaModel { error: None, variable: None, expression_type: None, comparison: None, property_access: None }
    }

    /// The record of a node of which only the type is known.
    pub open spec fn of_type(t: Ty) -> Self {
        MetaModel { expression_type: Some(t), ..Self::empty() }
    }

    /// The type of the node: `Undefined` where none was recorded.
    pub open spec fn shown_type(self) -> Ty {
        match self.expression_type {
            Some(t) => t,
            None => Ty::Undefined,
        }
    }

    /// The record with `error` attached, unless an error is attached already.
    pub open spec fn with_error(self, error: ErrorRef) -> Self {
        match self.error {
            Some(_) => self,
            None => MetaModel { error: Some(error), ..self },
        }
    }

    /// The record with the error of `other` attached, if `other` has one and this
    /// record has none.
    pub open spec fn adopting(self, other: Self) -> Self {
        match other.error {
            Some(error) => self.with_error(error),
            None => self,
        }
    }
}

impl<'ast> PropertyAccessMeta<'ast> {
    pub fn new(object: ExpressionNodeStruct<'ast>, property: StringNodeStruct) -> (r: Self)
        ensures
            r.parts() == (object, property),
    {
        PropertyAccessMeta { object, property }
    }

    /// The node of the object and the node of the property's name.
    pub closed spec fn parts(self) -> (ExpressionNodeStruct<'ast>, StringNodeStruct) {
        (self.object, self.property)
    }

    pub fn object(&self) -> (r: &ExpressionNodeStruct<'ast>)
        ensures
            *r == self.parts().0,
    {
        &self.object
    }

    pub fn property(&self) -> (r: &StringNodeStruct)
        ensures
            *r == self.parts().1,
    {
        &self.property
    }
}

impl<'ast> ComparisonMeta<'ast> {
    pub fn kind(&self) -> (r: &ComparisonType)
        ensures
            *r == self.kind,
    {
        &self.kind
    }

    /// The nodes of the left and of the right side.
    pub fn members(&self) -> (r: (&ExpressionNodeStruct<'ast>, &ExpressionNodeStruct<'ast>))
        ensures
            *r.0 == self.members.0,
            *r.1 == self.members.1,
    {
        (&self.members.0, &self.members.1)
    }
}

/// The parts of a property access that there may be.
pub open spec fn optional_parts<'ast>(access: Option<PropertyAccessMeta<'ast>>) -> Option<
    (ExpressionNodeStruct<'ast>, StringNodeStruct),
> {
    match access {
        Some(access) => Some(access.parts()),
        None => None,
    }
}

impl<'ast> View for MetaCarry<'ast> {
    type V = MetaModel<'ast>;

    closed spec fn view(&self) -> MetaModel<'ast> {
        MetaModel {
            error: self.error,
            variable: self.variable,
            expression_type: optional_model(self.expression_type),
            comparison: self.comparison,
            property_access: optional_parts(self.property_access),
        }
    }
}

impl<'ast> MetaCarry<'ast> {
    pub fn new() -> (r: Self)
        ensures
            r@ == MetaModel::<'ast>::empty(),
    {
        MetaCarry { error: None, variable: None, expression_type: None, comparison: None, property_access: None }
    }

    /// The type of the node: `Undefined` where none was recorded.
    pub fn expression_type(&self) -> (r: Type)
        ensures
            r@ == self@.shown_type(),
    {
        match &self.expression_type {
            Some(found) => found.clone(),
            None => Type::Undefined,
        }
    }

    pub fn set_expression_type(&mut self, value: Type)
        ensures
            final(self)@ == (MetaModel { expression_type: Some(value@), ..old(self)@ }),
    {
        self.expression_type = Some(value);
    }

    pub fn error(&self) -> (r: &Option<ErrorRef>)
        ensures
            *r == self@.error,
    {
        &self.error
    }

    /// Attaches the error of `other`, if it has one and this record has none.
    pub fn adopt_errors(&mut self, other: &MetaCarry<'ast>)
        ensures
            final(self)@ == old(self)@.adopting(other@),
    {
        match other.error {
            Some(error) => {
                let _ = self.set_error(error);
            },
            None => {},
        }
    }

    /// Attaches `value`, unless an error is attached already. Returns the error
    /// that it attached.
    pub fn set_error(&mut self, value: ErrorRef) -> (r: Option<ErrorRef>)
        ensures
            final(self)@ == old(self)@.with_error(value),
            r == (if old(self)@.error is Some {
                None
            } else {
                Some(value)
            }),
    {
        if self.error.is_some() {
            return None;
        }
        self.error = Some(value);
        Some(value)
    }

    pub fn variable(&self) -> (r: &Option<VariableRef>)
        ensures
            *r == self@.variable,
    {
        &self.variable
    }

    pub fn set_variable(&mut self, value: Option<VariableRef>)
        ensures
            final(self)@ == (MetaModel { variable: value, ..old(self)@ }),
    {
        self.variable = value;
    }

    pub fn comparison(&self) -> (r: Option<ComparisonMeta<'ast>>)
        ensures
            r == self@.comparison,
    {
        self.comparison
    }

    pub fn set_comparison(&mut self, value: ComparisonMeta<'ast>)
        ensures
            final(self)@ == (MetaModel { comparison: Some(value), ..old(self)@ }),
    {
        self.comparison = Some(value);
    }

    pub fn property_access(&self) -> (r: &Option<PropertyAccessMeta<'ast>>)
        ensures
            optional_parts(*r) == self@.property_access,
    {
        &self.property_access
    }

    pub fn set_property_access(&mut self, value: PropertyAccessMeta<'ast>)
        ensures
            final(self)@ == (MetaModel { property_access: Some(value.parts()), ..old(self)@ }),
    {
        self.property_access = Some(value);
    }
}

} // verus!
