use vstd::prelude::*;
use crate::ast::{expression_text, expression_to_string, Expression, ExpressionNode, NameNode};
use crate::location::Location;
use crate::owner::Owner;

verus! {

/// What every node of the traversal can tell: its text and its place.
pub trait Node {
    /// The text that stands for the node in a diagnostic.
    spec fn source_text(&self) -> Seq<char>;

    /// The bytes of the source that the node spans.
    spec fn place(&self) -> Location;

    fn source(&self) -> (r: String)
        ensures
            r@ == self.source_text(),
    ;

    fn location(&self) -> (r: &Location)
        ensures
            *r == self.place(),
    ;
}

/// One occurrence of an expression in the source. Two occurrences of the same text
/// are two nodes: a node is told from others by its `id` alone.
#[derive(Clone, Copy, Debug)]
pub struct ExpressionNodeStruct<'ast> {
    pub id: usize,
    pub expression: &'ast Expression,
    pub location: Location,
}

/// One occurrence of a property name in the source.
#[derive(Debug)]
pub struct StringNodeStruct {
    pub id: usize,
    pub value: String,
    pub location: Location,
}

impl<'ast> ExpressionNodeStruct<'ast> {
    /// The node for `expression` at `location` that has the next free identity.
    pub open spec fn issued(expression: &'ast Expression, location: Location, nodes: Seq<Location>) -> Self {
        ExpressionNodeStruct { id: nodes.len() as usize, expression, location }
    }

    /// A node for `expression` at `location`, with an identity that no other node
    /// of `nodes` has.
    pub fn new(expression: &'ast Expression, location: Location, nodes: &mut Owner<Location>) -> (r: Self)
        ensures
            r == Self::issued(expression, location, old(nodes).proteges()),
            final(nodes).proteges() == old(nodes).proteges().push(location),
    {
        let id = nodes.adopt(location);
        ExpressionNodeStruct { id, expression, location }
    }

    /// A node for a located expression.
    pub fn from(value: &'ast ExpressionNode, nodes: &mut Owner<Location>) -> (r: Self)
        ensures
            r == Self::issued(&value.item, value.spec_location(), old(nodes).proteges()),
            final(nodes).proteges() == old(nodes).proteges().push(value.spec_location()),
    {
        Self::new(&value.item, value.location(), nodes)
    }

    pub fn expression(&self) -> (r: &'ast Expression)
        ensures
            r == self.expression,
    {
        self.expression
    }

    /// Whether `self` and `other` are the same occurrence.
    pub fn same_node(&self, other: &Self) -> (r: bool)
        ensures
            r == (self.id == other.id),
    {
        self.id == other.id
    }
}

impl<'ast> Node for ExpressionNodeStruct<'ast> {
    open spec fn source_text(&self) -> Seq<char> {
        expression_text(*self.expression)
    }

    open spec fn place(&self) -> Location {
        self.location
    }

    fn source(&self) -> (r: String) {
        expression_to_string(self.expression)
    }

    fn location(&self) -> (r: &Location) {
        &self.location
    }
}

impl StringNodeStruct {
    /// The node for `name` that has the next free identity.
    pub open spec fn issued(name: NameNode, nodes: Seq<Location>) -> Self {
        StringNodeStruct { id: nodes.len() as usize, value: name.name, location: name.spec_location() }
    }

    /// A node for a located name, with an identity that no other node of `nodes` has.
    pub fn from(value: &NameNode, nodes: &mut Owner<Location>) -> (r: Self)
        ensures
            r == Self::issued(*value, old(nodes).proteges()),
            final(nodes).proteges() == old(nodes).proteges().push(value.spec_location()),
    {
        let location = value.location();
        let id = nodes.adopt(location);
        StringNodeStruct { id, value: value.name.clone(), location }
    }

    /// Whether `self` and `other` are the same occurrence.
    pub fn same_node(&self, other: &Self) -> (r: bool)
        ensures
            r == (self.id == other.id),
    {
        self.id == other.id
    }
}

impl Node for StringNodeStruct {
    open spec fn source_text(&self) -> Seq<char> {
        self.value@
    }

    open spec fn place(&self) -> Location {
        self.location
    }

    fn source(&self) -> (r: String) {
        self.value.clone()
    }

    fn location(&self) -> (r: &Location) {
        &self.location
    }
}

impl Clone for StringNodeStruct {
    fn clone(&self) -> (r: Self)
        ensures
            r == *self,
    {
        StringNodeStruct { id: self.id, value: self.value.clone(), location: self.location }
    }
}

} // verus!
