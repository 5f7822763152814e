use std::collections::HashMap;
use vstd::prelude::*;
use crate::ast::{ExpressionNode, Statement};
use crate::error::{Diagnostic, ValidationError};
use crate::error_vec::{inserted, removed, ErrorVec};
use crate::expression_meta_data::{ErrorRef, MetaCarry, MetaModel, MetaRef};
use crate::location::Location;
use crate::nodes::ExpressionNodeStruct;
use crate::owner::Owner;
use crate::scope::ScopeRef;
use crate::traveler::{event_models, travel_ast, travel_expression, traveled, traveled_statements, AstEvent};
use crate::types::{Ty, Type};

verus! {

/// The state of a validation pass: what is known of every node, the diagnostics
/// that are published, the scope that names are looked up in, and the nodes issued.
#[derive(Debug)]
pub struct Context<'own> {
    data_map: HashMap<usize, MetaRef>,
    metas: Owner<MetaCarry<'own>>,
    scope: ScopeRef,
    errors: ErrorVec,
    diagnostics: Owner<ValidationError>,
    nodes: Owner<Location>,
}

/// The mathematical value of a [`Context`].
pub struct ContextModel<'own> {
    pub data_map: Map<usize, MetaRef>,
    pub metas: Seq<MetaModel<'own>>,
    pub scope: ScopeRef,
    pub errors: Seq<ErrorRef>,
    pub diagnostics: Seq<Diagnostic>,
    pub nodes: Seq<Location>,
}

impl<'own> ContextModel<'own> {
    /// The context of a pass that has not begun.
    pub open spec fn initial(scope: ScopeRef) -> Self {
        ContextModel {
            data_map: Map::empty(),
            metas: Seq::empty(),
            scope,
            errors: Seq::empty(),
            diagnostics: Seq::empty(),
            nodes: Seq::empty(),
        }
    }

    /// The handle of the record of the node `node`.
    pub open spec fn meta_handle(self, node: usize) -> Option<MetaRef> {
        if self.data_map.dom().contains(node) && self.data_map[node] < self.metas.len() {
            Some(self.data_map[node])
        } else {
            None
        }
    }

    /// What is known of the node `node`: nothing, where it has no record.
    pub open spec fn meta_of(self, node: usize) -> MetaModel<'own> {
        match self.meta_handle(node) {
            Some(handle) => self.metas[handle as int],
            None => MetaModel::empty(),
        }
    }

    /// The type recorded for the node `node`.
    pub open spec fn type_of(self, node: usize) -> Ty {
        self.meta_of(node).shown_type()
    }

    /// The context with a new record `meta` for the node `node`.
    pub open spec fn noted(self, node: usize, meta: MetaModel<'own>) -> Self {
        ContextModel {
            metas: self.metas.push(meta),
            data_map: self.data_map.insert(node, self.metas.len() as usize),
            ..self
        }
    }

    /// The context in which the node `node` shares the record of the node `other`.
    /// Where `other` has none, `node` gets an empty record of its own.
    pub open spec fn shared(self, node: usize, other: usize) -> Self {
        match self.meta_handle(other) {
            Some(handle) => ContextModel { data_map: self.data_map.insert(node, handle), ..self },
            None => self.noted(node, MetaModel::empty()),
        }
    }

    /// The context with `diagnostic` attached to the record `handle` and published.
    /// A record that has an error already keeps it, and the diagnostic is dropped.
    pub open spec fn published(self, handle: MetaRef, diagnostic: Diagnostic) -> Self {
        if handle < self.metas.len() && self.metas[handle as int].error is None {
            ContextModel {
                metas: self.metas.update(
                    handle as int,
                    self.metas[handle as int].with_error(self.diagnostics.len() as usize),
                ),
                diagnostics: self.diagnostics.push(diagnostic),
                errors: inserted(self.errors, self.diagnostics.len() as usize),
                ..self
            }
        } else {
            self
        }
    }

    /// The context with `diagnostic` published on a record of its own.
    pub open spec fn announced(self, diagnostic: Diagnostic) -> Self {
        ContextModel { metas: self.metas.push(MetaModel::empty()), ..self }.published(
            self.metas.len() as usize,
            diagnostic,
        )
    }

    /// The context in which the record `handle` has adopted the error of the node `other`.
    pub open spec fn adopted(self, handle: MetaRef, other: usize) -> Self {
        if handle < self.metas.len() {
            ContextModel {
                metas: self.metas.update(handle as int, self.metas[handle as int].adopting(self.meta_of(other))),
                ..self
            }
        } else {
            self
        }
    }

    /// The context without the diagnostic that is attached to the node `node`.
    pub open spec fn withdrawn(self, node: usize) -> Self {
        match self.meta_of(node).error {
            Some(error) => ContextModel { errors: removed(self.errors, error), ..self },
            None => self,
        }
    }

    /// The context in another scope.
    pub open spec fn entered(self, scope: ScopeRef) -> Self {
        ContextModel { scope, ..self }
    }

    /// The context with more nodes issued.
    pub open spec fn with_nodes(self, nodes: Seq<Location>) -> Self {
        ContextModel { nodes, ..self }
    }
}

impl<'own> View for Context<'own> {
    type V = ContextModel<'own>;

    closed spec fn view(&self) -> ContextModel<'own> {
        ContextModel {
            data_map: self.data_map@,
            metas: self.metas.proteges().map_values(|meta: MetaCarry<'own>| meta@),
            scope: self.scope,
            errors: self.errors@,
            diagnostics: self.diagnostics.proteges().map_values(|error: ValidationError| error@),
            nodes: self.nodes.proteges(),
        }
    }
}

impl<'own> Context<'own> {
    /// The context of a pass that looks names up in `scope`.
    pub fn new(scope: ScopeRef) -> (r: Self)
        ensures
            r@ == ContextModel::<'own>::initial(scope),
    {
        let r = Context {
            scope,
            data_map: HashMap::new(),
            metas: Owner::new(),
            errors: ErrorVec::new(),
            diagnostics: Owner::new(),
            nodes: Owner::new(),
        };
        assert(r@.metas =~= Seq::empty());
        assert(r@.diagnostics =~= Seq::empty());
        r
    }

    /// The scope that names are looked up in.
    pub fn scope(&self) -> (r: ScopeRef)
        ensures
            r == self@.scope,
    {
        self.scope
    }

    /// Goes on in another scope.
    pub fn enter(&mut self, scope: ScopeRef)
        ensures
            final(self)@ == old(self)@.entered(scope),
    {
        self.scope = scope;
    }

    /// Walks `expression` and issues its nodes.
    pub fn travel(&mut self, expression: &'own ExpressionNode) -> (r: (
        ExpressionNodeStruct<'own>,
        Vec<AstEvent<'own>>,
    ))
        ensures
            r.0 == traveled(expression, old(self)@.nodes).node,
            event_models(r.1@) == traveled(expression, old(self)@.nodes).events,
            final(self)@ == old(self)@.with_nodes(traveled(expression, old(self)@.nodes).nodes),
    {
        travel_expression(expression, &mut self.nodes)
    }

    /// Walks the statements of `ast` and issues their nodes.
    pub fn travel_ast(&mut self, ast: &'own Vec<Statement>) -> (r: Vec<AstEvent<'own>>)
        ensures
            event_models(r@) == traveled_statements(ast, ast@.len(), old(self)@.nodes).0,
            final(self)@ == old(self)@.with_nodes(traveled_statements(ast, ast@.len(), old(self)@.nodes).1),
    {
        travel_ast(ast, &mut self.nodes)
    }

    /// The handle of the record of `node`.
    pub fn node_meta_data(&self, node: &ExpressionNodeStruct<'own>) -> (r: Option<MetaRef>)
        ensures
            r == self@.meta_handle(node.id),
    {
        match self.data_map.get(&node.id) {
            Some(handle) => if *handle < self.metas.len() {
                Some(*handle)
            } else {
                None
            },
            None => None,
        }
    }

    /// The record behind `handle`.
    pub fn meta(&self, handle: MetaRef) -> (r: Option<&MetaCarry<'own>>)
        ensures
            match r {
                Some(meta) => handle < self@.metas.len() && meta@ == self@.metas[handle as int],
                None => handle >= self@.metas.len(),
            },
    {
        self.metas.get(handle)
    }

    /// The record of `node`; `nothing`, where it has none.
    pub fn meta_or<'a>(&'a self, node: &ExpressionNodeStruct<'own>, nothing: &'a MetaCarry<'own>) -> (r: &'a MetaCarry<
        'own,
    >)
        requires
            nothing@ == MetaModel::<'own>::empty(),
        ensures
            r@ == self@.meta_of(node.id),
    {
        match self.node_meta_data(node) {
            Some(handle) => match self.metas.get(handle) {
                Some(meta) => meta,
                None => nothing,
            },
            None => nothing,
        }
    }

    /// The type recorded for `node`; `Undefined` where none is.
    pub fn type_of(&self, node: &ExpressionNodeStruct<'own>) -> (r: Type)
        ensures
            r@ == self@.type_of(node.id),
    {
        match self.node_meta_data(node) {
            Some(handle) => match self.metas.get(handle) {
                Some(meta) => meta.expression_type(),
                None => Type::Undefined,
            },
            None => Type::Undefined,
        }
    }

    /// The variable recorded for `node`.
    pub fn variable_of(&self, node: &ExpressionNodeStruct<'own>) -> (r: Option<usize>)
        ensures
            r == self@.meta_of(node.id).variable,
    {
        match self.node_meta_data(node) {
            Some(handle) => match self.metas.get(handle) {
                Some(meta) => *meta.variable(),
                None => None,
            },
            None => None,
        }
    }

    /// Takes `meta` in as the record of `node` and returns the record's handle.
    pub fn set_node_meta_data(&mut self, node: &ExpressionNodeStruct<'own>, meta: MetaCarry<'own>) -> (r: MetaRef)
        ensures
            r == old(self)@.metas.len(),
            final(self)@ == old(self)@.noted(node.id, meta@),
    {
        let handle = self.metas.adopt(meta);
        self.data_map.insert(node.id, handle);
        assert(self@.metas =~= old(self)@.metas.push(meta@));
        handle
    }

    /// Lets `node` share the record of `other`; where `other` has none, `node` gets
    /// an empty record of its own.
    pub fn share_node_meta_data(&mut self, node: &ExpressionNodeStruct<'own>, other: &ExpressionNodeStruct<'own>)
        ensures
            final(self)@ == old(self)@.shared(node.id, other.id),
    {
        match self.node_meta_data(other) {
            Some(handle) => {
                self.data_map.insert(node.id, handle);
            },
            None => {
                let _ = self.set_node_meta_data(node, MetaCarry::new());
            },
        }
    }

    /// Attaches `error` to the record `handle` and publishes it, unless the record
    /// has an error already.
    pub fn publish(&mut self, handle: MetaRef, error: ValidationError)
        ensures
            final(self)@ == old(self)@.published(handle, error@),
    {
        if handle < self.metas.len() {
            let free = match self.metas.get(handle) {
                Some(meta) => meta.error().is_none(),
                None => false,
            };
            if free {
                let diagnostic = self.diagnostics.adopt(error);
                let slot = self.metas.get_mut(handle);
                let _ = slot.set_error(diagnostic);
                let _ = self.errors.insert(diagnostic);
                assert(self@.metas =~= old(self)@.metas.update(
                    handle as int,
                    old(self)@.metas[handle as int].with_error(diagnostic),
                ));
                assert(self@.diagnostics =~= old(self)@.diagnostics.push(error@));
            }
        }
    }

    /// Publishes `error` on a record of its own.
    pub fn announce(&mut self, error: ValidationError)
        ensures
            final(self)@ == old(self)@.announced(error@),
    {
        let handle = self.metas.adopt(MetaCarry::new());
        assert(self@.metas =~= old(self)@.metas.push(MetaModel::empty()));
        self.publish(handle, error);
    }

    /// Lets the record `handle` adopt the error of `other`: the error is attached,
    /// if `other` has one and the record has none.
    pub fn adopt_errors(&mut self, handle: MetaRef, other: &ExpressionNodeStruct<'own>)
        ensures
            final(self)@ == old(self)@.adopted(handle, other.id),
    {
        if handle < self.metas.len() {
            let adopted = match self.node_meta_data(other) {
                Some(from) => match self.metas.get(from) {
                    Some(meta) => *meta.error(),
                    None => None,
                },
                None => None,
            };
            match adopted {
                Some(error) => {
                    let slot = self.metas.get_mut(handle);
                    let _ = slot.set_error(error);
                    assert(self@.metas =~= old(self)@.metas.update(
                        handle as int,
                        old(self)@.metas[handle as int].adopting(old(self)@.meta_of(other.id)),
                    ));
                },
                None => {
                    assert(self@.metas =~= old(self)@.metas.update(
                        handle as int,
                        old(self)@.metas[handle as int].adopting(old(self)@.meta_of(other.id)),
                    ));
                },
            }
        }
    }

    /// Withdraws the diagnostic that is attached to `node` from the published ones.
    pub fn clear_error(&mut self, node: &ExpressionNodeStruct<'own>)
        ensures
            final(self)@ == old(self)@.withdrawn(node.id),
    {
        let attached = match self.node_meta_data(node) {
            Some(handle) => match self.metas.get(handle) {
                Some(meta) => *meta.error(),
                None => None,
            },
            None => None,
        };
        match attached {
            Some(error) => {
                let _ = self.errors.remove(error);
            },
            None => {},
        }
    }

    /// How many nodes are issued.
    pub fn node_count(&self) -> (r: usize)
        ensures
            r == self@.nodes.len(),
    {
        self.nodes.len()
    }

    /// The place of the node with the identity `node`.
    pub fn node_place(&self, node: usize) -> (r: Option<Location>)
        ensures
            r == (if node < self@.nodes.len() {
                Some(self@.nodes[node as int])
            } else {
                None
            }),
    {
        match self.nodes.get(node) {
            Some(place) => Some(*place),
            None => None,
        }
    }

    /// The type recorded for the node with the identity `node`.
    pub fn recorded_type(&self, node: usize) -> (r: Type)
        ensures
            r@ == self@.type_of(node),
    {
        match self.data_map.get(&node) {
            Some(handle) => match self.metas.get(*handle) {
                Some(meta) => meta.expression_type(),
                None => Type::Undefined,
            },
            None => Type::Undefined,
        }
    }

    /// The variable recorded for the node with the identity `node`.
    pub fn recorded_variable(&self, node: usize) -> (r: Option<usize>)
        ensures
            r == self@.meta_of(node).variable,
    {
        match self.data_map.get(&node) {
            Some(handle) => match self.metas.get(*handle) {
                Some(meta) => *meta.variable(),
                None => None,
            },
            None => None,
        }
    }

    /// The published diagnostics, by handle.
    pub fn errors(&self) -> (r: &ErrorVec)
        ensures
            r@ == self@.errors,
    {
        &self.errors
    }

    /// The diagnostic behind `handle`.
    pub fn diagnostic(&self, handle: ErrorRef) -> (r: Option<&ValidationError>)
        ensures
            match r {
                Some(error) => handle < self@.diagnostics.len() && error@ == self@.diagnostics[handle as int],
                None => handle >= self@.diagnostics.len(),
            },
    {
        self.diagnostics.get(handle)
    }
}

} // verus!
