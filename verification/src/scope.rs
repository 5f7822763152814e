use std::collections::HashMap;
use vstd::prelude::*;
use crate::custom_type::CustomTypeObject;
use crate::name_map::NameMap;

verus! {

/// Handle of a scope: its slot in the store.
pub type ScopeRef = usize;

/// Handle of a variable: its slot in the store.
pub type VariableRef = usize;

/// A named frame of variables and type declarations, linked to the frame around it.
#[derive(Debug)]
pub struct Scope {
    name: String,
    type_declarations: HashMap<u128, CustomTypeObject>,
    variables: NameMap<VariableRef>,
    parent: Option<ScopeRef>,
}

/// The mathematical value of a [`Scope`].
pub struct ScopeModel {
    pub name: Seq<char>,
    pub type_declarations: Map<u128, CustomTypeObject>,
    pub variables: Map<Seq<char>, VariableRef>,
    pub parent: Option<ScopeRef>,
}

impl ScopeModel {
    /// An empty frame.
    pub open spec fn empty(name: Seq<char>, parent: Option<ScopeRef>) -> ScopeModel {
        ScopeModel { name, type_declarations: Map::empty(), variables: Map::empty(), parent }
    }

    /// The frame with `name` bound to `variable`; an earlier binding gives way.
    pub open spec fn declared(self, name: Seq<char>, variable: VariableRef) -> ScopeModel {
        ScopeModel { variables: self.variables.insert(name, variable), ..self }
    }

    /// The frame with the aggregate of identity `id` declared, unless one is already.
    pub open spec fn with_type(self, id: u128, type_def: CustomTypeObject) -> ScopeModel {
        if self.type_declarations.dom().contains(id) {
            self
        } else {
            ScopeModel { type_declarations: self.type_declarations.insert(id, type_def), ..self }
        }
    }

    /// The frame under another name.
    pub open spec fn renamed(self, name: Seq<char>) -> ScopeModel {
        ScopeModel { name, ..self }
    }

    /// The variable that the frame itself binds `name` to.
    pub open spec fn own_variable(self, name: Seq<char>) -> Option<VariableRef> {
        if self.variables.dom().contains(name) {
            Some(self.variables[name])
        } else {
            None
        }
    }

    /// The aggregate that the frame declares under `id`.
    pub open spec fn declared_type(self, id: u128) -> Option<CustomTypeObject> {
        if self.type_declarations.dom().contains(id) {
            Some(self.type_declarations[id])
        } else {
            None
        }
    }
}

impl View for Scope {
    type V = ScopeModel;

    closed spec fn view(&self) -> ScopeModel {
        ScopeModel {
            name: self.name@,
            type_declarations: self.type_declarations@,
            variables: self.variables@,
            parent: self.parent,
        }
    }
}

impl Scope {
    /// An empty frame inside `parent`.
    pub fn new(name: String, parent: Option<ScopeRef>) -> (r: Self)
        ensures
            r@ == ScopeModel::empty(name@, parent),
    {
        Scope { name, variables: NameMap::new(), parent, type_declarations: HashMap::new() }
    }

    pub fn name(&self) -> (r: String)
        ensures
            r@ == self@.name,
    {
        self.name.clone()
    }

    pub fn set_name(&mut self, value: String)
        ensures
            final(self)@ == old(self)@.renamed(value@),
    {
        self.name = value;
    }

    pub fn parent(&self) -> (r: Option<ScopeRef>)
        ensures
            r == self@.parent,
    {
        self.parent
    }

    /// The variables of this frame, by name.
    pub fn variables(&self) -> (r: &NameMap<VariableRef>)
        ensures
            r@ == self@.variables,
    {
        &self.variables
    }

    /// The aggregates that this frame declares, by identity.
    pub fn type_declarations(&self) -> (r: &HashMap<u128, CustomTypeObject>)
        ensures
            r@ == self@.type_declarations,
    {
        &self.type_declarations
    }

    /// The variable that this frame itself binds `variable_name` to.
    pub fn own_variable(&self, variable_name: &str) -> (r: Option<VariableRef>)
        ensures
            r == self@.own_variable(variable_name@),
    {
        match self.variables.get(variable_name) {
            Some(found) => Some(*found),
            None => None,
        }
    }

    /// Binds `name` to `variable`; the last writer wins.
    pub fn declare(&mut self, name: String, variable: VariableRef)
        ensures
            final(self)@ == old(self)@.declared(name@, variable),
    {
        self.variables.insert(name, variable);
    }

    /// The aggregate declared under `id`.
    pub fn declared_type(&self, id: u128) -> (r: Option<CustomTypeObject>)
        ensures
            r == self@.declared_type(id),
    {
        match self.type_declarations.get(&id) {
            Some(found) => Some(*found),
            None => None,
        }
    }

    /// Declares `type_def` under `id`, unless `id` is taken.
    pub fn declare_type(&mut self, id: u128, type_def: CustomTypeObject)
        ensures
            final(self)@ == old(self)@.with_type(id, type_def),
    {
        if self.type_declarations.contains_key(&id) {
            return ;
        }
        self.type_declarations.insert(id, type_def);
    }
}

} // verus!
