use vstd::prelude::*;
use vstd::string::*;
use crate::custom_type::CustomTypeObject;
use crate::error::{Fault, ScopeError};
use crate::scope::{Scope, ScopeModel, ScopeRef, VariableRef};
use crate::store::{Store, StoreModel};
use crate::traits::BindableScope;
use crate::variable::Variable;

verus! {

impl StoreModel {
    /// The scope around `scope`. A parent link is followed only towards older scopes,
    /// so no chain of parents comes back to where it began.
    pub open spec fn parent_of(self, scope: ScopeRef) -> Option<ScopeRef> {
        match self.scope(scope) {
            Some(frame) => match frame.parent {
                Some(parent) => if parent < scope {
                    Some(parent)
                } else {
                    None
                },
                None => None,
            },
            None => None,
        }
    }

    /// The variable that `scope` itself binds `name` to.
    pub open spec fn locate_own(self, scope: ScopeRef, name: Seq<char>) -> Option<VariableRef> {
        match self.scope(scope) {
            Some(frame) => frame.own_variable(name),
            None => None,
        }
    }

    /// The variable that `name` means in `scope`: its own, else that of the scopes around it.
    pub open spec fn locate_chain(self, scope: ScopeRef, name: Seq<char>) -> Option<VariableRef>
        decreases scope,
    {
        match self.locate_own(scope, name) {
            Some(variable) => Some(variable),
            None => match self.parent_of(scope) {
                Some(parent) => self.locate_chain(parent, name),
                None => None,
            },
        }
    }

    /// The outermost scope around `scope`.
    pub open spec fn chain_end(self, scope: ScopeRef) -> ScopeRef
        decreases scope,
    {
        match self.parent_of(scope) {
            Some(parent) => self.chain_end(parent),
            None => scope,
        }
    }

    /// The full name of `scope`: the names from the outermost scope down, joined by ` > `.
    pub open spec fn scope_path(self, scope: ScopeRef) -> Seq<char>
        decreases scope,
    {
        match self.scope(scope) {
            Some(frame) => match self.parent_of(scope) {
                Some(parent) => if self.scope_path(parent).len() == 0 {
                    frame.name
                } else {
                    self.scope_path(parent) + " > "@ + frame.name
                },
                None => frame.name,
            },
            None => Seq::empty(),
        }
    }

    /// What a lookup of `name` in `scope` alone answers.
    pub open spec fn located_own(self, scope: ScopeRef, name: Seq<char>) -> Result<VariableRef, Fault> {
        match self.locate_own(scope, name) {
            Some(variable) => Ok(variable),
            None => Err(Fault::UndefinedVariable { variable_name: name, scope_name: self.scope_path(scope) }),
        }
    }

    /// What a lookup of `name` along the chain of `scope` answers. A failure names
    /// the outermost scope, where the search ended.
    pub open spec fn located(self, scope: ScopeRef, name: Seq<char>) -> Result<VariableRef, Fault> {
        match self.locate_chain(scope, name) {
            Some(variable) => Ok(variable),
            None => Err(
                Fault::UndefinedVariable {
                    variable_name: name,
                    scope_name: self.scope_path(self.chain_end(scope)),
                },
            ),
        }
    }

    /// The store with `variable` taken in and bound to its name in `scope`.
    pub open spec fn added(self, scope: ScopeRef, variable: crate::variable::VariableModel) -> StoreModel {
        self.with_variable(variable).declared(scope, variable.name, self.variables.len() as usize)
    }

    /// The stable identity of the aggregate `target`.
    pub open spec fn identity(self, target: CustomTypeObject) -> Option<u128> {
        match target {
            CustomTypeObject::Object(handle) => match self.object(handle) {
                Some(object) => Some(object.id),
                None => None,
            },
            CustomTypeObject::Function(handle) => match self.function(handle) {
                Some(function) => Some(function.id),
                None => None,
            },
        }
    }

    /// The store with the aggregate `type_def` declared in `scope` under its identity,
    /// unless that identity is declared there already.
    pub open spec fn type_added(self, scope: ScopeRef, type_def: CustomTypeObject) -> StoreModel {
        match self.identity(type_def) {
            Some(id) => self.type_declared(scope, id, type_def),
            None => self,
        }
    }

    /// The store with a second copy of the aggregate `target`, and the copy's handle.
    pub open spec fn copied(self, target: CustomTypeObject) -> (StoreModel, CustomTypeObject) {
        match target {
            CustomTypeObject::Object(handle) => match self.object(handle) {
                Some(object) => (self.with_object(object), CustomTypeObject::Object(self.objects.len() as usize)),
                None => (self, target),
            },
            CustomTypeObject::Function(handle) => match self.function(handle) {
                Some(function) => (
                    self.with_function(function),
                    CustomTypeObject::Function(self.functions.len() as usize),
                ),
                None => (self, target),
            },
        }
    }

    /// Binding a variable into `scope`: where the scope has a variable of that name,
    /// that one is the answer; else the scope gets a copy of its own.
    pub open spec fn bind_variable(self, scope: ScopeRef, value: VariableRef) -> (StoreModel, VariableRef) {
        match (self.scope(scope), self.variable(value)) {
            (Some(frame), Some(variable)) => match frame.own_variable(variable.name) {
                Some(existing) => (self, existing),
                None => (self.added(scope, variable), self.variables.len() as usize),
            },
            _ => (self, value),
        }
    }

    /// Binding an aggregate into `scope`: where the scope declares that identity,
    /// the declared aggregate is the answer; else the scope gets a copy of its own.
    pub open spec fn bind_type(self, scope: ScopeRef, value: CustomTypeObject) -> (StoreModel, CustomTypeObject) {
        match (self.scope(scope), self.identity(value)) {
            (Some(frame), Some(id)) => match frame.declared_type(id) {
                Some(existing) => (self, existing),
                None => (self.copied(value).0.type_declared(scope, id, self.copied(value).1), self.copied(value).1),
            },
            _ => (self, value),
        }
    }
}

impl Store {
    /// A new, empty scope inside `parent`. Its handle is greater than that of every
    /// scope that the store has.
    pub fn new_scope(&mut self, name: String, parent: Option<ScopeRef>) -> (r: ScopeRef)
        ensures
            r == old(self)@.scopes.len(),
            final(self)@ == old(self)@.with_scope(ScopeModel::empty(name@, parent)),
    {
        self.own_scope(Scope::new(name, parent))
    }

    /// A scope named `subscope` inside `scope`.
    pub fn subscope(&mut self, scope: ScopeRef) -> (r: ScopeRef)
        ensures
            r == old(self)@.scopes.len(),
            final(self)@ == old(self)@.with_scope(ScopeModel::empty("subscope"@, Some(scope))),
    {
        self.new_scope("subscope".to_owned(), Some(scope))
    }

    /// The name of `scope`, without those of the scopes around it.
    pub fn name(&self, scope: ScopeRef) -> (r: String)
        ensures
            r@ == (match self@.scope(scope) {
                Some(frame) => frame.name,
                None => Seq::empty(),
            }),
    {
        match self.scope(scope) {
            Some(frame) => frame.name(),
            None => String::new(),
        }
    }

    /// The scope around `scope`, as far as a walk follows it.
    pub fn parent_of(&self, scope: ScopeRef) -> (r: Option<ScopeRef>)
        ensures
            r == self@.parent_of(scope),
    {
        match self.scope(scope) {
            Some(frame) => match frame.parent() {
                Some(parent) => if parent < scope {
                    Some(parent)
                } else {
                    None
                },
                None => None,
            },
            None => None,
        }
    }

    /// The full name of `scope`.
    pub fn scope_to_string(&self, scope: ScopeRef) -> (r: String)
        ensures
            r@ == self@.scope_path(scope),
        decreases scope,
    {
        match self.scope(scope) {
            Some(frame) => match self.parent_of(scope) {
                Some(parent) => {
                    let mut path = self.scope_to_string(parent);
                    if path.as_str().is_empty() {
                        return frame.name();
                    }
                    path.append(" > ");
                    path.append(frame.name().as_str());
                    path
                },
                None => frame.name(),
            },
            None => String::new(),
        }
    }

    /// The outermost scope around `scope`.
    pub fn chain_end(&self, scope: ScopeRef) -> (r: ScopeRef)
        ensures
            r == self@.chain_end(scope),
        decreases scope,
    {
        match self.parent_of(scope) {
            Some(parent) => self.chain_end(parent),
            None => scope,
        }
    }

    /// The variable that `scope` itself binds `variable_name` to.
    pub fn locate_own(&self, scope: ScopeRef, variable_name: &str) -> (r: Result<VariableRef, ScopeError>)
        ensures
            match r {
                Ok(variable) => self@.located_own(scope, variable_name@) == Ok::<VariableRef, Fault>(variable),
                Err(error) => self@.located_own(scope, variable_name@) == Err::<VariableRef, Fault>(error@),
            },
    {
        let found = match self.scope(scope) {
            Some(frame) => frame.own_variable(variable_name),
            None => None,
        };
        match found {
            Some(variable) => Ok(variable),
            None => Err(
                ScopeError::UndefinedVariable {
                    variable_name: variable_name.to_owned(),
                    scope_name: self.scope_to_string(scope),
                },
            ),
        }
    }

    /// The variable that `variable_name` means in `scope`, if the chain has one.
    pub fn find_in_chain(&self, scope: ScopeRef, variable_name: &str) -> (r: Option<VariableRef>)
        ensures
            r == self@.locate_chain(scope, variable_name@),
        decreases scope,
    {
        let own = match self.scope(scope) {
            Some(frame) => frame.own_variable(variable_name),
            None => None,
        };
        match own {
            Some(variable) => Some(variable),
            None => match self.parent_of(scope) {
                Some(parent) => self.find_in_chain(parent, variable_name),
                None => None,
            },
        }
    }

    /// The variable that `variable_name` means in `scope`: its own, else that of
    /// the scopes around it.
    pub fn locate_chain(&self, scope: ScopeRef, variable_name: &str) -> (r: Result<VariableRef, ScopeError>)
        ensures
            match r {
                Ok(variable) => self@.located(scope, variable_name@) == Ok::<VariableRef, Fault>(variable),
                Err(error) => self@.located(scope, variable_name@) == Err::<VariableRef, Fault>(error@),
            },
    {
        match self.find_in_chain(scope, variable_name) {
            Some(variable) => Ok(variable),
            None => Err(
                ScopeError::UndefinedVariable {
                    variable_name: variable_name.to_owned(),
                    scope_name: self.scope_to_string(self.chain_end(scope)),
                },
            ),
        }
    }

    /// The same as [`Store::locate_chain`].
    pub fn locate(&self, scope: ScopeRef, variable_name: &str) -> (r: Result<VariableRef, ScopeError>)
        ensures
            match r {
                Ok(variable) => self@.located(scope, variable_name@) == Ok::<VariableRef, Fault>(variable),
                Err(error) => self@.located(scope, variable_name@) == Err::<VariableRef, Fault>(error@),
            },
    {
        self.locate_chain(scope, variable_name)
    }

    /// Takes `variable` in and binds it to its name in `scope`; the last writer wins.
    pub fn add(&mut self, scope: ScopeRef, variable: Variable)
        ensures
            final(self)@ == old(self)@.added(scope, variable@),
    {
        let name = variable.name().to_owned();
        let handle = self.own_variable(variable);
        self.declare(scope, name, handle);
    }

    /// The stable identity of the aggregate `target`.
    pub fn identity(&self, target: CustomTypeObject) -> (r: Option<u128>)
        ensures
            r == self@.identity(target),
    {
        match target {
            CustomTypeObject::Object(handle) => match self.object(handle) {
                Some(object) => Some(object.id()),
                None => None,
            },
            CustomTypeObject::Function(handle) => match self.function(handle) {
                Some(function) => Some(function.id()),
                None => None,
            },
        }
    }

    /// Declares the aggregate `type_def` in `scope` under its identity, unless that
    /// identity is declared there already.
    pub fn add_type(&mut self, scope: ScopeRef, type_def: CustomTypeObject)
        ensures
            final(self)@ == old(self)@.type_added(scope, type_def),
    {
        match self.identity(type_def) {
            Some(id) => self.declare_type(scope, id, type_def),
            None => {},
        }
    }

    /// Takes a copy of the aggregate `target` in and returns the copy's handle.
    pub fn copy_aggregate(&mut self, target: CustomTypeObject) -> (r: CustomTypeObject)
        ensures
            (final(self)@, r) == old(self)@.copied(target),
    {
        match target {
            CustomTypeObject::Object(handle) => {
                let copy = match self.object(handle) {
                    Some(object) => Some(object.clone()),
                    None => None,
                };
                match copy {
                    Some(copy) => CustomTypeObject::Object(self.own_object(copy)),
                    None => target,
                }
            },
            CustomTypeObject::Function(handle) => {
                let copy = match self.function(handle) {
                    Some(function) => Some(function.clone()),
                    None => None,
                };
                match copy {
                    Some(copy) => CustomTypeObject::Function(self.own_function(copy)),
                    None => target,
                }
            },
        }
    }
}

impl BindableScope<VariableRef> for Store {
    /// Binds a variable into `scope`: the scope's own variable of that name where it
    /// has one, else a copy that the scope gets for itself.
    fn bind(&mut self, scope: ScopeRef, value: &VariableRef) -> (r: VariableRef)
        ensures
            (final(self)@, r) == old(self)@.bind_variable(scope, *value),
    {
        let value = *value;
        let existing = match self.scope(scope) {
            Some(frame) => match self.variable(value) {
                Some(variable) => match frame.own_variable(variable.name()) {
                    Some(existing) => Some(existing),
                    None => None,
                },
                None => Some(value),
            },
            None => Some(value),
        };
        match existing {
            Some(existing) => existing,
            None => {
                let copy = match self.variable(value) {
                    Some(variable) => variable.clone(),
                    None => {
                        return value;
                    },
                };
                let handle = self.variable_count();
                self.add(scope, copy);
                handle
            },
        }
    }
}

impl BindableScope<CustomTypeObject> for Store {
    /// Binds an aggregate into `scope`: the aggregate that the scope declares under
    /// that identity where it declares one, else a copy that the scope gets for itself.
    fn bind(&mut self, scope: ScopeRef, value: &CustomTypeObject) -> (r: CustomTypeObject)
        ensures
            (final(self)@, r) == old(self)@.bind_type(scope, *value),
    {
        let value = *value;
        let id = match self.identity(value) {
            Some(id) => id,
            None => {
                return value;
            },
        };
        let declared = match self.scope(scope) {
            Some(frame) => frame.declared_type(id),
            None => {
                return value;
            },
        };
        match declared {
            Some(existing) => existing,
            None => {
                let copy = self.copy_aggregate(value);
                self.declare_type(scope, id, copy);
                copy
            },
        }
    }
}

/// Binding the same variable twice gives the same handle, and the second binding
/// changes nothing.
pub proof fn lemma_bind_variable_twice(store: StoreModel, scope: ScopeRef, value: VariableRef)
    ensures
        ({
            let (once, first) = store.bind_variable(scope, value);
            once.bind_variable(scope, value) == (once, first)
        }),
{
    let (once, first) = store.bind_variable(scope, value);
    match (store.scope(scope), store.variable(value)) {
        (Some(frame), Some(variable)) => {
            match frame.own_variable(variable.name) {
                Some(existing) => {},
                None => {
                    assert(once.variable(value) == Some(variable));
                    assert(once.scopes[scope as int].own_variable(variable.name) == Some(first));
                },
            }
        },
        _ => {},
    }
}

/// Binding the same aggregate twice gives the same handle, and the second binding
/// changes nothing.
pub proof fn lemma_bind_type_twice(store: StoreModel, scope: ScopeRef, value: CustomTypeObject)
    ensures
        ({
            let (once, first) = store.bind_type(scope, value);
            once.bind_type(scope, value) == (once, first)
        }),
{
    let (once, first) = store.bind_type(scope, value);
    match (store.scope(scope), store.identity(value)) {
        (Some(frame), Some(id)) => {
            match frame.declared_type(id) {
                Some(existing) => {},
                None => {
                    assert(once.identity(value) == Some(id));
                    assert(once.scopes[scope as int].declared_type(id) == Some(first));
                },
            }
        },
        _ => {},
    }
}

/// The scope that a walk goes on to from a scope is an older scope. So no chain
/// of parents that a walk follows comes back to where it began, and every walk ends.
pub proof fn lemma_parents_come_first(store: StoreModel, scope: ScopeRef)
    ensures
        store.parent_of(scope) matches Some(parent) ==> parent < scope,
        store.chain_end(scope) <= scope,
    decreases scope,
{
    match store.parent_of(scope) {
        Some(parent) => {
            lemma_parents_come_first(store, parent);
        },
        None => {},
    }
}

} // verus!
