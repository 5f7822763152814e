use vstd::prelude::*;
use crate::change_trace::{Mutation, TracedTypeChange, TracedTypeMuation};
use crate::custom_type::CustomTypeObject;
use crate::location::Location;
use crate::function_type::{FunctionModel, FunctionType};
use crate::name_map::NameMap;
use crate::object_type::{ObjectModel, ObjectType};
use crate::owner::Owner;
use crate::scope::{Scope, ScopeModel, ScopeRef, VariableRef};
use crate::traits::TracedChange;
use crate::types::{lemma_property_models_insert, property_models, type_models, FunctionRef, ObjectRef, Ty, Type};
use crate::variable::{Variable, VariableKind, VariableModel};

verus! {

/// The prototype of plain objects.
pub const OBJECT_PROTOTYPE: ObjectRef = 0;

/// The prototype of arrays.
pub const ARRAY_PROTOTYPE: ObjectRef = 1;

/// The built-in function `String`.
pub const STRING_PROTOTYPE: FunctionRef = 0;

/// The built-in function `Object`.
pub const OBJECT: FunctionRef = 1;

/// The root scope, which declares the built-ins.
pub const STATIC_ROOT: ScopeRef = 0;

/// A fresh 128-bit identity.
///
/// Calls `uuid::Uuid::new_v4` and hands out the value as an integer, most significant
/// byte first (`Uuid::as_u128`). The value is random but for the version and variant
/// fields, which `new_v4` sets to 4 and to `10`.
#[verifier::external_body]
fn random_identity() -> (r: u128)
    ensures
        (r >> 76u128) & 0xFu128 == 4u128,
        (r >> 62u128) & 0x3u128 == 2u128,
{
    uuid::Uuid::new_v4().as_u128()
}

/// The identity that is issued after `id`.
pub open spec fn next_identity(id: u128) -> u128 {
    if id == u128::MAX {
        0
    } else {
        (id + 1) as u128
    }
}

/// The identity that is issued `count` identities after `id`.
pub open spec fn later_identity(id: u128, count: nat) -> u128
    decreases count,
{
    if count == 0 {
        id
    } else {
        later_identity(next_identity(id), (count - 1) as nat)
    }
}

/// Everything that one analysis run shares by handle: aggregates, variables and scopes.
///
/// A handle is the position of a value in its list. Values are never dropped, so
/// a handle that was handed out stays good.
#[derive(Debug)]
pub struct Store {
    objects: Owner<ObjectType>,
    functions: Owner<FunctionType>,
    variables: Owner<Variable>,
    scopes: Owner<Scope>,
    next_id: u128,
}

/// The mathematical value of a [`Store`].
pub struct StoreModel {
    pub objects: Seq<ObjectModel>,
    pub functions: Seq<FunctionModel>,
    pub variables: Seq<VariableModel>,
    pub scopes: Seq<ScopeModel>,
    pub next_id: u128,
}

impl StoreModel {
    pub open spec fn object(self, handle: ObjectRef) -> Option<ObjectModel> {
        if handle < self.objects.len() {
            Some(self.objects[handle as int])
        } else {
            None
        }
    }

    pub open spec fn function(self, handle: FunctionRef) -> Option<FunctionModel> {
        if handle < self.functions.len() {
            Some(self.functions[handle as int])
        } else {
            None
        }
    }

    pub open spec fn variable(self, handle: VariableRef) -> Option<VariableModel> {
        if handle < self.variables.len() {
            Some(self.variables[handle as int])
        } else {
            None
        }
    }

    pub open spec fn scope(self, handle: ScopeRef) -> Option<ScopeModel> {
        if handle < self.scopes.len() {
            Some(self.scopes[handle as int])
        } else {
            None
        }
    }

    /// The store once the next identity was issued.
    pub open spec fn issued(self) -> StoreModel {
        StoreModel { next_id: next_identity(self.next_id), ..self }
    }

    pub open spec fn with_object(self, object: ObjectModel) -> StoreModel {
        StoreModel { objects: self.objects.push(object), ..self }
    }

    pub open spec fn with_function(self, function: FunctionModel) -> StoreModel {
        StoreModel { functions: self.functions.push(function), ..self }
    }

    pub open spec fn with_variable(self, variable: VariableModel) -> StoreModel {
        StoreModel { variables: self.variables.push(variable), ..self }
    }

    pub open spec fn with_scope(self, scope: ScopeModel) -> StoreModel {
        StoreModel { scopes: self.scopes.push(scope), ..self }
    }

    pub open spec fn object_set(self, handle: ObjectRef, object: ObjectModel) -> StoreModel {
        StoreModel { objects: self.objects.update(handle as int, object), ..self }
    }

    pub open spec fn function_set(self, handle: FunctionRef, function: FunctionModel) -> StoreModel {
        StoreModel { functions: self.functions.update(handle as int, function), ..self }
    }

    pub open spec fn variable_set(self, handle: VariableRef, variable: VariableModel) -> StoreModel {
        StoreModel { variables: self.variables.update(handle as int, variable), ..self }
    }

    pub open spec fn scope_set(self, handle: ScopeRef, scope: ScopeModel) -> StoreModel {
        StoreModel { scopes: self.scopes.update(handle as int, scope), ..self }
    }

    /// The store with one more entry in the trace of the aggregate `target`.
    pub open spec fn aggregate_changed(
        self,
        target: CustomTypeObject,
        change: Mutation,
        new_type: Ty,
        location: Location,
    ) -> StoreModel {
        match target {
            CustomTypeObject::Object(handle) => if handle < self.objects.len() {
                self.object_set(handle, self.objects[handle as int].changed(change, new_type, location))
            } else {
                self
            },
            CustomTypeObject::Function(handle) => if handle < self.functions.len() {
                self.function_set(handle, self.functions[handle as int].changed(change, new_type, location))
            } else {
                self
            },
        }
    }

    /// The store once `name` was assigned to the aggregate `target`.
    pub open spec fn aggregate_named(self, target: CustomTypeObject, name: Seq<char>) -> StoreModel {
        match target {
            CustomTypeObject::Object(handle) => if handle < self.objects.len() {
                self.object_set(handle, self.objects[handle as int].named(name))
            } else {
                self
            },
            CustomTypeObject::Function(handle) => if handle < self.functions.len() {
                self.function_set(handle, self.functions[handle as int].named(name))
            } else {
                self
            },
        }
    }

    /// The store with one more call in the log of the function behind `handle`.
    pub open spec fn invoked(self, handle: FunctionRef, arguments: Seq<Ty>, location: Location) -> StoreModel {
        if handle < self.functions.len() {
            self.function_set(handle, self.functions[handle as int].invoked(arguments, location))
        } else {
            self
        }
    }

    /// The store with `property` bound in the static map of the function behind `handle`.
    pub open spec fn function_property_set(self, handle: FunctionRef, property: Seq<char>, value: Ty) -> StoreModel {
        if handle < self.functions.len() {
            self.function_set(handle, self.functions[handle as int].with_property(property, value))
        } else {
            self
        }
    }

    /// The store with one more reassignment in the trace of the variable behind `handle`.
    pub open spec fn variable_changed(self, handle: VariableRef, new_type: Ty, location: Location) -> StoreModel {
        if handle < self.variables.len() {
            self.variable_set(handle, self.variables[handle as int].changed(new_type, location))
        } else {
            self
        }
    }

    /// The store with `name` bound to `variable` in the scope behind `handle`.
    pub open spec fn declared(self, handle: ScopeRef, name: Seq<char>, variable: VariableRef) -> StoreModel {
        if handle < self.scopes.len() {
            self.scope_set(handle, self.scopes[handle as int].declared(name, variable))
        } else {
            self
        }
    }

    /// The store with `type_def` declared under `id` in the scope behind `handle`.
    pub open spec fn type_declared(self, handle: ScopeRef, id: u128, type_def: CustomTypeObject) -> StoreModel {
        if handle < self.scopes.len() {
            self.scope_set(handle, self.scopes[handle as int].with_type(id, type_def))
        } else {
            self
        }
    }

    /// The store with the scope behind `handle` renamed.
    pub open spec fn scope_renamed(self, handle: ScopeRef, name: Seq<char>) -> StoreModel {
        if handle < self.scopes.len() {
            self.scope_set(handle, self.scopes[handle as int].renamed(name))
        } else {
            self
        }
    }

    /// The store of a run that has not begun: the built-in prototypes and the root
    /// scope, which declares `Object`.
    pub open spec fn initial(base: u128) -> StoreModel {
        StoreModel {
            objects: seq![
                ObjectModel {
                    id: base,
                    name: Some("ObjectPrototype"@),
                    properties: Map::<Seq<char>, Ty>::empty().insert("name"@, Ty::String),
                    is_array: false,
                    prototype: None,
                    trace: Seq::empty(),
                },
                ObjectModel {
                    id: later_identity(base, 1),
                    name: Some("ArrayPrototype"@),
                    properties: Map::<Seq<char>, Ty>::empty().insert("length"@, Ty::Number),
                    is_array: true,
                    prototype: Some(CustomTypeObject::Object(OBJECT_PROTOTYPE)),
                    trace: Seq::empty(),
                },
            ],
            functions: seq![
                FunctionModel::fresh(later_identity(base, 2), Seq::empty()).named("String"@),
                FunctionModel::fresh(later_identity(base, 3), Seq::empty()).with_property(
                    "prototype"@,
                    Ty::Object(OBJECT_PROTOTYPE),
                ).named("Object"@),
            ],
            variables: seq![
                VariableModel {
                    name: "Object"@,
                    current_type: Ty::Function(OBJECT),
                    trace: Seq::empty(),
                    kind: VariableKind::Const,
                },
            ],
            scopes: seq![ScopeModel::empty("StaticRoot"@, None).declared("Object"@, 0)],
            next_id: later_identity(base, 4),
        }
    }

    /// Whether every handle of this store fits a machine word.
    pub open spec fn fits(self) -> bool {
        &&& self.objects.len() <= usize::MAX
        &&& self.functions.len() <= usize::MAX
        &&& self.variables.len() <= usize::MAX
        &&& self.scopes.len() <= usize::MAX
    }

    /// Whether this store holds at least as many values of each kind as `earlier`.
    pub open spec fn no_smaller_than(self, earlier: StoreModel) -> bool {
        &&& earlier.objects.len() <= self.objects.len()
        &&& earlier.functions.len() <= self.functions.len()
        &&& earlier.variables.len() <= self.variables.len()
        &&& earlier.scopes.len() <= self.scopes.len()
    }

    /// Whether this store holds all that `earlier` held, behind the same handles.
    pub open spec fn extends(self, earlier: StoreModel) -> bool {
        &&& earlier.objects.len() <= self.objects.len()
        &&& earlier.functions.len() <= self.functions.len()
        &&& earlier.variables.len() <= self.variables.len()
        &&& earlier.scopes.len() <= self.scopes.len()
        &&& forall|h: int| 0 <= h < earlier.objects.len() ==> #[trigger] self.objects[h] == earlier.objects[h]
        &&& forall|h: int| 0 <= h < earlier.functions.len() ==> #[trigger] self.functions[h] == earlier.functions[h]
        &&& forall|h: int| 0 <= h < earlier.variables.len() ==> #[trigger] self.variables[h] == earlier.variables[h]
        &&& forall|h: int| 0 <= h < earlier.scopes.len() ==> #[trigger] self.scopes[h] == earlier.scopes[h]
    }
}

impl View for Store {
    type V = StoreModel;

    closed spec fn view(&self) -> StoreModel {
        StoreModel {
            objects: self.objects.proteges().map_values(|object: ObjectType| object@),
            functions: self.functions.proteges().map_values(|function: FunctionType| function@),
            variables: self.variables.proteges().map_values(|variable: Variable| variable@),
            scopes: self.scopes.proteges().map_values(|scope: Scope| scope@),
            next_id: self.next_id,
        }
    }
}

impl Store {
    /// The store of a run that has not begun, with a random base for its identities.
    pub fn new() -> (r: Self)
        ensures
            exists|base: u128| r@ == StoreModel::initial(base),
    {
        Store::with_base(random_identity())
    }

    /// The store of a run that has not begun, with identities that start at `base`.
    pub fn with_base(base: u128) -> (r: Self)
        ensures
            r@ == StoreModel::initial(base),
    {
        let mut store = Store {
            objects: Owner::new(),
            functions: Owner::new(),
            variables: Owner::new(),
            scopes: Owner::new(),
            next_id: base,
        };
        proof {
            reveal_with_fuel(later_identity, 5);
        }
        let mut object_properties: NameMap<Type> = NameMap::new();
        let ghost none = object_properties;
        object_properties.insert("name".to_owned(), Type::String);
        proof {
            lemma_property_models_insert(none, object_properties, "name"@, Type::String);
            assert(property_models(none) =~= Map::empty());
        }
        let id = store.issue_id();
        store.own_object(ObjectType::new(id, Some("ObjectPrototype".to_owned()), object_properties, None));

        let mut array_properties: NameMap<Type> = NameMap::new();
        array_properties.insert("length".to_owned(), Type::Number);
        proof {
            lemma_property_models_insert(none, array_properties, "length"@, Type::Number);
        }
        let id = store.issue_id();
        store.own_object(
            ObjectType::new_array(
                id,
                Some("ArrayPrototype".to_owned()),
                array_properties,
                Some(CustomTypeObject::Object(OBJECT_PROTOTYPE)),
            ),
        );

        let id = store.issue_id();
        let mut string_function = FunctionType::new(id, Vec::new());
        string_function.assign_name("String".to_owned());
        store.own_function(string_function);

        let id = store.issue_id();
        let mut object_function = FunctionType::new(id, Vec::new());
        object_function.set_property("prototype".to_owned(), Type::Object(OBJECT_PROTOTYPE));
        object_function.assign_name("Object".to_owned());
        store.own_function(object_function);

        store.own_variable(Variable::new("Object".to_owned(), Type::Function(OBJECT), VariableKind::Const));
        let mut root = Scope::new("StaticRoot".to_owned(), None);
        root.declare("Object".to_owned(), 0);
        store.own_scope(root);
        proof {
            let target = StoreModel::initial(base);
            assert(crate::variable::variable_models(Seq::<Variable>::empty()) =~= Seq::empty());
            assert(store@.objects =~= target.objects);
            assert(store@.functions =~= target.functions);
            assert(store@.variables =~= target.variables);
            assert(store@.scopes =~= target.scopes);
        }
        store
    }

    /// Issues the next identity.
    pub fn issue_id(&mut self) -> (r: u128)
        ensures
            r == old(self)@.next_id,
            final(self)@ == old(self)@.issued(),
    {
        let id = self.next_id;
        self.next_id = if id == u128::MAX {
            0
        } else {
            id + 1
        };
        id
    }

    /// Takes an object aggregate in and returns its handle.
    pub fn own_object(&mut self, object: ObjectType) -> (r: ObjectRef)
        ensures
            r == old(self)@.objects.len(),
            final(self)@ == old(self)@.with_object(object@),
    {
        let handle = self.objects.adopt(object);
        assert(self@.objects =~= old(self)@.objects.push(object@));
        handle
    }

    /// Takes a function aggregate in and returns its handle.
    pub fn own_function(&mut self, function: FunctionType) -> (r: FunctionRef)
        ensures
            r == old(self)@.functions.len(),
            final(self)@ == old(self)@.with_function(function@),
    {
        let handle = self.functions.adopt(function);
        assert(self@.functions =~= old(self)@.functions.push(function@));
        handle
    }

    /// Takes a variable in and returns its handle.
    pub fn own_variable(&mut self, variable: Variable) -> (r: VariableRef)
        ensures
            r == old(self)@.variables.len(),
            final(self)@ == old(self)@.with_variable(variable@),
    {
        let handle = self.variables.adopt(variable);
        assert(self@.variables =~= old(self)@.variables.push(variable@));
        handle
    }

    /// Takes a scope in and returns its handle.
    pub fn own_scope(&mut self, scope: Scope) -> (r: ScopeRef)
        ensures
            r == old(self)@.scopes.len(),
            final(self)@ == old(self)@.with_scope(scope@),
    {
        let handle = self.scopes.adopt(scope);
        assert(self@.scopes =~= old(self)@.scopes.push(scope@));
        handle
    }

    /// The object aggregate behind `handle`.
    pub fn object(&self, handle: ObjectRef) -> (r: Option<&ObjectType>)
        ensures
            match r {
                Some(object) => self@.object(handle) == Some(object@),
                None => self@.object(handle) is None,
            },
    {
        self.objects.get(handle)
    }

    /// The function aggregate behind `handle`.
    pub fn function(&self, handle: FunctionRef) -> (r: Option<&FunctionType>)
        ensures
            match r {
                Some(function) => self@.function(handle) == Some(function@),
                None => self@.function(handle) is None,
            },
    {
        self.functions.get(handle)
    }

    /// The variable behind `handle`.
    pub fn variable(&self, handle: VariableRef) -> (r: Option<&Variable>)
        ensures
            match r {
                Some(variable) => self@.variable(handle) == Some(variable@),
                None => self@.variable(handle) is None,
            },
    {
        self.variables.get(handle)
    }

    /// The scope behind `handle`.
    pub fn scope(&self, handle: ScopeRef) -> (r: Option<&Scope>)
        ensures
            match r {
                Some(scope) => self@.scope(handle) == Some(scope@),
                None => self@.scope(handle) is None,
            },
    {
        self.scopes.get(handle)
    }

    /// Appends a change of shape to the trace of the aggregate `target`.
    /// A handle that is not of this store changes nothing.
    pub fn change_aggregate(
        &mut self,
        target: CustomTypeObject,
        change: TracedTypeMuation,
        new_type: Type,
        location: Location,
    )
        ensures
            final(self)@ == old(self)@.aggregate_changed(target, change@, new_type@, location),
    {
        match target {
            CustomTypeObject::Object(handle) => {
                if handle < self.objects.len() {
                    let slot = self.objects.get_mut(handle);
                    slot.change(change, new_type, location);
                    assert(self@.objects =~= old(self)@.objects.update(
                        handle as int,
                        old(self)@.objects[handle as int].changed(change@, new_type@, location),
                    ));
                }
            },
            CustomTypeObject::Function(handle) => {
                if handle < self.functions.len() {
                    let slot = self.functions.get_mut(handle);
                    slot.change(change, new_type, location);
                    assert(self@.functions =~= old(self)@.functions.update(
                        handle as int,
                        old(self)@.functions[handle as int].changed(change@, new_type@, location),
                    ));
                }
            },
        }
    }

    /// Names the aggregate `target`, unless it has a name already.
    /// A handle that is not of this store changes nothing.
    pub fn name_aggregate(&mut self, target: CustomTypeObject, name: String)
        ensures
            final(self)@ == old(self)@.aggregate_named(target, name@),
    {
        match target {
            CustomTypeObject::Object(handle) => {
                if handle < self.objects.len() {
                    let slot = self.objects.get_mut(handle);
                    slot.assign_name(name);
                    assert(self@.objects =~= old(self)@.objects.update(
                        handle as int,
                        old(self)@.objects[handle as int].named(name@),
                    ));
                }
            },
            CustomTypeObject::Function(handle) => {
                if handle < self.functions.len() {
                    let slot = self.functions.get_mut(handle);
                    slot.assign_name(name);
                    assert(self@.functions =~= old(self)@.functions.update(
                        handle as int,
                        old(self)@.functions[handle as int].named(name@),
                    ));
                }
            },
        }
    }

    /// Logs a call of the function behind `handle`.
    /// A handle that is not of this store changes nothing.
    pub fn trace_invocation(&mut self, handle: FunctionRef, arguments: Vec<Type>, location: Location)
        ensures
            final(self)@ == old(self)@.invoked(handle, type_models(arguments@), location),
    {
        if handle < self.functions.len() {
            let slot = self.functions.get_mut(handle);
            slot.trace_invocation(arguments, location);
            assert(self@.functions =~= old(self)@.functions.update(
                handle as int,
                old(self)@.functions[handle as int].invoked(type_models(arguments@), location),
            ));
        }
    }

    /// Binds `property` in the static map of the function behind `handle`.
    /// A handle that is not of this store changes nothing.
    pub fn set_function_property(&mut self, handle: FunctionRef, property: String, value: Type)
        ensures
            final(self)@ == old(self)@.function_property_set(handle, property@, value@),
    {
        if handle < self.functions.len() {
            let slot = self.functions.get_mut(handle);
            slot.set_property(property, value);
            assert(self@.functions =~= old(self)@.functions.update(
                handle as int,
                old(self)@.functions[handle as int].with_property(property@, value@),
            ));
        }
    }

    /// Appends a reassignment to the trace of the variable behind `handle`.
    /// A handle that is not of this store changes nothing.
    pub fn change_variable(&mut self, handle: VariableRef, new_type: Type, location: Location)
        ensures
            final(self)@ == old(self)@.variable_changed(handle, new_type@, location),
    {
        if handle < self.variables.len() {
            let slot = self.variables.get_mut(handle);
            slot.change(TracedTypeChange, new_type, location);
            assert(self@.variables =~= old(self)@.variables.update(
                handle as int,
                old(self)@.variables[handle as int].changed(new_type@, location),
            ));
        }
    }

    /// Binds `name` to `variable` in the scope behind `handle`.
    /// A handle that is not of this store changes nothing.
    pub fn declare(&mut self, handle: ScopeRef, name: String, variable: VariableRef)
        ensures
            final(self)@ == old(self)@.declared(handle, name@, variable),
    {
        if handle < self.scopes.len() {
            let slot = self.scopes.get_mut(handle);
            slot.declare(name, variable);
            assert(self@.scopes =~= old(self)@.scopes.update(
                handle as int,
                old(self)@.scopes[handle as int].declared(name@, variable),
            ));
        }
    }

    /// Declares `type_def` under `id` in the scope behind `handle`, unless `id` is taken.
    /// A handle that is not of this store changes nothing.
    pub fn declare_type(&mut self, handle: ScopeRef, id: u128, type_def: CustomTypeObject)
        ensures
            final(self)@ == old(self)@.type_declared(handle, id, type_def),
    {
        if handle < self.scopes.len() {
            let slot = self.scopes.get_mut(handle);
            slot.declare_type(id, type_def);
            assert(self@.scopes =~= old(self)@.scopes.update(
                handle as int,
                old(self)@.scopes[handle as int].with_type(id, type_def),
            ));
        }
    }

    /// Renames the scope behind `handle`.
    /// A handle that is not of this store changes nothing.
    pub fn set_name(&mut self, handle: ScopeRef, value: String)
        ensures
            final(self)@ == old(self)@.scope_renamed(handle, value@),
    {
        if handle < self.scopes.len() {
            let slot = self.scopes.get_mut(handle);
            slot.set_name(value);
            assert(self@.scopes =~= old(self)@.scopes.update(
                handle as int,
                old(self)@.scopes[handle as int].renamed(value@),
            ));
        }
    }

    /// How many object aggregates there are.
    pub fn object_count(&self) -> (r: usize)
        ensures
            r == self@.objects.len(),
    {
        self.objects.len()
    }

    /// How many function aggregates there are.
    pub fn function_count(&self) -> (r: usize)
        ensures
            r == self@.functions.len(),
    {
        self.functions.len()
    }

    /// How many variables there are.
    pub fn variable_count(&self) -> (r: usize)
        ensures
            r == self@.variables.len(),
    {
        self.variables.len()
    }

    /// How many scopes there are.
    pub fn scope_count(&self) -> (r: usize)
        ensures
            r == self@.scopes.len(),
    {
        self.scopes.len()
    }
}

} // verus!
