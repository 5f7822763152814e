use typeflow::custom_type::{CustomTypeObject, CustomTypeRef};
use typeflow::error::ScopeError;
use typeflow::location::Location;
use typeflow::name_map::NameMap;
use typeflow::object_type::ObjectType;
use typeflow::owner::Owner;
use typeflow::scope::Scope;
use typeflow::store::{Store, OBJECT, OBJECT_PROTOTYPE, STATIC_ROOT};
use typeflow::traits::{BindableScope, TracedChange};
use typeflow::change_trace::{TracedTypeChange, TracedTypeMuation};
use typeflow::types::Type;
use typeflow::variable::{Variable, VariableKind};

fn at(start: u32, end: u32) -> Location {
    Location { start, end, line: 0, column: 0 }
}

#[test]
fn owner_hands_back_what_it_takes_in() {
    let mut owner: Owner<u32> = Owner::new();
    assert_eq!(owner.len(), 0);
    assert_eq!(*owner.own(7), 7);
    *owner.own_mut(8) += 1;
    assert_eq!(owner.adopt(11), 2);
    assert_eq!(owner.len(), 3);
    assert_eq!(owner.get(0), Some(&7));
    assert_eq!(owner.get(1), Some(&9));
    assert_eq!(owner.get(2), Some(&11));
    assert_eq!(owner.get(3), None);
    *owner.get_mut(0) = 1;
    assert_eq!(owner.get(0), Some(&1));
}

#[test]
fn name_map_keeps_the_last_binding_of_a_name() {
    let mut map: NameMap<u8> = NameMap::new();
    assert!(map.get("a").is_none());
    map.insert("a".to_string(), 1);
    map.insert("b".to_string(), 2);
    map.insert("a".to_string(), 3);
    assert_eq!(map.get("a"), Some(&3));
    assert_eq!(map.get("b"), Some(&2));
    assert!(!map.contains_key("c"));
    assert_eq!(map.len(), 2);
    map.append("b".to_string(), 9);
    assert_eq!(map.get("b"), Some(&9));
    assert_eq!(map.len(), 3);
    assert_eq!(map.name_at(0), "a");
    assert_eq!(*map.value_at(0), 3);
}

#[test]
fn lookup_walks_the_chain_of_scopes() {
    let mut store = Store::with_base(0);
    let module = store.new_scope("ModuleScope".to_string(), Some(STATIC_ROOT));
    let block = store.subscope(module);
    store.add(module, Variable::new("x".to_string(), Type::Number, VariableKind::Let));
    store.add(block, Variable::new("y".to_string(), Type::String, VariableKind::Const));
    let x = store.locate(block, "x").unwrap();
    assert_eq!(store.variable(x).unwrap().name(), "x");
    assert_eq!(store.locate_chain(block, "x").unwrap(), x);
    assert_eq!(store.locate_own(module, "x").unwrap(), x);
    assert!(store.locate_own(block, "x").is_err());
    assert!(store.locate_own(module, "y").is_err());
    let object = store.locate(block, "Object").unwrap();
    assert!(store.variable(object).unwrap().current_type().same(&Type::Function(OBJECT)));
    assert_eq!(store.variable(store.locate(block, "y").unwrap()).unwrap().kind(), VariableKind::Const);
}

#[test]
fn failed_lookup_names_the_scope_where_the_search_ended() {
    let mut store = Store::with_base(0);
    let module = store.new_scope("ModuleScope".to_string(), Some(STATIC_ROOT));
    let block = store.subscope(module);
    assert_eq!(
        store.locate(block, "nope"),
        Err(ScopeError::UndefinedVariable { variable_name: "nope".to_string(), scope_name: "StaticRoot".to_string() })
    );
    assert_eq!(
        store.locate_own(block, "nope"),
        Err(ScopeError::UndefinedVariable {
            variable_name: "nope".to_string(),
            scope_name: "StaticRoot > ModuleScope > subscope".to_string(),
        })
    );
    assert_eq!(
        store.locate_own(99, "nope"),
        Err(ScopeError::UndefinedVariable { variable_name: "nope".to_string(), scope_name: "".to_string() })
    );
}

#[test]
fn scope_is_shown_with_the_scopes_around_it() {
    let mut store = Store::with_base(0);
    assert_eq!(store.scope_to_string(STATIC_ROOT), "StaticRoot");
    let module = store.new_scope("ModuleScope".to_string(), Some(STATIC_ROOT));
    assert_eq!(store.scope_to_string(module), "StaticRoot > ModuleScope");
    assert_eq!(store.name(module), "ModuleScope");
    store.set_name(module, "Renamed".to_string());
    assert_eq!(store.scope_to_string(module), "StaticRoot > Renamed");
    let orphan = store.new_scope("Orphan".to_string(), None);
    assert_eq!(store.scope_to_string(orphan), "Orphan");
    assert_eq!(store.parent_of(module), Some(STATIC_ROOT));
    assert_eq!(store.parent_of(orphan), None);
    assert_eq!(store.chain_end(module), STATIC_ROOT);
}

#[test]
fn a_parent_that_is_no_older_scope_is_not_followed() {
    let mut store = Store::with_base(0);
    let looped = store.new_scope("Looped".to_string(), Some(1));
    assert_eq!(looped, 1);
    assert_eq!(store.parent_of(looped), None);
    assert_eq!(store.scope_to_string(looped), "Looped");
    assert!(store.locate(looped, "Object").is_err());
}

#[test]
fn add_lets_the_last_writer_win() {
    let mut store = Store::with_base(0);
    let module = store.new_scope("ModuleScope".to_string(), Some(STATIC_ROOT));
    store.add(module, Variable::new("x".to_string(), Type::Number, VariableKind::Var));
    store.add(module, Variable::new("x".to_string(), Type::String, VariableKind::Var));
    let x = store.locate(module, "x").unwrap();
    assert!(store.variable(x).unwrap().current_type().same(&Type::String));
}

#[test]
fn add_type_keeps_the_first_aggregate_of_an_identity() {
    let mut store = Store::with_base(0);
    let module = store.new_scope("ModuleScope".to_string(), Some(STATIC_ROOT));
    let first = store.own_object(ObjectType::new(42, None, NameMap::new(), None));
    let second = store.own_object(ObjectType::new(42, Some("second".to_string()), NameMap::new(), None));
    store.add_type(module, CustomTypeObject::Object(first));
    store.add_type(module, CustomTypeObject::Object(second));
    assert_eq!(store.scope(module).unwrap().declared_type(42), Some(CustomTypeObject::Object(first)));
    assert_eq!(store.scope(module).unwrap().declared_type(43), None);
    assert_eq!(store.identity(CustomTypeObject::Object(second)), Some(42));
    assert_eq!(store.identity(CustomTypeObject::Function(OBJECT)), Some(3));
    assert_eq!(CustomTypeRef::Object(store.object(first).unwrap()).id(), 42);
    assert_eq!(CustomTypeRef::Function(store.function(OBJECT).unwrap()).id(), 3);
}

#[test]
fn binding_a_variable_twice_gives_the_same_copy() {
    let mut store = Store::with_base(0);
    let module = store.new_scope("ModuleScope".to_string(), Some(STATIC_ROOT));
    store.add(module, Variable::new("x".to_string(), Type::Number, VariableKind::Let));
    let outer = store.locate(module, "x").unwrap();
    let block = store.subscope(module);
    let before = store.variable_count();
    let first: usize = store.bind(block, &outer);
    assert!(first != outer);
    assert_eq!(store.variable_count(), before + 1);
    let second: usize = store.bind(block, &outer);
    assert_eq!(second, first);
    assert_eq!(store.variable_count(), before + 1);
    let third: usize = store.bind(block, &first);
    assert_eq!(third, first);
    let own: usize = store.bind(module, &outer);
    assert_eq!(own, outer);
    store.change_variable(first, Type::String, at(5, 6));
    assert!(store.variable(first).unwrap().effective_type(&at(9, 9)).same(&Type::String));
    assert!(store.variable(outer).unwrap().effective_type(&at(9, 9)).same(&Type::Number));
    assert_eq!(store.variable(first).unwrap().change_trace().len(), 1);
    assert_eq!(store.variable(outer).unwrap().change_trace().len(), 0);
}

#[test]
fn binding_an_aggregate_twice_gives_the_same_copy() {
    let mut store = Store::with_base(0);
    let module = store.new_scope("ModuleScope".to_string(), Some(STATIC_ROOT));
    let block = store.subscope(module);
    let prototype = CustomTypeObject::Object(OBJECT_PROTOTYPE);
    let first = store.bind(block, &prototype);
    assert!(first != prototype);
    let second = store.bind(block, &prototype);
    assert_eq!(second, first);
    assert_eq!(store.identity(first), store.identity(prototype));
    let function = CustomTypeObject::Function(OBJECT);
    let copy = store.bind(block, &function);
    assert_eq!(copy, CustomTypeObject::Function(2));
    assert_eq!(store.bind(block, &function), copy);
    let missing = CustomTypeObject::Object(99);
    assert_eq!(store.bind(block, &missing), missing);
    store.change_aggregate(first, TracedTypeMuation::Update("name".to_string()), Type::Number, at(3, 4));
    assert!(first.as_type().query_property("name", &at(5, 5), &store).unwrap().same(&Type::Number));
    assert!(prototype.as_type().query_property("name", &at(5, 5), &store).unwrap().same(&Type::String));
}

#[test]
fn scope_frame_declares_variables_and_types() {
    let mut frame = Scope::new("frame".to_string(), Some(3));
    assert_eq!(frame.name(), "frame");
    assert_eq!(frame.parent(), Some(3));
    frame.declare("v".to_string(), 5);
    frame.declare("v".to_string(), 6);
    assert_eq!(frame.own_variable("v"), Some(6));
    assert_eq!(frame.own_variable("w"), None);
    frame.declare_type(1, CustomTypeObject::Object(0));
    frame.declare_type(1, CustomTypeObject::Object(1));
    assert_eq!(frame.declared_type(1), Some(CustomTypeObject::Object(0)));
    frame.set_name("other".to_string());
    assert_eq!(frame.name(), "other");
    assert_eq!(frame.variables().len(), 1);
    assert_eq!(frame.type_declarations().len(), 1);
}

#[test]
fn variable_keeps_its_declared_type_and_traces_the_rest() {
    let mut variable = Variable::new("v".to_string(), Type::Null, VariableKind::Var);
    assert_eq!(variable.to_string(), "v");
    variable.change(TracedTypeChange, Type::Number, at(4, 8));
    assert!(variable.current_type().same(&Type::Null));
    assert_eq!(variable.change_trace().len(), 1);
    assert_eq!(variable.change_trace().entry(0).loc, at(4, 8));
    let copy = variable.clone();
    assert_eq!(copy.name(), "v");
    assert!(copy.effective_type(&at(4, 4)).same(&Type::Number));
}
