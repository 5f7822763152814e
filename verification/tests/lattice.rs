use typeflow::change_trace::{ChangeTrace, TracedTypeChange, TracedTypeMuation};
use typeflow::location::Location;
use typeflow::name_map::NameMap;
use typeflow::object_type::ObjectType;
use typeflow::store::{Store, ARRAY_PROTOTYPE, OBJECT, OBJECT_PROTOTYPE, STATIC_ROOT, STRING_PROTOTYPE};
use typeflow::traits::TracedChange;
use typeflow::types::Type;
use typeflow::variable::{Variable, VariableKind};

fn at(start: u32, end: u32) -> Location {
    Location { start, end, line: 0, column: 0 }
}

#[test]
fn collapse_after_points_one_past_the_end() {
    let collapsed = at(3, 9).collapse(true);
    assert_eq!(collapsed, at(10, 10));
}

#[test]
fn collapse_before_points_at_the_start() {
    let collapsed = at(3, 9).collapse(false);
    assert_eq!(collapsed, at(3, 3));
}

#[test]
fn unwrap_gives_the_element_type_of_a_container() {
    let container = Type::Composed { outer: ARRAY_PROTOTYPE, inner: Box::new(Type::Number) };
    assert!(container.unwrap().same(&Type::Number));
    assert!(Type::String.unwrap().same(&Type::String));
    assert!(Type::Object(7).unwrap().same(&Type::Object(7)));
}

#[test]
fn types_are_equal_by_structure_and_aggregates_by_handle() {
    assert!(Type::Object(1).same(&Type::Object(1)));
    assert!(!Type::Object(1).same(&Type::Object(2)));
    assert!(!Type::Object(1).same(&Type::Function(1)));
    let left = Type::Mixed(vec![Type::Number, Type::String]);
    let right = Type::Mixed(vec![Type::Number, Type::String]);
    let other = Type::Mixed(vec![Type::String, Type::Number]);
    assert!(left.same(&right));
    assert!(!left.same(&other));
    assert!(left.clone().same(&left));
}

#[test]
fn query_property_prefers_the_last_change_in_force() {
    let mut properties = NameMap::new();
    properties.insert("p".to_string(), Type::Number);
    let mut object = ObjectType::new(1, None, properties, None);
    object.change(TracedTypeMuation::Update("p".to_string()), Type::String, at(10, 10));
    object.change(TracedTypeMuation::Remove("p".to_string()), Type::Undefined, at(20, 20));
    object.change(TracedTypeMuation::Add("q".to_string()), Type::Boolean, at(30, 30));
    assert!(object.query_property("p", &at(0, 5)).unwrap().same(&Type::Number));
    assert!(object.query_property("p", &at(0, 10)).unwrap().same(&Type::String));
    assert!(object.query_property("p", &at(12, 15)).unwrap().same(&Type::String));
    assert!(object.query_property("p", &at(25, 26)).is_none());
    assert!(object.query_property("q", &at(25, 26)).is_none());
    assert!(object.query_property("q", &at(31, 32)).unwrap().same(&Type::Boolean));
    assert!(object.query_property("r", &at(31, 32)).is_none());
}

#[test]
fn effective_type_is_the_last_reassignment_at_or_before_the_offset() {
    let mut variable = Variable::new("v".to_string(), Type::Number, VariableKind::Let);
    variable.change(TracedTypeChange, Type::String, at(10, 15));
    variable.change(TracedTypeChange, Type::Boolean, at(20, 25));
    assert!(variable.effective_type(&at(9, 9)).same(&Type::Number));
    assert!(variable.effective_type(&at(10, 10)).same(&Type::String));
    assert!(variable.effective_type(&at(19, 30)).same(&Type::String));
    assert!(variable.effective_type(&at(20, 20)).same(&Type::Boolean));
    assert!(variable.current_type().same(&Type::Number));
}

#[test]
fn find_returns_the_most_recent_match() {
    let mut trace: ChangeTrace<TracedTypeChange> = ChangeTrace::new();
    trace.change(TracedTypeChange, Type::Number, at(1, 2));
    trace.change(TracedTypeChange, Type::String, at(3, 4));
    trace.change(TracedTypeChange, Type::Boolean, at(5, 6));
    let found = trace.find(|entry| entry.loc.start < 5).unwrap();
    assert_eq!(found.loc, at(3, 4));
    assert!(trace.find(|entry| entry.loc.start > 9).is_none());
}

#[test]
fn assign_name_keeps_the_first_name() {
    let mut store = Store::with_base(100);
    let id = store.issue_id();
    let handle = store.own_object(ObjectType::new(id, None, NameMap::new(), None));
    let t = Type::Object(handle);
    assert_eq!(t.to_string(&store), "ObjectLiteral");
    t.assign_name("first", &mut store);
    assert_eq!(t.to_string(&store), "first");
    t.assign_name("second", &mut store);
    assert_eq!(t.to_string(&store), "first");
    t.assign_name("first", &mut store);
    assert_eq!(t.to_string(&store), "first");
    Type::Number.assign_name("n", &mut store);
    assert_eq!(Type::Number.to_string(&store), "Number");
}

#[test]
fn the_store_begins_with_the_built_in_prototypes() {
    let store = Store::with_base(7);
    assert_eq!(store.object_count(), 2);
    assert_eq!(store.function_count(), 2);
    assert_eq!(store.object(OBJECT_PROTOTYPE).unwrap().name(), "ObjectPrototype");
    assert_eq!(store.object(OBJECT_PROTOTYPE).unwrap().id(), 7);
    assert!(store.object(OBJECT_PROTOTYPE).unwrap().prototype().is_none());
    assert_eq!(store.object(ARRAY_PROTOTYPE).unwrap().name(), "ArrayPrototype");
    assert!(store.object(ARRAY_PROTOTYPE).unwrap().is_array());
    assert_eq!(store.function(STRING_PROTOTYPE).unwrap().name(), "String");
    assert_eq!(store.function(OBJECT).unwrap().name(), "Object");
    assert_eq!(store.function(OBJECT).unwrap().id(), 10);
    let object = store.locate(STATIC_ROOT, "Object").unwrap();
    assert!(store.variable(object).unwrap().current_type().same(&Type::Function(OBJECT)));
    let of_object = Type::Function(OBJECT).properties(&store).unwrap();
    assert!(of_object.get("prototype").unwrap().same(&Type::Object(OBJECT_PROTOTYPE)));
    let of_number = Type::Number.properties(&store).unwrap();
    assert!(of_number.get("name").unwrap().same(&Type::String));
    let of_array = Type::Object(ARRAY_PROTOTYPE).properties(&store).unwrap();
    assert!(of_array.get("length").unwrap().same(&Type::Number));
    assert!(Type::Object(ARRAY_PROTOTYPE).has_property("length", &store));
    assert!(!Type::Object(ARRAY_PROTOTYPE).has_property("name", &store));
}

#[test]
fn a_fresh_store_draws_a_version_four_identity() {
    let mut store = Store::new();
    let id = store.issue_id();
    let base = id.wrapping_sub(4);
    assert_eq!((base >> 76) & 0xF, 4);
    assert_eq!((base >> 62) & 0x3, 2);
    assert_eq!(store.object(OBJECT_PROTOTYPE).unwrap().id(), base);
}

#[test]
fn types_are_shown_by_their_canonical_names() {
    let store = Store::with_base(0);
    assert_eq!(Type::Number.to_string(&store), "Number");
    assert_eq!(Type::String.to_string(&store), "String");
    assert_eq!(Type::Boolean.to_string(&store), "Boolean");
    assert_eq!(Type::RegExp.to_string(&store), "RegExp");
    assert_eq!(Type::Undefined.to_string(&store), "Undefined");
    assert_eq!(Type::Null.to_string(&store), "Null");
    assert_eq!(Type::Function(77).to_string(&store), "AnonymousFunction");
    assert_eq!(Type::Mixed(vec![]).to_string(&store), "");
    assert_eq!(Type::Mixed(vec![Type::Number]).to_string(&store), "Number");
    assert_eq!(
        Type::Mixed(vec![Type::Number, Type::String, Type::Null]).to_string(&store),
        "Number | String | Null"
    );
    assert_eq!(
        Type::Composed { outer: ARRAY_PROTOTYPE, inner: Box::new(Type::Mixed(vec![Type::Number])) }.to_string(&store),
        "ArrayPrototype<Number>"
    );
}

#[test]
fn copies_of_an_aggregate_type_share_the_aggregate() {
    let mut store = Store::with_base(0);
    let id = store.issue_id();
    let handle = store.own_object(ObjectType::new(id, None, NameMap::new(), None));
    let first = Type::Object(handle);
    let second = first.clone();
    assert!(second == first);
    assert!(matches!(second, Type::Object(copy) if copy == handle));
    first.assign_name("shared", &mut store);
    assert_eq!(second.to_string(&store), "shared");
    let aggregate = typeflow::custom_type::CustomTypeObject::of_type(&second).unwrap();
    store.change_aggregate(aggregate, TracedTypeMuation::Add("p".to_string()), Type::Number, at(4, 4));
    assert!(first.query_property("p", &at(5, 6), &store).unwrap() == Type::Number);
    let function = Type::Function(OBJECT);
    assert!(function.clone() == function);
    assert!(function.clone() != Type::Function(STRING_PROTOTYPE));
    let nested = Type::Composed { outer: handle, inner: Box::new(Type::Mixed(vec![first.clone(), function.clone()])) };
    assert!(nested.clone() == nested);
    assert_eq!(nested.to_string(&store), "shared<shared | Object>");
}
