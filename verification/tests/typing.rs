use typeflow::analysis::{analyze_ast, analyze_declaration, declare_variable};
use typeflow::ast::{
    Class, Declarator, Expression, ExpressionNode, FunctionBody, Literal, NameNode, OperatorKind, Property,
    PropertyKey, Statement,
};
use typeflow::custom_type::CustomTypeObject;
use typeflow::error::{AccessError, AnalysisError, ScopeError, TypeError};
use typeflow::expressions::{
    determine_expression_type, determine_member_type, fresh_function, identifier_type, member_type, type_from_properties,
    type_list,
};
use typeflow::location::Location;
use typeflow::scope::ScopeRef;
use typeflow::store::{Store, ARRAY_PROTOTYPE, OBJECT, OBJECT_PROTOTYPE, STATIC_ROOT};
use typeflow::tracing::{trace_expression, tracing_pass};
use typeflow::types::Type;
use typeflow::variable::{Variable, VariableKind};

fn at(start: u32, end: u32) -> Location {
    Location { start, end, line: 0, column: 0 }
}

fn node(item: Expression) -> ExpressionNode {
    ExpressionNode { start: 10, end: 20, item }
}

fn identifier(name: &str) -> ExpressionNode {
    node(Expression::Identifier(name.to_string()))
}

fn number() -> ExpressionNode {
    node(Expression::Literal(Literal::Number("1".to_string())))
}

fn string() -> ExpressionNode {
    node(Expression::Literal(Literal::String("\"s\"".to_string())))
}

fn member(object: ExpressionNode, name: &str) -> ExpressionNode {
    node(Expression::Member {
        object: Box::new(object),
        property: NameNode { start: 12, end: 14, name: name.to_string() },
    })
}

fn literal_property(key: &str, value: ExpressionNode) -> Property {
    Property::Literal { key: PropertyKey::Literal(key.to_string()), value }
}

fn module() -> (Store, ScopeRef) {
    let mut store = Store::with_base(0);
    let module = store.new_scope("ModuleScope".to_string(), Some(STATIC_ROOT));
    store.add(module, Variable::new("n".to_string(), Type::Number, VariableKind::Let));
    store.add(module, Variable::new("s".to_string(), Type::String, VariableKind::Let));
    (store, module)
}

fn type_of(expression: Expression, store: &mut Store, scope: ScopeRef) -> Result<Type, AnalysisError> {
    determine_expression_type(&expression, scope, store)
}

#[test]
fn literals_have_the_type_of_their_value() {
    let (mut store, scope) = module();
    let cases = vec![
        (Literal::Number("1".to_string()), Type::Number),
        (Literal::Binary("0b1".to_string()), Type::Number),
        (Literal::String("\"a\"".to_string()), Type::String),
        (Literal::True, Type::Boolean),
        (Literal::False, Type::Boolean),
        (Literal::RegEx("/a/".to_string()), Type::RegExp),
        (Literal::Null, Type::Null),
        (Literal::Undefined, Type::Undefined),
    ];
    for (literal, expected) in cases {
        assert!(literal.to_type().same(&expected));
        assert!(type_of(Expression::Literal(literal), &mut store, scope).unwrap().same(&expected));
    }
}

#[test]
fn simple_expressions_have_fixed_types() {
    let (mut store, scope) = module();
    assert!(type_of(Expression::Void, &mut store, scope).unwrap().same(&Type::Undefined));
    assert!(type_of(Expression::This, &mut store, scope).unwrap().same(&Type::Undefined));
    assert!(type_of(Expression::Template, &mut store, scope).unwrap().same(&Type::String));
    let sum = Expression::Binary { operator: OperatorKind::Addition, left: Box::new(number()), right: Box::new(string()) };
    assert!(type_of(sum, &mut store, scope).unwrap().same(&Type::Undefined));
    assert!(type_of(Expression::Sequence(vec![number(), string()]), &mut store, scope).unwrap().same(&Type::String));
    assert!(type_of(Expression::Sequence(vec![]), &mut store, scope).unwrap().same(&Type::Undefined));
    let prefix = Expression::Prefix { operator: OperatorKind::LogicalNot, operand: Box::new(number()) };
    assert!(type_of(prefix, &mut store, scope).unwrap().same(&Type::Number));
    let postfix = Expression::Postfix { operator: OperatorKind::Increment, operand: Box::new(string()) };
    assert!(type_of(postfix, &mut store, scope).unwrap().same(&Type::String));
    let tagged = Expression::TaggedTemplate { tag: Box::new(identifier("n")), quasi: Box::new(node(Expression::Template)) };
    assert!(type_of(tagged, &mut store, scope).unwrap().same(&Type::Number));
    assert_eq!(store.object_count(), 2);
    assert_eq!(store.function_count(), 2);
}

#[test]
fn identifier_has_the_declared_type_of_its_variable() {
    let (mut store, scope) = module();
    assert!(type_of(Expression::Identifier("n".to_string()), &mut store, scope).unwrap().same(&Type::Number));
    assert!(identifier_type(&store, scope, "Object").unwrap().same(&Type::Function(OBJECT)));
    assert_eq!(
        type_of(Expression::Identifier("nope".to_string()), &mut store, scope),
        Err(AnalysisError::Scope(ScopeError::UndefinedVariable {
            variable_name: "nope".to_string(),
            scope_name: "StaticRoot".to_string(),
        }))
    );
}

#[test]
fn array_literal_is_an_array_of_its_element_types() {
    let (mut store, scope) = module();
    let array = Expression::Array(vec![number(), string(), node(Expression::Void)]);
    let found = type_of(array, &mut store, scope).unwrap();
    let expected = Type::Composed {
        outer: ARRAY_PROTOTYPE,
        inner: Box::new(Type::Mixed(vec![Type::Number, Type::String, Type::Undefined])),
    };
    assert!(found.same(&expected));
    assert_eq!(found.to_string(&store), "ArrayPrototype<Number | String | Undefined>");
    let failing = Expression::Array(vec![number(), identifier("nope"), identifier("also")]);
    assert!(matches!(
        type_of(failing, &mut store, scope),
        Err(AnalysisError::Scope(ScopeError::UndefinedVariable { variable_name, .. })) if variable_name == "nope"
    ));
    let types = type_list(&vec![string(), number()], scope, &mut store).unwrap();
    assert!(types[0].same(&Type::String) && types[1].same(&Type::Number));
}

#[test]
fn spread_gives_the_elements_of_an_array_and_anything_else_as_it_is() {
    let (mut store, scope) = module();
    let of_array = Expression::Spread { argument: Box::new(node(Expression::Array(vec![number()]))) };
    assert!(type_of(of_array, &mut store, scope).unwrap().same(&Type::Mixed(vec![Type::Number])));
    let of_number = Expression::Spread { argument: Box::new(number()) };
    assert!(type_of(of_number, &mut store, scope).unwrap().same(&Type::Number));
    let container = Type::Composed { outer: OBJECT_PROTOTYPE, inner: Box::new(Type::String) };
    store.add(scope, Variable::new("c".to_string(), container.clone(), VariableKind::Let));
    let of_container = Expression::Spread { argument: Box::new(identifier("c")) };
    assert!(type_of(of_container, &mut store, scope).unwrap().same(&container));
}

#[test]
fn conditional_joins_branches_that_disagree() {
    let (mut store, scope) = module();
    let same = Expression::Conditional {
        test: Box::new(identifier("nope")),
        consequent: Box::new(number()),
        alternate: Box::new(identifier("n")),
    };
    assert!(type_of(same, &mut store, scope).unwrap().same(&Type::Number));
    let mixed = Expression::Conditional {
        test: Box::new(number()),
        consequent: Box::new(number()),
        alternate: Box::new(string()),
    };
    assert!(type_of(mixed, &mut store, scope).unwrap().same(&Type::Mixed(vec![Type::String, Type::Number])));
}

#[test]
fn object_literal_is_a_fresh_object_with_the_members_as_properties() {
    let (mut store, scope) = module();
    let properties = vec![
        literal_property("a", number()),
        Property::Shorthand("s".to_string()),
        Property::Method { key: PropertyKey::Literal("m".to_string()), params: vec![], body: vec![] },
        Property::Literal { key: PropertyKey::Computed(identifier("n")), value: string() },
        literal_property("a", string()),
    ];
    let found = type_from_properties(&properties, scope, &mut store).unwrap();
    assert!(found.same(&Type::Object(2)));
    assert_eq!(found.to_string(&store), "ObjectLiteral");
    let object = store.object(2).unwrap();
    assert_eq!(object.prototype(), Some(CustomTypeObject::Object(OBJECT_PROTOTYPE)));
    assert!(!object.is_array());
    assert_eq!(object.id(), 5);
    assert_eq!(object.properties().len(), 4);
    assert!(object.properties().get("a").unwrap().same(&Type::String));
    assert!(object.properties().get("s").unwrap().same(&Type::String));
    assert!(object.properties().get("m").unwrap().same(&Type::Function(2)));
    assert!(object.properties().get("n").unwrap().same(&Type::String));
    assert_eq!(store.function(2).unwrap().id(), 4);
    assert_eq!(store.function(2).unwrap().name(), "AnonymousFunction");
    let again = type_of(Expression::Object(vec![]), &mut store, scope).unwrap();
    assert!(again.same(&Type::Object(3)));
    assert!(!again.same(&found));
}

#[test]
fn proto_member_sets_the_prototype_and_is_no_property() {
    let (mut store, scope) = module();
    let cases = vec![
        (identifier("Object"), Some(CustomTypeObject::Function(OBJECT))),
        (node(Expression::Object(vec![])), Some(CustomTypeObject::Object(3))),
        (node(Expression::Void), None),
        (number(), Some(CustomTypeObject::Object(OBJECT_PROTOTYPE))),
    ];
    for (value, expected) in cases {
        let before = store.object_count();
        let properties = vec![literal_property("__proto__", value), literal_property("k", number())];
        let found = type_from_properties(&properties, scope, &mut store).unwrap();
        let handle = match found {
            Type::Object(handle) => handle,
            _ => unreachable!(),
        };
        assert!(handle >= before);
        let object = store.object(handle).unwrap();
        assert_eq!(object.prototype(), expected);
        assert!(object.properties().get("__proto__").is_none());
        assert!(object.properties().get("k").is_some());
    }
    let failing = vec![literal_property("k", identifier("nope")), literal_property("l", number())];
    assert!(type_from_properties(&failing, scope, &mut store).is_err());
    assert!(type_from_properties(&vec![Property::Shorthand("nope".to_string())], scope, &mut store).is_err());
}

#[test]
fn functions_are_fresh_aggregates_without_parameters() {
    let (mut store, scope) = module();
    let arrow = Expression::Arrow { params: vec!["a".to_string()], body: FunctionBody::Block(vec![]) };
    assert!(type_of(arrow, &mut store, scope).unwrap().same(&Type::Function(2)));
    let function = Expression::Function { name: Some("f".to_string()), params: vec![], body: vec![] };
    assert!(type_of(function, &mut store, scope).unwrap().same(&Type::Function(3)));
    assert!(fresh_function(&mut store).same(&Type::Function(4)));
    assert!(store.function(3).unwrap().arguments().is_empty());
    assert!(store.function(3).unwrap().invocations().is_empty());
    assert!(store.function(3).unwrap().properties().get("prototype").is_none());
    assert!(!store.function(3).unwrap().is_array());
    assert!(store.function(3).unwrap().return_type(&vec![Type::Number]).same(&Type::Undefined));
}

#[test]
fn member_is_looked_up_at_its_place() {
    let (mut store, scope) = module();
    let object = type_from_properties(&vec![literal_property("p", number())], scope, &mut store).unwrap();
    store.add(scope, Variable::new("o".to_string(), object.clone(), VariableKind::Const));
    assert!(type_of(member(identifier("o"), "p").item, &mut store, scope).unwrap().same(&Type::Number));
    assert_eq!(
        type_of(member(identifier("o"), "q").item, &mut store, scope),
        Err(AnalysisError::Access(AccessError::UndefinedProperty {
            object: "ObjectLiteral".to_string(),
            property: "q".to_string(),
        }))
    );
    assert_eq!(
        type_of(member(identifier("n"), "name").item, &mut store, scope),
        Err(AnalysisError::Access(AccessError::UndefinedProperty {
            object: "Number".to_string(),
            property: "name".to_string(),
        }))
    );
    assert!(type_of(member(identifier("Object"), "prototype").item, &mut store, scope)
        .unwrap()
        .same(&Type::Object(OBJECT_PROTOTYPE)));
    let computed = Expression::ComputedMember { object: Box::new(identifier("o")), property: Box::new(identifier("p")) };
    assert!(type_of(computed, &mut store, scope).unwrap().same(&Type::Number));
    assert!(determine_member_type(&identifier("o").item, "p", &at(0, 1), scope, &mut store).unwrap().same(&Type::Number));
    assert!(member_type(&store, &object, "p", &at(0, 1)).unwrap().same(&Type::Number));
    assert!(member_type(&store, &Type::Mixed(vec![]), "p", &at(0, 1)).is_err());
    assert!(type_of(member(identifier("nope"), "p").item, &mut store, scope).is_err());
}

#[test]
fn call_of_a_function_is_undefined_and_of_anything_else_an_error() {
    let (mut store, scope) = module();
    let call = Expression::Call { callee: Box::new(identifier("Object")), arguments: vec![number()] };
    assert!(type_of(call, &mut store, scope).unwrap().same(&Type::Undefined));
    let bad = Expression::Call { callee: Box::new(identifier("n")), arguments: vec![] };
    assert_eq!(
        type_of(bad, &mut store, scope),
        Err(AnalysisError::Type(TypeError::NotFunction { subject: "n".to_string() }))
    );
    let bad_argument = Expression::Call { callee: Box::new(identifier("Object")), arguments: vec![identifier("nope")] };
    assert!(matches!(type_of(bad_argument, &mut store, scope), Err(AnalysisError::Scope(_))));
}

#[test]
fn class_is_a_constructor_with_a_prototype() {
    let (mut store, scope) = module();
    let class = Expression::Class(Class {
        name: Some("Point".to_string()),
        extends: Some(Box::new(identifier("Object"))),
        members: vec![],
    });
    let found = type_of(class, &mut store, scope).unwrap();
    assert!(found.same(&Type::Function(2)));
    assert_eq!(found.to_string(&store), "Point");
    let constructor = store.function(2).unwrap();
    assert!(constructor.properties().get("prototype").unwrap().same(&Type::Object(2)));
    let prototype = store.object(2).unwrap();
    assert_eq!(prototype.name(), "PointPrototype");
    assert_eq!(prototype.to_string(), "PointPrototype");
    assert_eq!(prototype.prototype(), Some(CustomTypeObject::Function(OBJECT)));
    assert!(prototype.properties().get("constructor").unwrap().same(&Type::Function(2)));
    let anonymous = Expression::Class(Class { name: None, extends: None, members: vec![] });
    let found = type_of(anonymous, &mut store, scope).unwrap();
    assert_eq!(found.to_string(&store), "AnonymousFunction");
    assert_eq!(store.object(3).unwrap().name(), "ObjectLiteral");
    assert_eq!(store.object(3).unwrap().prototype(), None);
    let bad = Expression::Class(Class { name: None, extends: Some(Box::new(identifier("n"))), members: vec![] });
    assert_eq!(
        type_of(bad, &mut store, scope),
        Err(AnalysisError::Type(TypeError::IncompatiblePrototype { prototype: "Number".to_string() }))
    );
}

#[test]
fn declarations_make_the_module_scope() {
    let mut store = Store::with_base(0);
    let ast = vec![
        Statement::Declaration {
            kind: VariableKind::Const,
            declarators: vec![
                Declarator { name: "o".to_string(), init: Some(node(Expression::Object(vec![]))) },
                Declarator { name: "u".to_string(), init: None },
                Declarator { name: "bad".to_string(), init: Some(identifier("nope")) },
            ],
        },
        Statement::Expression(number()),
        Statement::Declaration {
            kind: VariableKind::Var,
            declarators: vec![Declarator { name: "p".to_string(), init: Some(identifier("o")) }],
        },
    ];
    let (module, errors) = analyze_ast(&ast, STATIC_ROOT, &mut store);
    assert_eq!(errors.len(), 1);
    assert!(matches!(&errors[0], AnalysisError::Scope(_)));
    assert_eq!(store.scope_to_string(module), "StaticRoot > ModuleScope");
    let o = store.variable(store.locate_own(module, "o").unwrap()).unwrap();
    assert!(o.current_type().same(&Type::Object(2)));
    assert_eq!(o.kind(), VariableKind::Const);
    assert_eq!(store.object(2).unwrap().name(), "o");
    let u = store.variable(store.locate_own(module, "u").unwrap()).unwrap();
    assert!(u.current_type().same(&Type::Undefined));
    let p = store.variable(store.locate_own(module, "p").unwrap()).unwrap();
    assert!(p.current_type().same(&Type::Object(2)));
    assert_eq!(p.kind(), VariableKind::Var);
    assert_eq!(store.object(2).unwrap().name(), "o");
    assert!(store.locate_own(module, "bad").is_err());
    let id = store.object(2).unwrap().id();
    assert_eq!(store.scope(module).unwrap().declared_type(id), Some(CustomTypeObject::Object(2)));
    assert_eq!(store.scope(module).unwrap().type_declarations().len(), 1);
    let declarator = Declarator { name: "f".to_string(), init: Some(identifier("Object")) };
    let variable = analyze_declaration(&declarator, VariableKind::Let, module, &mut store).unwrap();
    assert_eq!(variable.name(), "f");
    assert_eq!(store.function(OBJECT).unwrap().name(), "Object");
    declare_variable(variable, module, &mut store);
    assert_eq!(store.scope(module).unwrap().type_declarations().len(), 2);
}

fn assignment(left: ExpressionNode, right: ExpressionNode) -> ExpressionNode {
    ExpressionNode {
        start: 30,
        end: 40,
        item: Expression::Binary { operator: OperatorKind::Assign, left: Box::new(left), right: Box::new(right) },
    }
}

#[test]
fn assignment_to_a_variable_is_traced_at_the_assignment() {
    let (mut store, scope) = module();
    let ast = vec![Statement::Expression(assignment(identifier("n"), string()))];
    assert!(tracing_pass(&ast, scope, &mut store).is_empty());
    let n = store.variable(store.locate(scope, "n").unwrap()).unwrap();
    assert_eq!(n.change_trace().len(), 1);
    assert_eq!(n.change_trace().entry(0).loc, at(30, 40));
    assert!(n.change_trace().entry(0).current_type.same(&Type::String));
    assert!(n.current_type().same(&Type::Number));
}

#[test]
fn assignment_to_a_property_is_traced_just_behind_the_assignment() {
    let (mut store, scope) = module();
    let object = type_from_properties(&vec![literal_property("p", number())], scope, &mut store).unwrap();
    store.add(scope, Variable::new("o".to_string(), object.clone(), VariableKind::Const));
    let ast = vec![
        Statement::Expression(assignment(member(identifier("o"), "p"), string())),
        Statement::Other,
        Statement::Expression(assignment(member(identifier("o"), "q"), number())),
        Statement::Expression(assignment(member(identifier("Object"), "q"), number())),
    ];
    assert!(tracing_pass(&ast, scope, &mut store).is_empty());
    let trace = store.object(2).unwrap().properties_change_trace();
    assert_eq!(trace.len(), 2);
    assert_eq!(trace.entry(0).loc, at(41, 41));
    assert_eq!(trace.entry(0).attribute.name(), "p");
    assert!(matches!(trace.entry(0).attribute, typeflow::change_trace::TracedTypeMuation::Update(_)));
    assert!(matches!(trace.entry(1).attribute, typeflow::change_trace::TracedTypeMuation::Add(_)));
    assert!(object.query_property("p", &at(40, 40), &store).unwrap().same(&Type::Number));
    assert!(object.query_property("p", &at(40, 41), &store).unwrap().same(&Type::String));
    assert!(object.query_property("q", &at(40, 40), &store).is_none());
    assert!(object.query_property("q", &at(42, 43), &store).unwrap().same(&Type::Number));
    assert_eq!(store.function(OBJECT).unwrap().properties_change_trace().len(), 1);
    assert!(object.has_property("p", &store));
    assert!(!object.has_property("q", &store));
}

#[test]
fn tracing_collects_what_goes_wrong() {
    let (mut store, scope) = module();
    let call = |callee: &str, arguments: Vec<ExpressionNode>| ExpressionNode {
        start: 50,
        end: 60,
        item: Expression::Call { callee: Box::new(identifier(callee)), arguments },
    };
    let ast = vec![
        Statement::Expression(assignment(member(identifier("n"), "p"), string())),
        Statement::Expression(assignment(identifier("nope"), string())),
        Statement::Expression(assignment(identifier("n"), identifier("nope"))),
        Statement::Expression(assignment(member(identifier("nope"), "p"), string())),
        Statement::Expression(call("n", vec![])),
        Statement::Expression(call("Object", vec![identifier("nope")])),
        Statement::Expression(call("nope", vec![])),
        Statement::Expression(call("Object", vec![number(), string()])),
        Statement::Expression(number()),
    ];
    let errors = tracing_pass(&ast, scope, &mut store);
    assert_eq!(errors.len(), 7);
    assert_eq!(
        errors[0],
        AnalysisError::Type(TypeError::PrimitivePropertyWrite { subject: "Number".to_string(), property: "p".to_string() })
    );
    assert!(matches!(&errors[1], AnalysisError::Scope(_)));
    assert!(matches!(&errors[2], AnalysisError::Scope(_)));
    assert!(matches!(&errors[3], AnalysisError::Scope(_)));
    assert_eq!(
        errors[4],
        AnalysisError::Type(TypeError::NotFunction { subject: "NotRepresentable(Call)".to_string() })
    );
    assert!(matches!(&errors[5], AnalysisError::Scope(_)));
    assert!(matches!(&errors[6], AnalysisError::Scope(_)));
    let invocations = store.function(OBJECT).unwrap().invocations();
    assert_eq!(invocations.len(), 1);
    assert_eq!(invocations[0].1, at(50, 60));
    assert!(invocations[0].0[0].same(&Type::Number) && invocations[0].0[1].same(&Type::String));
    assert_eq!(store.variable(store.locate(scope, "n").unwrap()).unwrap().change_trace().len(), 0);
    let lone = assignment(identifier("s"), number());
    assert!(trace_expression(&lone, scope, &mut store).is_none());
    assert_eq!(store.variable(store.locate(scope, "s").unwrap()).unwrap().change_trace().len(), 1);
}
