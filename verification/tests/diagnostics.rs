use typeflow::ast::{Expression, ExpressionNode, Literal, NameNode, OperatorKind, Statement};
use typeflow::context::Context;
use typeflow::emission::sorted_errors;
use typeflow::error::{AccessError, AnalysisError, ScopeError, TypeError, ValidationError};
use typeflow::error_vec::ErrorVec;
use typeflow::expression_meta_data::{ComparisonMeta, ComparisonType, MetaCarry, PropertyAccessMeta};
use typeflow::location::Location;
use typeflow::meta_data_collection::{
    collect_meta_data, map_argument_types, sum_type, track_type_assignment, type_before, update_object_property_type,
};
use typeflow::nodes::{ExpressionNodeStruct, StringNodeStruct};
use typeflow::owner::Owner;
use typeflow::custom_type::CustomTypeObject;
use typeflow::scope::ScopeRef;
use typeflow::store::{Store, ARRAY_PROTOTYPE, OBJECT, OBJECT_PROTOTYPE, STATIC_ROOT};
use typeflow::traveler::{travel_expression, AstEvent};
use typeflow::types::Type;
use typeflow::validation::{validate_event, validate_events, validate_simple_event, validate_statement};
use typeflow::variable::{Variable, VariableKind};

fn at(start: u32, end: u32) -> Location {
    Location { start, end, line: 0, column: 0 }
}

fn node(start: u32, end: u32, item: Expression) -> ExpressionNode {
    ExpressionNode { start, end, item }
}

fn identifier(start: u32, name: &str) -> ExpressionNode {
    node(start, start + name.len() as u32, Expression::Identifier(name.to_string()))
}

fn number(start: u32) -> ExpressionNode {
    node(start, start + 1, Expression::Literal(Literal::Number("1".to_string())))
}

fn string(start: u32) -> ExpressionNode {
    node(start, start + 3, Expression::Literal(Literal::String("\"s\"".to_string())))
}

fn binary(start: u32, end: u32, operator: OperatorKind, left: ExpressionNode, right: ExpressionNode) -> ExpressionNode {
    node(start, end, Expression::Binary { operator, left: Box::new(left), right: Box::new(right) })
}

fn module() -> (Store, ScopeRef) {
    let mut store = Store::with_base(0);
    let module = store.new_scope("ModuleScope".to_string(), Some(STATIC_ROOT));
    store.add(module, Variable::new("n".to_string(), Type::Number, VariableKind::Let));
    store.add(module, Variable::new("s".to_string(), Type::String, VariableKind::Let));
    store.add(module, Variable::new("z".to_string(), Type::Null, VariableKind::Let));
    (store, module)
}

fn published(context: &Context) -> Vec<ValidationError> {
    sorted_errors(context).into_iter().map(|handle| context.diagnostic(handle).unwrap().clone()).collect()
}

fn validated(statement: &Statement) -> (Store, Vec<ValidationError>) {
    let (mut store, scope) = module();
    let mut context = Context::new(scope);
    validate_statement(statement, &mut store, &mut context);
    let errors = published(&context);
    (store, errors)
}

#[test]
fn the_set_holds_a_handle_once() {
    let mut set = ErrorVec::new();
    assert!(set.insert(4));
    assert!(set.insert(2));
    assert!(!set.insert(4));
    assert_eq!(set.len(), 2);
    assert!(set.contains(4) && set.contains(2) && !set.contains(3));
    assert!(set.remove(4));
    assert!(!set.remove(4));
    assert_eq!(set.len(), 1);
    assert_eq!(set.get(0), 2);
    assert!(set.insert(4));
    assert_eq!(set.len(), 2);
    assert_eq!(set.get(1), 4);
}

#[test]
fn a_record_keeps_its_first_error() {
    let mut meta = MetaCarry::new();
    assert!(meta.expression_type().same(&Type::Undefined));
    assert_eq!(meta.set_error(3), Some(3));
    assert_eq!(meta.set_error(5), None);
    assert_eq!(*meta.error(), Some(3));
    let mut other = MetaCarry::new();
    other.adopt_errors(&MetaCarry::new());
    assert_eq!(*other.error(), None);
    other.adopt_errors(&meta);
    assert_eq!(*other.error(), Some(3));
    meta.set_expression_type(Type::Number);
    assert!(meta.expression_type().same(&Type::Number));
    meta.set_variable(Some(9));
    assert_eq!(*meta.variable(), Some(9));
    assert!(meta.comparison().is_none());
    assert!(meta.property_access().is_none());
}

#[test]
fn a_record_carries_what_is_known_of_comparisons_and_accesses() {
    let expression = Expression::This;
    let mut nodes = Owner::new();
    let left = ExpressionNodeStruct::new(&expression, at(0, 1), &mut nodes);
    let right = ExpressionNodeStruct::new(&expression, at(2, 3), &mut nodes);
    let mut meta = MetaCarry::new();
    meta.set_comparison(ComparisonMeta { kind: ComparisonType::Equality, members: (left, right) });
    let comparison = meta.comparison().unwrap();
    assert_eq!(*comparison.kind(), ComparisonType::Equality);
    assert_eq!(comparison.members().0.id, 0);
    assert_eq!(comparison.members().1.id, 1);
    let name = NameNode { start: 5, end: 6, name: "p".to_string() };
    let property = StringNodeStruct::from(&name, &mut nodes);
    meta.set_property_access(PropertyAccessMeta::new(left, property));
    let access = meta.property_access().as_ref().unwrap();
    assert_eq!(access.object().id, 0);
    assert_eq!(access.property().value, "p");
}

#[test]
fn diagnostics_tell_where_they_point() {
    let place = at(3, 5);
    let cases = vec![
        ValidationError::UnknownProperty { object: "o".to_string(), property: "p".to_string(), location: place },
        ValidationError::AssignTypeMismatch {
            target: "t".to_string(),
            location: place,
            own_type: "A".to_string(),
            their_type: "B".to_string(),
        },
        ValidationError::CompareTypeMismatch { left_type: "A".to_string(), right_type: "B".to_string(), location: place },
        ValidationError::InvalidType {
            expression: "e".to_string(),
            current_type: "A".to_string(),
            expected_type: "B".to_string(),
            location: place,
        },
        ValidationError::NonsensicalComparison { expression: "e".to_string(), location: place },
    ];
    for case in &cases {
        assert_eq!(case.location(), place);
        assert_eq!(case.clone(), *case);
    }
    let undefined = ValidationError::UndefinedVariable { variable_name: "v".to_string(), scope_name: "s".to_string() };
    assert_eq!(undefined.location(), at(0, 0));
}

#[test]
fn analysis_errors_become_diagnostics() {
    let place = at(3, 5);
    let scope_error = ScopeError::UndefinedVariable { variable_name: "v".to_string(), scope_name: "s".to_string() };
    assert_eq!(
        ValidationError::from_scope_error(scope_error),
        ValidationError::UndefinedVariable { variable_name: "v".to_string(), scope_name: "s".to_string() }
    );
    let convert = |error: AnalysisError| ValidationError::from_analysis_error(error, "src".to_string(), place);
    assert_eq!(
        convert(AnalysisError::Scope(ScopeError::UndefinedVariable {
            variable_name: "v".to_string(),
            scope_name: "s".to_string(),
        })),
        ValidationError::UndefinedVariable { variable_name: "v".to_string(), scope_name: "s".to_string() }
    );
    assert_eq!(
        convert(AnalysisError::Access(AccessError::UndefinedProperty { object: "o".to_string(), property: "p".to_string() })),
        ValidationError::UnknownProperty { object: "o".to_string(), property: "p".to_string(), location: place }
    );
    assert_eq!(
        convert(AnalysisError::Type(TypeError::IncompatiblePrototype { prototype: "Number".to_string() })),
        ValidationError::InvalidType {
            expression: "src".to_string(),
            current_type: "Number".to_string(),
            expected_type: "Object".to_string(),
            location: place,
        }
    );
    assert_eq!(
        convert(AnalysisError::Type(TypeError::NotFunction { subject: "n".to_string() })),
        ValidationError::InvalidType {
            expression: "src".to_string(),
            current_type: "n".to_string(),
            expected_type: "Function".to_string(),
            location: place,
        }
    );
    assert_eq!(
        convert(AnalysisError::Type(TypeError::PrimitivePropertyWrite {
            subject: "Number".to_string(),
            property: "p".to_string(),
        })),
        ValidationError::InvalidType {
            expression: "src".to_string(),
            current_type: "Number".to_string(),
            expected_type: "Object".to_string(),
            location: place,
        }
    );
}

#[test]
fn undefined_variable_is_reported_once_per_node() {
    let statement = Statement::Block(vec![
        Statement::Expression(identifier(7, "nope")),
        Statement::Expression(identifier(1, "nope")),
    ]);
    let (_, errors) = validated(&statement);
    assert_eq!(errors.len(), 2);
    assert_eq!(
        errors[0],
        ValidationError::UndefinedVariable { variable_name: "nope".to_string(), scope_name: "StaticRoot".to_string() }
    );
}

#[test]
fn assignment_adopts_the_error_of_its_sides_and_reports_no_second() {
    // n.p = "s": the unknown property is reported, the mismatch is not
    let target = node(
        0,
        3,
        Expression::Member {
            object: Box::new(identifier(0, "Object")),
            property: NameNode { start: 7, end: 8, name: "p".to_string() },
        },
    );
    let statement = Statement::Expression(binary(0, 14, OperatorKind::Assign, target, string(11)));
    let (_, errors) = validated(&statement);
    assert_eq!(
        errors,
        vec![ValidationError::UnknownProperty {
            object: "Object".to_string(),
            property: "p".to_string(),
            location: at(7, 8),
        }]
    );
}

#[test]
fn assignment_to_null_or_of_the_same_type_is_accepted() {
    let to_null = Statement::Expression(binary(0, 7, OperatorKind::Assign, identifier(0, "z"), string(4)));
    assert!(validated(&to_null).1.is_empty());
    let same = Statement::Expression(binary(0, 5, OperatorKind::Assign, identifier(0, "n"), number(4)));
    assert!(validated(&same).1.is_empty());
    let other = Statement::Expression(binary(0, 5, OperatorKind::Assign, identifier(0, "s"), number(4)));
    assert_eq!(
        validated(&other).1,
        vec![ValidationError::AssignTypeMismatch {
            target: "s".to_string(),
            own_type: "String".to_string(),
            their_type: "Number".to_string(),
            location: at(0, 1),
        }]
    );
}

#[test]
fn diagnostics_come_in_the_order_of_the_source() {
    let statement = Statement::Block(vec![
        Statement::Expression(binary(20, 27, OperatorKind::StrictEquality, identifier(20, "n"), identifier(26, "s"))),
        Statement::Expression(binary(10, 15, OperatorKind::Assign, identifier(10, "s"), number(14))),
        Statement::Expression(binary(30, 37, OperatorKind::StrictInequality, identifier(30, "s"), identifier(36, "n"))),
    ]);
    let (_, errors) = validated(&statement);
    let starts: Vec<u32> = errors.iter().map(|error| error.location().start).collect();
    assert_eq!(starts, vec![10, 20, 30]);
    assert!(matches!(&errors[2], ValidationError::CompareTypeMismatch { left_type, right_type, .. }
        if left_type == "String" && right_type == "Number"));
}

#[test]
fn typing_failures_of_events_become_diagnostics() {
    let call = node(
        0,
        3,
        Expression::Call { callee: Box::new(identifier(0, "n")), arguments: vec![number(2)] },
    );
    let (_, errors) = validated(&Statement::Expression(call));
    assert_eq!(
        errors,
        vec![ValidationError::InvalidType {
            expression: "NotRepresentable(Call)".to_string(),
            current_type: "n".to_string(),
            expected_type: "Function".to_string(),
            location: at(0, 3),
        }]
    );
    let unknown = node(
        0,
        6,
        Expression::Call { callee: Box::new(identifier(0, "nope")), arguments: vec![] },
    );
    let (_, errors) = validated(&Statement::Expression(unknown));
    assert_eq!(errors.len(), 2);
    let good = node(0, 8, Expression::Call { callee: Box::new(identifier(0, "Object")), arguments: vec![] });
    assert!(validated(&Statement::Expression(good)).1.is_empty());
    let array = node(5, 11, Expression::Array(vec![identifier(6, "nope")]));
    let (_, errors) = validated(&Statement::Expression(array));
    assert_eq!(
        errors,
        vec![ValidationError::UndefinedVariable { variable_name: "nope".to_string(), scope_name: "StaticRoot".to_string() }]
    );
    let access = node(
        0,
        6,
        Expression::Member {
            object: Box::new(identifier(0, "nope")),
            property: NameNode { start: 5, end: 6, name: "p".to_string() },
        },
    );
    let (_, errors) = validated(&Statement::Expression(access));
    assert_eq!(errors.len(), 2);
}

#[test]
fn sums_are_strings_or_numbers() {
    let (store, _) = module();
    assert!(sum_type(&store, &Type::Number, &Type::Number).same(&Type::Number));
    assert!(sum_type(&store, &Type::String, &Type::Number).same(&Type::String));
    assert!(sum_type(&store, &Type::Boolean, &Type::String).same(&Type::String));
    let array = Type::Composed { outer: ARRAY_PROTOTYPE, inner: Box::new(Type::Number) };
    assert!(sum_type(&store, &array, &Type::Number).same(&Type::String));
    assert!(sum_type(&store, &Type::Number, &array).same(&Type::Number));
    let container = Type::Composed { outer: OBJECT_PROTOTYPE, inner: Box::new(Type::Number) };
    assert!(sum_type(&store, &container, &Type::Number).same(&Type::Number));
    assert!(sum_type(&store, &Type::Undefined, &Type::Null).same(&Type::Number));
}

#[test]
fn a_variable_has_the_type_of_the_last_reassignment_before_the_place() {
    let (mut store, scope) = module();
    let n = store.locate(scope, "n").unwrap();
    store.change_variable(n, Type::String, at(10, 12));
    assert!(type_before(&store, n, &at(10, 11)).same(&Type::Number));
    assert!(type_before(&store, n, &at(11, 12)).same(&Type::String));
    assert!(type_before(&store, n, &at(0, 1)).same(&Type::Number));
    assert!(type_before(&store, 99, &at(11, 12)).same(&Type::Undefined));
}

#[test]
fn events_of_all_kinds_get_their_metadata() {
    let (mut store, scope) = module();
    let mut context = Context::new(scope);
    let expression = node(
        0,
        9,
        Expression::Conditional {
            test: Box::new(identifier(0, "n")),
            consequent: Box::new(node(4, 5, Expression::This)),
            alternate: Box::new(node(8, 9, Expression::Template)),
        },
    );
    let (top, events) = context.travel(&expression);
    let found = collect_meta_data(&events[0], &mut store, &mut context);
    assert_eq!(found.handle, Some(0));
    assert!(found.finding.is_none());
    validate_simple_event(&events[1], &mut store, &mut context);
    validate_event(&events[2], &mut store, &mut context);
    validate_events(vec![], &mut store, &mut context);
    validate_event(&events[3], &mut store, &mut context);
    assert!(context.type_of(&top).same(&Type::Mixed(vec![Type::String, Type::Undefined])));
    assert_eq!(context.variable_of(&top), None);
    assert_eq!(context.node_meta_data(&top), Some(3));
    assert!(context.meta(3).unwrap().expression_type().same(&Type::Mixed(vec![Type::String, Type::Undefined])));
    assert!(context.meta(4).is_none());
    match &events[3] {
        AstEvent::Conditional { test, consequent, alternate, .. } => {
            assert_eq!(context.variable_of(test), Some(store.locate(scope, "n").unwrap()));
            let types = map_argument_types(&vec![*test, *consequent, *alternate], &context);
            assert!(types[0].same(&Type::Number));
            assert!(types[1].same(&Type::Undefined));
            assert!(types[2].same(&Type::String));
        },
        _ => unreachable!(),
    }
    assert_eq!(context.node_count(), 4);
    assert_eq!(context.errors().len(), 0);
}

#[test]
fn spread_and_prefix_share_the_record_of_their_operand() {
    let (mut store, scope) = module();
    let mut context = Context::new(scope);
    let expression = node(
        0,
        8,
        Expression::Spread {
            argument: Box::new(node(
                3,
                8,
                Expression::Prefix { operator: OperatorKind::LogicalNot, operand: Box::new(identifier(4, "nope")) },
            )),
        },
    );
    let (top, events) = context.travel(&expression);
    validate_events(events, &mut store, &mut context);
    assert_eq!(context.node_meta_data(&top), Some(0));
    assert_eq!(context.errors().len(), 1);
    let lone = node(0, 4, Expression::Spread { argument: Box::new(node(3, 4, Expression::Void)) });
    let (top, events) = context.travel(&lone);
    validate_events(events, &mut store, &mut context);
    assert_eq!(context.node_meta_data(&top), Some(1));
    assert!(context.type_of(&top).same(&Type::Undefined));
}

#[test]
fn guard_on_a_property_narrows_a_copy_of_the_aggregate() {
    let (mut store, scope) = module();
    let access = node(
        4,
        20,
        Expression::Member {
            object: Box::new(identifier(4, "Object")),
            property: NameNode { start: 11, end: 20, name: "prototype".to_string() },
        },
    );
    let statement = Statement::If {
        test: binary(4, 28, OperatorKind::StrictEquality, access, string(25)),
        consequent: Box::new(Statement::Block(vec![])),
        alternate: None,
    };
    let mut context = Context::new(scope);
    validate_statement(&statement, &mut store, &mut context);
    assert_eq!(
        published(&context),
        vec![ValidationError::NonsensicalComparison {
            expression: "NotRepresentable(Binary)".to_string(),
            location: at(4, 28),
        }]
    );
    assert_eq!(context.scope(), scope);
    let block = store.scope_count() - 1;
    let id = store.function(OBJECT).unwrap().id();
    let copy = store.scope(block).unwrap().declared_type(id).unwrap();
    assert_eq!(copy, CustomTypeObject::Function(2));
    assert!(copy.as_type().query_property("prototype", &at(30, 31), &store).unwrap().same(&Type::String));
    assert!(Type::Function(OBJECT)
        .query_property("prototype", &at(30, 31), &store)
        .unwrap()
        .same(&Type::Object(OBJECT_PROTOTYPE)));
    let mut nodes = Owner::new();
    let expression = identifier(0, "a");
    let (subject, _) = travel_expression(&expression, &mut nodes);
    let mut meta = MetaCarry::new();
    meta.set_variable(Some(store.locate(scope, "n").unwrap()));
    meta.set_property_access(PropertyAccessMeta::new(
        subject,
        StringNodeStruct::from(&NameNode { start: 1, end: 2, name: "p".to_string() }, &mut nodes),
    ));
    let before = store.variable_count();
    track_type_assignment(&meta, &Type::Boolean, &at(1, 2), block, &mut store, &context);
    assert_eq!(store.variable_count(), before + 1);
    assert!(store.variable(before).unwrap().effective_type(&at(5, 5)).same(&Type::Boolean));
    update_object_property_type(&mut store, copy, "q", &Type::Number, &at(1, 2));
    assert!(copy.as_type().query_property("q", &at(30, 31), &store).unwrap().same(&Type::Number));
}
