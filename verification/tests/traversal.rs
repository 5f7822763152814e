use typeflow::ast::{
    expression_to_string, literal_to_string, property_to_string, Expression, ExpressionNode, Literal, NameNode,
    OperatorKind, PropertyKey, Statement,
};
use typeflow::location::Location;
use typeflow::nodes::{ExpressionNodeStruct, Node, StringNodeStruct};
use typeflow::owner::Owner;
use typeflow::traveler::{travel_ast, travel_ast_statement, travel_expression, AstEvent, AstFunctionBody};
use typeflow::ast::FunctionBody;

fn at(start: u32, end: u32) -> Location {
    Location { start, end, line: 0, column: 0 }
}

fn node(start: u32, end: u32, item: Expression) -> ExpressionNode {
    ExpressionNode { start, end, item }
}

fn identifier(start: u32, name: &str) -> ExpressionNode {
    node(start, start + name.len() as u32, Expression::Identifier(name.to_string()))
}

fn number(start: u32, text: &str) -> ExpressionNode {
    node(start, start + text.len() as u32, Expression::Literal(Literal::Number(text.to_string())))
}

fn binary(start: u32, end: u32, operator: OperatorKind, left: ExpressionNode, right: ExpressionNode) -> ExpressionNode {
    node(start, end, Expression::Binary { operator, left: Box::new(left), right: Box::new(right) })
}

fn own_id(event: &AstEvent) -> Option<usize> {
    match event {
        AstEvent::Assignment { node, .. }
        | AstEvent::Addition { node, .. }
        | AstEvent::Equality { node, .. }
        | AstEvent::Conditional { node, .. }
        | AstEvent::PropertyAccess { node, .. }
        | AstEvent::DynamicPropertyAccess { node, .. }
        | AstEvent::Identifier { node, .. }
        | AstEvent::Literal { node, .. }
        | AstEvent::Array { node, .. }
        | AstEvent::Sequence { node, .. }
        | AstEvent::This { node }
        | AstEvent::PreOrPostFix { node, .. }
        | AstEvent::Template { node }
        | AstEvent::FunctionCall { node, .. }
        | AstEvent::Spread { node, .. }
        | AstEvent::Object { node, .. }
        | AstEvent::Function { node, .. }
        | AstEvent::Class { node, .. } => Some(node.id),
        AstEvent::ConsequentBody { .. } | AstEvent::AlternateBody { .. } | AstEvent::AfterIf { .. } => None,
    }
}

#[test]
fn sub_expressions_come_before_the_expression() {
    // a.b = c + 1
    let expression = binary(
        0,
        11,
        OperatorKind::Assign,
        node(
            0,
            3,
            Expression::Member {
                object: Box::new(identifier(0, "a")),
                property: NameNode { start: 2, end: 3, name: "b".to_string() },
            },
        ),
        binary(6, 11, OperatorKind::Addition, identifier(6, "c"), number(10, "1")),
    );
    let mut nodes = Owner::new();
    let (top, events) = travel_expression(&expression, &mut nodes);
    assert_eq!(events.len(), 6);
    assert!(matches!(&events[0], AstEvent::Identifier { identifier, .. } if identifier.as_str() == "a"));
    assert!(matches!(&events[1], AstEvent::PropertyAccess { property, .. } if property.value == "b"));
    assert!(matches!(&events[2], AstEvent::Identifier { identifier, .. } if identifier.as_str() == "c"));
    assert!(matches!(&events[3], AstEvent::Literal { .. }));
    assert!(matches!(&events[4], AstEvent::Addition { .. }));
    assert!(matches!(&events[5], AstEvent::Assignment { .. }));
    let ids: Vec<usize> = events.iter().map(|event| own_id(event).unwrap()).collect();
    assert_eq!(ids, vec![0, 2, 3, 4, 5, 6]);
    assert_eq!(top.id, 6);
    assert_eq!(nodes.len(), 7);
    match &events[5] {
        AstEvent::Assignment { node, left, right } => {
            assert_eq!(node.location, at(0, 11));
            assert_eq!(left.id, own_id(&events[1]).unwrap());
            assert_eq!(right.id, own_id(&events[4]).unwrap());
            assert!(left.same_node(left));
            assert!(!left.same_node(right));
        },
        _ => unreachable!(),
    }
    match &events[1] {
        AstEvent::PropertyAccess { node, object, property } => {
            assert_eq!(object.id, 0);
            assert_eq!(property.id, 1);
            assert_eq!(property.source(), "b");
            assert_eq!(*property.location(), at(2, 3));
            assert_eq!(node.source(), "a.b");
            assert_eq!(*node.location(), at(0, 3));
        },
        _ => unreachable!(),
    }
}

#[test]
fn operators_that_are_not_surfaced_have_no_event_but_are_walked() {
    let expression = binary(0, 5, OperatorKind::Multiplication, identifier(0, "a"), identifier(4, "b"));
    let mut nodes = Owner::new();
    let (top, events) = travel_expression(&expression, &mut nodes);
    assert_eq!(events.len(), 2);
    assert_eq!(top.id, 2);
    assert_eq!(top.source(), "NotRepresentable(Binary)");
}

#[test]
fn strict_equality_and_inequality_are_both_equality_events() {
    let mut nodes = Owner::new();
    let equal = binary(0, 7, OperatorKind::StrictEquality, identifier(0, "a"), identifier(6, "b"));
    let (_, events) = travel_expression(&equal, &mut nodes);
    assert!(matches!(events.last().unwrap(), AstEvent::Equality { .. }));
    let unequal = binary(0, 7, OperatorKind::StrictInequality, identifier(0, "a"), identifier(6, "b"));
    let (_, events) = travel_expression(&unequal, &mut nodes);
    assert!(matches!(events.last().unwrap(), AstEvent::Equality { .. }));
    let loose = binary(0, 6, OperatorKind::Equality, identifier(0, "a"), identifier(5, "b"));
    let (_, events) = travel_expression(&loose, &mut nodes);
    assert_eq!(events.len(), 2);
}

#[test]
fn call_walks_the_callee_and_then_the_arguments() {
    let expression = node(
        0,
        7,
        Expression::Call {
            callee: Box::new(identifier(0, "f")),
            arguments: vec![identifier(2, "a"), number(5, "1")],
        },
    );
    let mut nodes = Owner::new();
    let (top, events) = travel_expression(&expression, &mut nodes);
    assert_eq!(events.len(), 4);
    match &events[3] {
        AstEvent::FunctionCall { node, function, arguments } => {
            assert_eq!(node.id, top.id);
            assert_eq!(function.id, 0);
            assert_eq!(arguments.iter().map(|argument| argument.id).collect::<Vec<usize>>(), vec![1, 2]);
        },
        _ => unreachable!(),
    }
}

#[test]
fn leaves_have_one_event_each() {
    let mut nodes = Owner::new();
    let cases = vec![
        node(0, 1, Expression::This),
        node(0, 1, Expression::Template),
        node(0, 1, Expression::Array(vec![identifier(1, "a")])),
        node(0, 1, Expression::Sequence(vec![identifier(1, "a"), identifier(3, "b")])),
        node(0, 1, Expression::Object(vec![])),
        node(0, 1, Expression::Arrow { params: vec![], body: FunctionBody::Block(vec![]) }),
        node(0, 1, Expression::Function { name: None, params: vec![], body: vec![] }),
    ];
    for case in &cases {
        let (top, events) = travel_expression(case, &mut nodes);
        assert_eq!(events.len(), 1);
        assert_eq!(own_id(&events[0]), Some(top.id));
    }
    let void = node(0, 0, Expression::Void);
    let (_, events) = travel_expression(&void, &mut nodes);
    assert!(events.is_empty());
    assert_eq!(nodes.len(), 8);
}

#[test]
fn other_expressions_walk_their_operands() {
    let mut nodes = Owner::new();
    let prefix = node(0, 3, Expression::Prefix { operator: OperatorKind::Increment, operand: Box::new(identifier(2, "a")) });
    let (_, events) = travel_expression(&prefix, &mut nodes);
    assert!(matches!(&events[1], AstEvent::PreOrPostFix { operator: OperatorKind::Increment, operand, .. } if operand.id == 0));
    let postfix = node(0, 3, Expression::Postfix { operator: OperatorKind::Decrement, operand: Box::new(identifier(0, "a")) });
    let (_, events) = travel_expression(&postfix, &mut nodes);
    assert!(matches!(&events[1], AstEvent::PreOrPostFix { operator: OperatorKind::Decrement, .. }));
    let spread = node(0, 4, Expression::Spread { argument: Box::new(identifier(3, "a")) });
    let (_, events) = travel_expression(&spread, &mut nodes);
    assert!(matches!(&events[1], AstEvent::Spread { .. }));
    let computed = node(
        0,
        4,
        Expression::ComputedMember { object: Box::new(identifier(0, "a")), property: Box::new(number(2, "0")) },
    );
    let (_, events) = travel_expression(&computed, &mut nodes);
    assert_eq!(events.len(), 3);
    assert!(matches!(&events[2], AstEvent::DynamicPropertyAccess { .. }));
    let conditional = node(
        0,
        9,
        Expression::Conditional {
            test: Box::new(identifier(0, "t")),
            consequent: Box::new(identifier(4, "c")),
            alternate: Box::new(identifier(8, "a")),
        },
    );
    let (_, events) = travel_expression(&conditional, &mut nodes);
    assert_eq!(events.len(), 4);
    match &events[3] {
        AstEvent::Conditional { test, consequent, alternate, .. } => {
            assert_eq!(test.source(), "t");
            assert_eq!(consequent.source(), "c");
            assert_eq!(alternate.source(), "a");
        },
        _ => unreachable!(),
    }
    let tagged = node(
        0,
        5,
        Expression::TaggedTemplate { tag: Box::new(identifier(0, "t")), quasi: Box::new(node(1, 5, Expression::Template)) },
    );
    let (top, events) = travel_expression(&tagged, &mut nodes);
    assert_eq!(events.len(), 1);
    assert_eq!(top.location, at(1, 5));
    assert_eq!(top.source(), "NotRepresentable(Template)");
}

#[test]
fn if_statement_has_its_three_events_after_the_test() {
    let statement = Statement::If {
        test: identifier(4, "a"),
        consequent: Box::new(Statement::Block(vec![])),
        alternate: Some(Box::new(Statement::Other)),
    };
    let mut nodes = Owner::new();
    let events = travel_ast_statement(&statement, &mut nodes);
    assert_eq!(events.len(), 4);
    assert!(matches!(&events[0], AstEvent::Identifier { .. }));
    assert!(matches!(&events[1], AstEvent::ConsequentBody { test, .. } if test.id == 0));
    assert!(matches!(&events[2], AstEvent::AlternateBody { expression } if expression.id == 0));
    assert!(matches!(&events[3], AstEvent::AfterIf { expression } if expression.id == 0));
    let bare = Statement::If { test: identifier(4, "a"), consequent: Box::new(Statement::Other), alternate: None };
    let events = travel_ast_statement(&bare, &mut nodes);
    assert_eq!(events.len(), 3);
    assert!(matches!(&events[2], AstEvent::AfterIf { .. }));
}

#[test]
fn statements_are_walked_in_source_order() {
    let ast = vec![
        Statement::Expression(identifier(0, "a")),
        Statement::Other,
        Statement::Declaration { kind: typeflow::variable::VariableKind::Let, declarators: vec![] },
        Statement::Block(vec![Statement::Expression(identifier(5, "b")), Statement::Expression(identifier(8, "c"))]),
    ];
    let mut nodes = Owner::new();
    let events = travel_ast(&ast, &mut nodes);
    let names: Vec<String> = events
        .iter()
        .map(|event| match event {
            AstEvent::Identifier { identifier, .. } => identifier.to_string(),
            _ => unreachable!(),
        })
        .collect();
    assert_eq!(names, vec!["a", "b", "c"]);
    assert_eq!(nodes.get(2), Some(&at(8, 9)));
}

#[test]
fn nodes_are_made_with_fresh_identities() {
    let mut nodes = Owner::new();
    let expression = Expression::This;
    let first = ExpressionNodeStruct::new(&expression, at(1, 2), &mut nodes);
    let second = ExpressionNodeStruct::new(&expression, at(1, 2), &mut nodes);
    assert_eq!(first.id, 0);
    assert_eq!(second.id, 1);
    assert!(!first.same_node(&second));
    assert!(matches!(first.expression(), Expression::This));
    let name = NameNode { start: 4, end: 8, name: "name".to_string() };
    let third = StringNodeStruct::from(&name, &mut nodes);
    assert_eq!(third.id, 2);
    assert!(third.same_node(&third.clone()));
    let located = node(3, 4, Expression::This);
    let fourth = ExpressionNodeStruct::from(&located, &mut nodes);
    assert_eq!(fourth.location, at(3, 4));
    assert_eq!(located.location(), at(3, 4));
    assert_eq!(name.location(), at(4, 8));
}

#[test]
fn function_bodies_are_handed_on() {
    let block = FunctionBody::Block(vec![Statement::Other]);
    assert!(matches!(AstFunctionBody::from(&block), AstFunctionBody::StatementBlock(statements) if statements.len() == 1));
    let single = FunctionBody::Expression(Box::new(identifier(0, "a")));
    assert!(matches!(AstFunctionBody::from(&single), AstFunctionBody::SingleExpression(_)));
}

#[test]
fn expressions_are_shown_by_their_source_or_their_kind() {
    assert_eq!(expression_to_string(&Expression::Identifier("abc".to_string())), "abc");
    assert_eq!(expression_to_string(&Expression::Literal(Literal::Number("12".to_string()))), "12");
    assert_eq!(expression_to_string(&Expression::This), "this");
    assert_eq!(expression_to_string(&Expression::Void), "void");
    assert_eq!(expression_to_string(&Expression::Array(vec![])), "Arrary");
    assert_eq!(expression_to_string(&Expression::Object(vec![])), "NotRepresentable(Object)");
    assert_eq!(expression_to_string(&Expression::Template), "NotRepresentable(Template)");
    assert_eq!(expression_to_string(&Expression::Sequence(vec![])), "NotRepresentable(Sequence)");
    let nested = Expression::Member {
        object: Box::new(node(
            0,
            3,
            Expression::Member {
                object: Box::new(identifier(0, "a")),
                property: NameNode { start: 2, end: 3, name: "b".to_string() },
            },
        )),
        property: NameNode { start: 4, end: 5, name: "c".to_string() },
    };
    assert_eq!(expression_to_string(&nested), "a.b.c");
    let call = Expression::Call { callee: Box::new(identifier(0, "f")), arguments: vec![] };
    assert_eq!(expression_to_string(&call), "NotRepresentable(Call)");
}

#[test]
fn literals_are_shown_as_the_source_has_them() {
    assert_eq!(literal_to_string(&Literal::String("\"x\"".to_string())), "\"x\"");
    assert_eq!(literal_to_string(&Literal::Number("1.5".to_string())), "1.5");
    assert_eq!(literal_to_string(&Literal::Binary("0b1".to_string())), "0b1");
    assert_eq!(literal_to_string(&Literal::RegEx("/a/".to_string())), "/a/");
    assert_eq!(literal_to_string(&Literal::Null), "null");
    assert_eq!(literal_to_string(&Literal::Undefined), "undefined");
    assert_eq!(literal_to_string(&Literal::True), "true");
    assert_eq!(literal_to_string(&Literal::False), "false");
    assert_eq!(property_to_string(&PropertyKey::Literal("k".to_string())), "k");
    assert_eq!(property_to_string(&PropertyKey::Binary("0b1".to_string())), "0b1");
    assert_eq!(property_to_string(&PropertyKey::Computed(identifier(0, "a"))), "a");
}
