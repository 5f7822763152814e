use typeflow::analysis::analyze_ast;
use typeflow::ast::{Declarator, Expression, ExpressionNode, Literal, NameNode, OperatorKind, Property, PropertyKey, Statement};
use typeflow::context::Context;
use typeflow::emission::sorted_errors;
use typeflow::error::ValidationError;
use typeflow::location::Location;
use typeflow::scope::ScopeRef;
use typeflow::store::{Store, STATIC_ROOT};
use typeflow::tracing::tracing_pass;
use typeflow::types::Type;
use typeflow::validation::validation_pass;
use typeflow::variable::VariableKind;

fn offset(source: &str, needle: &str, nth: usize) -> (u32, u32) {
    let mut from = 0;
    let mut seen = 0;
    loop {
        let found = source[from..].find(needle).expect("the needle is in the source") + from;
        if seen == nth {
            return (found as u32, (found + needle.len()) as u32);
        }
        seen += 1;
        from = found + 1;
    }
}

fn place(span: (u32, u32)) -> Location {
    Location { start: span.0, end: span.1, line: 0, column: 0 }
}

fn node(span: (u32, u32), item: Expression) -> ExpressionNode {
    ExpressionNode { start: span.0, end: span.1, item }
}

fn identifier(source: &str, name: &str, nth: usize) -> ExpressionNode {
    node(offset(source, name, nth), Expression::Identifier(name.to_string()))
}

fn number(source: &str, text: &str, nth: usize) -> ExpressionNode {
    node(offset(source, text, nth), Expression::Literal(Literal::Number(text.to_string())))
}

fn string(source: &str, text: &str, nth: usize) -> ExpressionNode {
    node(offset(source, text, nth), Expression::Literal(Literal::String(text.to_string())))
}

fn binary(span: (u32, u32), operator: OperatorKind, left: ExpressionNode, right: ExpressionNode) -> ExpressionNode {
    node(span, Expression::Binary { operator, left: Box::new(left), right: Box::new(right) })
}

fn member(span: (u32, u32), object: ExpressionNode, property: (u32, u32), name: &str) -> ExpressionNode {
    node(
        span,
        Expression::Member {
            object: Box::new(object),
            property: NameNode { start: property.0, end: property.1, name: name.to_string() },
        },
    )
}

fn constant(name: &str, init: ExpressionNode) -> Statement {
    Statement::Declaration {
        kind: VariableKind::Const,
        declarators: vec![Declarator { name: name.to_string(), init: Some(init) }],
    }
}

fn object(span: (u32, u32), members: Vec<(&str, ExpressionNode)>) -> ExpressionNode {
    node(
        span,
        Expression::Object(
            members
                .into_iter()
                .map(|(key, value)| Property::Literal { key: PropertyKey::Literal(key.to_string()), value })
                .collect(),
        ),
    )
}

struct Run<'ast> {
    store: Store,
    module: ScopeRef,
    context: Context<'ast>,
    diagnostics: Vec<ValidationError>,
}

fn run<'ast>(ast: &'ast Vec<Statement>) -> Run<'ast> {
    let mut store = Store::with_base(1000);
    let (module, scope_errors) = analyze_ast(ast, STATIC_ROOT, &mut store);
    assert!(scope_errors.is_empty());
    let tracing_errors = tracing_pass(ast, module, &mut store);
    assert!(tracing_errors.is_empty());
    let mut context = Context::new(module);
    validation_pass(ast, &mut store, &mut context);
    let diagnostics = sorted_errors(&context)
        .into_iter()
        .map(|handle| context.diagnostic(handle).expect("a published diagnostic").clone())
        .collect();
    Run { store, module, context, diagnostics }
}

#[test]
fn unknown_property_is_reported_at_the_property() {
    let source = "const a = { name: \"x\" }; a.namex;";
    let ast = vec![
        constant("a", object(offset(source, "{ name: \"x\" }", 0), vec![("name", string(source, "\"x\"", 0))])),
        Statement::Expression(member(
            offset(source, "a.namex", 0),
            identifier(source, "a", 2),
            offset(source, "namex", 0),
            "namex",
        )),
    ];
    let run = run(&ast);
    assert_eq!(
        run.diagnostics,
        vec![ValidationError::UnknownProperty {
            object: "a".to_string(),
            property: "namex".to_string(),
            location: place(offset(source, "namex", 0)),
        }]
    );
}

#[test]
fn assignment_of_another_type_is_reported_at_the_target() {
    let source = "const n = 1; n = \"s\";";
    let ast = vec![
        constant("n", number(source, "1", 0)),
        Statement::Expression(binary(
            offset(source, "n = \"s\"", 0),
            OperatorKind::Assign,
            identifier(source, "n", 2),
            string(source, "\"s\"", 0),
        )),
    ];
    let run = run(&ast);
    assert_eq!(
        run.diagnostics,
        vec![ValidationError::AssignTypeMismatch {
            target: "n".to_string(),
            own_type: "Number".to_string(),
            their_type: "String".to_string(),
            location: place(offset(source, "n", 2)),
        }]
    );
    let n = run.store.locate(run.module, "n").unwrap();
    let variable = run.store.variable(n).unwrap();
    assert!(variable.current_type().same(&Type::Number));
    assert!(variable.effective_type(&place(offset(source, "n", 2))).same(&Type::String));
    assert!(variable.effective_type(&place((12, 12))).same(&Type::Number));
}

#[test]
fn comparison_of_two_types_is_reported_at_the_comparison() {
    let source = "const a = 1; const b = \"x\"; a === b;";
    let ast = vec![
        constant("a", number(source, "1", 0)),
        constant("b", string(source, "\"x\"", 0)),
        Statement::Expression(binary(
            offset(source, "a === b", 0),
            OperatorKind::StrictEquality,
            identifier(source, "a", 1),
            identifier(source, "b", 1),
        )),
    ];
    let run = run(&ast);
    assert_eq!(
        run.diagnostics,
        vec![ValidationError::CompareTypeMismatch {
            left_type: "Number".to_string(),
            right_type: "String".to_string(),
            location: place(offset(source, "a === b", 0)),
        }]
    );
}

#[test]
fn traced_property_is_known_after_the_assignment() {
    let source = "const o = { p: 1 }; o.q = \"s\"; o.q; o.p + 1;";
    let first_q = offset(source, "o.q", 0);
    let second_q = offset(source, "o.q", 1);
    let p = offset(source, "o.p", 0);
    let assigned = member(first_q, identifier(source, "o", 2), (first_q.1 - 1, first_q.1), "q");
    let read = member(second_q, identifier(source, "o", 3), (second_q.1 - 1, second_q.1), "q");
    let sum = binary(
        offset(source, "o.p + 1", 0),
        OperatorKind::Addition,
        member(p, identifier(source, "o", 4), (p.1 - 1, p.1), "p"),
        number(source, "1", 1),
    );
    let ast = vec![
        constant("o", object(offset(source, "{ p: 1 }", 0), vec![("p", number(source, "1", 0))])),
        Statement::Expression(binary(
            offset(source, "o.q = \"s\"", 0),
            OperatorKind::Assign,
            assigned,
            string(source, "\"s\"", 0),
        )),
        Statement::Expression(read),
        Statement::Expression(sum),
    ];
    let run = run(&ast);
    let at_read = place((second_q.1 - 1, second_q.1));
    let at_write = place((first_q.1 - 1, first_q.1));
    assert!(run.diagnostics.iter().all(|error| error.location() != at_read));
    assert_eq!(
        run.diagnostics,
        vec![ValidationError::UnknownProperty {
            object: "o".to_string(),
            property: "q".to_string(),
            location: at_write,
        }]
    );
    let o = run.store.locate(run.module, "o").unwrap();
    let o_type = run.store.variable(o).unwrap().current_type().clone();
    assert!(o_type.query_property("q", &at_read, &run.store).unwrap().same(&Type::String));
    assert!(o_type.query_property("q", &at_write, &run.store).is_none());
    assert!(o_type.query_property("p", &at_read, &run.store).unwrap().same(&Type::Number));
}

fn node_at(context: &Context, span: (u32, u32)) -> usize {
    let mut found = None;
    for id in 0..context.node_count() {
        if context.node_place(id) == Some(place(span)) {
            found = Some(id);
        }
    }
    found.expect("a node was issued for the span")
}

#[test]
fn sum_of_a_number_property_and_a_number_is_a_number() {
    let source = "const o = { p: 1 }; o.p + 1; o.p + \"s\";";
    let p = offset(source, "o.p", 0);
    let second_p = offset(source, "o.p", 1);
    let ast = vec![
        constant("o", object(offset(source, "{ p: 1 }", 0), vec![("p", number(source, "1", 0))])),
        Statement::Expression(binary(
            offset(source, "o.p + 1", 0),
            OperatorKind::Addition,
            member(p, identifier(source, "o", 2), (p.1 - 1, p.1), "p"),
            number(source, "1", 1),
        )),
        Statement::Expression(binary(
            offset(source, "o.p + \"s\"", 0),
            OperatorKind::Addition,
            member(second_p, identifier(source, "o", 3), (second_p.1 - 1, second_p.1), "p"),
            string(source, "\"s\"", 0),
        )),
    ];
    let run = run(&ast);
    assert!(run.diagnostics.is_empty());
    let sum = node_at(&run.context, offset(source, "o.p + 1", 0));
    assert!(run.context.recorded_type(sum).same(&Type::Number));
    let text = node_at(&run.context, offset(source, "o.p + \"s\"", 0));
    assert!(run.context.recorded_type(text).same(&Type::String));
}

#[test]
fn computed_key_that_is_no_string_is_reported_at_the_access() {
    let source = "const o = { k: 1 }; o[0];";
    let ast = vec![
        constant("o", object(offset(source, "{ k: 1 }", 0), vec![("k", number(source, "1", 0))])),
        Statement::Expression(node(
            offset(source, "o[0]", 0),
            Expression::ComputedMember {
                object: Box::new(identifier(source, "o", 2)),
                property: Box::new(number(source, "0", 0)),
            },
        )),
    ];
    let run = run(&ast);
    assert_eq!(
        run.diagnostics,
        vec![ValidationError::InvalidType {
            expression: "0".to_string(),
            current_type: "Number".to_string(),
            expected_type: "String".to_string(),
            location: place(offset(source, "o[0]", 0)),
        }]
    );
}

#[test]
fn guard_narrows_the_variable_and_withdraws_the_mismatch() {
    let source = "const x = 1; if (x === \"a\") { x; }";
    let test = offset(source, "x === \"a\"", 0);
    let inner = offset(source, "x", 2);
    let ast = vec![
        constant("x", number(source, "1", 0)),
        Statement::If {
            test: binary(test, OperatorKind::StrictEquality, identifier(source, "x", 1), string(source, "\"a\"", 0)),
            consequent: Box::new(Statement::Block(vec![Statement::Expression(identifier(source, "x", 2))])),
            alternate: None,
        },
    ];
    let run = run(&ast);
    assert!(run.diagnostics.is_empty());
    assert_eq!(run.context.errors().len(), 0);
    let tested = node_at(&run.context, offset(source, "x", 1));
    assert!(run.context.recorded_type(tested).same(&Type::Number));
    let narrowed = node_at(&run.context, inner);
    assert!(run.context.recorded_type(narrowed).same(&Type::String));
    let outer = run.store.locate(run.module, "x").unwrap();
    let copy = run.context.recorded_variable(narrowed).unwrap();
    assert!(copy != outer);
    assert!(run.store.variable(outer).unwrap().effective_type(&place(inner)).same(&Type::Number));
    assert!(run.store.variable(copy).unwrap().effective_type(&place(inner)).same(&Type::String));
    assert_eq!(run.context.scope(), run.module);
    let block = run.store.scope_count() - 1;
    assert_eq!(run.store.scope_to_string(block), "StaticRoot > ModuleScope > IfConsequentBlockScope");
    assert_eq!(run.store.locate(block, "x").unwrap(), copy);
}

#[test]
fn comparison_of_two_literals_is_nonsensical() {
    let source = "if (1 === 1) {}";
    let test = offset(source, "1 === 1", 0);
    let ast = vec![Statement::If {
        test: binary(test, OperatorKind::StrictEquality, number(source, "1", 0), number(source, "1", 1)),
        consequent: Box::new(Statement::Block(vec![])),
        alternate: None,
    }];
    let run = run(&ast);
    assert_eq!(
        run.diagnostics,
        vec![ValidationError::NonsensicalComparison {
            expression: "NotRepresentable(Binary)".to_string(),
            location: place(test),
        }]
    );
}

#[test]
fn comparison_of_two_unlike_literals_is_nonsensical_and_no_mismatch() {
    let source = "if (1 === \"a\") {}";
    let test = offset(source, "1 === \"a\"", 0);
    let ast = vec![Statement::If {
        test: binary(test, OperatorKind::StrictEquality, number(source, "1", 0), string(source, "\"a\"", 0)),
        consequent: Box::new(Statement::Block(vec![])),
        alternate: None,
    }];
    let run = run(&ast);
    assert_eq!(
        run.diagnostics,
        vec![ValidationError::NonsensicalComparison {
            expression: "NotRepresentable(Binary)".to_string(),
            location: place(test),
        }]
    );
}
