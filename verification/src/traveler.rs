use vstd::prelude::*;
use crate::ast::{Class, Expression, ExpressionNode, FunctionBody, Literal, OperatorKind, Property, Statement};
use crate::location::Location;
use crate::nodes::{ExpressionNodeStruct, StringNodeStruct};
use crate::owner::Owner;

verus! {

/// The body of a function, as an event hands it on.
#[derive(Clone, Copy, Debug)]
pub enum AstFunctionBody<'ast> {
    StatementBlock(&'ast Vec<Statement>),
    SingleExpression(&'ast ExpressionNode),
}

impl<'ast> AstFunctionBody<'ast> {
    /// The body of an arrow function, as an event hands it on.
    pub fn from(value: &'ast FunctionBody) -> (r: Self)
        ensures
            r == Self::of(value),
    {
        match value {
            FunctionBody::Block(block) => AstFunctionBody::StatementBlock(block),
            FunctionBody::Expression(expression) => AstFunctionBody::SingleExpression(&**expression),
        }
    }

    /// The body of an arrow function, as an event hands it on.
    pub open spec fn of(value: &'ast FunctionBody) -> Self {
        match value {
            FunctionBody::Block(block) => AstFunctionBody::StatementBlock(block),
            FunctionBody::Expression(expression) => AstFunctionBody::SingleExpression(&**expression),
        }
    }
}

/// One step of the traversal. The nodes of an event's operands are the nodes of the
/// events that came for them earlier.
#[derive(Debug)]
#[allow(inconsistent_fields)]
pub enum AstEvent<'ast> {
    Assignment { node: ExpressionNodeStruct<'ast>, left: ExpressionNodeStruct<'ast>, right: ExpressionNodeStruct<'ast> },
    Addition { node: ExpressionNodeStruct<'ast>, left: ExpressionNodeStruct<'ast>, right: ExpressionNodeStruct<'ast> },
    Equality { node: ExpressionNodeStruct<'ast>, left: ExpressionNodeStruct<'ast>, right: ExpressionNodeStruct<'ast> },
    Conditional {
        node: ExpressionNodeStruct<'ast>,
        test: ExpressionNodeStruct<'ast>,
        consequent: ExpressionNodeStruct<'ast>,
        alternate: ExpressionNodeStruct<'ast>,
    },
    PropertyAccess { node: ExpressionNodeStruct<'ast>, object: ExpressionNodeStruct<'ast>, property: StringNodeStruct },
    DynamicPropertyAccess {
        node: ExpressionNodeStruct<'ast>,
        object: ExpressionNodeStruct<'ast>,
        property: ExpressionNodeStruct<'ast>,
    },
    ConsequentBody { test: ExpressionNodeStruct<'ast>, statement: &'ast Statement },
    AlternateBody { expression: ExpressionNodeStruct<'ast> },
    AfterIf { expression: ExpressionNodeStruct<'ast> },
    Identifier { node: ExpressionNodeStruct<'ast>, identifier: &'ast String },
    Literal { node: ExpressionNodeStruct<'ast>, literal: &'ast Literal },
    Array { node: ExpressionNodeStruct<'ast>, expression: &'ast Vec<ExpressionNode> },
    Sequence { node: ExpressionNodeStruct<'ast>, sequence: &'ast Vec<ExpressionNode> },
    This { node: ExpressionNodeStruct<'ast> },
    PreOrPostFix { node: ExpressionNodeStruct<'ast>, operand: ExpressionNodeStruct<'ast>, operator: OperatorKind },
    Template { node: ExpressionNodeStruct<'ast> },
    FunctionCall {
        node: ExpressionNodeStruct<'ast>,
        function: ExpressionNodeStruct<'ast>,
        arguments: Vec<ExpressionNodeStruct<'ast>>,
    },
    Spread { node: ExpressionNodeStruct<'ast>, argument: ExpressionNodeStruct<'ast> },
    Object { node: ExpressionNodeStruct<'ast>, expression: &'ast Vec<Property> },
    Function { node: ExpressionNodeStruct<'ast>, params: &'ast Vec<String>, body: AstFunctionBody<'ast> },
    Class { node: ExpressionNodeStruct<'ast>, class_expression: &'ast Class },
}

/// The mathematical value of an [`AstEvent`].
#[allow(inconsistent_fields)]
pub enum EventModel<'ast> {
    Assignment { node: ExpressionNodeStruct<'ast>, left: ExpressionNodeStruct<'ast>, right: ExpressionNodeStruct<'ast> },
    Addition { node: ExpressionNodeStruct<'ast>, left: ExpressionNodeStruct<'ast>, right: ExpressionNodeStruct<'ast> },
    Equality { node: ExpressionNodeStruct<'ast>, left: ExpressionNodeStruct<'ast>, right: ExpressionNodeStruct<'ast> },
    Conditional {
        node: ExpressionNodeStruct<'ast>,
        test: ExpressionNodeStruct<'ast>,
        consequent: ExpressionNodeStruct<'ast>,
        alternate: ExpressionNodeStruct<'ast>,
    },
    PropertyAccess { node: ExpressionNodeStruct<'ast>, object: ExpressionNodeStruct<'ast>, property: StringNodeStruct },
    DynamicPropertyAccess {
        node: ExpressionNodeStruct<'ast>,
        object: ExpressionNodeStruct<'ast>,
        property: ExpressionNodeStruct<'ast>,
    },
    ConsequentBody { test: ExpressionNodeStruct<'ast>, statement: &'ast Statement },
    AlternateBody { expression: ExpressionNodeStruct<'ast> },
    AfterIf { expression: ExpressionNodeStruct<'ast> },
    Identifier { node: ExpressionNodeStruct<'ast>, identifier: &'ast String },
    Literal { node: ExpressionNodeStruct<'ast>, literal: &'ast Literal },
    Array { node: ExpressionNodeStruct<'ast>, expression: &'ast Vec<ExpressionNode> },
    Sequence { node: ExpressionNodeStruct<'ast>, sequence: &'ast Vec<ExpressionNode> },
    This { node: ExpressionNodeStruct<'ast> },
    PreOrPostFix { node: ExpressionNodeStruct<'ast>, operand: ExpressionNodeStruct<'ast>, operator: OperatorKind },
    Template { node: ExpressionNodeStruct<'ast> },
    FunctionCall {
        node: ExpressionNodeStruct<'ast>,
        function: ExpressionNodeStruct<'ast>,
        arguments: Seq<ExpressionNodeStruct<'ast>>,
    },
    Spread { node: ExpressionNodeStruct<'ast>, argument: ExpressionNodeStruct<'ast> },
    Object { node: ExpressionNodeStruct<'ast>, expression: &'ast Vec<Property> },
    Function { node: ExpressionNodeStruct<'ast>, params: &'ast Vec<String>, body: AstFunctionBody<'ast> },
    Class { node: ExpressionNodeStruct<'ast>, class_expression: &'ast Class },
}

impl<'ast> View for AstEvent<'ast> {
    type V = EventModel<'ast>;

    open spec fn view(&self) -> EventModel<'ast> {
        match *self {
            AstEvent::Assignment { node, left, right } => EventModel::Assignment { node, left, right },
            AstEvent::Addition { node, left, right } => EventModel::Addition { node, left, right },
            AstEvent::Equality { node, left, right } => EventModel::Equality { node, left, right },
            AstEvent::Conditional { node, test, consequent, alternate } => EventModel::Conditional {
                node,
                test,
                consequent,
                alternate,
            },
            AstEvent::PropertyAccess { node, object, property } => EventModel::PropertyAccess { node, object, property },
            AstEvent::DynamicPropertyAccess { node, object, property } => EventModel::DynamicPropertyAccess {
                node,
                object,
                property,
            },
            AstEvent::ConsequentBody { test, statement } => EventModel::ConsequentBody { test, statement },
            AstEvent::AlternateBody { expression } => EventModel::AlternateBody { expression },
            AstEvent::AfterIf { expression } => EventModel::AfterIf { expression },
            AstEvent::Identifier { node, identifier } => EventModel::Identifier { node, identifier },
            AstEvent::Literal { node, literal } => EventModel::Literal { node, literal },
            AstEvent::Array { node, expression } => EventModel::Array { node, expression },
            AstEvent::Sequence { node, sequence } => EventModel::Sequence { node, sequence },
            AstEvent::This { node } => EventModel::This { node },
            AstEvent::PreOrPostFix { node, operand, operator } => EventModel::PreOrPostFix { node, operand, operator },
            AstEvent::Template { node } => EventModel::Template { node },
            AstEvent::FunctionCall { node, function, arguments } => EventModel::FunctionCall {
                node,
                function,
                arguments: arguments@,
            },
            AstEvent::Spread { node, argument } => EventModel::Spread { node, argument },
            AstEvent::Object { node, expression } => EventModel::Object { node, expression },
            AstEvent::Function { node, params, body } => EventModel::Function { node, params, body },
            AstEvent::Class { node, class_expression } => EventModel::Class { node, class_expression },
        }
    }
}

/// The values of a record of events.
pub open spec fn event_models<'ast>(events: Seq<AstEvent<'ast>>) -> Seq<EventModel<'ast>> {
    events.map_values(|event: AstEvent<'ast>| event@)
}

impl<'ast> EventModel<'ast> {
    /// The node of the expression that the event is for. The three events of an
    /// `if` statement are for no expression.
    pub open spec fn own_node(self) -> Option<ExpressionNodeStruct<'ast>> {
        match self {
            EventModel::Assignment { node, .. } => Some(node),
            EventModel::Addition { node, .. } => Some(node),
            EventModel::Equality { node, .. } => Some(node),
            EventModel::Conditional { node, .. } => Some(node),
            EventModel::PropertyAccess { node, .. } => Some(node),
            EventModel::DynamicPropertyAccess { node, .. } => Some(node),
            EventModel::ConsequentBody { .. } => None,
            EventModel::AlternateBody { .. } => None,
            EventModel::AfterIf { .. } => None,
            EventModel::Identifier { node, .. } => Some(node),
            EventModel::Literal { node, .. } => Some(node),
            EventModel::Array { node, .. } => Some(node),
            EventModel::Sequence { node, .. } => Some(node),
            EventModel::This { node } => Some(node),
            EventModel::PreOrPostFix { node, .. } => Some(node),
            EventModel::Template { node } => Some(node),
            EventModel::FunctionCall { node, .. } => Some(node),
            EventModel::Spread { node, .. } => Some(node),
            EventModel::Object { node, .. } => Some(node),
            EventModel::Function { node, .. } => Some(node),
            EventModel::Class { node, .. } => Some(node),
        }
    }

    /// The nodes of the sub-expressions that the event's expression was walked into.
    pub open spec fn operands(self) -> Seq<ExpressionNodeStruct<'ast>> {
        match self {
            EventModel::Assignment { left, right, .. } => seq![left, right],
            EventModel::Addition { left, right, .. } => seq![left, right],
            EventModel::Equality { left, right, .. } => seq![left, right],
            EventModel::Conditional { test, consequent, alternate, .. } => seq![test, consequent, alternate],
            EventModel::PropertyAccess { object, .. } => seq![object],
            EventModel::DynamicPropertyAccess { object, property, .. } => seq![object, property],
            EventModel::ConsequentBody { test, .. } => seq![test],
            EventModel::AlternateBody { expression } => seq![expression],
            EventModel::AfterIf { expression } => seq![expression],
            EventModel::PreOrPostFix { operand, .. } => seq![operand],
            EventModel::FunctionCall { function, arguments, .. } => seq![function] + arguments,
            EventModel::Spread { argument, .. } => seq![argument],
            _ => Seq::empty(),
        }
    }
}

/// What walking an expression gives: its node, the events in order, and the
/// places of all nodes issued so far.
pub struct Traveled<'ast> {
    pub node: ExpressionNodeStruct<'ast>,
    pub events: Seq<EventModel<'ast>>,
    pub nodes: Seq<Location>,
}

/// What walking a list of expressions gives.
pub struct TraveledList<'ast> {
    pub list: Seq<ExpressionNodeStruct<'ast>>,
    pub events: Seq<EventModel<'ast>>,
    pub nodes: Seq<Location>,
}

/// The event of a binary expression, for the operators that have one.
pub open spec fn binary_events<'ast>(
    operator: OperatorKind,
    node: ExpressionNodeStruct<'ast>,
    left: ExpressionNodeStruct<'ast>,
    right: ExpressionNodeStruct<'ast>,
) -> Seq<EventModel<'ast>> {
    match operator {
        OperatorKind::Assign => seq![EventModel::Assignment { node, left, right }],
        OperatorKind::Addition => seq![EventModel::Addition { node, left, right }],
        OperatorKind::StrictEquality => seq![EventModel::Equality { node, left, right }],
        OperatorKind::StrictInequality => seq![EventModel::Equality { node, left, right }],
        _ => Seq::empty(),
    }
}

/// Walking `expression` when `nodes` are issued already: the sub-expressions come
/// first, from left to right, and then the expression itself.
pub open spec fn traveled<'ast>(expression: &'ast ExpressionNode, nodes: Seq<Location>) -> Traveled<'ast>
    decreases expression, 0nat,
{
    let place = expression.spec_location();
    match &expression.item {
        Expression::Binary { operator, left, right } => {
            let l = traveled(&**left, nodes);
            let r = traveled(&**right, l.nodes);
            let node = ExpressionNodeStruct::issued(&expression.item, place, r.nodes);
            Traveled {
                node,
                events: l.events + r.events + binary_events(*operator, node, l.node, r.node),
                nodes: r.nodes.push(place),
            }
        },
        Expression::Conditional { test, consequent, alternate } => {
            let t = traveled(&**test, nodes);
            let c = traveled(&**consequent, t.nodes);
            let a = traveled(&**alternate, c.nodes);
            let node = ExpressionNodeStruct::issued(&expression.item, place, a.nodes);
            Traveled {
                node,
                events: t.events + c.events + a.events + seq![
                    EventModel::Conditional { node, test: t.node, consequent: c.node, alternate: a.node },
                ],
                nodes: a.nodes.push(place),
            }
        },
        Expression::Member { object, property } => {
            let o = traveled(&**object, nodes);
            let name = StringNodeStruct::issued(*property, o.nodes);
            let named = o.nodes.push(property.spec_location());
            let node = ExpressionNodeStruct::issued(&expression.item, place, named);
            Traveled {
                node,
                events: o.events + seq![EventModel::PropertyAccess { node, object: o.node, property: name }],
                nodes: named.push(place),
            }
        },
        Expression::ComputedMember { object, property } => {
            let o = traveled(&**object, nodes);
            let p = traveled(&**property, o.nodes);
            let node = ExpressionNodeStruct::issued(&expression.item, place, p.nodes);
            Traveled {
                node,
                events: o.events + p.events + seq![
                    EventModel::DynamicPropertyAccess { node, object: o.node, property: p.node },
                ],
                nodes: p.nodes.push(place),
            }
        },
        Expression::Call { callee, arguments } => {
            let f = traveled(&**callee, nodes);
            let a = traveled_list(arguments, arguments@.len(), f.nodes);
            let node = ExpressionNodeStruct::issued(&expression.item, place, a.nodes);
            Traveled {
                node,
                events: f.events + a.events + seq![
                    EventModel::FunctionCall { node, function: f.node, arguments: a.list },
                ],
                nodes: a.nodes.push(place),
            }
        },
        Expression::Prefix { operator, operand } => {
            let o = traveled(&**operand, nodes);
            let node = ExpressionNodeStruct::issued(&expression.item, place, o.nodes);
            Traveled {
                node,
                events: o.events + seq![EventModel::PreOrPostFix { node, operand: o.node, operator: *operator }],
                nodes: o.nodes.push(place),
            }
        },
        Expression::Postfix { operator, operand } => {
            let o = traveled(&**operand, nodes);
            let node = ExpressionNodeStruct::issued(&expression.item, place, o.nodes);
            Traveled {
                node,
                events: o.events + seq![EventModel::PreOrPostFix { node, operand: o.node, operator: *operator }],
                nodes: o.nodes.push(place),
            }
        },
        Expression::Spread { argument } => {
            let a = traveled(&**argument, nodes);
            let node = ExpressionNodeStruct::issued(&expression.item, place, a.nodes);
            Traveled {
                node,
                events: a.events + seq![EventModel::Spread { node, argument: a.node }],
                nodes: a.nodes.push(place),
            }
        },
        Expression::TaggedTemplate { tag, quasi } => {
            let t = traveled(&**tag, nodes);
            let node = ExpressionNodeStruct::issued(&quasi.item, quasi.spec_location(), t.nodes);
            Traveled { node, events: t.events, nodes: t.nodes.push(quasi.spec_location()) }
        },
        _ => {
            let node = ExpressionNodeStruct::issued(&expression.item, place, nodes);
            Traveled { node, events: leaf_events(node), nodes: nodes.push(place) }
        },
    }
}

/// The event of an expression that is not walked into.
pub open spec fn leaf_events<'ast>(node: ExpressionNodeStruct<'ast>) -> Seq<EventModel<'ast>> {
    match node.expression {
        Expression::Identifier(identifier) => seq![EventModel::Identifier { node, identifier }],
        Expression::Literal(literal) => seq![EventModel::Literal { node, literal }],
        Expression::Array(expression) => seq![EventModel::Array { node, expression }],
        Expression::Sequence(sequence) => seq![EventModel::Sequence { node, sequence }],
        Expression::This => seq![EventModel::This { node }],
        Expression::Template => seq![EventModel::Template { node }],
        Expression::Object(expression) => seq![EventModel::Object { node, expression }],
        Expression::Arrow { params, body } => seq![
            EventModel::Function { node, params, body: AstFunctionBody::of(body) },
        ],
        Expression::Function { params, body, .. } => seq![
            EventModel::Function { node, params, body: AstFunctionBody::StatementBlock(body) },
        ],
        Expression::Class(class_expression) => seq![EventModel::Class { node, class_expression }],
        _ => Seq::empty(),
    }
}

/// Walking the first `count` of `items`, one after the other.
pub open spec fn traveled_list<'ast>(items: &'ast Vec<ExpressionNode>, count: nat, nodes: Seq<Location>) -> TraveledList<
    'ast,
>
    decreases items, count,
{
    if count == 0 || count > items@.len() {
        TraveledList { list: Seq::empty(), events: Seq::empty(), nodes }
    } else {
        let before = traveled_list(items, (count - 1) as nat, nodes);
        let last = traveled(&items@[count - 1], before.nodes);
        TraveledList { list: before.list.push(last.node), events: before.events + last.events, nodes: last.nodes }
    }
}

/// The events of a statement, and the places of all nodes issued so far.
pub open spec fn traveled_statement<'ast>(statement: &'ast Statement, nodes: Seq<Location>) -> (
    Seq<EventModel<'ast>>,
    Seq<Location>,
)
    decreases statement, 0nat,
{
    match statement {
        Statement::Expression(expression) => {
            let e = traveled(expression, nodes);
            (e.events, e.nodes)
        },
        Statement::If { test, consequent, alternate } => {
            let t = traveled(test, nodes);
            (
                t.events + seq![EventModel::ConsequentBody { test: t.node, statement: &**consequent }] + (
                if alternate is Some {
                    seq![EventModel::AlternateBody { expression: t.node }]
                } else {
                    Seq::empty()
                }) + seq![EventModel::AfterIf { expression: t.node }],
                t.nodes,
            )
        },
        Statement::Block(statements) => traveled_statements(statements, statements@.len(), nodes),
        _ => (Seq::empty(), nodes),
    }
}

/// The events of the first `count` of `statements`, one after the other.
pub open spec fn traveled_statements<'ast>(statements: &'ast Vec<Statement>, count: nat, nodes: Seq<Location>) -> (
    Seq<EventModel<'ast>>,
    Seq<Location>,
)
    decreases statements, count,
{
    if count == 0 || count > statements@.len() {
        (Seq::empty(), nodes)
    } else {
        let before = traveled_statements(statements, (count - 1) as nat, nodes);
        let last = traveled_statement(&statements@[count - 1], before.1);
        (before.0 + last.0, last.1)
    }
}

/// Appends `event` to the record.
fn record<'ast>(events: &mut Vec<AstEvent<'ast>>, event: AstEvent<'ast>)
    ensures
        event_models(final(events)@) == event_models(old(events)@).push(event@),
{
    events.push(event);
    assert(event_models(events@) =~= event_models(old(events)@).push(event@));
}

/// Walks `expression` and appends its events to the record.
#[verifier::loop_isolation(false)]
fn travel_into<'ast>(
    expression: &'ast ExpressionNode,
    nodes: &mut Owner<Location>,
    events: &mut Vec<AstEvent<'ast>>,
) -> (node: ExpressionNodeStruct<'ast>)
    ensures
        node == traveled(expression, old(nodes).proteges()).node,
        final(nodes).proteges() == traveled(expression, old(nodes).proteges()).nodes,
        event_models(final(events)@) == event_models(old(events)@) + traveled(
            expression,
            old(nodes).proteges(),
        ).events,
    decreases expression, 0nat,
{
    let ghost start = event_models(events@);
    let ghost expected = traveled(expression, nodes.proteges());
    match &expression.item {
        Expression::Binary { operator, left, right } => {
            let l = travel_into(left, nodes, events);
            let r = travel_into(right, nodes, events);
            let node = ExpressionNodeStruct::from(expression, nodes);
            match operator {
                OperatorKind::Assign => record(events, AstEvent::Assignment { node, left: l, right: r }),
                OperatorKind::Addition => record(events, AstEvent::Addition { node, left: l, right: r }),
                OperatorKind::StrictEquality => record(events, AstEvent::Equality { node, left: l, right: r }),
                OperatorKind::StrictInequality => record(events, AstEvent::Equality { node, left: l, right: r }),
                _ => {},
            }
            assert(event_models(events@) =~= start + expected.events);
            node
        },
        Expression::Conditional { test, consequent, alternate } => {
            let t = travel_into(test, nodes, events);
            let c = travel_into(consequent, nodes, events);
            let a = travel_into(alternate, nodes, events);
            let node = ExpressionNodeStruct::from(expression, nodes);
            record(events, AstEvent::Conditional { node, test: t, consequent: c, alternate: a });
            assert(event_models(events@) =~= start + expected.events);
            node
        },
        Expression::Member { object, property } => {
            let o = travel_into(object, nodes, events);
            let name = StringNodeStruct::from(property, nodes);
            let node = ExpressionNodeStruct::from(expression, nodes);
            record(events, AstEvent::PropertyAccess { node, object: o, property: name });
            assert(event_models(events@) =~= start + expected.events);
            node
        },
        Expression::ComputedMember { object, property } => {
            let o = travel_into(object, nodes, events);
            let p = travel_into(property, nodes, events);
            let node = ExpressionNodeStruct::from(expression, nodes);
            record(events, AstEvent::DynamicPropertyAccess { node, object: o, property: p });
            assert(event_models(events@) =~= start + expected.events);
            node
        },
        Expression::Call { callee, arguments } => {
            let function = travel_into(callee, nodes, events);
            let ghost middle = nodes.proteges();
            let ghost after_callee = event_models(events@);
            let mut list: Vec<ExpressionNodeStruct<'ast>> = Vec::new();
            let mut i: usize = 0;
            while i < arguments.len()
                invariant
                    i <= arguments.len(),
                    list@ == traveled_list(arguments, i as nat, middle).list,
                    nodes.proteges() == traveled_list(arguments, i as nat, middle).nodes,
                    event_models(events@) == after_callee + traveled_list(arguments, i as nat, middle).events,
                decreases arguments.len() - i,
            {
                let ghost before = traveled_list(arguments, i as nat, middle);
                let argument = travel_into(&arguments[i], nodes, events);
                list.push(argument);
                i += 1;
                assert(event_models(events@) =~= after_callee + traveled_list(arguments, i as nat, middle).events);
            }
            let node = ExpressionNodeStruct::from(expression, nodes);
            record(events, AstEvent::FunctionCall { node, function, arguments: list });
            assert(event_models(events@) =~= start + expected.events);
            node
        },
        Expression::Prefix { operator, operand } => {
            let o = travel_into(operand, nodes, events);
            let node = ExpressionNodeStruct::from(expression, nodes);
            record(events, AstEvent::PreOrPostFix { node, operand: o, operator: *operator });
            assert(event_models(events@) =~= start + expected.events);
            node
        },
        Expression::Postfix { operator, operand } => {
            let o = travel_into(operand, nodes, events);
            let node = ExpressionNodeStruct::from(expression, nodes);
            record(events, AstEvent::PreOrPostFix { node, operand: o, operator: *operator });
            assert(event_models(events@) =~= start + expected.events);
            node
        },
        Expression::Spread { argument } => {
            let a = travel_into(argument, nodes, events);
            let node = ExpressionNodeStruct::from(expression, nodes);
            record(events, AstEvent::Spread { node, argument: a });
            assert(event_models(events@) =~= start + expected.events);
            node
        },
        Expression::TaggedTemplate { tag, quasi } => {
            let _tag = travel_into(tag, nodes, events);
            ExpressionNodeStruct::from(quasi, nodes)
        },
        Expression::Identifier(identifier) => {
            let node = ExpressionNodeStruct::from(expression, nodes);
            record(events, AstEvent::Identifier { node, identifier });
            assert(event_models(events@) =~= start + expected.events);
            node
        },
        Expression::Literal(literal) => {
            let node = ExpressionNodeStruct::from(expression, nodes);
            record(events, AstEvent::Literal { node, literal });
            assert(event_models(events@) =~= start + expected.events);
            node
        },
        Expression::Array(items) => {
            let node = ExpressionNodeStruct::from(expression, nodes);
            record(events, AstEvent::Array { node, expression: items });
            assert(event_models(events@) =~= start + expected.events);
            node
        },
        Expression::Sequence(sequence) => {
            let node = ExpressionNodeStruct::from(expression, nodes);
            record(events, AstEvent::Sequence { node, sequence });
            assert(event_models(events@) =~= start + expected.events);
            node
        },
        Expression::This => {
            let node = ExpressionNodeStruct::from(expression, nodes);
            record(events, AstEvent::This { node });
            assert(event_models(events@) =~= start + expected.events);
            node
        },
        Expression::Template => {
            let node = ExpressionNodeStruct::from(expression, nodes);
            record(events, AstEvent::Template { node });
            assert(event_models(events@) =~= start + expected.events);
            node
        },
        Expression::Object(properties) => {
            let node = ExpressionNodeStruct::from(expression, nodes);
            record(events, AstEvent::Object { node, expression: properties });
            assert(event_models(events@) =~= start + expected.events);
            node
        },
        Expression::Arrow { params, body } => {
            let node = ExpressionNodeStruct::from(expression, nodes);
            record(events, AstEvent::Function { node, params, body: AstFunctionBody::from(body) });
            assert(event_models(events@) =~= start + expected.events);
            node
        },
        Expression::Function { params, body, .. } => {
            let node = ExpressionNodeStruct::from(expression, nodes);
            record(events, AstEvent::Function { node, params, body: AstFunctionBody::StatementBlock(body) });
            assert(event_models(events@) =~= start + expected.events);
            node
        },
        Expression::Class(class_expression) => {
            let node = ExpressionNodeStruct::from(expression, nodes);
            record(events, AstEvent::Class { node, class_expression });
            assert(event_models(events@) =~= start + expected.events);
            node
        },
        Expression::Void => {
            let node = ExpressionNodeStruct::from(expression, nodes);
            assert(event_models(events@) =~= start + expected.events);
            node
        },
    }
}

/// Walks `expression`: its node, and the events of its sub-expressions and of itself,
/// sub-expressions first.
pub fn travel_expression<'ast>(expression: &'ast ExpressionNode, nodes: &mut Owner<Location>) -> (r: (
    ExpressionNodeStruct<'ast>,
    Vec<AstEvent<'ast>>,
))
    ensures
        r.0 == traveled(expression, old(nodes).proteges()).node,
        event_models(r.1@) == traveled(expression, old(nodes).proteges()).events,
        final(nodes).proteges() == traveled(expression, old(nodes).proteges()).nodes,
{
    let mut events: Vec<AstEvent<'ast>> = Vec::new();
    let node = travel_into(expression, nodes, &mut events);
    assert(event_models(events@) =~= traveled(expression, old(nodes).proteges()).events);
    (node, events)
}

/// Walks `statement` and appends its events to the record.
#[verifier::loop_isolation(false)]
fn travel_statement_into<'ast>(
    statement: &'ast Statement,
    nodes: &mut Owner<Location>,
    events: &mut Vec<AstEvent<'ast>>,
)
    ensures
        final(nodes).proteges() == traveled_statement(statement, old(nodes).proteges()).1,
        event_models(final(events)@) == event_models(old(events)@) + traveled_statement(
            statement,
            old(nodes).proteges(),
        ).0,
    decreases statement, 0nat,
{
    let ghost start = event_models(events@);
    let ghost expected = traveled_statement(statement, nodes.proteges());
    match statement {
        Statement::Expression(expression) => {
            let _node = travel_into(expression, nodes, events);
        },
        Statement::If { test, consequent, alternate } => {
            let node = travel_into(test, nodes, events);
            record(events, AstEvent::ConsequentBody { test: node, statement: &**consequent });
            if alternate.is_some() {
                record(events, AstEvent::AlternateBody { expression: node });
            }
            record(events, AstEvent::AfterIf { expression: node });
            assert(event_models(events@) =~= start + expected.0);
        },
        Statement::Block(statements) => {
            let ghost first = nodes.proteges();
            let mut i: usize = 0;
            assert(event_models(events@) =~= start + traveled_statements(statements, 0, first).0);
            while i < statements.len()
                invariant
                    i <= statements.len(),
                    nodes.proteges() == traveled_statements(statements, i as nat, first).1,
                    event_models(events@) == start + traveled_statements(statements, i as nat, first).0,
                decreases statements.len() - i,
            {
                travel_statement_into(&statements[i], nodes, events);
                i += 1;
                assert(event_models(events@) =~= start + traveled_statements(statements, i as nat, first).0);
            }
        },
        _ => {
            assert(event_models(events@) =~= start + expected.0);
        },
    }
}

/// The events of `statement`, in source order.
pub fn travel_ast_statement<'ast>(statement: &'ast Statement, nodes: &mut Owner<Location>) -> (r: Vec<
    AstEvent<'ast>,
>)
    ensures
        event_models(r@) == traveled_statement(statement, old(nodes).proteges()).0,
        final(nodes).proteges() == traveled_statement(statement, old(nodes).proteges()).1,
{
    let mut events: Vec<AstEvent<'ast>> = Vec::new();
    travel_statement_into(statement, nodes, &mut events);
    assert(event_models(events@) =~= traveled_statement(statement, old(nodes).proteges()).0);
    events
}

/// The events of a list of statements, in source order.
pub fn travel_ast<'ast>(ast: &'ast Vec<Statement>, nodes: &mut Owner<Location>) -> (r: Vec<AstEvent<'ast>>)
    ensures
        event_models(r@) == traveled_statements(ast, ast@.len(), old(nodes).proteges()).0,
        final(nodes).proteges() == traveled_statements(ast, ast@.len(), old(nodes).proteges()).1,
{
    let ghost first = nodes.proteges();
    let mut events: Vec<AstEvent<'ast>> = Vec::new();
    let mut i: usize = 0;
    assert(event_models(events@) =~= traveled_statements(ast, 0, first).0);
    while i < ast.len()
        invariant
            i <= ast.len(),
            nodes.proteges() == traveled_statements(ast, i as nat, first).1,
            event_models(events@) == traveled_statements(ast, i as nat, first).0,
        decreases ast.len() - i,
    {
        travel_statement_into(&ast[i], nodes, &mut events);
        i += 1;
    }
    events
}

} // verus!
