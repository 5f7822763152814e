use vstd::prelude::*;
use crate::ast::{Expression, ExpressionNode};
use crate::location::Location;
use crate::traveler::{binary_events, leaf_events, traveled, traveled_list, EventModel};

verus! {

/// Whether the nodes of `event` were issued between `low` and `high`, the operands
/// before the event's own node.
pub open spec fn in_band(event: EventModel, low: nat, high: nat) -> bool {
    &&& forall|k: int| 0 <= k < event.operands().len() ==> low <= (#[trigger] event.operands()[k]).id < high
    &&& match event.own_node() {
        Some(node) => {
            &&& low <= node.id < high
            &&& forall|k: int| 0 <= k < event.operands().len() ==> (#[trigger] event.operands()[k]).id < node.id
        },
        None => true,
    }
}

/// Whether all of `events` are in the band from `low` to `high`.
pub open spec fn all_in_band(events: Seq<EventModel>, low: nat, high: nat) -> bool {
    forall|i: int| 0 <= i < events.len() ==> in_band(#[trigger] events[i], low, high)
}

/// Whether the events' own nodes were issued in the order of the events.
pub open spec fn in_issue_order(events: Seq<EventModel>) -> bool {
    forall|i: int, j: int|
        0 <= i < j < events.len() ==> match ((#[trigger] events[i]).own_node(), (#[trigger] events[j]).own_node()) {
            (Some(first), Some(second)) => first.id < second.id,
            _ => true,
        }
}

/// Events of an earlier band, followed by events of a later one, are in issue order.
pub proof fn lemma_bands_in_a_row(
    first: Seq<EventModel>,
    second: Seq<EventModel>,
    low: nat,
    middle: nat,
    high: nat,
)
    requires
        low <= middle <= high,
        all_in_band(first, low, middle),
        in_issue_order(first),
        all_in_band(second, middle, high),
        in_issue_order(second),
    ensures
        all_in_band(first + second, low, high),
        in_issue_order(first + second),
{
    let both = first + second;
    assert forall|i: int| 0 <= i < both.len() implies in_band(#[trigger] both[i], low, high) by {
        if i < first.len() {
            assert(both[i] == first[i]);
            assert(in_band(first[i], low, middle));
        } else {
            assert(both[i] == second[i - first.len()]);
            assert(in_band(second[i - first.len()], middle, high));
        }
    }
    assert forall|i: int, j: int| 0 <= i < j < both.len() implies match (
        (#[trigger] both[i]).own_node(),
        (#[trigger] both[j]).own_node(),
    ) {
        (Some(a), Some(b)) => a.id < b.id,
        _ => true,
    } by {
        if j < first.len() {
            assert(both[i] == first[i] && both[j] == first[j]);
        } else if i >= first.len() {
            assert(both[i] == second[i - first.len()] && both[j] == second[j - first.len()]);
        } else {
            assert(both[i] == first[i] && both[j] == second[j - first.len()]);
            assert(in_band(first[i], low, middle));
            assert(in_band(second[j - first.len()], middle, high));
        }
    }
}

/// One event in a band is in issue order.
pub proof fn lemma_one_event(event: EventModel, low: nat, high: nat)
    requires
        in_band(event, low, high),
    ensures
        all_in_band(seq![event], low, high),
        in_issue_order(seq![event]),
{
}

/// An event in a narrow band is in every band around it.
pub proof fn lemma_wider_band(events: Seq<EventModel>, low: nat, high: nat, lower: nat, higher: nat)
    requires
        lower <= low,
        high <= higher,
        all_in_band(events, low, high),
    ensures
        all_in_band(events, lower, higher),
{
    assert forall|i: int| 0 <= i < events.len() implies in_band(#[trigger] events[i], lower, higher) by {
        assert(in_band(events[i], low, high));
    }
}

/// Walking an expression issues its nodes in the order of the events: every event's
/// own node is issued once, after the nodes of all earlier events and after the
/// nodes of its own operands. So each walked sub-expression has at most one event,
/// and the event of an expression comes after the events of its sub-expressions.
pub proof fn lemma_travel_order(expression: &ExpressionNode, nodes: Seq<Location>)
    requires
        traveled(expression, nodes).nodes.len() <= usize::MAX,
    ensures
        nodes.len() < traveled(expression, nodes).nodes.len(),
        traveled(expression, nodes).node.id == traveled(expression, nodes).nodes.len() - 1,
        all_in_band(traveled(expression, nodes).events, nodes.len(), traveled(expression, nodes).nodes.len()),
        in_issue_order(traveled(expression, nodes).events),
    decreases expression, 0nat,
{
    let t = traveled(expression, nodes);
    let low = nodes.len();
    let high = t.nodes.len();
    match &expression.item {
        Expression::Binary { operator, left, right } => {
            let l = traveled(&**left, nodes);
            let r = traveled(&**right, l.nodes);
            lemma_grows(&**right, l.nodes);
            lemma_travel_order(&**left, nodes);
            lemma_travel_order(&**right, l.nodes);
            lemma_bands_in_a_row(l.events, r.events, low, l.nodes.len(), r.nodes.len());
            let own = binary_events(*operator, t.node, l.node, r.node);
            lemma_own_event_last(l.events + r.events, own, low, r.nodes.len(), high);
        },
        Expression::Conditional { test, consequent, alternate } => {
            let a = traveled(&**test, nodes);
            let b = traveled(&**consequent, a.nodes);
            let c = traveled(&**alternate, b.nodes);
            lemma_grows(&**alternate, b.nodes);
            lemma_grows(&**consequent, a.nodes);
            lemma_travel_order(&**test, nodes);
            lemma_travel_order(&**consequent, a.nodes);
            lemma_travel_order(&**alternate, b.nodes);
            lemma_bands_in_a_row(a.events, b.events, low, a.nodes.len(), b.nodes.len());
            lemma_bands_in_a_row(a.events + b.events, c.events, low, b.nodes.len(), c.nodes.len());
            let own = seq![EventModel::Conditional { node: t.node, test: a.node, consequent: b.node, alternate: c.node }];
            lemma_own_event_last(a.events + b.events + c.events, own, low, c.nodes.len(), high);
        },
        Expression::Member { object, property } => {
            let o = traveled(&**object, nodes);
            lemma_travel_order(&**object, nodes);
            let own = t.events.subrange(o.events.len() as int, t.events.len() as int);
            assert(t.events =~= o.events + own);
            assert(own.len() == 1);
            lemma_own_event_last(o.events, own, low, o.nodes.len(), high);
        },
        Expression::ComputedMember { object, property } => {
            let o = traveled(&**object, nodes);
            let p = traveled(&**property, o.nodes);
            lemma_grows(&**property, o.nodes);
            lemma_travel_order(&**object, nodes);
            lemma_travel_order(&**property, o.nodes);
            lemma_bands_in_a_row(o.events, p.events, low, o.nodes.len(), p.nodes.len());
            let own = seq![EventModel::DynamicPropertyAccess { node: t.node, object: o.node, property: p.node }];
            lemma_own_event_last(o.events + p.events, own, low, p.nodes.len(), high);
        },
        Expression::Call { callee, arguments } => {
            let f = traveled(&**callee, nodes);
            let a = traveled_list(arguments, arguments@.len(), f.nodes);
            lemma_list_grows(arguments, arguments@.len(), f.nodes);
            lemma_travel_order(&**callee, nodes);
            lemma_list_order(arguments, arguments@.len(), f.nodes);
            lemma_bands_in_a_row(f.events, a.events, low, f.nodes.len(), a.nodes.len());
            let own = seq![EventModel::FunctionCall { node: t.node, function: f.node, arguments: a.list }];
            assert forall|k: int| 0 <= k < own[0].operands().len() implies low <= (#[trigger] own[0].operands()[k]).id
                < t.node.id by {
                if k > 0 {
                    assert(own[0].operands()[k] == a.list[k - 1]);
                }
            }
            lemma_own_event_last(f.events + a.events, own, low, a.nodes.len(), high);
        },
        Expression::Prefix { operator, operand } => {
            let o = traveled(&**operand, nodes);
            lemma_travel_order(&**operand, nodes);
            let own = seq![EventModel::PreOrPostFix { node: t.node, operand: o.node, operator: *operator }];
            lemma_own_event_last(o.events, own, low, o.nodes.len(), high);
        },
        Expression::Postfix { operator, operand } => {
            let o = traveled(&**operand, nodes);
            lemma_travel_order(&**operand, nodes);
            let own = seq![EventModel::PreOrPostFix { node: t.node, operand: o.node, operator: *operator }];
            lemma_own_event_last(o.events, own, low, o.nodes.len(), high);
        },
        Expression::Spread { argument } => {
            let o = traveled(&**argument, nodes);
            lemma_travel_order(&**argument, nodes);
            let own = seq![EventModel::Spread { node: t.node, argument: o.node }];
            lemma_own_event_last(o.events, own, low, o.nodes.len(), high);
        },
        Expression::TaggedTemplate { tag, quasi } => {
            let o = traveled(&**tag, nodes);
            lemma_travel_order(&**tag, nodes);
            lemma_wider_band(o.events, low, o.nodes.len(), low, high);
        },
        _ => {
            let own = leaf_events(t.node);
            if own.len() > 0 {
                assert(own =~= seq![own[0]]);
                lemma_one_event(own[0], low, high);
            } else {
                assert(own =~= Seq::empty());
            }
        },
    }
}

/// The event of an expression, put behind the events of its sub-expressions, keeps
/// the record in issue order.
pub proof fn lemma_own_event_last(before: Seq<EventModel>, own: Seq<EventModel>, low: nat, middle: nat, high: nat)
    requires
        low <= middle < high,
        all_in_band(before, low, middle),
        in_issue_order(before),
        own.len() <= 1,
        own.len() == 1 ==> in_band(own[0], low, high) && (own[0].own_node() matches Some(node) && middle <= node.id),
    ensures
        all_in_band(before + own, low, high),
        in_issue_order(before + own),
{
    let both = before + own;
    assert forall|i: int| 0 <= i < both.len() implies in_band(#[trigger] both[i], low, high) by {
        if i < before.len() {
            assert(both[i] == before[i]);
            assert(in_band(before[i], low, middle));
        } else {
            assert(both[i] == own[0]);
        }
    }
    assert forall|i: int, j: int| 0 <= i < j < both.len() implies match (
        (#[trigger] both[i]).own_node(),
        (#[trigger] both[j]).own_node(),
    ) {
        (Some(a), Some(b)) => a.id < b.id,
        _ => true,
    } by {
        if j < before.len() {
            assert(both[i] == before[i] && both[j] == before[j]);
        } else {
            assert(both[i] == before[i] && both[j] == own[0]);
            assert(in_band(before[i], low, middle));
        }
    }
}

/// Walking an expression issues at least one node and takes none back.
pub proof fn lemma_grows(expression: &ExpressionNode, nodes: Seq<Location>)
    ensures
        nodes.len() < traveled(expression, nodes).nodes.len(),
    decreases expression, 0nat,
{
    match &expression.item {
        Expression::Binary { operator, left, right } => {
            lemma_grows(&**left, nodes);
            lemma_grows(&**right, traveled(&**left, nodes).nodes);
        },
        Expression::Conditional { test, consequent, alternate } => {
            let a = traveled(&**test, nodes);
            let b = traveled(&**consequent, a.nodes);
            lemma_grows(&**test, nodes);
            lemma_grows(&**consequent, a.nodes);
            lemma_grows(&**alternate, b.nodes);
        },
        Expression::Member { object, property } => {
            lemma_grows(&**object, nodes);
        },
        Expression::ComputedMember { object, property } => {
            lemma_grows(&**object, nodes);
            lemma_grows(&**property, traveled(&**object, nodes).nodes);
        },
        Expression::Call { callee, arguments } => {
            lemma_grows(&**callee, nodes);
            lemma_list_grows(arguments, arguments@.len(), traveled(&**callee, nodes).nodes);
        },
        Expression::Prefix { operator, operand } => {
            lemma_grows(&**operand, nodes);
        },
        Expression::Postfix { operator, operand } => {
            lemma_grows(&**operand, nodes);
        },
        Expression::Spread { argument } => {
            lemma_grows(&**argument, nodes);
        },
        Expression::TaggedTemplate { tag, quasi } => {
            lemma_grows(&**tag, nodes);
        },
        _ => {},
    }
}

/// Walking a list of expressions takes no node back.
pub proof fn lemma_list_grows(items: &Vec<ExpressionNode>, count: nat, nodes: Seq<Location>)
    ensures
        nodes.len() <= traveled_list(items, count, nodes).nodes.len(),
        count <= items@.len() ==> traveled_list(items, count, nodes).list.len() == count,
    decreases items, count,
{
    if !(count == 0 || count > items@.len()) {
        lemma_list_grows(items, (count - 1) as nat, nodes);
        lemma_grows(&items@[count - 1], traveled_list(items, (count - 1) as nat, nodes).nodes);
    }
}

/// Walking a list of expressions issues the nodes in the order of the events.
pub proof fn lemma_list_order(items: &Vec<ExpressionNode>, count: nat, nodes: Seq<Location>)
    requires
        traveled_list(items, count, nodes).nodes.len() <= usize::MAX,
    ensures
        all_in_band(traveled_list(items, count, nodes).events, nodes.len(), traveled_list(items, count, nodes).nodes.len()),
        in_issue_order(traveled_list(items, count, nodes).events),
        forall|k: int|
            0 <= k < traveled_list(items, count, nodes).list.len() ==> nodes.len() <= (#[trigger] traveled_list(
                items,
                count,
                nodes,
            ).list[k]).id < traveled_list(items, count, nodes).nodes.len(),
    decreases items, count,
{
    if !(count == 0 || count > items@.len()) {
        let before = traveled_list(items, (count - 1) as nat, nodes);
        let last = traveled(&items@[count - 1], before.nodes);
        lemma_grows(&items@[count - 1], before.nodes);
        lemma_list_grows(items, (count - 1) as nat, nodes);
        lemma_list_order(items, (count - 1) as nat, nodes);
        lemma_travel_order(&items@[count - 1], before.nodes);
        lemma_bands_in_a_row(before.events, last.events, nodes.len(), before.nodes.len(), last.nodes.len());
    }
}

/// In the record of an expression, the event of a node comes before every event that
/// has the node as an operand.
pub proof fn lemma_children_come_first(
    expression: &ExpressionNode,
    nodes: Seq<Location>,
    parent: int,
    operand: int,
    child: int,
)
    requires
        traveled(expression, nodes).nodes.len() <= usize::MAX,
        0 <= parent < traveled(expression, nodes).events.len(),
        0 <= child < traveled(expression, nodes).events.len(),
        0 <= operand < traveled(expression, nodes).events[parent].operands().len(),
        traveled(expression, nodes).events[parent].own_node() is Some,
        traveled(expression, nodes).events[child].own_node() matches Some(node) && node.id == traveled(
            expression,
            nodes,
        ).events[parent].operands()[operand].id,
    ensures
        child < parent,
{
    lemma_travel_order(expression, nodes);
    let events = traveled(expression, nodes).events;
    let low = nodes.len();
    let high = traveled(expression, nodes).nodes.len();
    assert(in_band(events[parent], low, high));
    assert(events[parent].operands()[operand].id < events[parent].own_node()->Some_0.id);
    if parent < child {
        assert(events[parent].own_node()->Some_0.id < events[child].own_node()->Some_0.id);
    }
}

/// In the record of an expression, no node has two events.
pub proof fn lemma_one_event_per_node(expression: &ExpressionNode, nodes: Seq<Location>, first: int, second: int)
    requires
        traveled(expression, nodes).nodes.len() <= usize::MAX,
        0 <= first < traveled(expression, nodes).events.len(),
        0 <= second < traveled(expression, nodes).events.len(),
        traveled(expression, nodes).events[first].own_node() matches Some(node) && traveled(
            expression,
            nodes,
        ).events[second].own_node() == Some(node),
    ensures
        first == second,
{
    lemma_travel_order(expression, nodes);
    let events = traveled(expression, nodes).events;
    if first < second {
        assert(events[first].own_node()->Some_0.id < events[second].own_node()->Some_0.id);
    }
    if second < first {
        assert(events[second].own_node()->Some_0.id < events[first].own_node()->Some_0.id);
    }
}

/// Walking an expression of a kind that has an event ends with that event.
pub proof fn lemma_own_event_comes_last(expression: &ExpressionNode, nodes: Seq<Location>)
    requires
        has_event(expression.item),
    ensures
        traveled(expression, nodes).events.len() > 0,
        traveled(expression, nodes).events.last().own_node() == Some(traveled(expression, nodes).node),
{
}

/// Whether the traversal has an event for expressions of this kind.
pub open spec fn has_event(expression: Expression) -> bool {
    match expression {
        Expression::Void => false,
        Expression::TaggedTemplate { .. } => false,
        Expression::Binary { operator, .. } => operator == crate::ast::OperatorKind::Assign || operator
            == crate::ast::OperatorKind::Addition || operator == crate::ast::OperatorKind::StrictEquality || operator
            == crate::ast::OperatorKind::StrictInequality,
        _ => true,
    }
}

} // verus!
