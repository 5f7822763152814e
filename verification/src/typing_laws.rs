use vstd::prelude::*;
use crate::ast::{Expression, ExpressionNode, Property};
use crate::custom_type::CustomTypeObject;
use crate::expressions::{properties_typed, property_typed, typed, typed_list};
use crate::scope::ScopeRef;
use crate::store::StoreModel;

verus! {

/// A store that holds all of a store that holds all of a third holds all of the third.
pub proof fn lemma_extends_goes_on(last: StoreModel, middle: StoreModel, first: StoreModel)
    requires
        last.extends(middle),
        middle.extends(first),
    ensures
        last.extends(first),
{
    assert forall|h: int| 0 <= h < first.objects.len() implies #[trigger] last.objects[h] == first.objects[h] by {
        assert(middle.objects[h] == first.objects[h]);
    }
    assert forall|h: int| 0 <= h < first.functions.len() implies #[trigger] last.functions[h]
        == first.functions[h] by {
        assert(middle.functions[h] == first.functions[h]);
    }
    assert forall|h: int| 0 <= h < first.variables.len() implies #[trigger] last.variables[h]
        == first.variables[h] by {
        assert(middle.variables[h] == first.variables[h]);
    }
    assert forall|h: int| 0 <= h < first.scopes.len() implies #[trigger] last.scopes[h] == first.scopes[h] by {
        assert(middle.scopes[h] == first.scopes[h]);
    }
}

/// Building a class adds its two aggregates and changes nothing that was there.
pub proof fn lemma_class_built_extends(store: StoreModel, name: Option<String>, parent: Option<CustomTypeObject>)
    requires
        store.class_built(name, parent).0.fits(),
    ensures
        store.class_built(name, parent).0.extends(store),
{
}

/// Typing changes nothing that is in the store: all that was there is there
/// afterwards, behind the same handles, and what typing adds comes behind it.
pub proof fn lemma_typed_extends(store: StoreModel, scope: ScopeRef, expression: Expression)
    requires
        typed(store, scope, expression).0.fits(),
    ensures
        typed(store, scope, expression).0.extends(store),
    decreases expression, 0nat,
{
    match expression {
        Expression::Array(items) => {
            lemma_typed_list_extends(store, scope, items@, items@.len());
        },
        Expression::Object(properties) => {
            lemma_properties_typed_extends(store, scope, properties@, properties@.len());
            let after = properties_typed(store, scope, properties@, properties@.len()).0;
            lemma_extends_goes_on(typed(store, scope, expression).0, after, store);
        },
        Expression::Member { object, property } => {
            lemma_typed_extends(store, scope, object.item);
        },
        Expression::ComputedMember { object, property } => {
            lemma_typed_extends(store, scope, object.item);
        },
        Expression::Conditional { test, consequent, alternate } => {
            let middle = typed(store, scope, alternate.item);
            if middle.1 is Ok {
                let after = typed(middle.0, scope, consequent.item);
                lemma_typed_extends(middle.0, scope, consequent.item);
                lemma_grows(middle.0, scope, consequent.item);
                lemma_typed_extends(store, scope, alternate.item);
                lemma_extends_goes_on(after.0, middle.0, store);
            } else {
                lemma_typed_extends(store, scope, alternate.item);
            }
        },
        Expression::Call { callee, arguments } => {
            let middle = typed(store, scope, callee.item);
            if middle.1 is Ok {
                let after = typed_list(middle.0, scope, arguments@, arguments@.len());
                lemma_typed_list_extends(middle.0, scope, arguments@, arguments@.len());
                lemma_list_grows(middle.0, scope, arguments@, arguments@.len());
                lemma_typed_extends(store, scope, callee.item);
                lemma_extends_goes_on(after.0, middle.0, store);
            } else {
                lemma_typed_extends(store, scope, callee.item);
            }
        },
        Expression::Sequence(items) => {
            if items@.len() > 0 {
                lemma_typed_extends(store, scope, items@[items@.len() - 1].item);
            }
        },
        Expression::TaggedTemplate { tag, .. } => {
            lemma_typed_extends(store, scope, tag.item);
        },
        Expression::Prefix { operand, .. } => {
            lemma_typed_extends(store, scope, operand.item);
        },
        Expression::Postfix { operand, .. } => {
            lemma_typed_extends(store, scope, operand.item);
        },
        Expression::Spread { argument } => {
            lemma_typed_extends(store, scope, argument.item);
        },
        Expression::Class(class) => {
            match class.extends {
                Some(parent) => {
                    let after = typed(store, scope, parent.item);
                    match after.1 {
                        Ok(found) => match CustomTypeObject::named_by(found) {
                            Some(aggregate) => {
                                lemma_class_built_extends(after.0, class.name, Some(aggregate));
                                lemma_typed_extends(store, scope, parent.item);
                                lemma_extends_goes_on(typed(store, scope, expression).0, after.0, store);
                            },
                            None => {
                                lemma_typed_extends(store, scope, parent.item);
                            },
                        },
                        Err(_) => {
                            lemma_typed_extends(store, scope, parent.item);
                        },
                    }
                },
                None => {
                    lemma_class_built_extends(store, class.name, None);
                },
            }
        },
        _ => {},
    }
}

/// Typing takes nothing away from the store.
pub proof fn lemma_grows(store: StoreModel, scope: ScopeRef, expression: Expression)
    ensures
        typed(store, scope, expression).0.no_smaller_than(store),
    decreases expression, 0nat,
{
    match expression {
        Expression::Array(items) => {
            lemma_list_grows(store, scope, items@, items@.len());
        },
        Expression::Object(properties) => {
            lemma_properties_grow(store, scope, properties@, properties@.len());
        },
        Expression::Member { object, property } => {
            lemma_grows(store, scope, object.item);
        },
        Expression::ComputedMember { object, property } => {
            lemma_grows(store, scope, object.item);
        },
        Expression::Conditional { test, consequent, alternate } => {
            lemma_grows(store, scope, alternate.item);
            lemma_grows(typed(store, scope, alternate.item).0, scope, consequent.item);
        },
        Expression::Call { callee, arguments } => {
            lemma_grows(store, scope, callee.item);
            lemma_list_grows(typed(store, scope, callee.item).0, scope, arguments@, arguments@.len());
        },
        Expression::Sequence(items) => {
            if items@.len() > 0 {
                lemma_grows(store, scope, items@[items@.len() - 1].item);
            }
        },
        Expression::TaggedTemplate { tag, .. } => {
            lemma_grows(store, scope, tag.item);
        },
        Expression::Prefix { operand, .. } => {
            lemma_grows(store, scope, operand.item);
        },
        Expression::Postfix { operand, .. } => {
            lemma_grows(store, scope, operand.item);
        },
        Expression::Spread { argument } => {
            lemma_grows(store, scope, argument.item);
        },
        Expression::Class(class) => {
            match class.extends {
                Some(parent) => {
                    lemma_grows(store, scope, parent.item);
                },
                None => {},
            }
        },
        _ => {},
    }
}

/// Typing a list takes nothing away from the store.
pub proof fn lemma_list_grows(store: StoreModel, scope: ScopeRef, items: Seq<ExpressionNode>, count: nat)
    ensures
        typed_list(store, scope, items, count).0.no_smaller_than(store),
    decreases items, count,
{
    if !(count == 0 || count > items.len()) {
        lemma_list_grows(store, scope, items, (count - 1) as nat);
        let before = typed_list(store, scope, items, (count - 1) as nat);
        if before.1 is Ok {
            lemma_grows(before.0, scope, items[count - 1].item);
        }
    }
}

/// Typing the members of an object literal takes nothing away from the store.
pub proof fn lemma_properties_grow(store: StoreModel, scope: ScopeRef, properties: Seq<Property>, count: nat)
    ensures
        properties_typed(store, scope, properties, count).0.no_smaller_than(store),
    decreases properties, count,
{
    if !(count == 0 || count > properties.len()) {
        lemma_properties_grow(store, scope, properties, (count - 1) as nat);
        let before = properties_typed(store, scope, properties, (count - 1) as nat);
        if before.1 is Ok {
            let after = property_typed(before.0, scope, properties[count - 1]);
            match properties[count - 1] {
                Property::Literal { key, value } => {
                    lemma_grows(before.0, scope, value.item);
                },
                _ => {},
            }
            assert(after.0.no_smaller_than(before.0));
        }
    }
}

/// Typing a list changes nothing that is in the store.
pub proof fn lemma_typed_list_extends(store: StoreModel, scope: ScopeRef, items: Seq<ExpressionNode>, count: nat)
    requires
        typed_list(store, scope, items, count).0.fits(),
    ensures
        typed_list(store, scope, items, count).0.extends(store),
    decreases items, count,
{
    if !(count == 0 || count > items.len()) {
        let before = typed_list(store, scope, items, (count - 1) as nat);
        if before.1 is Ok {
            lemma_grows(before.0, scope, items[count - 1].item);
            lemma_typed_list_extends(store, scope, items, (count - 1) as nat);
            lemma_typed_extends(before.0, scope, items[count - 1].item);
            lemma_extends_goes_on(typed_list(store, scope, items, count).0, before.0, store);
        } else {
            lemma_typed_list_extends(store, scope, items, (count - 1) as nat);
        }
    }
}

/// Typing the members of an object literal changes nothing that is in the store.
pub proof fn lemma_properties_typed_extends(store: StoreModel, scope: ScopeRef, properties: Seq<Property>, count: nat)
    requires
        properties_typed(store, scope, properties, count).0.fits(),
    ensures
        properties_typed(store, scope, properties, count).0.extends(store),
    decreases properties, count,
{
    if !(count == 0 || count > properties.len()) {
        let before = properties_typed(store, scope, properties, (count - 1) as nat);
        if before.1 is Ok {
            let after = property_typed(before.0, scope, properties[count - 1]);
            match properties[count - 1] {
                Property::Literal { key, value } => {
                    lemma_grows(before.0, scope, value.item);
                    lemma_typed_extends(before.0, scope, value.item);
                },
                _ => {},
            }
            assert(after.0.no_smaller_than(before.0));
            lemma_properties_grow(store, scope, properties, (count - 1) as nat);
            lemma_properties_typed_extends(store, scope, properties, (count - 1) as nat);
            lemma_extends_goes_on(after.0, before.0, store);
        } else {
            lemma_properties_typed_extends(store, scope, properties, (count - 1) as nat);
        }
    }
}

} // verus!
