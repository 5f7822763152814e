use vstd::prelude::*;
use crate::ast::{Declarator, Statement};
use crate::custom_type::CustomTypeObject;
use crate::error::{AnalysisError, Fault};
use crate::expressions::{determine_expression_type, typed};
use crate::scope::{ScopeModel, ScopeRef};
use crate::store::{Store, StoreModel};
use crate::tracing::faults;
use crate::types::{Ty, Type};
use crate::variable::{Variable, VariableKind, VariableModel};

verus! {

/// What a declaration walk gives: the store afterwards and all that went wrong, in order.
pub type Analyzed = (StoreModel, Seq<Fault>);

/// The variable that a declarator declares: it has the type of its initialiser,
/// `Undefined` without one, and an aggregate among these takes the variable's name.
pub open spec fn declared_variable(store: StoreModel, scope: ScopeRef, declarator: Declarator, kind: VariableKind) -> (
    StoreModel,
    Result<VariableModel, Fault>,
) {
    let found = match declarator.init {
        Some(init) => typed(store, scope, init.item),
        None => (store, Ok(Ty::Undefined)),
    };
    match found.1 {
        Ok(t) => (found.0.assign_name(t, declarator.name@), Ok(
            VariableModel { name: declarator.name@, current_type: t, trace: Seq::empty(), kind },
        )),
        Err(fault) => (found.0, Err(fault)),
    }
}

/// The store once `variable` was declared in `scope`, with its aggregate, if its
/// type is one.
pub open spec fn with_declaration(store: StoreModel, scope: ScopeRef, variable: VariableModel) -> StoreModel {
    match CustomTypeObject::named_by(variable.current_type) {
        Some(aggregate) => store.type_added(scope, aggregate).added(scope, variable),
        None => store.added(scope, variable),
    }
}

/// The walk over the first `count` declarators of one declaration.
pub open spec fn analyzed_declarators(
    store: StoreModel,
    scope: ScopeRef,
    kind: VariableKind,
    declarators: Seq<Declarator>,
    count: nat,
) -> Analyzed
    decreases count,
{
    if count == 0 || count > declarators.len() {
        (store, Seq::empty())
    } else {
        let before = analyzed_declarators(store, scope, kind, declarators, (count - 1) as nat);
        match declared_variable(before.0, scope, declarators[count - 1], kind) {
            (after, Ok(variable)) => (with_declaration(after, scope, variable), before.1),
            (after, Err(fault)) => (after, before.1.push(fault)),
        }
    }
}

/// The walk over the first `count` statements of `body`: every declaration among
/// them declares its variables in `scope`.
pub open spec fn analyzed_statements(store: StoreModel, scope: ScopeRef, body: Seq<Statement>, count: nat) -> Analyzed
    decreases count,
{
    if count == 0 || count > body.len() {
        (store, Seq::empty())
    } else {
        let before = analyzed_statements(store, scope, body, (count - 1) as nat);
        match body[count - 1] {
            Statement::Declaration { kind, declarators } => {
                let after = analyzed_declarators(before.0, scope, kind, declarators@, declarators@.len());
                (after.0, before.1 + after.1)
            },
            _ => before,
        }
    }
}

/// The declaration walk over `body`: a new scope `ModuleScope` inside `root`, with
/// the variables that the declarations of `body` declare.
pub open spec fn analyzed(store: StoreModel, root: ScopeRef, body: Seq<Statement>) -> Analyzed {
    analyzed_statements(
        store.with_scope(ScopeModel::empty("ModuleScope"@, Some(root))),
        store.scopes.len() as usize,
        body,
        body.len(),
    )
}

/// The variable that `declaration` declares.
pub fn analyze_declaration(declaration: &Declarator, kind: VariableKind, scope: ScopeRef, store: &mut Store) -> (r:
    Result<Variable, AnalysisError>)
    ensures
        final(store)@ == declared_variable(old(store)@, scope, *declaration, kind).0,
        match r {
            Ok(variable) => declared_variable(old(store)@, scope, *declaration, kind).1 == Ok::<
                VariableModel,
                Fault,
            >(variable@),
            Err(error) => declared_variable(old(store)@, scope, *declaration, kind).1 == Err::<
                VariableModel,
                Fault,
            >(error@),
        },
{
    let variable_type = match &declaration.init {
        Some(value) => match determine_expression_type(&value.item, scope, store) {
            Ok(found) => found,
            Err(error) => {
                return Err(error);
            },
        },
        None => Type::Undefined,
    };
    variable_type.assign_name(declaration.name.as_str(), store);
    Ok(Variable::new(declaration.name.clone(), variable_type, kind))
}

/// Declares `variable` in `scope`, with its aggregate, if its type is one.
pub fn declare_variable(variable: Variable, scope: ScopeRef, store: &mut Store)
    ensures
        final(store)@ == with_declaration(old(store)@, scope, variable@),
{
    match CustomTypeObject::of_type(variable.current_type()) {
        Some(aggregate) => store.add_type(scope, aggregate),
        None => {},
    }
    store.add(scope, variable);
}

/// Walks the declarations of `body` and declares their variables in a new scope
/// `ModuleScope` inside `static_root_scope`. Returns the new scope and what went wrong.
pub fn analyze_ast(body: &Vec<Statement>, static_root_scope: ScopeRef, store: &mut Store) -> (r: (
    ScopeRef,
    Vec<AnalysisError>,
))
    ensures
        r.0 == old(store)@.scopes.len(),
        (final(store)@, faults(r.1@)) == analyzed(old(store)@, static_root_scope, body@),
{
    let module_scope = store.new_scope("ModuleScope".to_owned(), Some(static_root_scope));
    let ghost start = store@;
    let mut scope_errors: Vec<AnalysisError> = Vec::new();
    let mut i: usize = 0;
    assert(faults(scope_errors@) =~= Seq::empty());
    while i < body.len()
        invariant
            i <= body.len(),
            (store@, faults(scope_errors@)) == analyzed_statements(start, module_scope, body@, i as nat),
        decreases body.len() - i,
    {
        match &body[i] {
            Statement::Declaration { kind, declarators } => {
                let ghost middle = store@;
                let ghost before = faults(scope_errors@);
                let mut j: usize = 0;
                assert(faults(scope_errors@) =~= before + Seq::<Fault>::empty());
                while j < declarators.len()
                    invariant
                        j <= declarators.len(),
                        store@ == analyzed_declarators(middle, module_scope, *kind, declarators@, j as nat).0,
                        faults(scope_errors@) == before + analyzed_declarators(
                            middle,
                            module_scope,
                            *kind,
                            declarators@,
                            j as nat,
                        ).1,
                    decreases declarators.len() - j,
                {
                    let ghost so_far = faults(scope_errors@);
                    match analyze_declaration(&declarators[j], *kind, module_scope, store) {
                        Ok(variable) => declare_variable(variable, module_scope, store),
                        Err(error) => {
                            scope_errors.push(error);
                            assert(faults(scope_errors@) =~= so_far.push(error@));
                        },
                    }
                    j += 1;
                    assert(faults(scope_errors@) =~= before + analyzed_declarators(
                        middle,
                        module_scope,
                        *kind,
                        declarators@,
                        j as nat,
                    ).1);
                }
            },
            _ => {},
        }
        i += 1;
    }
    (module_scope, scope_errors)
}

} // verus!
