use vstd::prelude::*;
use crate::change_trace::{in_force_at, traced_type, Change, ChangeTrace, TraceSet, TracedTypeChange};
use crate::search::{lemma_last_match_found, lemma_last_match_none};
use crate::location::Location;
use crate::traits::TracedChange;
use crate::types::{Ty, Type};

verus! {

/// How a variable was declared.
#[derive(Clone, Copy, Debug, PartialEq, Eq, Structural)]
pub enum VariableKind {
    Const,
    Let,
    Var,
}

/// A variable: its declared type and the reassignments traced since.
#[derive(Debug)]
pub struct Variable {
    name: String,
    current_type: Type,
    change_trace: ChangeTrace<TracedTypeChange>,
    kind: VariableKind,
}

/// The mathematical value of a [`Variable`].
pub struct VariableModel {
    pub name: Seq<char>,
    pub current_type: Ty,
    pub trace: Seq<Change<TracedTypeChange>>,
    pub kind: VariableKind,
}

impl VariableModel {
    /// The variable with one more reassignment in its trace.
    pub open spec fn changed(self, new_type: Ty, location: Location) -> VariableModel {
        VariableModel {
            trace: self.trace.push(Change { attribute: TracedTypeChange, loc: location, current_type: new_type }),
            ..self
        }
    }

    /// The type in force at byte `offset`: that of the last reassignment that starts
    /// at or before it, and the declared type where there is none.
    pub open spec fn effective_type(self, offset: u32) -> Ty {
        match traced_type(self.trace, offset) {
            Some(traced) => traced,
            None => self.current_type,
        }
    }
}

/// The last reassignment that starts at or before `offset` gives the variable
/// its type at `offset`.
pub proof fn lemma_last_reassignment_decides(variable: VariableModel, offset: u32, last: int)
    requires
        0 <= last < variable.trace.len(),
        variable.trace[last].loc.start <= offset,
        forall|later: int| last < later < variable.trace.len() ==> (#[trigger] variable.trace[later]).loc.start > offset,
    ensures
        variable.effective_type(offset) == variable.trace[last].current_type,
{
    let wanted = |change: Change<TracedTypeChange>| in_force_at(change, offset);
    assert(wanted(variable.trace[last]));
    assert forall|later: int| last < later < variable.trace.len() implies !wanted(
        #[trigger] variable.trace[later],
    ) by {}
    lemma_last_match_found(variable.trace, wanted, last);
}

/// Where no reassignment starts at or before `offset`, the variable has its
/// declared type at `offset`.
pub proof fn lemma_declared_type_decides(variable: VariableModel, offset: u32)
    requires
        forall|i: int| 0 <= i < variable.trace.len() ==> (#[trigger] variable.trace[i]).loc.start > offset,
    ensures
        variable.effective_type(offset) == variable.current_type,
{
    let wanted = |change: Change<TracedTypeChange>| in_force_at(change, offset);
    assert forall|i: int| 0 <= i < variable.trace.len() implies !wanted(#[trigger] variable.trace[i]) by {}
    lemma_last_match_none(variable.trace, wanted);
}

impl View for Variable {
    type V = VariableModel;

    closed spec fn view(&self) -> VariableModel {
        VariableModel {
            name: self.name@,
            current_type: self.current_type@,
            trace: self.change_trace@,
            kind: self.kind,
        }
    }
}

impl Variable {
    pub fn new(name: String, current_type: Type, kind: VariableKind) -> (r: Self)
        ensures
            r@ == (VariableModel { name: name@, current_type: current_type@, trace: Seq::empty(), kind }),
    {
        let r = Variable { name, current_type, kind, change_trace: ChangeTrace::new() };
        assert(r.change_trace@ =~= Seq::empty());
        r
    }

    /// The declared type.
    pub fn current_type(&self) -> (r: &Type)
        ensures
            r@ == self@.current_type,
    {
        &self.current_type
    }

    pub fn name(&self) -> (r: &str)
        ensures
            r@ == self@.name,
    {
        self.name.as_str()
    }

    pub fn kind(&self) -> (r: VariableKind)
        ensures
            r == self@.kind,
    {
        self.kind
    }

    /// The reassignments traced so far.
    pub fn change_trace(&self) -> (r: &ChangeTrace<TracedTypeChange>)
        ensures
            r@ == self@.trace,
    {
        &self.change_trace
    }

    /// The type that the variable has at the start of `location`.
    pub fn effective_type(&self, location: &Location) -> (r: Type)
        ensures
            r@ == self@.effective_type(location.start),
    {
        match self.change_trace.query(TracedTypeChange, location) {
            Some(entry) => entry.current_type.clone(),
            None => self.current_type.clone(),
        }
    }

    /// The variable's name, as an owned string.
    pub fn to_string(&self) -> (r: String)
        ensures
            r@ == self@.name,
    {
        self.name.clone()
    }
}

impl Clone for Variable {
    fn clone(&self) -> (r: Self)
        ensures
            r@ == self@,
    {
        Variable {
            name: self.name.clone(),
            current_type: self.current_type.clone(),
            change_trace: self.change_trace.clone(),
            kind: self.kind,
        }
    }
}

impl TracedChange<TracedTypeChange, Type, Location> for Variable {
    /// Appends a reassignment to the trace.
    fn change(&mut self, change: TracedTypeChange, new_type: Type, location: Location)
        ensures
            final(self)@ == old(self)@.changed(new_type@, location),
    {
        let ghost before = self.change_trace;
        self.change_trace.change(change, new_type, location);
        proof {
            ChangeTrace::lemma_change_view(
                before,
                self.change_trace,
                TraceSet { attribute: change, loc: location, current_type: new_type },
            );
        }
    }
}

/// The values of a list of variables.
pub open spec fn variable_models(variables: Seq<Variable>) -> Seq<VariableModel> {
    variables.map_values(|variable: Variable| variable@)
}

/// A copy of a list of variables.
pub fn clone_variables(variables: &Vec<Variable>) -> (r: Vec<Variable>)
    ensures
        variable_models(r@) == variable_models(variables@),
{
    let mut copy: Vec<Variable> = Vec::new();
    let mut i: usize = 0;
    while i < variables.len()
        invariant
            i <= variables.len(),
            copy@.len() == i,
            forall|j: int| 0 <= j < i ==> (#[trigger] copy@[j])@ == variables@[j]@,
        decreases variables.len() - i,
    {
        copy.push(variables[i].clone());
        i += 1;
    }
    assert(variable_models(copy@) =~= variable_models(variables@));
    copy
}

} // verus!
