use vstd::prelude::*;
use crate::location::Location;

verus! {

/// A failed lookup in a scope chain.
#[derive(Debug, PartialEq, Eq, Hash)]
pub enum ScopeError {
    UndefinedVariable { variable_name: String, scope_name: String },
}

/// A failed access to a property.
#[derive(Debug, PartialEq, Eq, Hash)]
pub enum AccessError {
    UndefinedProperty { object: String, property: String },
}

/// A type that cannot be used as the program uses it.
#[derive(Debug, PartialEq, Eq, Hash)]
pub enum TypeError {
    IncompatiblePrototype { prototype: String },
    NotFunction { subject: String },
    PrimitivePropertyWrite { subject: String, property: String },
}

/// Why an expression has no type, or a statement could not be traced.
#[derive(Debug, PartialEq, Eq, Hash)]
pub enum AnalysisError {
    Scope(ScopeError),
    Access(AccessError),
    Type(TypeError),
}

/// The mathematical value of an [`AnalysisError`].
pub enum Fault {
    UndefinedVariable { variable_name: Seq<char>, scope_name: Seq<char> },
    UndefinedProperty { object: Seq<char>, property: Seq<char> },
    IncompatiblePrototype { prototype: Seq<char> },
    NotFunction { subject: Seq<char> },
    PrimitivePropertyWrite { subject: Seq<char>, property: Seq<char> },
}

impl View for ScopeError {
    type V = Fault;

    open spec fn view(&self) -> Fault {
        match self {
            ScopeError::UndefinedVariable { variable_name, scope_name } => Fault::UndefinedVariable {
                variable_name: variable_name@,
                scope_name: scope_name@,
            },
        }
    }
}

impl View for AccessError {
    type V = Fault;

    open spec fn view(&self) -> Fault {
        match self {
            AccessError::UndefinedProperty { object, property } => Fault::UndefinedProperty {
                object: object@,
                property: property@,
            },
        }
    }
}

impl View for TypeError {
    type V = Fault;

    open spec fn view(&self) -> Fault {
        match self {
            TypeError::IncompatiblePrototype { prototype } => Fault::IncompatiblePrototype { prototype: prototype@ },
            TypeError::NotFunction { subject } => Fault::NotFunction { subject: subject@ },
            TypeError::PrimitivePropertyWrite { subject, property } => Fault::PrimitivePropertyWrite {
                subject: subject@,
                property: property@,
            },
        }
    }
}

impl View for AnalysisError {
    type V = Fault;

    open spec fn view(&self) -> Fault {
        match self {
            AnalysisError::Scope(error) => error@,
            AnalysisError::Access(error) => error@,
            AnalysisError::Type(error) => error@,
        }
    }
}

/// A diagnostic of the validation pass.
#[derive(Debug, PartialEq, Eq, Hash)]
pub enum ValidationError {
    UnknownProperty { object: String, property: String, location: Location },
    AssignTypeMismatch { target: String, location: Location, own_type: String, their_type: String },
    CompareTypeMismatch { left_type: String, right_type: String, location: Location },
    UndefinedVariable { variable_name: String, scope_name: String },
    InvalidType { expression: String, current_type: String, expected_type: String, location: Location },
    NonsensicalComparison { expression: String, location: Location },
}

/// The mathematical value of a [`ValidationError`].
pub enum Diagnostic {
    UnknownProperty { object: Seq<char>, property: Seq<char>, location: Location },
    AssignTypeMismatch { target: Seq<char>, location: Location, own_type: Seq<char>, their_type: Seq<char> },
    CompareTypeMismatch { left_type: Seq<char>, right_type: Seq<char>, location: Location },
    UndefinedVariable { variable_name: Seq<char>, scope_name: Seq<char> },
    InvalidType { expression: Seq<char>, current_type: Seq<char>, expected_type: Seq<char>, location: Location },
    NonsensicalComparison { expression: Seq<char>, location: Location },
}

impl Diagnostic {
    /// Where the diagnostic points. An undefined variable carries no place and
    /// points at the start of the source.
    pub open spec fn location(self) -> Location {
        match self {
            Diagnostic::UnknownProperty { location, .. } => location,
            Diagnostic::UndefinedVariable { .. } => Location { start: 0, end: 0, line: 0, column: 0 },
            Diagnostic::AssignTypeMismatch { location, .. } => location,
            Diagnostic::CompareTypeMismatch { location, .. } => location,
            Diagnostic::InvalidType { location, .. } => location,
            Diagnostic::NonsensicalComparison { location, .. } => location,
        }
    }

    /// The diagnostic that reports `fault` for the expression `source` at `location`.
    pub open spec fn of_fault(fault: Fault, source: Seq<char>, location: Location) -> Diagnostic {
        match fault {
            Fault::UndefinedVariable { variable_name, scope_name } => Diagnostic::UndefinedVariable {
                variable_name,
                scope_name,
            },
            Fault::UndefinedProperty { object, property } => Diagnostic::UnknownProperty { object, property, location },
            Fault::IncompatiblePrototype { prototype } => Diagnostic::InvalidType {
                expression: source,
                current_type: prototype,
                expected_type: "Object"@,
                location,
            },
            Fault::NotFunction { subject } => Diagnostic::InvalidType {
                expression: source,
                current_type: subject,
                expected_type: "Function"@,
                location,
            },
            Fault::PrimitivePropertyWrite { subject, property } => Diagnostic::InvalidType {
                expression: source,
                current_type: subject,
                expected_type: "Object"@,
                location,
            },
        }
    }
}

impl View for ValidationError {
    type V = Diagnostic;

    open spec fn view(&self) -> Diagnostic {
        match self {
            ValidationError::UnknownProperty { object, property, location } => Diagnostic::UnknownProperty {
                object: object@,
                property: property@,
                location: *location,
            },
            ValidationError::AssignTypeMismatch {
                target,
                location,
                own_type,
                their_type,
            } => Diagnostic::AssignTypeMismatch {
                target: target@,
                location: *location,
                own_type: own_type@,
                their_type: their_type@,
            },
            ValidationError::CompareTypeMismatch {
                left_type,
                right_type,
                location,
            } => Diagnostic::CompareTypeMismatch {
                left_type: left_type@,
                right_type: right_type@,
                location: *location,
            },
            ValidationError::UndefinedVariable { variable_name, scope_name } => Diagnostic::UndefinedVariable {
                variable_name: variable_name@,
                scope_name: scope_name@,
            },
            ValidationError::InvalidType {
                expression,
                current_type,
                expected_type,
                location,
            } => Diagnostic::InvalidType {
                expression: expression@,
                current_type: current_type@,
                expected_type: expected_type@,
                location: *location,
            },
            ValidationError::NonsensicalComparison { expression, location } => Diagnostic::NonsensicalComparison {
                expression: expression@,
                location: *location,
            },
        }
    }
}

impl Clone for ValidationError {
    fn clone(&self) -> (r: Self)
        ensures
            r@ == self@,
    {
        match self {
            ValidationError::UnknownProperty { object, property, location } => ValidationError::UnknownProperty {
                object: object.clone(),
                property: property.clone(),
                location: *location,
            },
            ValidationError::AssignTypeMismatch {
                target,
                location,
                own_type,
                their_type,
            } => ValidationError::AssignTypeMismatch {
                target: target.clone(),
                location: *location,
                own_type: own_type.clone(),
                their_type: their_type.clone(),
            },
            ValidationError::CompareTypeMismatch {
                left_type,
                right_type,
                location,
            } => ValidationError::CompareTypeMismatch {
                left_type: left_type.clone(),
                right_type: right_type.clone(),
                location: *location,
            },
            ValidationError::UndefinedVariable { variable_name, scope_name } => ValidationError::UndefinedVariable {
                variable_name: variable_name.clone(),
                scope_name: scope_name.clone(),
            },
            ValidationError::InvalidType {
                expression,
                current_type,
                expected_type,
                location,
            } => ValidationError::InvalidType {
                expression: expression.clone(),
                current_type: current_type.clone(),
                expected_type: expected_type.clone(),
                location: *location,
            },
            ValidationError::NonsensicalComparison { expression, location } => ValidationError::NonsensicalComparison {
                expression: expression.clone(),
                location: *location,
            },
        }
    }
}

impl ValidationError {
    /// Where the diagnostic points.
    pub fn location(&self) -> (r: Location)
        ensures
            r == self@.location(),
    {
        match self {
            ValidationError::UnknownProperty { location, .. } => *location,
            ValidationError::UndefinedVariable { .. } => Location { column: 0, end: 0, line: 0, start: 0 },
            ValidationError::AssignTypeMismatch { location, .. } => *location,
            ValidationError::CompareTypeMismatch { location, .. } => *location,
            ValidationError::InvalidType { location, .. } => *location,
            ValidationError::NonsensicalComparison { location, .. } => *location,
        }
    }

    /// The diagnostic that stands for a failed lookup.
    pub fn from_scope_error(error: ScopeError) -> (r: ValidationError)
        ensures
            r@ == Diagnostic::of_fault(error@, Seq::empty(), Location { start: 0, end: 0, line: 0, column: 0 }),
    {
        match error {
            ScopeError::UndefinedVariable { variable_name, scope_name } => ValidationError::UndefinedVariable {
                variable_name,
                scope_name,
            },
        }
    }

    /// The diagnostic that reports `error` for the expression `source` at `location`.
    pub fn from_analysis_error(error: AnalysisError, source: String, location: Location) -> (r: ValidationError)
        ensures
            r@ == Diagnostic::of_fault(error@, source@, location),
    {
        match error {
            AnalysisError::Scope(ScopeError::UndefinedVariable { variable_name, scope_name }) => {
                ValidationError::UndefinedVariable { variable_name, scope_name }
            },
            AnalysisError::Access(AccessError::UndefinedProperty { object, property }) => {
                ValidationError::UnknownProperty { object, property, location }
            },
            AnalysisError::Type(TypeError::IncompatiblePrototype { prototype }) => ValidationError::InvalidType {
                expression: source,
                current_type: prototype,
                expected_type: "Object".to_owned(),
                location,
            },
            AnalysisError::Type(TypeError::NotFunction { subject }) => ValidationError::InvalidType {
                expression: source,
                current_type: subject,
                expected_type: "Function".to_owned(),
                location,
            },
            AnalysisError::Type(TypeError::PrimitivePropertyWrite { subject, property }) => {
                ValidationError::InvalidType {
                    expression: source,
                    current_type: subject,
                    expected_type: "Object".to_owned(),
                    location,
                }
            },
        }
    }
}

} // verus!
