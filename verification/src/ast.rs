use vstd::prelude::*;
use crate::location::Location;
use crate::types::{Ty, Type};
use crate::variable::VariableKind;

verus! {

/// A literal, with its text as the source has it.
#[derive(Debug)]
pub enum Literal {
    Undefined,
    Null,
    True,
    False,
    Number(String),
    Binary(String),
    String(String),
    RegEx(String),
}

/// The operators that the analysis tells apart.
#[derive(Clone, Copy, Debug, PartialEq, Eq, Structural)]
pub enum OperatorKind {
    Assign,
    CompoundAssign,
    Addition,
    Subtraction,
    Multiplication,
    Division,
    Remainder,
    Exponent,
    StrictEquality,
    StrictInequality,
    Equality,
    Inequality,
    Lesser,
    LesserEquals,
    Greater,
    GreaterEquals,
    LogicalAnd,
    LogicalOr,
    LogicalNot,
    BitwiseAnd,
    BitwiseOr,
    BitwiseXor,
    BitwiseNot,
    ShiftLeft,
    ShiftRight,
    UnsignedShiftRight,
    Increment,
    Decrement,
    Typeof,
    Void,
    Delete,
    New,
    In,
    Instanceof,
}

/// An expression with the bytes of the source that it spans.
#[derive(Debug)]
pub struct ExpressionNode {
    pub start: u32,
    pub end: u32,
    pub item: Expression,
}

/// A name with the bytes of the source that it spans.
#[derive(Debug)]
pub struct NameNode {
    pub start: u32,
    pub end: u32,
    pub name: String,
}

/// The key of a property in an object literal.
#[derive(Debug)]
pub enum PropertyKey {
    Literal(String),
    Binary(String),
    Computed(ExpressionNode),
}

/// A member of an object literal.
#[derive(Debug)]
pub enum Property {
    Shorthand(String),
    Literal { key: PropertyKey, value: ExpressionNode },
    Method { key: PropertyKey, params: Vec<String>, body: Vec<Statement> },
}

/// The body of a function.
#[derive(Debug)]
pub enum FunctionBody {
    Block(Vec<Statement>),
    Expression(Box<ExpressionNode>),
}

/// A class: its name, what it extends, and its members' names.
#[derive(Debug)]
pub struct Class {
    pub name: Option<String>,
    pub extends: Option<Box<ExpressionNode>>,
    pub members: Vec<String>,
}

/// An expression of the analysed language.
#[derive(Debug)]
#[allow(inconsistent_fields)]
pub enum Expression {
    Void,
    This,
    Identifier(String),
    Literal(Literal),
    Sequence(Vec<ExpressionNode>),
    Array(Vec<ExpressionNode>),
    Member { object: Box<ExpressionNode>, property: NameNode },
    ComputedMember { object: Box<ExpressionNode>, property: Box<ExpressionNode> },
    Call { callee: Box<ExpressionNode>, arguments: Vec<ExpressionNode> },
    Binary { operator: OperatorKind, left: Box<ExpressionNode>, right: Box<ExpressionNode> },
    Prefix { operator: OperatorKind, operand: Box<ExpressionNode> },
    Postfix { operator: OperatorKind, operand: Box<ExpressionNode> },
    Conditional { test: Box<ExpressionNode>, consequent: Box<ExpressionNode>, alternate: Box<ExpressionNode> },
    Template,
    TaggedTemplate { tag: Box<ExpressionNode>, quasi: Box<ExpressionNode> },
    Spread { argument: Box<ExpressionNode> },
    Arrow { params: Vec<String>, body: FunctionBody },
    Object(Vec<Property>),
    Function { name: Option<String>, params: Vec<String>, body: Vec<Statement> },
    Class(Class),
}

/// One name of a declaration, with what it is initialised to.
#[derive(Debug)]
pub struct Declarator {
    pub name: String,
    pub init: Option<ExpressionNode>,
}

/// A statement of the analysed language. What the analysis does not look at is `Other`.
#[derive(Debug)]
pub enum Statement {
    Expression(ExpressionNode),
    Declaration { kind: VariableKind, declarators: Vec<Declarator> },
    If { test: ExpressionNode, consequent: Box<Statement>, alternate: Option<Box<Statement>> },
    Block(Vec<Statement>),
    Other,
}

impl ExpressionNode {
    /// The bytes that the expression spans.
    pub open spec fn spec_location(&self) -> Location {
        Location { start: self.start, end: self.end, line: 0, column: 0 }
    }

    /// The bytes that the expression spans.
    pub fn location(&self) -> (r: Location)
        ensures
            r == self.spec_location(),
    {
        Location { start: self.start, end: self.end, line: 0, column: 0 }
    }
}

impl NameNode {
    /// The bytes that the name spans.
    pub open spec fn spec_location(&self) -> Location {
        Location { start: self.start, end: self.end, line: 0, column: 0 }
    }

    /// The bytes that the name spans.
    pub fn location(&self) -> (r: Location)
        ensures
            r == self.spec_location(),
    {
        Location { start: self.start, end: self.end, line: 0, column: 0 }
    }
}

impl Literal {
    /// The type of the literal's value.
    pub open spec fn ty(self) -> Ty {
        match self {
            Literal::String(_) => Ty::String,
            Literal::Number(_) => Ty::Number,
            Literal::Null => Ty::Null,
            Literal::True => Ty::Boolean,
            Literal::RegEx(_) => Ty::RegExp,
            Literal::False => Ty::Boolean,
            Literal::Binary(_) => Ty::Number,
            Literal::Undefined => Ty::Undefined,
        }
    }

    /// The literal as the source has it.
    pub open spec fn text(self) -> Seq<char> {
        match self {
            Literal::String(text) => text@,
            Literal::Null => "null"@,
            Literal::Number(text) => text@,
            Literal::Binary(text) => text@,
            Literal::RegEx(text) => text@,
            Literal::Undefined => "undefined"@,
            Literal::True => "true"@,
            Literal::False => "false"@,
        }
    }

    /// The type of the literal's value.
    pub fn to_type(&self) -> (r: Type)
        ensures
            r@ == self.ty(),
    {
        match self {
            Literal::String(_) => Type::String,
            Literal::Number(_) => Type::Number,
            Literal::Null => Type::Null,
            Literal::True => Type::Boolean,
            Literal::RegEx(_) => Type::RegExp,
            Literal::False => Type::Boolean,
            Literal::Binary(_) => Type::Number,
            Literal::Undefined => Type::Undefined,
        }
    }
}

/// The literal as the source has it.
pub fn literal_to_string(literal: &Literal) -> (r: String)
    ensures
        r@ == literal.text(),
{
    match literal {
        Literal::String(text) => text.clone(),
        Literal::Null => "null".to_owned(),
        Literal::Number(text) => text.clone(),
        Literal::Binary(text) => text.clone(),
        Literal::RegEx(text) => text.clone(),
        Literal::Undefined => "undefined".to_owned(),
        Literal::True => "true".to_owned(),
        Literal::False => "false".to_owned(),
    }
}

/// The text that stands for `expression` in a diagnostic.
pub open spec fn expression_text(expression: Expression) -> Seq<char>
    decreases expression,
{
    match expression {
        Expression::Literal(value) => value.text(),
        Expression::Identifier(name) => name@,
        Expression::Member { object, property } => expression_text(object.item) + "."@ + property.name@,
        Expression::ComputedMember { .. } => "NotRepresentable(ComputedMember)"@,
        Expression::Object(_) => "NotRepresentable(Object)"@,
        Expression::Function { .. } => "NotRepresentable(Function)"@,
        Expression::Binary { .. } => "NotRepresentable(Binary)"@,
        Expression::This => "this"@,
        Expression::Array(_) => "Arrary"@,
        Expression::Void => "void"@,
        Expression::Sequence(_) => "NotRepresentable(Sequence)"@,
        Expression::Conditional { .. } => "NotRepresentable(Conditional)"@,
        Expression::Call { .. } => "NotRepresentable(Call)"@,
        Expression::Prefix { .. } => "NotRepresentable(Prefix)"@,
        Expression::Postfix { .. } => "NotRepresentable(Postfix)"@,
        Expression::Template => "NotRepresentable(Template)"@,
        Expression::TaggedTemplate { .. } => "NotRepresentable(TaggedTemplate)"@,
        Expression::Spread { .. } => "NotRepresentable(Spread)"@,
        Expression::Arrow { .. } => "NotRepresentable(Arrow)"@,
        Expression::Class(_) => "NotRepresentable(Class)"@,
    }
}

/// The text that stands for `expression` in a diagnostic.
pub fn expression_to_string(expression: &Expression) -> (r: String)
    ensures
        r@ == expression_text(*expression),
    decreases expression,
{
    match expression {
        Expression::Literal(value) => literal_to_string(value),
        Expression::Identifier(name) => name.clone(),
        Expression::Member { object, property } => {
            let mut out = expression_to_string(&object.item);
            out.append(".");
            out.append(property.name.as_str());
            out
        },
        Expression::ComputedMember { .. } => "NotRepresentable(ComputedMember)".to_owned(),
        Expression::Object(_) => "NotRepresentable(Object)".to_owned(),
        Expression::Function { .. } => "NotRepresentable(Function)".to_owned(),
        Expression::Binary { .. } => "NotRepresentable(Binary)".to_owned(),
        Expression::This => "this".to_owned(),
        Expression::Array(_) => "Arrary".to_owned(),
        Expression::Void => "void".to_owned(),
        Expression::Sequence(_) => "NotRepresentable(Sequence)".to_owned(),
        Expression::Conditional { .. } => "NotRepresentable(Conditional)".to_owned(),
        Expression::Call { .. } => "NotRepresentable(Call)".to_owned(),
        Expression::Prefix { .. } => "NotRepresentable(Prefix)".to_owned(),
        Expression::Postfix { .. } => "NotRepresentable(Postfix)".to_owned(),
        Expression::Template => "NotRepresentable(Template)".to_owned(),
        Expression::TaggedTemplate { .. } => "NotRepresentable(TaggedTemplate)".to_owned(),
        Expression::Spread { .. } => "NotRepresentable(Spread)".to_owned(),
        Expression::Arrow { .. } => "NotRepresentable(Arrow)".to_owned(),
        Expression::Class(_) => "NotRepresentable(Class)".to_owned(),
    }
}

/// The name under which a property key is kept.
pub open spec fn property_key_text(key: PropertyKey) -> Seq<char> {
    match key {
        PropertyKey::Literal(text) => text@,
        PropertyKey::Binary(text) => text@,
        PropertyKey::Computed(expression) => expression_text(expression.item),
    }
}

/// The name under which a property key is kept.
pub fn property_to_string(property_key: &PropertyKey) -> (r: String)
    ensures
        r@ == property_key_text(*property_key),
{
    match property_key {
        PropertyKey::Literal(text) => text.clone(),
        PropertyKey::Binary(text) => text.clone(),
        PropertyKey::Computed(expression) => expression_to_string(&expression.item),
    }
}

} // verus!
