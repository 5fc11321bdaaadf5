//! The abstract syntax tree of moon lander control code.
//!
//! A `Program` is evaluated against sensor readings and yields a `Command`.
//! Trees are values: they are built bottom-up, never shared, and a change to a
//! tree is always a new tree.
use vstd::prelude::*;

verus! {

/// A number of the control language: an IEEE-754 single-precision value, held
/// as its bit pattern. Two numbers are equal when their bits are.
#[derive(Clone, Copy, Debug, PartialEq, Eq, Structural)]
pub struct Number {
    pub bits: u32,
}

impl Number {
    /// The number with the given bit pattern.
    pub fn from_bits(bits: u32) -> (n: Number)
        ensures
            n.bits == bits,
    {
        Number { bits }
    }

    /// The bit pattern of this number.
    pub fn to_bits(self) -> (bits: u32)
        ensures
            bits == self.bits,
    {
        self.bits
    }
}

/// What the lander is told to do in one step.
#[derive(Clone, Copy, Debug, PartialEq, Eq, Structural)]
pub enum Command {
    Skip,
    Left,
    Right,
    Thrust,
}

/// A reading that an expression can refer to.
#[derive(Clone, Copy, Debug, PartialEq, Eq, Structural)]
pub enum Sensor {
    X,
    Y,
    Vx,
    Vy,
    O,
    W,
    Fuel,
}

/// A calculation over constants and sensor readings.
#[derive(Debug, PartialEq, Eq)]
pub enum Expression {
    Constant(Number),
    Sensor(Sensor),
    Plus(Box<Expression>, Box<Expression>),
    Minus(Box<Expression>, Box<Expression>),
    Multiply(Box<Expression>, Box<Expression>),
    Divide(Box<Expression>, Box<Expression>),
}

/// The condition of an `If`: a literal, a logical combination of conditions,
/// or a comparison of two expressions.
#[derive(Debug, PartialEq, Eq)]
pub enum Condition {
    True,
    False,
    Not(Box<Condition>),
    Or(Box<Condition>, Box<Condition>),
    And(Box<Condition>, Box<Condition>),
    Less(Box<Expression>, Box<Expression>),
    LessEqual(Box<Expression>, Box<Expression>),
    Equal(Box<Expression>, Box<Expression>),
    GreaterEqual(Box<Expression>, Box<Expression>),
    Greater(Box<Expression>, Box<Expression>),
}

/// The root of the tree: a single command, or a choice between two programs.
#[derive(Debug, PartialEq, Eq)]
pub enum Program {
    If(Condition, Box<Program>, Box<Program>),
    Command(Command),
}

/// The five kinds of node that a tree is made of.
#[derive(Clone, Copy, Debug, PartialEq, Eq, Structural)]
pub enum NodeType {
    Program,
    Condition,
    Expression,
    Sensor,
    Command,
}

/// A node of any kind, with the subtree below it.
pub enum Node {
    Program(Program),
    Condition(Condition),
    Expression(Expression),
    Sensor(Sensor),
    Command(Command),
}

impl Node {
    /// The kind of this node.
    pub open spec fn kind(self) -> NodeType {
        match self {
            Node::Program(_) => NodeType::Program,
            Node::Condition(_) => NodeType::Condition,
            Node::Expression(_) => NodeType::Expression,
            Node::Sensor(_) => NodeType::Sensor,
            Node::Command(_) => NodeType::Command,
        }
    }
}

impl Clone for Expression {
    fn clone(&self) -> (copy: Self)
        ensures
            copy == *self,
        decreases *self,
    {
        match self {
            Expression::Constant(value) => Expression::Constant(*value),
            Expression::Sensor(sensor) => Expression::Sensor(*sensor),
            Expression::Plus(left, right) => Expression::Plus(
                Box::new((**left).clone()),
                Box::new((**right).clone()),
            ),
            Expression::Minus(left, right) => Expression::Minus(
                Box::new((**left).clone()),
                Box::new((**right).clone()),
            ),
            Expression::Multiply(left, right) => Expression::Multiply(
                Box::new((**left).clone()),
                Box::new((**right).clone()),
            ),
            Expression::Divide(left, right) => Expression::Divide(
                Box::new((**left).clone()),
                Box::new((**right).clone()),
            ),
        }
    }
}

impl Clone for Condition {
    fn clone(&self) -> (copy: Self)
        ensures
            copy == *self,
        decreases *self,
    {
        match self {
            Condition::True => Condition::True,
            Condition::False => Condition::False,
            Condition::Not(inner) => Condition::Not(Box::new((**inner).clone())),
            Condition::Or(left, right) => Condition::Or(
                Box::new((**left).clone()),
                Box::new((**right).clone()),
            ),
            Condition::And(left, right) => Condition::And(
                Box::new((**left).clone()),
                Box::new((**right).clone()),
            ),
            Condition::Less(left, right) => Condition::Less(
                Box::new((**left).clone()),
                Box::new((**right).clone()),
            ),
            Condition::LessEqual(left, right) => Condition::LessEqual(
                Box::new((**left).clone()),
                Box::new((**right).clone()),
            ),
            Condition::Equal(left, right) => Condition::Equal(
                Box::new((**left).clone()),
                Box::new((**right).clone()),
            ),
            Condition::GreaterEqual(left, right) => Condition::GreaterEqual(
                Box::new((**left).clone()),
                Box::new((**right).clone()),
            ),
            Condition::Greater(left, right) => Condition::Greater(
                Box::new((**left).clone()),
                Box::new((**right).clone()),
            ),
        }
    }
}

impl Clone for Program {
    fn clone(&self) -> (copy: Self)
        ensures
            copy == *self,
        decreases *self,
    {
        match self {
            Program::If(condition, left, right) => Program::If(
                condition.clone(),
                Box::new((**left).clone()),
                Box::new((**right).clone()),
            ),
            Program::Command(command) => Program::Command(*command),
        }
    }
}

} // verus!
