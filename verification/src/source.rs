//! A tree as program text.
//!
//! The text of a node is the name of its variant, `!(`, the texts of its
//! parts between commas, and `)`. The text of a constant holds the number in
//! decimal notation, which the arithmetic writes.
use vstd::prelude::*;
use vstd::string::*;
use crate::num::{writes, Arithmetic};
use crate::structure::{Command, Condition, Expression, Node, Program, Sensor};
use crate::visit::Visitable;

verus! {

/// A head, one part, and the closing bracket.
pub open spec fn wrap1(head: Seq<char>, a: Seq<char>) -> Seq<char> {
    head + a + ")"@
}

/// A head, two parts with a comma between them, and the closing bracket.
pub open spec fn wrap2(head: Seq<char>, a: Seq<char>, b: Seq<char>) -> Seq<char> {
    head + a + ","@ + b + ")"@
}

/// A head, three parts with commas between them, and the closing bracket.
pub open spec fn wrap3(head: Seq<char>, a: Seq<char>, b: Seq<char>, c: Seq<char>) -> Seq<char> {
    head + a + ","@ + b + ","@ + c + ")"@
}

fn call1(head: &str, a: &String) -> (out: String)
    ensures
        out@ == wrap1(head@, a@),
{
    let mut out = String::from_str(head);
    out.append(a.as_str());
    out.append(")");
    out
}

fn call2(head: &str, a: &String, b: &String) -> (out: String)
    ensures
        out@ == wrap2(head@, a@, b@),
{
    let mut out = String::from_str(head);
    out.append(a.as_str());
    out.append(",");
    out.append(b.as_str());
    out.append(")");
    out
}

fn call3(head: &str, a: &String, b: &String, c: &String) -> (out: String)
    ensures
        out@ == wrap3(head@, a@, b@, c@),
{
    let mut out = String::from_str(head);
    out.append(a.as_str());
    out.append(",");
    out.append(b.as_str());
    out.append(",");
    out.append(c.as_str());
    out.append(")");
    out
}

/// The text of a command.
pub open spec fn command_text(command: Command) -> Seq<char> {
    match command {
        Command::Skip => "skip!()"@,
        Command::Left => "left!()"@,
        Command::Right => "right!()"@,
        Command::Thrust => "thrust!()"@,
    }
}

/// The text of a sensor.
pub open spec fn sensor_text(sensor: Sensor) -> Seq<char> {
    match sensor {
        Sensor::X => "x!()"@,
        Sensor::Y => "u!()"@,
        Sensor::Vx => "vx!()"@,
        Sensor::Vy => "vy!()"@,
        Sensor::O => "o!()"@,
        Sensor::W => "w!()"@,
        Sensor::Fuel => "fuel!()"@,
    }
}

/// The text of a sensor read in an expression: that of the sensor, but for
/// the height, which an expression reads as `y!()`.
pub open spec fn reading_text(sensor: Sensor) -> Seq<char> {
    match sensor {
        Sensor::Y => "y!()"@,
        _ => sensor_text(sensor),
    }
}

/// The head of the text of an expression with two operands.
pub open spec fn expression_head(expression: Expression) -> Seq<char> {
    match expression {
        Expression::Plus(_, _) => "plus!("@,
        Expression::Minus(_, _) => "minus!("@,
        Expression::Multiply(_, _) => "multiply!("@,
        _ => "divide!("@,
    }
}

/// `text` is the text of the expression, with its constants as the
/// arithmetic writes them.
pub open spec fn expression_written<A: Arithmetic>(
    arithmetic: &A,
    expression: Expression,
    text: Seq<char>,
) -> bool
    decreases expression,
{
    match expression {
        Expression::Constant(value) => exists|number: String|
            writes(arithmetic, value, number) && text == #[trigger] wrap1("constant!("@, number@),
        Expression::Sensor(sensor) => text == reading_text(sensor),
        Expression::Plus(left, right)
        | Expression::Minus(left, right)
        | Expression::Multiply(left, right)
        | Expression::Divide(left, right) => exists|a: Seq<char>, b: Seq<char>|
            text == #[trigger] wrap2(expression_head(expression), a, b) && expression_written(
                arithmetic,
                *left,
                a,
            ) && expression_written(arithmetic, *right, b),
    }
}

/// The head of the text of a condition with parts.
pub open spec fn condition_head(condition: Condition) -> Seq<char> {
    match condition {
        Condition::Not(_) => "not!("@,
        Condition::Or(_, _) => "or!("@,
        Condition::And(_, _) => "and!("@,
        Condition::Less(_, _) => "less!("@,
        Condition::LessEqual(_, _) => "less_equal!("@,
        Condition::Equal(_, _) => "equal!("@,
        Condition::GreaterEqual(_, _) => "greater_equal!("@,
        _ => "greater!("@,
    }
}

/// `text` is the text of the condition, with its constants as the arithmetic
/// writes them.
pub open spec fn condition_written<A: Arithmetic>(
    arithmetic: &A,
    condition: Condition,
    text: Seq<char>,
) -> bool
    decreases condition,
{
    match condition {
        Condition::True => text == "T!()"@,
        Condition::False => text == "F!()"@,
        Condition::Not(inner) => exists|a: Seq<char>|
            text == #[trigger] wrap1(condition_head(condition), a) && condition_written(
                arithmetic,
                *inner,
                a,
            ),
        Condition::Or(left, right) | Condition::And(left, right) => exists|
            a: Seq<char>,
            b: Seq<char>,
        |
            text == #[trigger] wrap2(condition_head(condition), a, b) && condition_written(
                arithmetic,
                *left,
                a,
            ) && condition_written(arithmetic, *right, b),
        Condition::Less(left, right)
        | Condition::LessEqual(left, right)
        | Condition::Equal(left, right)
        | Condition::GreaterEqual(left, right)
        | Condition::Greater(left, right) => exists|a: Seq<char>, b: Seq<char>|
            text == #[trigger] wrap2(condition_head(condition), a, b) && expression_written(
                arithmetic,
                *left,
                a,
            ) && expression_written(arithmetic, *right, b),
    }
}

/// `text` is the text of the program, with its constants as the arithmetic
/// writes them.
pub open spec fn program_written<A: Arithmetic>(
    arithmetic: &A,
    program: Program,
    text: Seq<char>,
) -> bool
    decreases program,
{
    match program {
        Program::If(condition, left, right) => exists|a: Seq<char>, b: Seq<char>, c: Seq<char>|
            text == #[trigger] wrap3("iff!("@, a, b, c) && condition_written(
                arithmetic,
                condition,
                a,
            ) && program_written(arithmetic, *left, b) && program_written(arithmetic, *right, c),
        Program::Command(command) => text == command_text(command),
    }
}

/// `text` is the text of the node.
pub open spec fn node_written<A: Arithmetic>(arithmetic: &A, node: Node, text: Seq<char>) -> bool {
    match node {
        Node::Program(program) => program_written(arithmetic, program, text),
        Node::Condition(condition) => condition_written(arithmetic, condition, text),
        Node::Expression(expression) => expression_written(arithmetic, expression, text),
        Node::Sensor(sensor) => text == sensor_text(sensor),
        Node::Command(command) => text == command_text(command),
    }
}

fn command_source(command: &Command) -> (out: String)
    ensures
        out@ == command_text(*command),
{
    match command {
        Command::Skip => String::from_str("skip!()"),
        Command::Left => String::from_str("left!()"),
        Command::Right => String::from_str("right!()"),
        Command::Thrust => String::from_str("thrust!()"),
    }
}

fn sensor_source(sensor: &Sensor) -> (out: String)
    ensures
        out@ == sensor_text(*sensor),
{
    match sensor {
        Sensor::X => String::from_str("x!()"),
        Sensor::Y => String::from_str("u!()"),
        Sensor::Vx => String::from_str("vx!()"),
        Sensor::Vy => String::from_str("vy!()"),
        Sensor::O => String::from_str("o!()"),
        Sensor::W => String::from_str("w!()"),
        Sensor::Fuel => String::from_str("fuel!()"),
    }
}

fn reading_source(sensor: &Sensor) -> (out: String)
    ensures
        out@ == reading_text(*sensor),
{
    match sensor {
        Sensor::Y => String::from_str("y!()"),
        _ => sensor_source(sensor),
    }
}

fn expression_opening(expression: &Expression) -> (head: &'static str)
    ensures
        head@ == expression_head(*expression),
{
    match expression {
        Expression::Plus(_, _) => "plus!(",
        Expression::Minus(_, _) => "minus!(",
        Expression::Multiply(_, _) => "multiply!(",
        _ => "divide!(",
    }
}

fn expression_source<A: Arithmetic>(expression: &Expression, arithmetic: &A) -> (out: String)
    ensures
        expression_written(arithmetic, *expression, out@),
    decreases *expression,
{
    match expression {
        Expression::Constant(value) => {
            let number = arithmetic.decimal(*value);
            let out = call1("constant!(", &number);
            assert(writes(arithmetic, *value, number) && out@ == wrap1("constant!("@, number@));
            out
        },
        Expression::Sensor(sensor) => reading_source(sensor),
        Expression::Plus(left, right)
        | Expression::Minus(left, right)
        | Expression::Multiply(left, right)
        | Expression::Divide(left, right) => {
            let a = expression_source(left, arithmetic);
            let b = expression_source(right, arithmetic);
            let out = call2(expression_opening(expression), &a, &b);
            assert(out@ == wrap2(expression_head(*expression), a@, b@));
            out
        },
    }
}

fn condition_opening(condition: &Condition) -> (head: &'static str)
    ensures
        head@ == condition_head(*condition),
{
    match condition {
        Condition::Not(_) => "not!(",
        Condition::Or(_, _) => "or!(",
        Condition::And(_, _) => "and!(",
        Condition::Less(_, _) => "less!(",
        Condition::LessEqual(_, _) => "less_equal!(",
        Condition::Equal(_, _) => "equal!(",
        Condition::GreaterEqual(_, _) => "greater_equal!(",
        _ => "greater!(",
    }
}

fn condition_source<A: Arithmetic>(condition: &Condition, arithmetic: &A) -> (out: String)
    ensures
        condition_written(arithmetic, *condition, out@),
    decreases *condition,
{
    match condition {
        Condition::True => String::from_str("T!()"),
        Condition::False => String::from_str("F!()"),
        Condition::Not(inner) => {
            let a = condition_source(inner, arithmetic);
            let out = call1(condition_opening(condition), &a);
            assert(out@ == wrap1(condition_head(*condition), a@));
            out
        },
        Condition::Or(left, right) | Condition::And(left, right) => {
            let a = condition_source(left, arithmetic);
            let b = condition_source(right, arithmetic);
            let out = call2(condition_opening(condition), &a, &b);
            assert(out@ == wrap2(condition_head(*condition), a@, b@));
            out
        },
        Condition::Less(left, right)
        | Condition::LessEqual(left, right)
        | Condition::Equal(left, right)
        | Condition::GreaterEqual(left, right)
        | Condition::Greater(left, right) => {
            let a = expression_source(left, arithmetic);
            let b = expression_source(right, arithmetic);
            let out = call2(condition_opening(condition), &a, &b);
            assert(out@ == wrap2(condition_head(*condition), a@, b@));
            out
        },
    }
}

fn program_source<A: Arithmetic>(program: &Program, arithmetic: &A) -> (out: String)
    ensures
        program_written(arithmetic, *program, out@),
    decreases *program,
{
    match program {
        Program::If(condition, left, right) => {
            let a = condition_source(condition, arithmetic);
            let b = program_source(left, arithmetic);
            let c = program_source(right, arithmetic);
            let out = call3("iff!(", &a, &b, &c);
            assert(out@ == wrap3("iff!("@, a@, b@, c@));
            out
        },
        Program::Command(command) => command_source(command),
    }
}

/// A tree that can be written as program text.
pub trait Source: Visitable {
    /// The text of the tree.
    fn source<A: Arithmetic>(&self, arithmetic: &A) -> (out: String)
        ensures
            node_written(arithmetic, self.node(), out@),
    ;
}

impl Source for Program {
    fn source<A: Arithmetic>(&self, arithmetic: &A) -> (out: String) {
        program_source(self, arithmetic)
    }
}

impl Source for Condition {
    fn source<A: Arithmetic>(&self, arithmetic: &A) -> (out: String) {
        condition_source(self, arithmetic)
    }
}

impl Source for Expression {
    fn source<A: Arithmetic>(&self, arithmetic: &A) -> (out: String) {
        expression_source(self, arithmetic)
    }
}

impl Source for Sensor {
    fn source<A: Arithmetic>(&self, arithmetic: &A) -> (out: String) {
        sensor_source(self)
    }
}

impl Source for Command {
    fn source<A: Arithmetic>(&self, arithmetic: &A) -> (out: String) {
        command_source(self)
    }
}

} // verus!
