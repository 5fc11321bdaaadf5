//! A tree in the notation of a reader: operators between their operands,
//! every combination in brackets.
use vstd::prelude::*;
use vstd::string::*;
use crate::num::{shows, Arithmetic};
use crate::structure::{Command, Condition, Expression, Node, Program, Sensor};
use crate::visit::Visitable;

verus! {

/// Two operands in brackets with the operator between them.
pub open spec fn infix(a: Seq<char>, operator: Seq<char>, b: Seq<char>) -> Seq<char> {
    "("@ + a + operator + b + ")"@
}

/// A negation: the sign and what is negated.
pub open spec fn negation(a: Seq<char>) -> Seq<char> {
    "!"@ + a
}

/// A choice: the condition, then the one program, else the other.
pub open spec fn choice(a: Seq<char>, b: Seq<char>, c: Seq<char>) -> Seq<char> {
    "("@ + a + " then "@ + b + " else "@ + c + ")"@
}

fn join(a: &String, operator: &str, b: &String) -> (out: String)
    ensures
        out@ == infix(a@, operator@, b@),
{
    let mut out = String::from_str("(");
    out.append(a.as_str());
    out.append(operator);
    out.append(b.as_str());
    out.append(")");
    out
}

/// How a command is shown.
pub open spec fn command_shown(command: Command) -> Seq<char> {
    match command {
        Command::Skip => "Skip"@,
        Command::Left => "Left"@,
        Command::Right => "Right"@,
        Command::Thrust => "Thrust"@,
    }
}

/// How a sensor is shown.
pub open spec fn sensor_shown(sensor: Sensor) -> Seq<char> {
    match sensor {
        Sensor::X => "X"@,
        Sensor::Y => "Y"@,
        Sensor::Vx => "Vx"@,
        Sensor::Vy => "Vy"@,
        Sensor::O => "O"@,
        Sensor::W => "W"@,
        Sensor::Fuel => "Fuel"@,
    }
}

/// The sign of an operation, with a blank on either side.
pub open spec fn expression_sign(expression: Expression) -> Seq<char> {
    match expression {
        Expression::Plus(_, _) => " + "@,
        Expression::Minus(_, _) => " - "@,
        Expression::Multiply(_, _) => " * "@,
        _ => " / "@,
    }
}

/// `text` shows the expression, with its constants as the arithmetic shows
/// them.
pub open spec fn expression_shown<A: Arithmetic>(
    arithmetic: &A,
    expression: Expression,
    text: Seq<char>,
) -> bool
    decreases expression,
{
    match expression {
        Expression::Constant(value) => exists|number: String| #[trigger]
            shows(arithmetic, value, number) && text == number@,
        Expression::Sensor(sensor) => text == sensor_shown(sensor),
        Expression::Plus(left, right)
        | Expression::Minus(left, right)
        | Expression::Multiply(left, right)
        | Expression::Divide(left, right) => exists|a: Seq<char>, b: Seq<char>|
            text == #[trigger] infix(a, expression_sign(expression), b) && expression_shown(
                arithmetic,
                *left,
                a,
            ) && expression_shown(arithmetic, *right, b),
    }
}

/// The sign of a condition with two parts, with a blank on either side.
pub open spec fn condition_sign(condition: Condition) -> Seq<char> {
    match condition {
        Condition::Or(_, _) => " || "@,
        Condition::And(_, _) => " && "@,
        Condition::Less(_, _) => " < "@,
        Condition::LessEqual(_, _) => " <= "@,
        Condition::Equal(_, _) => " == "@,
        Condition::GreaterEqual(_, _) => " >= "@,
        _ => " > "@,
    }
}

/// `text` shows the condition, with its constants as the arithmetic shows
/// them.
pub open spec fn condition_shown<A: Arithmetic>(
    arithmetic: &A,
    condition: Condition,
    text: Seq<char>,
) -> bool
    decreases condition,
{
    match condition {
        Condition::True => text == "True"@,
        Condition::False => text == "False"@,
        Condition::Not(inner) => exists|a: Seq<char>|
            text == #[trigger] negation(a) && condition_shown(arithmetic, *inner, a),
        Condition::Or(left, right) | Condition::And(left, right) => exists|
            a: Seq<char>,
            b: Seq<char>,
        |
            text == #[trigger] infix(a, condition_sign(condition), b) && condition_shown(
                arithmetic,
                *left,
                a,
            ) && condition_shown(arithmetic, *right, b),
        Condition::Less(left, right)
        | Condition::LessEqual(left, right)
        | Condition::Equal(left, right)
        | Condition::GreaterEqual(left, right)
        | Condition::Greater(left, right) => exists|a: Seq<char>, b: Seq<char>|
            text == #[trigger] infix(a, condition_sign(condition), b) && expression_shown(
                arithmetic,
                *left,
                a,
            ) && expression_shown(arithmetic, *right, b),
    }
}

/// `text` shows the program, with its constants as the arithmetic shows them.
pub open spec fn program_shown<A: Arithmetic>(
    arithmetic: &A,
    program: Program,
    text: Seq<char>,
) -> bool
    decreases program,
{
    match program {
        Program::If(condition, left, right) => exists|a: Seq<char>, b: Seq<char>, c: Seq<char>|
            text == #[trigger] choice(a, b, c) && condition_shown(arithmetic, condition, a)
                && program_shown(arithmetic, *left, b) && program_shown(arithmetic, *right, c),
        Program::Command(command) => text == command_shown(command),
    }
}

/// `text` shows the node.
pub open spec fn node_shown<A: Arithmetic>(arithmetic: &A, node: Node, text: Seq<char>) -> bool {
    match node {
        Node::Program(program) => program_shown(arithmetic, program, text),
        Node::Condition(condition) => condition_shown(arithmetic, condition, text),
        Node::Expression(expression) => expression_shown(arithmetic, expression, text),
        Node::Sensor(sensor) => text == sensor_shown(sensor),
        Node::Command(command) => text == command_shown(command),
    }
}

fn show_command(command: &Command) -> (out: String)
    ensures
        out@ == command_shown(*command),
{
    match command {
        Command::Skip => String::from_str("Skip"),
        Command::Left => String::from_str("Left"),
        Command::Right => String::from_str("Right"),
        Command::Thrust => String::from_str("Thrust"),
    }
}

fn show_sensor(sensor: &Sensor) -> (out: String)
    ensures
        out@ == sensor_shown(*sensor),
{
    match sensor {
        Sensor::X => String::from_str("X"),
        Sensor::Y => String::from_str("Y"),
        Sensor::Vx => String::from_str("Vx"),
        Sensor::Vy => String::from_str("Vy"),
        Sensor::O => String::from_str("O"),
        Sensor::W => String::from_str("W"),
        Sensor::Fuel => String::from_str("Fuel"),
    }
}

fn expression_operator(expression: &Expression) -> (sign: &'static str)
    ensures
        sign@ == expression_sign(*expression),
{
    match expression {
        Expression::Plus(_, _) => " + ",
        Expression::Minus(_, _) => " - ",
        Expression::Multiply(_, _) => " * ",
        _ => " / ",
    }
}

fn show_expression<A: Arithmetic>(expression: &Expression, arithmetic: &A) -> (out: String)
    ensures
        expression_shown(arithmetic, *expression, out@),
    decreases *expression,
{
    match expression {
        Expression::Constant(value) => {
            let number = arithmetic.shortest(*value);
            assert(shows(arithmetic, *value, number));
            number
        },
        Expression::Sensor(sensor) => show_sensor(sensor),
        Expression::Plus(left, right)
        | Expression::Minus(left, right)
        | Expression::Multiply(left, right)
        | Expression::Divide(left, right) => {
            let a = show_expression(left, arithmetic);
            let b = show_expression(right, arithmetic);
            let out = join(&a, expression_operator(expression), &b);
            assert(out@ == infix(a@, expression_sign(*expression), b@));
            out
        },
    }
}

fn condition_operator(condition: &Condition) -> (sign: &'static str)
    ensures
        sign@ == condition_sign(*condition),
{
    match condition {
        Condition::Or(_, _) => " || ",
        Condition::And(_, _) => " && ",
        Condition::Less(_, _) => " < ",
        Condition::LessEqual(_, _) => " <= ",
        Condition::Equal(_, _) => " == ",
        Condition::GreaterEqual(_, _) => " >= ",
        _ => " > ",
    }
}

fn show_condition<A: Arithmetic>(condition: &Condition, arithmetic: &A) -> (out: String)
    ensures
        condition_shown(arithmetic, *condition, out@),
    decreases *condition,
{
    match condition {
        Condition::True => String::from_str("True"),
        Condition::False => String::from_str("False"),
        Condition::Not(inner) => {
            let a = show_condition(inner, arithmetic);
            let mut out = String::from_str("!");
            out.append(a.as_str());
            assert(out@ == negation(a@));
            out
        },
        Condition::Or(left, right) | Condition::And(left, right) => {
            let a = show_condition(left, arithmetic);
            let b = show_condition(right, arithmetic);
            let out = join(&a, condition_operator(condition), &b);
            assert(out@ == infix(a@, condition_sign(*condition), b@));
            out
        },
        Condition::Less(left, right)
        | Condition::LessEqual(left, right)
        | Condition::Equal(left, right)
        | Condition::GreaterEqual(left, right)
        | Condition::Greater(left, right) => {
            let a = show_expression(left, arithmetic);
            let b = show_expression(right, arithmetic);
            let out = join(&a, condition_operator(condition), &b);
            assert(out@ == infix(a@, condition_sign(*condition), b@));
            out
        },
    }
}

fn show_program<A: Arithmetic>(program: &Program, arithmetic: &A) -> (out: String)
    ensures
        program_shown(arithmetic, *program, out@),
    decreases *program,
{
    match program {
        Program::If(condition, left, right) => {
            let a = show_condition(condition, arithmetic);
            let b = show_program(left, arithmetic);
            let c = show_program(right, arithmetic);
            let mut out = String::from_str("(");
            out.append(a.as_str());
            out.append(" then ");
            out.append(b.as_str());
            out.append(" else ");
            out.append(c.as_str());
            out.append(")");
            assert(out@ == choice(a@, b@, c@));
            out
        },
        Program::Command(command) => show_command(command),
    }
}

/// A tree that can be shown to a reader.
pub trait Text: Visitable {
    /// The tree in the notation of a reader.
    fn text<A: Arithmetic>(&self, arithmetic: &A) -> (out: String)
        ensures
            node_shown(arithmetic, self.node(), out@),
    ;
}

impl Text for Program {
    fn text<A: Arithmetic>(&self, arithmetic: &A) -> (out: String) {
        show_program(self, arithmetic)
    }
}

impl Text for Condition {
    fn text<A: Arithmetic>(&self, arithmetic: &A) -> (out: String) {
        show_condition(self, arithmetic)
    }
}

impl Text for Expression {
    fn text<A: Arithmetic>(&self, arithmetic: &A) -> (out: String) {
        show_expression(self, arithmetic)
    }
}

impl Text for Sensor {
    fn text<A: Arithmetic>(&self, arithmetic: &A) -> (out: String) {
        show_sensor(self)
    }
}

impl Text for Command {
    fn text<A: Arithmetic>(&self, arithmetic: &A) -> (out: String) {
        show_command(self)
    }
}

} // verus!
