//! How deeply a tree is nested.
use vstd::prelude::*;
use crate::structure::{Command, Condition, Expression, Program, Sensor};

verus! {

/// The larger of two heights.
pub open spec fn higher(a: nat, b: nat) -> nat {
    if a >= b {
        a
    } else {
        b
    }
}

/// A sensor is a leaf.
pub open spec fn sensor_height(sensor: Sensor) -> nat {
    1
}

/// A command is a leaf.
pub open spec fn command_height(command: Command) -> nat {
    1
}

/// One more than the height of the highest operand; a constant is a leaf.
pub open spec fn expression_height(expression: Expression) -> nat
    decreases expression,
{
    1 + match expression {
        Expression::Constant(_) => 0,
        Expression::Sensor(sensor) => sensor_height(sensor),
        Expression::Plus(left, right)
        | Expression::Minus(left, right)
        | Expression::Multiply(left, right)
        | Expression::Divide(left, right) => higher(
            expression_height(*left),
            expression_height(*right),
        ),
    }
}

/// One more than the height of the highest part; a literal is a leaf.
pub open spec fn condition_height(condition: Condition) -> nat
    decreases condition,
{
    1 + match condition {
        Condition::True | Condition::False => 0,
        Condition::Not(inner) => condition_height(*inner),
        Condition::Or(left, right) | Condition::And(left, right) => higher(
            condition_height(*left),
            condition_height(*right),
        ),
        Condition::Less(left, right)
        | Condition::LessEqual(left, right)
        | Condition::Equal(left, right)
        | Condition::GreaterEqual(left, right)
        | Condition::Greater(left, right) => higher(
            expression_height(*left),
            expression_height(*right),
        ),
    }
}

/// One more than the height of the highest part.
pub open spec fn program_height(program: Program) -> nat
    decreases program,
{
    1 + match program {
        Program::If(condition, left, right) => higher(
            condition_height(condition),
            higher(program_height(*left), program_height(*right)),
        ),
        Program::Command(command) => command_height(command),
    }
}

/// A height as far as a `u32` can hold it.
pub open spec fn capped(height: nat) -> u32 {
    if height <= u32::MAX {
        height as u32
    } else {
        u32::MAX
    }
}

/// One level above the higher of two measured depths, capped.
fn above(a: u32, b: u32) -> (d: u32)
    ensures
        forall|x: nat, y: nat| a == capped(x) && b == capped(y) ==> d == #[trigger] capped(1 + higher(x, y)),
{
    let top = if a >= b {
        a
    } else {
        b
    };
    if top == u32::MAX {
        top
    } else {
        top + 1
    }
}

/// The nesting depth of a tree.
pub trait Depth {
    /// The number of nodes on the longest way from this node down to a leaf.
    spec fn height(&self) -> nat;

    /// The height of the tree; `u32::MAX` stands for every height beyond it.
    fn depth(&self) -> (d: u32)
        ensures
            d == capped(self.height()),
    ;
}

fn expression_depth(expression: &Expression) -> (d: u32)
    ensures
        d == capped(expression_height(*expression)),
    decreases *expression,
{
    match expression {
        Expression::Constant(_) => 1,
        Expression::Sensor(sensor) => 2,
        Expression::Plus(left, right)
        | Expression::Minus(left, right)
        | Expression::Multiply(left, right)
        | Expression::Divide(left, right) => {
            let l = expression_depth(left);
            let r = expression_depth(right);
            let d = above(l, r);
            assert(d == capped(1 + higher(expression_height(**left), expression_height(**right))));
            d
        },
    }
}

fn condition_depth(condition: &Condition) -> (d: u32)
    ensures
        d == capped(condition_height(*condition)),
    decreases *condition,
{
    match condition {
        Condition::True | Condition::False => 1,
        Condition::Not(inner) => {
            let i = condition_depth(inner);
            let d = above(i, i);
            assert(d == capped(1 + higher(condition_height(**inner), condition_height(**inner))));
            d
        },
        Condition::Or(left, right) | Condition::And(left, right) => {
            let l = condition_depth(left);
            let r = condition_depth(right);
            let d = above(l, r);
            assert(d == capped(1 + higher(condition_height(**left), condition_height(**right))));
            d
        },
        Condition::Less(left, right)
        | Condition::LessEqual(left, right)
        | Condition::Equal(left, right)
        | Condition::GreaterEqual(left, right)
        | Condition::Greater(left, right) => {
            let l = expression_depth(left);
            let r = expression_depth(right);
            let d = above(l, r);
            assert(d == capped(1 + higher(expression_height(**left), expression_height(**right))));
            d
        },
    }
}

fn program_depth(program: &Program) -> (d: u32)
    ensures
        d == capped(program_height(*program)),
    decreases *program,
{
    match program {
        Program::If(condition, left, right) => {
            let c = condition_depth(condition);
            let l = program_depth(left);
            let r = program_depth(right);
            let below = if l >= r {
                l
            } else {
                r
            };
            assert(below == capped(higher(program_height(**left), program_height(**right))));
            let d = above(c, below);
            assert(d == capped(
                1 + higher(
                    condition_height(*condition),
                    higher(program_height(**left), program_height(**right)),
                ),
            ));
            d
        },
        Program::Command(command) => 2,
    }
}

impl Depth for Program {
    open spec fn height(&self) -> nat {
        program_height(*self)
    }

    fn depth(&self) -> (d: u32) {
        program_depth(self)
    }
}

impl Depth for Condition {
    open spec fn height(&self) -> nat {
        condition_height(*self)
    }

    fn depth(&self) -> (d: u32) {
        condition_depth(self)
    }
}

impl Depth for Expression {
    open spec fn height(&self) -> nat {
        expression_height(*self)
    }

    fn depth(&self) -> (d: u32) {
        expression_depth(self)
    }
}

impl Depth for Command {
    open spec fn height(&self) -> nat {
        command_height(*self)
    }

    fn depth(&self) -> (d: u32) {
        1
    }
}

impl Depth for Sensor {
    open spec fn height(&self) -> nat {
        sensor_height(*self)
    }

    fn depth(&self) -> (d: u32) {
        1
    }
}

/// The depth of a choice is one more than the greatest depth among its
/// condition and its two branches; a command and a sensor have depth one, and
/// so have a literal condition and a constant.
pub proof fn depth_of_choice_and_leaves(
    condition: Condition,
    left: Program,
    right: Program,
    command: Command,
    sensor: Sensor,
    value: crate::structure::Number,
)
    ensures
        Program::If(condition, Box::new(left), Box::new(right)).height() == 1 + higher(
            condition.height(),
            higher(left.height(), right.height()),
        ),
        command.height() == 1,
        sensor.height() == 1,
        Condition::True.height() == 1,
        Condition::False.height() == 1,
        Expression::Constant(value).height() == 1,
{
}

} // verus!
