//! Random trees.
//!
//! Every kind of node draws its variant by weight. A variant with parts
//! draws each part in turn, so a tree may grow to any depth; the weights of
//! the variants without parts are the heavier ones, which keeps most trees
//! small. A ceiling bounds the rest: below it only variants without further
//! conditions, expressions or programs are drawn.
use vstd::prelude::*;
use crate::depth::Depth;
use crate::pick::{pick, weight_before};
use crate::structure::{Command, Condition, Expression, Number, Program, Sensor};

verus! {

/// The ceiling under which the library draws the trees it needs itself.
pub const CEILING: u32 = 256;

/// A number from zero up to, but not including, one, by
/// `rand::Rng::next_f32`. The outside function builds a value between one and
/// two from random fraction bits and takes one off, so the result is not
/// negative and less than one; its bits are handed on as they are.
#[verifier::external_body]
pub(crate) fn unit(rng: &mut rand::StdRng) -> (number: Number)
    ensures
        number.bits < 0x3f80_0000,
{
    Number { bits: rand::Rng::next_f32(rng).to_bits() }
}

/// The command with the given number; the last one for every number beyond.
pub fn command_at(choice: usize) -> (command: Command)
    ensures
        command == (if choice == 0 {
            Command::Skip
        } else if choice == 1 {
            Command::Left
        } else if choice == 2 {
            Command::Right
        } else {
            Command::Thrust
        }),
{
    if choice == 0 {
        Command::Skip
    } else if choice == 1 {
        Command::Left
    } else if choice == 2 {
        Command::Right
    } else {
        Command::Thrust
    }
}

/// The sensor with the given number; the last one for every number beyond.
pub fn sensor_at(choice: usize) -> (sensor: Sensor)
    ensures
        sensor == (if choice == 0 {
            Sensor::Y
        } else if choice == 1 {
            Sensor::Vy
        } else if choice == 2 {
            Sensor::Fuel
        } else if choice == 3 {
            Sensor::X
        } else if choice == 4 {
            Sensor::Vx
        } else if choice == 5 {
            Sensor::O
        } else {
            Sensor::W
        }),
{
    if choice == 0 {
        Sensor::Y
    } else if choice == 1 {
        Sensor::Vy
    } else if choice == 2 {
        Sensor::Fuel
    } else if choice == 3 {
        Sensor::X
    } else if choice == 4 {
        Sensor::Vx
    } else if choice == 5 {
        Sensor::O
    } else {
        Sensor::W
    }
}

/// The number of the variant of an expression, in the order in which the
/// variants are offered for a choice.
pub open spec fn expression_choice(expression: Expression) -> int {
    match expression {
        Expression::Constant(_) => 0,
        Expression::Sensor(_) => 1,
        Expression::Plus(_, _) => 2,
        Expression::Minus(_, _) => 3,
        Expression::Multiply(_, _) => 4,
        Expression::Divide(_, _) => 5,
    }
}

/// The number of the variant of a condition, in the order in which the
/// variants are offered for a choice.
pub open spec fn condition_choice(condition: Condition) -> int {
    match condition {
        Condition::True => 0,
        Condition::False => 1,
        Condition::Not(_) => 2,
        Condition::Or(_, _) => 3,
        Condition::And(_, _) => 4,
        Condition::Less(_, _) => 5,
        Condition::LessEqual(_, _) => 6,
        Condition::Greater(_, _) => 7,
        Condition::GreaterEqual(_, _) => 8,
        Condition::Equal(_, _) => 9,
    }
}

/// The variant that a choice stands for, among variants numbered from zero
/// to `last`: the choice itself, but the last variant for every choice
/// beyond, and, under a ceiling of zero, the second variant for every choice
/// but the first: the first two variants are the ones without parts that
/// are drawn under the ceiling.
pub open spec fn chosen(choice: usize, last: int, ceiling: u32) -> int {
    if choice == 0 {
        0
    } else if choice == 1 || ceiling == 0 {
        1
    } else if choice >= last {
        last
    } else {
        choice as int
    }
}

/// An expression that a draw under the ceiling can give: every constant in
/// it lies from zero up to one, and an operation stands only where the
/// ceiling leaves a level for its operands.
pub open spec fn expression_fits(expression: Expression, ceiling: nat) -> bool
    decreases expression,
{
    match expression {
        Expression::Constant(value) => value.bits < 0x3f80_0000,
        Expression::Sensor(_) => true,
        Expression::Plus(left, right)
        | Expression::Minus(left, right)
        | Expression::Multiply(left, right)
        | Expression::Divide(left, right) => ceiling > 0 && expression_fits(
            *left,
            (ceiling - 1) as nat,
        ) && expression_fits(*right, (ceiling - 1) as nat),
    }
}

/// A condition that a draw under the ceiling can give: a literal, or, where
/// the ceiling leaves a level for its parts, a combination of such
/// conditions or a comparison of such expressions.
pub open spec fn condition_fits(condition: Condition, ceiling: nat) -> bool
    decreases condition,
{
    match condition {
        Condition::True | Condition::False => true,
        Condition::Not(inner) => ceiling > 0 && condition_fits(*inner, (ceiling - 1) as nat),
        Condition::Or(left, right) | Condition::And(left, right) => ceiling > 0 && condition_fits(
            *left,
            (ceiling - 1) as nat,
        ) && condition_fits(*right, (ceiling - 1) as nat),
        Condition::Less(left, right)
        | Condition::LessEqual(left, right)
        | Condition::Equal(left, right)
        | Condition::GreaterEqual(left, right)
        | Condition::Greater(left, right) => ceiling > 0 && expression_fits(
            *left,
            (ceiling - 1) as nat,
        ) && expression_fits(*right, (ceiling - 1) as nat),
    }
}

/// A program that a draw under the ceiling can give: a command, or, where
/// the ceiling leaves a level for its parts, a choice between two such
/// programs on such a condition.
pub open spec fn program_fits(program: Program, ceiling: nat) -> bool
    decreases program,
{
    match program {
        Program::If(condition, left, right) => ceiling > 0 && condition_fits(
            condition,
            (ceiling - 1) as nat,
        ) && program_fits(*left, (ceiling - 1) as nat) && program_fits(
            *right,
            (ceiling - 1) as nat,
        ),
        Program::Command(_) => true,
    }
}

/// A kind of node of which a random one can be drawn.
pub trait Random: Depth + Sized {
    /// Whether a draw under the ceiling can give this tree.
    spec fn fits(&self, ceiling: nat) -> bool;

    /// A random tree with at most `ceiling` levels of nodes that hold a
    /// condition, an expression or a program.
    fn random(rng: &mut rand::StdRng, ceiling: u32) -> (tree: Self)
        ensures
            tree.fits(ceiling as nat),
            tree.height() <= ceiling + 2,
    ;
}

impl Random for Command {
    open spec fn fits(&self, ceiling: nat) -> bool {
        true
    }

    fn random(rng: &mut rand::StdRng, ceiling: u32) -> (tree: Self) {
        let weights: [u32; 4] = [1, 1, 1, 1];
        proof {
            reveal_with_fuel(weight_before, 5);
        }
        command_at(pick(&weights, rng))
    }
}

impl Random for Sensor {
    open spec fn fits(&self, ceiling: nat) -> bool {
        true
    }

    fn random(rng: &mut rand::StdRng, ceiling: u32) -> (tree: Self) {
        let weights: [u32; 7] = [1, 1, 1, 1, 1, 1, 1];
        proof {
            reveal_with_fuel(weight_before, 8);
        }
        sensor_at(pick(&weights, rng))
    }
}

/// The expression of the variant that the choice stands for, with parts
/// drawn at random under a ceiling one lower.
pub fn expression_for(choice: usize, rng: &mut rand::StdRng, ceiling: u32) -> (tree: Expression)
    ensures
        expression_choice(tree) == chosen(choice, 5, ceiling),
        expression_fits(tree, ceiling as nat),
        tree.height() <= ceiling + 2,
    decreases ceiling, 0int,
{
    if choice == 0 {
        Expression::Constant(unit(rng))
    } else if choice == 1 || ceiling == 0 {
        Expression::Sensor(Sensor::random(rng, ceiling))
    } else if choice == 2 {
        Expression::Plus(
            Box::new(Expression::random(rng, ceiling - 1)),
            Box::new(Expression::random(rng, ceiling - 1)),
        )
    } else if choice == 3 {
        Expression::Minus(
            Box::new(Expression::random(rng, ceiling - 1)),
            Box::new(Expression::random(rng, ceiling - 1)),
        )
    } else if choice == 4 {
        Expression::Multiply(
            Box::new(Expression::random(rng, ceiling - 1)),
            Box::new(Expression::random(rng, ceiling - 1)),
        )
    } else {
        Expression::Divide(
            Box::new(Expression::random(rng, ceiling - 1)),
            Box::new(Expression::random(rng, ceiling - 1)),
        )
    }
}

impl Random for Expression {
    open spec fn fits(&self, ceiling: nat) -> bool {
        expression_fits(*self, ceiling)
    }

    fn random(rng: &mut rand::StdRng, ceiling: u32) -> (tree: Self)
        decreases ceiling, 1int,
    {
        let weights: [u32; 6] = [5, 5, 1, 1, 1, 1];
        let leaves: [u32; 2] = [5, 5];
        proof {
            reveal_with_fuel(weight_before, 7);
        }
        let choice = if ceiling == 0 {
            pick(&leaves, rng)
        } else {
            pick(&weights, rng)
        };
        expression_for(choice, rng, ceiling)
    }
}

/// The condition of the variant that the choice stands for, with parts drawn
/// at random under a ceiling one lower.
pub fn condition_for(choice: usize, rng: &mut rand::StdRng, ceiling: u32) -> (tree: Condition)
    ensures
        condition_choice(tree) == chosen(choice, 9, ceiling),
        condition_fits(tree, ceiling as nat),
        tree.height() <= ceiling + 2,
    decreases ceiling, 0int,
{
    if choice == 0 {
        Condition::True
    } else if choice == 1 || ceiling == 0 {
        Condition::False
    } else if choice == 2 {
        Condition::Not(Box::new(Condition::random(rng, ceiling - 1)))
    } else if choice == 3 {
        Condition::Or(
            Box::new(Condition::random(rng, ceiling - 1)),
            Box::new(Condition::random(rng, ceiling - 1)),
        )
    } else if choice == 4 {
        Condition::And(
            Box::new(Condition::random(rng, ceiling - 1)),
            Box::new(Condition::random(rng, ceiling - 1)),
        )
    } else if choice == 5 {
        Condition::Less(
            Box::new(Expression::random(rng, ceiling - 1)),
            Box::new(Expression::random(rng, ceiling - 1)),
        )
    } else if choice == 6 {
        Condition::LessEqual(
            Box::new(Expression::random(rng, ceiling - 1)),
            Box::new(Expression::random(rng, ceiling - 1)),
        )
    } else if choice == 7 {
        Condition::Greater(
            Box::new(Expression::random(rng, ceiling - 1)),
            Box::new(Expression::random(rng, ceiling - 1)),
        )
    } else if choice == 8 {
        Condition::GreaterEqual(
            Box::new(Expression::random(rng, ceiling - 1)),
            Box::new(Expression::random(rng, ceiling - 1)),
        )
    } else {
        Condition::Equal(
            Box::new(Expression::random(rng, ceiling - 1)),
            Box::new(Expression::random(rng, ceiling - 1)),
        )
    }
}

impl Random for Condition {
    open spec fn fits(&self, ceiling: nat) -> bool {
        condition_fits(*self, ceiling)
    }

    fn random(rng: &mut rand::StdRng, ceiling: u32) -> (tree: Self)
        decreases ceiling, 1int,
    {
        let weights: [u32; 10] = [10, 10, 3, 2, 2, 1, 1, 1, 1, 2];
        let leaves: [u32; 2] = [10, 10];
        proof {
            reveal_with_fuel(weight_before, 11);
        }
        let choice = if ceiling == 0 {
            pick(&leaves, rng)
        } else {
            pick(&weights, rng)
        };
        condition_for(choice, rng, ceiling)
    }
}

/// The program that the choice stands for: for a choice of zero, where the
/// ceiling leaves a level for its parts, a choice on a random condition
/// between two random programs, all three drawn under a ceiling one lower;
/// else a random command.
pub fn program_for(choice: usize, rng: &mut rand::StdRng, ceiling: u32) -> (tree: Program)
    ensures
        tree is If <==> choice == 0 && ceiling > 0,
        program_fits(tree, ceiling as nat),
        tree.height() <= ceiling + 2,
    decreases ceiling, 0int,
{
    if choice == 0 && ceiling > 0 {
        let condition = Condition::random(rng, ceiling - 1);
        let left = Program::random(rng, ceiling - 1);
        let right = Program::random(rng, ceiling - 1);
        Program::If(condition, Box::new(left), Box::new(right))
    } else {
        Program::Command(Command::random(rng, ceiling))
    }
}

impl Random for Program {
    open spec fn fits(&self, ceiling: nat) -> bool {
        program_fits(*self, ceiling)
    }

    fn random(rng: &mut rand::StdRng, ceiling: u32) -> (tree: Self)
        decreases ceiling, 1int,
    {
        let weights: [u32; 2] = [3, 4];
        proof {
            reveal_with_fuel(weight_before, 3);
        }
        let choice = if ceiling == 0 {
            1
        } else {
            pick(&weights, rng)
        };
        program_for(choice, rng, ceiling)
    }
}

} // verus!
