//! Rewriting a tree into a smaller one that behaves the same.
//!
//! The rules are local: a choice on a literal condition becomes the branch
//! taken, a negated literal becomes the other literal, a double negation
//! falls away, `or` drops a `False` side and `and` a `True` side, and an
//! operation on two constants becomes its result. Comparisons are left
//! alone.
use vstd::prelude::*;
use crate::num::{applies, Arithmetic, Operator};
use crate::structure::{Command, Condition, Expression, Program, Sensor};

verus! {

/// A condition, simplified from the leaves up.
pub open spec fn condition_simplified(condition: Condition) -> Condition
    decreases condition,
{
    match condition {
        Condition::Not(inner) => match condition_simplified(*inner) {
            Condition::True => Condition::False,
            Condition::False => Condition::True,
            Condition::Not(twice) => *twice,
            other => Condition::Not(Box::new(other)),
        },
        Condition::Or(left, right) => {
            let l = condition_simplified(*left);
            let r = condition_simplified(*right);
            if l is False {
                r
            } else if r is False {
                l
            } else {
                Condition::Or(Box::new(l), Box::new(r))
            }
        },
        Condition::And(left, right) => {
            let l = condition_simplified(*left);
            let r = condition_simplified(*right);
            if l is True {
                r
            } else if r is True {
                l
            } else {
                Condition::And(Box::new(l), Box::new(r))
            }
        },
        _ => condition,
    }
}

/// A program, simplified from the leaves up.
pub open spec fn program_simplified(program: Program) -> Program
    decreases program,
{
    match program {
        Program::If(condition, left, right) => match condition_simplified(condition) {
            Condition::True => program_simplified(*left),
            Condition::False => program_simplified(*right),
            other => Program::If(
                other,
                Box::new(program_simplified(*left)),
                Box::new(program_simplified(*right)),
            ),
        },
        Program::Command(_) => program,
    }
}

/// A condition on which no rule applies any more.
pub open spec fn condition_settled(condition: Condition) -> bool
    decreases condition,
{
    match condition {
        Condition::Not(inner) => condition_settled(*inner) && !(*inner is True) && !(*inner
            is False) && !(*inner is Not),
        Condition::Or(left, right) => condition_settled(*left) && condition_settled(*right) && !(
        *left is False) && !(*right is False),
        Condition::And(left, right) => condition_settled(*left) && condition_settled(*right) && !(
        *left is True) && !(*right is True),
        _ => true,
    }
}

/// A program on which no rule applies any more.
pub open spec fn program_settled(program: Program) -> bool
    decreases program,
{
    match program {
        Program::If(condition, left, right) => condition_settled(condition) && !(condition
            is True) && !(condition is False) && program_settled(*left) && program_settled(*right),
        Program::Command(_) => true,
    }
}

/// Simplifying leaves nothing to simplify.
pub proof fn condition_simplified_is_settled(condition: Condition)
    ensures
        condition_settled(condition_simplified(condition)),
    decreases condition,
{
    match condition {
        Condition::Not(inner) => {
            condition_simplified_is_settled(*inner);
        },
        Condition::Or(left, right) | Condition::And(left, right) => {
            condition_simplified_is_settled(*left);
            condition_simplified_is_settled(*right);
        },
        _ => {},
    }
}

/// Simplifying a condition on which no rule applies changes nothing.
pub proof fn condition_settled_is_kept(condition: Condition)
    requires
        condition_settled(condition),
    ensures
        condition_simplified(condition) == condition,
    decreases condition,
{
    match condition {
        Condition::Not(inner) => {
            condition_settled_is_kept(*inner);
        },
        Condition::Or(left, right) | Condition::And(left, right) => {
            condition_settled_is_kept(*left);
            condition_settled_is_kept(*right);
        },
        _ => {},
    }
}

/// Simplifying leaves nothing to simplify.
pub proof fn program_simplified_is_settled(program: Program)
    ensures
        program_settled(program_simplified(program)),
    decreases program,
{
    match program {
        Program::If(condition, left, right) => {
            condition_simplified_is_settled(condition);
            program_simplified_is_settled(*left);
            program_simplified_is_settled(*right);
        },
        Program::Command(_) => {},
    }
}

/// Simplifying a program on which no rule applies changes nothing.
pub proof fn program_settled_is_kept(program: Program)
    requires
        program_settled(program),
    ensures
        program_simplified(program) == program,
    decreases program,
{
    match program {
        Program::If(condition, left, right) => {
            condition_settled_is_kept(condition);
            program_settled_is_kept(*left);
            program_settled_is_kept(*right);
        },
        Program::Command(_) => {},
    }
}

fn simplify_condition(condition: &Condition) -> (out: Condition)
    ensures
        out == condition_simplified(*condition),
    decreases *condition,
{
    match condition {
        Condition::Not(inner) => {
            let i = simplify_condition(inner);
            match i {
                Condition::True => Condition::False,
                Condition::False => Condition::True,
                Condition::Not(twice) => *twice,
                other => Condition::Not(Box::new(other)),
            }
        },
        Condition::Or(left, right) => {
            let l = simplify_condition(left);
            let r = simplify_condition(right);
            if let Condition::False = l {
                r
            } else if let Condition::False = r {
                l
            } else {
                Condition::Or(Box::new(l), Box::new(r))
            }
        },
        Condition::And(left, right) => {
            let l = simplify_condition(left);
            let r = simplify_condition(right);
            if let Condition::True = l {
                r
            } else if let Condition::True = r {
                l
            } else {
                Condition::And(Box::new(l), Box::new(r))
            }
        },
        _ => condition.clone(),
    }
}

fn simplify_program(program: &Program) -> (out: Program)
    ensures
        out == program_simplified(*program),
    decreases *program,
{
    match program {
        Program::If(condition, left, right) => {
            let c = simplify_condition(condition);
            match c {
                Condition::True => simplify_program(left),
                Condition::False => simplify_program(right),
                other => Program::If(
                    other,
                    Box::new(simplify_program(left)),
                    Box::new(simplify_program(right)),
                ),
            }
        },
        Program::Command(command) => Program::Command(*command),
    }
}

/// A tree that can be simplified.
pub trait Simplify: Sized {
    /// The simplified tree.
    spec fn simplified(&self) -> Self;

    /// A new tree: this one, simplified.
    fn simplify(&self) -> (out: Self)
        ensures
            out == self.simplified(),
    ;

    /// Simplifying what has been simplified changes nothing.
    proof fn simplified_twice(&self)
        ensures
            self.simplified().simplified() == self.simplified(),
    ;
}

impl Simplify for Program {
    open spec fn simplified(&self) -> Self {
        program_simplified(*self)
    }

    fn simplify(&self) -> (out: Self) {
        simplify_program(self)
    }

    proof fn simplified_twice(&self) {
        program_simplified_is_settled(*self);
        program_settled_is_kept(program_simplified(*self));
    }
}

impl Simplify for Condition {
    open spec fn simplified(&self) -> Self {
        condition_simplified(*self)
    }

    fn simplify(&self) -> (out: Self) {
        simplify_condition(self)
    }

    proof fn simplified_twice(&self) {
        condition_simplified_is_settled(*self);
        condition_settled_is_kept(condition_simplified(*self));
    }
}

impl Simplify for Sensor {
    open spec fn simplified(&self) -> Self {
        *self
    }

    fn simplify(&self) -> (out: Self) {
        *self
    }

    proof fn simplified_twice(&self) {
    }
}

impl Simplify for Command {
    open spec fn simplified(&self) -> Self {
        *self
    }

    fn simplify(&self) -> (out: Self) {
        *self
    }

    proof fn simplified_twice(&self) {
    }
}

/// The operation that an expression applies, with its two operands; `None`
/// for a constant and for a sensor.
pub open spec fn operation(expression: Expression) -> Option<(Operator, Expression, Expression)> {
    match expression {
        Expression::Plus(left, right) => Some((Operator::Plus, *left, *right)),
        Expression::Minus(left, right) => Some((Operator::Minus, *left, *right)),
        Expression::Multiply(left, right) => Some((Operator::Multiply, *left, *right)),
        Expression::Divide(left, right) => Some((Operator::Divide, *left, *right)),
        _ => None,
    }
}

/// The expression that applies an operator to two operands.
pub open spec fn combined(operator: Operator, left: Expression, right: Expression) -> Expression {
    match operator {
        Operator::Plus => Expression::Plus(Box::new(left), Box::new(right)),
        Operator::Minus => Expression::Minus(Box::new(left), Box::new(right)),
        Operator::Multiply => Expression::Multiply(Box::new(left), Box::new(right)),
        Operator::Divide => Expression::Divide(Box::new(left), Box::new(right)),
    }
}

/// `out` is the operation on two simplified operands: a constant that the
/// arithmetic gives where both operands are constants, else the operation
/// as it stands.
pub open spec fn folds<A: Arithmetic>(
    arithmetic: &A,
    operator: Operator,
    left: Expression,
    right: Expression,
    out: Expression,
) -> bool {
    match (left, right) {
        (Expression::Constant(a), Expression::Constant(b)) => out matches Expression::Constant(c)
            && applies(arithmetic, operator, a, b, c),
        _ => out == combined(operator, left, right),
    }
}

/// `out` is the expression simplified from the leaves up, under the given
/// arithmetic.
pub open spec fn simplifies<A: Arithmetic>(
    arithmetic: &A,
    expression: Expression,
    out: Expression,
) -> bool
    decreases expression,
{
    match expression {
        Expression::Plus(left, right) => exists|l: Expression, r: Expression| #[trigger]
            folds(arithmetic, Operator::Plus, l, r, out) && simplifies(arithmetic, *left, l)
                && simplifies(arithmetic, *right, r),
        Expression::Minus(left, right) => exists|l: Expression, r: Expression| #[trigger]
            folds(arithmetic, Operator::Minus, l, r, out) && simplifies(arithmetic, *left, l)
                && simplifies(arithmetic, *right, r),
        Expression::Multiply(left, right) => exists|l: Expression, r: Expression| #[trigger]
            folds(arithmetic, Operator::Multiply, l, r, out) && simplifies(arithmetic, *left, l)
                && simplifies(arithmetic, *right, r),
        Expression::Divide(left, right) => exists|l: Expression, r: Expression| #[trigger]
            folds(arithmetic, Operator::Divide, l, r, out) && simplifies(arithmetic, *left, l)
                && simplifies(arithmetic, *right, r),
        _ => out == expression,
    }
}

/// Applies an operator to two simplified operands.
pub fn fold<A: Arithmetic>(
    operator: Operator,
    left: Expression,
    right: Expression,
    arithmetic: &A,
) -> (out: Expression)
    ensures
        folds(arithmetic, operator, left, right, out),
{
    match (left, right) {
        (Expression::Constant(a), Expression::Constant(b)) => Expression::Constant(
            arithmetic.apply(operator, a, b),
        ),
        (left, right) => match operator {
            Operator::Plus => Expression::Plus(Box::new(left), Box::new(right)),
            Operator::Minus => Expression::Minus(Box::new(left), Box::new(right)),
            Operator::Multiply => Expression::Multiply(Box::new(left), Box::new(right)),
            Operator::Divide => Expression::Divide(Box::new(left), Box::new(right)),
        },
    }
}

impl Expression {
    /// A new expression: this one, simplified. Every operation on two
    /// constants is worked out by the arithmetic, whatever comes of it.
    pub fn simplify<A: Arithmetic>(&self, arithmetic: &A) -> (out: Expression)
        ensures
            simplifies(arithmetic, *self, out),
        decreases *self,
    {
        match self {
            Expression::Plus(left, right) => {
                let l = left.simplify(arithmetic);
                let r = right.simplify(arithmetic);
                fold(Operator::Plus, l, r, arithmetic)
            },
            Expression::Minus(left, right) => {
                let l = left.simplify(arithmetic);
                let r = right.simplify(arithmetic);
                fold(Operator::Minus, l, r, arithmetic)
            },
            Expression::Multiply(left, right) => {
                let l = left.simplify(arithmetic);
                let r = right.simplify(arithmetic);
                fold(Operator::Multiply, l, r, arithmetic)
            },
            Expression::Divide(left, right) => {
                let l = left.simplify(arithmetic);
                let r = right.simplify(arithmetic);
                fold(Operator::Divide, l, r, arithmetic)
            },
            _ => self.clone(),
        }
    }
}

/// Simplifying an expression that has been simplified changes nothing,
/// whatever the arithmetic gives.
pub proof fn expression_simplified_twice<A: Arithmetic>(
    arithmetic: &A,
    expression: Expression,
    once: Expression,
    twice: Expression,
)
    requires
        simplifies(arithmetic, expression, once),
        simplifies(arithmetic, once, twice),
    ensures
        twice == once,
    decreases expression,
{
    match operation(expression) {
        None => {},
        Some((operator, left, right)) => {
            let (l, r) = choose|l: Expression, r: Expression| #[trigger]
                folds(arithmetic, operator, l, r, once) && simplifies(arithmetic, left, l)
                    && simplifies(arithmetic, right, r);
            if !(l is Constant && r is Constant) {
                assert(once == combined(operator, l, r));
                let (l2, r2) = choose|l2: Expression, r2: Expression| #[trigger]
                    folds(arithmetic, operator, l2, r2, twice) && simplifies(arithmetic, l, l2)
                        && simplifies(arithmetic, r, r2);
                expression_simplified_twice(arithmetic, left, l, l2);
                expression_simplified_twice(arithmetic, right, r, r2);
            }
        },
    }
}

} // verus!
