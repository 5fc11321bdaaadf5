//! What the lander's sensors read, and what a tree makes of it.
//!
//! A program is evaluated against the readings and gives a command. The
//! order of two numbers is the library's own (see `num`); every sum,
//! difference, product and quotient is the arithmetic's.
use vstd::prelude::*;
use crate::num::{applies, single_valued, Arithmetic, Operator};
use crate::simplify::{
    combined, condition_simplified, folds, operation, program_simplified, simplifies,
};
use crate::structure::{Command, Condition, Expression, Number, Program, Sensor};

verus! {

/// The readings at one moment of a flight.
#[derive(Clone, Copy, Debug, PartialEq, Eq, Structural)]
pub struct SensorData {
    pub x: Number,
    pub y: Number,
    pub vx: Number,
    pub vy: Number,
    pub o: Number,
    pub w: Number,
    pub fuel: Number,
    pub hit_ground: bool,
    pub landed: bool,
    pub thrusting: bool,
    pub crash_speed: Number,
}

/// The bits of one: a full tank.
pub const FULL: u32 = 0x3f80_0000;

impl SensorData {
    /// The readings of a lander at rest at the origin, with a full tank.
    pub fn new() -> (data: SensorData)
        ensures
            data == (SensorData {
                x: Number { bits: 0 },
                y: Number { bits: 0 },
                vx: Number { bits: 0 },
                vy: Number { bits: 0 },
                o: Number { bits: 0 },
                w: Number { bits: 0 },
                fuel: Number { bits: FULL },
                hit_ground: false,
                landed: false,
                thrusting: false,
                crash_speed: Number { bits: 0 },
            }),
    {
        SensorData {
            x: Number { bits: 0 },
            y: Number { bits: 0 },
            vx: Number { bits: 0 },
            vy: Number { bits: 0 },
            o: Number { bits: 0 },
            w: Number { bits: 0 },
            fuel: Number { bits: FULL },
            hit_ground: false,
            landed: false,
            thrusting: false,
            crash_speed: Number { bits: 0 },
        }
    }

    pub fn with_x(self, x: Number) -> (data: SensorData)
        ensures
            data == (SensorData { x, ..self }),
    {
        SensorData { x, ..self }
    }

    pub fn with_y(self, y: Number) -> (data: SensorData)
        ensures
            data == (SensorData { y, ..self }),
    {
        SensorData { y, ..self }
    }

    pub fn with_vx(self, vx: Number) -> (data: SensorData)
        ensures
            data == (SensorData { vx, ..self }),
    {
        SensorData { vx, ..self }
    }

    pub fn with_vy(self, vy: Number) -> (data: SensorData)
        ensures
            data == (SensorData { vy, ..self }),
    {
        SensorData { vy, ..self }
    }

    pub fn with_o(self, o: Number) -> (data: SensorData)
        ensures
            data == (SensorData { o, ..self }),
    {
        SensorData { o, ..self }
    }

    pub fn with_w(self, w: Number) -> (data: SensorData)
        ensures
            data == (SensorData { w, ..self }),
    {
        SensorData { w, ..self }
    }

    pub fn with_fuel(self, fuel: Number) -> (data: SensorData)
        ensures
            data == (SensorData { fuel, ..self }),
    {
        SensorData { fuel, ..self }
    }

    pub fn hit_ground(self) -> (data: SensorData)
        ensures
            data == (SensorData { hit_ground: true, ..self }),
    {
        SensorData { hit_ground: true, ..self }
    }

    pub fn landed(self) -> (data: SensorData)
        ensures
            data == (SensorData { landed: true, ..self }),
    {
        SensorData { landed: true, ..self }
    }

    pub fn thrusting(self) -> (data: SensorData)
        ensures
            data == (SensorData { thrusting: true, ..self }),
    {
        SensorData { thrusting: true, ..self }
    }
}

/// What a sensor reads.
pub open spec fn reading(sensor: Sensor, data: SensorData) -> Number {
    match sensor {
        Sensor::X => data.x,
        Sensor::Y => data.y,
        Sensor::Vx => data.vx,
        Sensor::Vy => data.vy,
        Sensor::O => data.o,
        Sensor::W => data.w,
        Sensor::Fuel => data.fuel,
    }
}

/// `out` is a value that the expression can have at the given readings.
pub open spec fn expression_yields<A: Arithmetic>(
    arithmetic: &A,
    expression: Expression,
    data: SensorData,
    out: Number,
) -> bool
    decreases expression,
{
    match expression {
        Expression::Constant(value) => out == value,
        Expression::Sensor(sensor) => out == reading(sensor, data),
        Expression::Plus(left, right) => exists|a: Number, b: Number| #[trigger]
            applies(arithmetic, Operator::Plus, a, b, out) && expression_yields(
                arithmetic,
                *left,
                data,
                a,
            ) && expression_yields(arithmetic, *right, data, b),
        Expression::Minus(left, right) => exists|a: Number, b: Number| #[trigger]
            applies(arithmetic, Operator::Minus, a, b, out) && expression_yields(
                arithmetic,
                *left,
                data,
                a,
            ) && expression_yields(arithmetic, *right, data, b),
        Expression::Multiply(left, right) => exists|a: Number, b: Number| #[trigger]
            applies(arithmetic, Operator::Multiply, a, b, out) && expression_yields(
                arithmetic,
                *left,
                data,
                a,
            ) && expression_yields(arithmetic, *right, data, b),
        Expression::Divide(left, right) => exists|a: Number, b: Number| #[trigger]
            applies(arithmetic, Operator::Divide, a, b, out) && expression_yields(
                arithmetic,
                *left,
                data,
                a,
            ) && expression_yields(arithmetic, *right, data, b),
    }
}

/// How a comparison reads two numbers.
pub open spec fn compares(condition: Condition, a: Number, b: Number) -> bool {
    match condition {
        Condition::Less(_, _) => a.less(b),
        Condition::LessEqual(_, _) => a.less(b) || a.same(b),
        Condition::Equal(_, _) => a.same(b),
        Condition::GreaterEqual(_, _) => b.less(a) || a.same(b),
        Condition::Greater(_, _) => b.less(a),
        _ => false,
    }
}

/// `out` is a truth value that the condition can have at the given readings.
/// The right side of an `or` counts only where the left side is false, that
/// of an `and` only where the left side is true.
pub open spec fn condition_holds<A: Arithmetic>(
    arithmetic: &A,
    condition: Condition,
    data: SensorData,
    out: bool,
) -> bool
    decreases condition,
{
    match condition {
        Condition::True => out,
        Condition::False => !out,
        Condition::Not(inner) => condition_holds(arithmetic, *inner, data, !out),
        Condition::Or(left, right) => (condition_holds(arithmetic, *left, data, true) && out) || (
        condition_holds(arithmetic, *left, data, false) && condition_holds(
            arithmetic,
            *right,
            data,
            out,
        )),
        Condition::And(left, right) => (condition_holds(arithmetic, *left, data, false) && !out)
            || (condition_holds(arithmetic, *left, data, true) && condition_holds(
            arithmetic,
            *right,
            data,
            out,
        )),
        Condition::Less(left, right)
        | Condition::LessEqual(left, right)
        | Condition::Equal(left, right)
        | Condition::GreaterEqual(left, right)
        | Condition::Greater(left, right) => exists|a: Number, b: Number|
            out == #[trigger] compares(condition, a, b) && expression_yields(
                arithmetic,
                *left,
                data,
                a,
            ) && expression_yields(arithmetic, *right, data, b),
    }
}

/// `out` is a command that the program can give at the given readings.
pub open spec fn program_evaluates<A: Arithmetic>(
    arithmetic: &A,
    program: Program,
    data: SensorData,
    out: Command,
) -> bool
    decreases program,
{
    match program {
        Program::If(condition, left, right) => (condition_holds(arithmetic, condition, data, true)
            && program_evaluates(arithmetic, *left, data, out)) || (condition_holds(
            arithmetic,
            condition,
            data,
            false,
        ) && program_evaluates(arithmetic, *right, data, out)),
        Program::Command(command) => out == command,
    }
}

/// The numeric value of a sensor or an expression.
pub trait NumericValue {
    /// This, as an expression.
    spec fn expression(&self) -> Expression;

    /// A value that this has at the given readings.
    fn value<A: Arithmetic>(&self, sensor_data: SensorData, arithmetic: &A) -> (out: Number)
        ensures
            expression_yields(arithmetic, self.expression(), sensor_data, out),
    ;
}

impl NumericValue for Sensor {
    open spec fn expression(&self) -> Expression {
        Expression::Sensor(*self)
    }

    fn value<A: Arithmetic>(&self, sensor_data: SensorData, arithmetic: &A) -> (out: Number) {
        match self {
            Sensor::X => sensor_data.x,
            Sensor::Y => sensor_data.y,
            Sensor::Vx => sensor_data.vx,
            Sensor::Vy => sensor_data.vy,
            Sensor::O => sensor_data.o,
            Sensor::W => sensor_data.w,
            Sensor::Fuel => sensor_data.fuel,
        }
    }
}

fn expression_value<A: Arithmetic>(expression: &Expression, data: SensorData, arithmetic: &A) -> (out:
    Number)
    ensures
        expression_yields(arithmetic, *expression, data, out),
    decreases *expression,
{
    match expression {
        Expression::Constant(value) => *value,
        Expression::Sensor(sensor) => sensor.value(data, arithmetic),
        Expression::Plus(left, right) => {
            let a = expression_value(left, data, arithmetic);
            let b = expression_value(right, data, arithmetic);
            let out = arithmetic.apply(Operator::Plus, a, b);
            assert(applies(arithmetic, Operator::Plus, a, b, out));
            out
        },
        Expression::Minus(left, right) => {
            let a = expression_value(left, data, arithmetic);
            let b = expression_value(right, data, arithmetic);
            let out = arithmetic.apply(Operator::Minus, a, b);
            assert(applies(arithmetic, Operator::Minus, a, b, out));
            out
        },
        Expression::Multiply(left, right) => {
            let a = expression_value(left, data, arithmetic);
            let b = expression_value(right, data, arithmetic);
            let out = arithmetic.apply(Operator::Multiply, a, b);
            assert(applies(arithmetic, Operator::Multiply, a, b, out));
            out
        },
        Expression::Divide(left, right) => {
            let a = expression_value(left, data, arithmetic);
            let b = expression_value(right, data, arithmetic);
            let out = arithmetic.apply(Operator::Divide, a, b);
            assert(applies(arithmetic, Operator::Divide, a, b, out));
            out
        },
    }
}

impl NumericValue for Expression {
    open spec fn expression(&self) -> Expression {
        *self
    }

    fn value<A: Arithmetic>(&self, sensor_data: SensorData, arithmetic: &A) -> (out: Number) {
        expression_value(self, sensor_data, arithmetic)
    }
}

/// The truth value of a condition.
pub trait BooleanValue {
    /// This, as a condition.
    spec fn condition(&self) -> Condition;

    /// A truth value that this has at the given readings.
    fn value<A: Arithmetic>(&self, sensor_data: SensorData, arithmetic: &A) -> (out: bool)
        ensures
            condition_holds(arithmetic, self.condition(), sensor_data, out),
    ;
}

fn condition_value<A: Arithmetic>(condition: &Condition, data: SensorData, arithmetic: &A) -> (out:
    bool)
    ensures
        condition_holds(arithmetic, *condition, data, out),
    decreases *condition,
{
    match condition {
        Condition::True => true,
        Condition::False => false,
        Condition::Not(inner) => !condition_value(inner, data, arithmetic),
        Condition::Or(left, right) => condition_value(left, data, arithmetic) || condition_value(
            right,
            data,
            arithmetic,
        ),
        Condition::And(left, right) => condition_value(left, data, arithmetic) && condition_value(
            right,
            data,
            arithmetic,
        ),
        Condition::Less(left, right) => {
            let a = expression_value(left, data, arithmetic);
            let b = expression_value(right, data, arithmetic);
            let out = a.lt(b);
            assert(out == compares(*condition, a, b));
            out
        },
        Condition::LessEqual(left, right) => {
            let a = expression_value(left, data, arithmetic);
            let b = expression_value(right, data, arithmetic);
            let out = a.le(b);
            assert(out == compares(*condition, a, b));
            out
        },
        Condition::Equal(left, right) => {
            let a = expression_value(left, data, arithmetic);
            let b = expression_value(right, data, arithmetic);
            let out = a.equals(b);
            assert(out == compares(*condition, a, b));
            out
        },
        Condition::GreaterEqual(left, right) => {
            let a = expression_value(left, data, arithmetic);
            let b = expression_value(right, data, arithmetic);
            let out = a.ge(b);
            assert(out == compares(*condition, a, b));
            out
        },
        Condition::Greater(left, right) => {
            let a = expression_value(left, data, arithmetic);
            let b = expression_value(right, data, arithmetic);
            let out = a.gt(b);
            assert(out == compares(*condition, a, b));
            out
        },
    }
}

impl BooleanValue for Condition {
    open spec fn condition(&self) -> Condition {
        *self
    }

    fn value<A: Arithmetic>(&self, sensor_data: SensorData, arithmetic: &A) -> (out: bool) {
        condition_value(self, sensor_data, arithmetic)
    }
}

/// The command that a program gives.
pub trait Evaluate {
    /// This, as a program.
    spec fn program(&self) -> Program;

    /// A command that this gives at the given readings.
    fn evaluate<A: Arithmetic>(&self, sensor_data: SensorData, arithmetic: &A) -> (out: Command)
        ensures
            program_evaluates(arithmetic, self.program(), sensor_data, out),
    ;
}

fn program_command<A: Arithmetic>(program: &Program, data: SensorData, arithmetic: &A) -> (out:
    Command)
    ensures
        program_evaluates(arithmetic, *program, data, out),
    decreases *program,
{
    match program {
        Program::If(condition, left, right) => {
            if condition_value(condition, data, arithmetic) {
                program_command(left, data, arithmetic)
            } else {
                program_command(right, data, arithmetic)
            }
        },
        Program::Command(command) => *command,
    }
}

impl Evaluate for Program {
    open spec fn program(&self) -> Program {
        *self
    }

    fn evaluate<A: Arithmetic>(&self, sensor_data: SensorData, arithmetic: &A) -> (out: Command) {
        program_command(self, sensor_data, arithmetic)
    }
}

/// A condition and its simplified form have the same truth values at any
/// readings.
pub proof fn simplified_condition_holds_alike<A: Arithmetic>(
    arithmetic: &A,
    condition: Condition,
    data: SensorData,
    out: bool,
)
    ensures
        condition_holds(arithmetic, condition, data, out) <==> condition_holds(
            arithmetic,
            condition_simplified(condition),
            data,
            out,
        ),
    decreases condition,
{
    match condition {
        Condition::Not(inner) => {
            simplified_condition_holds_alike(arithmetic, *inner, data, !out);
        },
        Condition::Or(left, right) | Condition::And(left, right) => {
            simplified_condition_holds_alike(arithmetic, *left, data, true);
            simplified_condition_holds_alike(arithmetic, *left, data, false);
            simplified_condition_holds_alike(arithmetic, *right, data, out);
        },
        _ => {},
    }
}

/// A program and its simplified form give the same commands at any
/// readings: simplifying never changes what a program does.
pub proof fn simplified_program_evaluates_alike<A: Arithmetic>(
    arithmetic: &A,
    program: Program,
    data: SensorData,
    out: Command,
)
    ensures
        program_evaluates(arithmetic, program, data, out) <==> program_evaluates(
            arithmetic,
            program_simplified(program),
            data,
            out,
        ),
    decreases program,
{
    match program {
        Program::If(condition, left, right) => {
            simplified_condition_holds_alike(arithmetic, condition, data, true);
            simplified_condition_holds_alike(arithmetic, condition, data, false);
            simplified_program_evaluates_alike(arithmetic, *left, data, out);
            simplified_program_evaluates_alike(arithmetic, *right, data, out);
        },
        Program::Command(_) => {},
    }
}

/// A value of an operation on two operands is what the arithmetic gives for
/// a value of each.
pub open spec fn operation_yields<A: Arithmetic>(
    arithmetic: &A,
    operator: Operator,
    left: Expression,
    right: Expression,
    data: SensorData,
    out: Number,
) -> bool {
    exists|a: Number, b: Number| #[trigger]
        applies(arithmetic, operator, a, b, out) && expression_yields(arithmetic, left, data, a)
            && expression_yields(arithmetic, right, data, b)
}

/// Every value that a simplified expression can have at some readings is a
/// value that the expression itself can have there.
pub proof fn simplified_expression_yields_alike<A: Arithmetic>(
    arithmetic: &A,
    expression: Expression,
    simplified: Expression,
    data: SensorData,
    out: Number,
)
    requires
        simplifies(arithmetic, expression, simplified),
        expression_yields(arithmetic, simplified, data, out),
    ensures
        expression_yields(arithmetic, expression, data, out),
    decreases expression,
{
    match operation(expression) {
        None => {},
        Some((operator, left, right)) => {
            let (l, r) = choose|l: Expression, r: Expression| #[trigger]
                folds(arithmetic, operator, l, r, simplified) && simplifies(arithmetic, left, l)
                    && simplifies(arithmetic, right, r);
            match (l, r) {
                (Expression::Constant(a), Expression::Constant(b)) => {
                    simplified_expression_yields_alike(arithmetic, left, l, data, a);
                    simplified_expression_yields_alike(arithmetic, right, r, data, b);
                    assert(applies(arithmetic, operator, a, b, out));
                    assert(operation_yields(arithmetic, operator, left, right, data, out));
                },
                _ => {
                    assert(simplified == combined(operator, l, r));
                    assert(operation_yields(arithmetic, operator, l, r, data, out));
                    let (a, b) = choose|a: Number, b: Number| #[trigger]
                        applies(arithmetic, operator, a, b, out) && expression_yields(
                            arithmetic,
                            l,
                            data,
                            a,
                        ) && expression_yields(arithmetic, r, data, b);
                    simplified_expression_yields_alike(arithmetic, left, l, data, a);
                    simplified_expression_yields_alike(arithmetic, right, r, data, b);
                    assert(operation_yields(arithmetic, operator, left, right, data, out));
                },
            }
        },
    }
}

/// Where the arithmetic gives one result only for every operation, every
/// value that an expression can have at some readings is a value that the
/// simplified expression can have there: with the law above, simplifying
/// never changes the value.
pub proof fn simplified_expression_keeps_values<A: Arithmetic>(
    arithmetic: &A,
    expression: Expression,
    simplified: Expression,
    data: SensorData,
    out: Number,
)
    requires
        single_valued(arithmetic),
        simplifies(arithmetic, expression, simplified),
        expression_yields(arithmetic, expression, data, out),
    ensures
        expression_yields(arithmetic, simplified, data, out),
    decreases expression,
{
    match operation(expression) {
        None => {},
        Some((operator, left, right)) => {
            let (l, r) = choose|l: Expression, r: Expression| #[trigger]
                folds(arithmetic, operator, l, r, simplified) && simplifies(arithmetic, left, l)
                    && simplifies(arithmetic, right, r);
            assert(operation_yields(arithmetic, operator, left, right, data, out));
            let (a, b) = choose|a: Number, b: Number| #[trigger]
                applies(arithmetic, operator, a, b, out) && expression_yields(
                    arithmetic,
                    left,
                    data,
                    a,
                ) && expression_yields(arithmetic, right, data, b);
            simplified_expression_keeps_values(arithmetic, left, l, data, a);
            simplified_expression_keeps_values(arithmetic, right, r, data, b);
            match (l, r) {
                (Expression::Constant(x), Expression::Constant(y)) => {
                    assert(applies(arithmetic, operator, x, y, simplified->Constant_0));
                },
                _ => {
                    assert(simplified == combined(operator, l, r));
                    assert(operation_yields(arithmetic, operator, l, r, data, out));
                },
            }
        },
    }
}

/// Where the arithmetic gives one result only for every operation, an
/// expression has one value at given readings.
pub proof fn expression_yields_once<A: Arithmetic>(
    arithmetic: &A,
    expression: Expression,
    data: SensorData,
    one: Number,
    other: Number,
)
    requires
        single_valued(arithmetic),
        expression_yields(arithmetic, expression, data, one),
        expression_yields(arithmetic, expression, data, other),
    ensures
        one == other,
    decreases expression,
{
    match operation(expression) {
        None => {},
        Some((operator, left, right)) => {
            assert(operation_yields(arithmetic, operator, left, right, data, one));
            assert(operation_yields(arithmetic, operator, left, right, data, other));
            let (a, b) = choose|a: Number, b: Number| #[trigger]
                applies(arithmetic, operator, a, b, one) && expression_yields(
                    arithmetic,
                    left,
                    data,
                    a,
                ) && expression_yields(arithmetic, right, data, b);
            let (c, d) = choose|c: Number, d: Number| #[trigger]
                applies(arithmetic, operator, c, d, other) && expression_yields(
                    arithmetic,
                    left,
                    data,
                    c,
                ) && expression_yields(arithmetic, right, data, d);
            expression_yields_once(arithmetic, left, data, a, c);
            expression_yields_once(arithmetic, right, data, b, d);
        },
    }
}

/// Where the arithmetic gives one result only for every operation, a
/// condition has one truth value at given readings.
pub proof fn condition_holds_once<A: Arithmetic>(
    arithmetic: &A,
    condition: Condition,
    data: SensorData,
    one: bool,
    other: bool,
)
    requires
        single_valued(arithmetic),
        condition_holds(arithmetic, condition, data, one),
        condition_holds(arithmetic, condition, data, other),
    ensures
        one == other,
    decreases condition,
{
    match condition {
        Condition::True | Condition::False => {},
        Condition::Not(inner) => {
            condition_holds_once(arithmetic, *inner, data, !one, !other);
        },
        Condition::Or(left, right) | Condition::And(left, right) => {
            if one != other {
                if condition_holds(arithmetic, *left, data, true) && condition_holds(
                    arithmetic,
                    *left,
                    data,
                    false,
                ) {
                    condition_holds_once(arithmetic, *left, data, true, false);
                } else {
                    condition_holds_once(arithmetic, *right, data, one, other);
                }
            }
        },
        Condition::Less(left, right)
        | Condition::LessEqual(left, right)
        | Condition::Equal(left, right)
        | Condition::GreaterEqual(left, right)
        | Condition::Greater(left, right) => {
            let (a, b) = choose|a: Number, b: Number|
                one == #[trigger] compares(condition, a, b) && expression_yields(
                    arithmetic,
                    *left,
                    data,
                    a,
                ) && expression_yields(arithmetic, *right, data, b);
            let (c, d) = choose|c: Number, d: Number|
                other == #[trigger] compares(condition, c, d) && expression_yields(
                    arithmetic,
                    *left,
                    data,
                    c,
                ) && expression_yields(arithmetic, *right, data, d);
            expression_yields_once(arithmetic, *left, data, a, c);
            expression_yields_once(arithmetic, *right, data, b, d);
        },
    }
}

/// Where the arithmetic gives one result only for every operation, a program
/// gives one command at given readings.
pub proof fn program_evaluates_once<A: Arithmetic>(
    arithmetic: &A,
    program: Program,
    data: SensorData,
    one: Command,
    other: Command,
)
    requires
        single_valued(arithmetic),
        program_evaluates(arithmetic, program, data, one),
        program_evaluates(arithmetic, program, data, other),
    ensures
        one == other,
    decreases program,
{
    match program {
        Program::If(condition, left, right) => {
            if condition_holds(arithmetic, condition, data, true) && condition_holds(
                arithmetic,
                condition,
                data,
                false,
            ) {
                condition_holds_once(arithmetic, condition, data, true, false);
            } else if condition_holds(arithmetic, condition, data, true) {
                program_evaluates_once(arithmetic, *left, data, one, other);
            } else {
                program_evaluates_once(arithmetic, *right, data, one, other);
            }
        },
        Program::Command(_) => {},
    }
}

/// Simplifying never changes what a program does: where the arithmetic
/// gives one result only for every operation, a program and its simplified
/// form give the same command at any readings.
pub proof fn simplified_program_gives_the_same<A: Arithmetic>(
    arithmetic: &A,
    program: Program,
    data: SensorData,
    command: Command,
    simplified_command: Command,
)
    requires
        single_valued(arithmetic),
        program_evaluates(arithmetic, program, data, command),
        program_evaluates(arithmetic, program_simplified(program), data, simplified_command),
    ensures
        command == simplified_command,
{
    simplified_program_evaluates_alike(arithmetic, program, data, simplified_command);
    program_evaluates_once(arithmetic, program, data, command, simplified_command);
}

/// Where the arithmetic gives one result only for every operation, a
/// condition and its simplified form have the same truth value at any
/// readings.
pub proof fn simplified_condition_holds_the_same<A: Arithmetic>(
    arithmetic: &A,
    condition: Condition,
    data: SensorData,
    truth: bool,
    simplified_truth: bool,
)
    requires
        single_valued(arithmetic),
        condition_holds(arithmetic, condition, data, truth),
        condition_holds(arithmetic, condition_simplified(condition), data, simplified_truth),
    ensures
        truth == simplified_truth,
{
    simplified_condition_holds_alike(arithmetic, condition, data, simplified_truth);
    condition_holds_once(arithmetic, condition, data, truth, simplified_truth);
}

/// Where the arithmetic gives one result only for every operation, an
/// expression and a simplified form of it have the same value at any
/// readings.
pub proof fn simplified_expression_yields_the_same<A: Arithmetic>(
    arithmetic: &A,
    expression: Expression,
    simplified: Expression,
    data: SensorData,
    value: Number,
    simplified_value: Number,
)
    requires
        single_valued(arithmetic),
        simplifies(arithmetic, expression, simplified),
        expression_yields(arithmetic, expression, data, value),
        expression_yields(arithmetic, simplified, data, simplified_value),
    ensures
        value == simplified_value,
{
    simplified_expression_yields_alike(arithmetic, expression, simplified, data, simplified_value);
    expression_yields_once(arithmetic, expression, data, value, simplified_value);
}

} // verus!
