use ast::num::{Arithmetic, Operator};
use ast::source::Source;
use ast::structure::{Command, Condition, Expression, Number, Program, Sensor};

struct Ieee;

impl Arithmetic for Ieee {
    fn apply(&self, operator: Operator, left: Number, right: Number) -> Number {
        let a = f32::from_bits(left.bits);
        let b = f32::from_bits(right.bits);
        let c = match operator {
            Operator::Plus => a + b,
            Operator::Minus => a - b,
            Operator::Multiply => a * b,
            Operator::Divide => a / b,
        };
        Number::from_bits(c.to_bits())
    }

    fn decimal(&self, value: Number) -> String {
        format!("{:.*}", 4, f32::from_bits(value.bits))
    }

    fn shortest(&self, value: Number) -> String {
        format!("{}", f32::from_bits(value.bits))
    }
}

fn iff(condition: Condition, left: Program, right: Program) -> Program {
    Program::If(condition, Box::new(left), Box::new(right))
}

fn not(condition: Condition) -> Condition {
    Condition::Not(Box::new(condition))
}

fn or(left: Condition, right: Condition) -> Condition {
    Condition::Or(Box::new(left), Box::new(right))
}

fn and(left: Condition, right: Condition) -> Condition {
    Condition::And(Box::new(left), Box::new(right))
}

fn less(left: Expression, right: Expression) -> Condition {
    Condition::Less(Box::new(left), Box::new(right))
}

fn less_equal(left: Expression, right: Expression) -> Condition {
    Condition::LessEqual(Box::new(left), Box::new(right))
}

fn equal(left: Expression, right: Expression) -> Condition {
    Condition::Equal(Box::new(left), Box::new(right))
}

fn greater_equal(left: Expression, right: Expression) -> Condition {
    Condition::GreaterEqual(Box::new(left), Box::new(right))
}

fn greater(left: Expression, right: Expression) -> Condition {
    Condition::Greater(Box::new(left), Box::new(right))
}

fn constant(value: f32) -> Expression {
    Expression::Constant(Number::from_bits(value.to_bits()))
}

fn plus(left: Expression, right: Expression) -> Expression {
    Expression::Plus(Box::new(left), Box::new(right))
}

fn minus(left: Expression, right: Expression) -> Expression {
    Expression::Minus(Box::new(left), Box::new(right))
}

fn multiply(left: Expression, right: Expression) -> Expression {
    Expression::Multiply(Box::new(left), Box::new(right))
}

fn divide(left: Expression, right: Expression) -> Expression {
    Expression::Divide(Box::new(left), Box::new(right))
}

fn skip() -> Program {
    Program::Command(Command::Skip)
}

fn left() -> Program {
    Program::Command(Command::Left)
}

fn right() -> Program {
    Program::Command(Command::Right)
}

fn thrust() -> Program {
    Program::Command(Command::Thrust)
}

#[test]
fn iff_macro_should_work() {
    assert_eq!("iff!(T!(),skip!(),thrust!())", iff(Condition::True, skip(), thrust()).source(&Ieee));
}

#[test]
fn t_macro_should_work() {
    assert_eq!("T!()", Condition::True.source(&Ieee));
}

#[test]
fn f_macro_should_work() {
    assert_eq!("F!()", Condition::False.source(&Ieee));
}

#[test]
fn not_macro_should_work() {
    assert_eq!("not!(F!())", not(Condition::False).source(&Ieee));
}

#[test]
fn or_macro_should_work() {
    assert_eq!("or!(T!(),F!())", or(Condition::True, Condition::False).source(&Ieee));
}

#[test]
fn and_macro_should_work() {
    assert_eq!("and!(T!(),F!())", and(Condition::True, Condition::False).source(&Ieee));
}

#[test]
fn less_macro_should_work() {
    assert_eq!("less!(constant!(1.0000),constant!(2.0000))", less(constant(1.0), constant(2.0)).source(&Ieee));
}

#[test]
fn less_equal_macro_should_work() {
    assert_eq!("less_equal!(constant!(1.0000),constant!(2.0000))", less_equal(constant(1.0), constant(2.0)).source(&Ieee));
}

#[test]
fn equal_macro_should_work() {
    assert_eq!("equal!(constant!(1.0000),constant!(2.0000))", equal(constant(1.0), constant(2.0)).source(&Ieee));
}

#[test]
fn greater_equal_macro_should_work() {
    assert_eq!("greater_equal!(constant!(1.0000),constant!(2.0000))", greater_equal(constant(1.0), constant(2.0)).source(&Ieee));
}

#[test]
fn greater_macro_should_work() {
    assert_eq!("greater!(constant!(1.0000),constant!(2.0000))", greater(constant(1.0), constant(2.0)).source(&Ieee));
}

#[test]
fn constant_macro_should_work() {
    assert_eq!("constant!(1.0000)", constant(1.0).source(&Ieee));
}

#[test]
fn x_macro_should_work() {
    assert_eq!("x!()", Expression::Sensor(Sensor::X).source(&Ieee));
}

#[test]
fn y_macro_should_work() {
    assert_eq!("y!()", Expression::Sensor(Sensor::Y).source(&Ieee));
}

#[test]
fn vx_macro_should_work() {
    assert_eq!("vx!()", Expression::Sensor(Sensor::Vx).source(&Ieee));
}

#[test]
fn vy_macro_should_work() {
    assert_eq!("vy!()", Expression::Sensor(Sensor::Vy).source(&Ieee));
}

#[test]
fn o_macro_should_work() {
    assert_eq!("o!()", Expression::Sensor(Sensor::O).source(&Ieee));
}

#[test]
fn w_macro_should_work() {
    assert_eq!("w!()", Expression::Sensor(Sensor::W).source(&Ieee));
}

#[test]
fn plus_macro_should_work() {
    assert_eq!("plus!(constant!(1.0000),constant!(2.0000))", plus(constant(1.0), constant(2.0)).source(&Ieee));
}

#[test]
fn minus_macro_should_work() {
    assert_eq!("minus!(constant!(1.0000),constant!(2.0000))", minus(constant(1.0), constant(2.0)).source(&Ieee));
}

#[test]
fn multiply_macro_should_work() {
    assert_eq!("multiply!(constant!(1.0000),constant!(2.0000))", multiply(constant(1.0), constant(2.0)).source(&Ieee));
}

#[test]
fn divide_macro_should_work() {
    assert_eq!("divide!(constant!(1.0000),constant!(2.0000))", divide(constant(1.0), constant(2.0)).source(&Ieee));
}

#[test]
fn skip_macro_should_work() {
    assert_eq!("skip!()", skip().source(&Ieee));
}

#[test]
fn left_macro_should_work() {
    assert_eq!("left!()", left().source(&Ieee));
}

#[test]
fn right_macro_should_work() {
    assert_eq!("right!()", right().source(&Ieee));
}

#[test]
fn thrust_macro_should_work() {
    assert_eq!("thrust!()", thrust().source(&Ieee));
}
