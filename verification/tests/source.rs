use ast::num::{Arithmetic, Operator};
use ast::source::Source;
use ast::text::Text;
use ast::structure::{Command, Condition, Expression, Number, Program, Sensor};

struct Ieee;

impl Arithmetic for Ieee {
    fn apply(&self, operator: Operator, left: Number, right: Number) -> Number {
        let a = f32::from_bits(left.bits);
        let b = f32::from_bits(right.bits);
        let c = match operator {
            Operator::Plus => a + b,
            Operator::Minus => a - b,
            Operator::Multiply => a * b,
            Operator::Divide => a / b,
        };
        Number::from_bits(c.to_bits())
    }

    fn decimal(&self, value: Number) -> String {
        format!("{:.*}", 4, f32::from_bits(value.bits))
    }

    fn shortest(&self, value: Number) -> String {
        format!("{}", f32::from_bits(value.bits))
    }
}

fn constant(value: f32) -> Expression {
    Expression::Constant(Number::from_bits(value.to_bits()))
}

#[test]
fn should_correctly_source_programs() {
    assert_eq!(
        "iff!(T!(),skip!(),left!())",
        Program::If(
            Condition::True,
            Box::new(Program::Command(Command::Skip)),
            Box::new(Program::Command(Command::Left))
        )
        .source(&Ieee)
    );
    assert_eq!("skip!()", Program::Command(Command::Skip).source(&Ieee));
}

#[test]
fn should_correctly_source_conditions() {
    assert_eq!("T!()", Condition::True.source(&Ieee));
    assert_eq!("F!()", Condition::False.source(&Ieee));
    assert_eq!("not!(T!())", Condition::Not(Box::new(Condition::True)).source(&Ieee));
    assert_eq!(
        "or!(T!(),F!())",
        Condition::Or(Box::new(Condition::True), Box::new(Condition::False)).source(&Ieee)
    );
    assert_eq!(
        "and!(F!(),T!())",
        Condition::And(Box::new(Condition::False), Box::new(Condition::True)).source(&Ieee)
    );
    assert_eq!(
        "less!(constant!(1.0000),constant!(2.0000))",
        Condition::Less(Box::new(constant(1.0)), Box::new(constant(2.0))).source(&Ieee)
    );
    assert_eq!(
        "less_equal!(constant!(1.0000),constant!(2.0000))",
        Condition::LessEqual(Box::new(constant(1.0)), Box::new(constant(2.0))).source(&Ieee)
    );
    assert_eq!(
        "equal!(constant!(1.0000),constant!(2.0000))",
        Condition::Equal(Box::new(constant(1.0)), Box::new(constant(2.0))).source(&Ieee)
    );
    assert_eq!(
        "greater_equal!(constant!(1.0000),constant!(2.0000))",
        Condition::GreaterEqual(Box::new(constant(1.0)), Box::new(constant(2.0))).source(&Ieee)
    );
    assert_eq!(
        "greater!(constant!(1.0000),constant!(2.0000))",
        Condition::Greater(Box::new(constant(1.0)), Box::new(constant(2.0))).source(&Ieee)
    );
}

#[test]
fn should_correctly_source_expressions() {
    assert_eq!("constant!(1.0000)", constant(1.0).source(&Ieee));
    assert_eq!("vx!()", Expression::Sensor(Sensor::Vx).source(&Ieee));
    assert_eq!(
        "plus!(constant!(1.0000),vy!())",
        Expression::Plus(Box::new(constant(1.0)), Box::new(Expression::Sensor(Sensor::Vy)))
            .source(&Ieee)
    );
    assert_eq!(
        "minus!(constant!(1.0000),constant!(2.0000))",
        Expression::Minus(Box::new(constant(1.0)), Box::new(constant(2.0))).source(&Ieee)
    );
    assert_eq!(
        "multiply!(constant!(1.0000),constant!(2.0000))",
        Expression::Multiply(Box::new(constant(1.0)), Box::new(constant(2.0))).source(&Ieee)
    );
    assert_eq!(
        "divide!(constant!(1.0000),constant!(2.0000))",
        Expression::Divide(Box::new(constant(1.0)), Box::new(constant(2.0))).source(&Ieee)
    );
}

#[test]
fn should_correctly_source_sensors() {
    assert_eq!("x!()", Sensor::X.source(&Ieee));
    assert_eq!("u!()", Sensor::Y.source(&Ieee));
    assert_eq!("vx!()", Sensor::Vx.source(&Ieee));
    assert_eq!("vy!()", Sensor::Vy.source(&Ieee));
    assert_eq!("o!()", Sensor::O.source(&Ieee));
    assert_eq!("w!()", Sensor::W.source(&Ieee));
}

#[test]
fn should_correctly_source_commands() {
    assert_eq!("skip!()", Command::Skip.source(&Ieee));
    assert_eq!("left!()", Command::Left.source(&Ieee));
    assert_eq!("right!()", Command::Right.source(&Ieee));
    assert_eq!("thrust!()", Command::Thrust.source(&Ieee));
}

#[test]
fn fuel_sensor_has_a_text_of_its_own() {
    assert_eq!("fuel!()", Sensor::Fuel.source(&Ieee));
}

#[test]
fn constants_are_written_with_four_decimals() {
    assert_eq!("constant!(0.1235)", constant(0.12345).source(&Ieee));
    assert_eq!("constant!(-2.5000)", constant(-2.5).source(&Ieee));
}

#[test]
fn trees_are_shown_with_operators_between_operands() {
    let less = Condition::Less(
        Box::new(Expression::Sensor(Sensor::Vy)),
        Box::new(Expression::Plus(Box::new(constant(2.0)), Box::new(constant(0.5)))),
    );
    assert_eq!("(Vy < (2 + 0.5))", less.text(&Ieee));
    let condition = Condition::And(
        Box::new(Condition::Not(Box::new(less))),
        Box::new(Condition::Or(Box::new(Condition::True), Box::new(Condition::False))),
    );
    assert_eq!("(!(Vy < (2 + 0.5)) && (True || False))", condition.text(&Ieee));
    let program = Program::If(
        condition,
        Box::new(Program::Command(Command::Skip)),
        Box::new(Program::Command(Command::Thrust)),
    );
    assert_eq!(
        "((!(Vy < (2 + 0.5)) && (True || False)) then Skip else Thrust)",
        program.text(&Ieee)
    );
    assert_eq!("Fuel", Sensor::Fuel.text(&Ieee));
    assert_eq!("Y", Sensor::Y.text(&Ieee));
    assert_eq!("Left", Command::Left.text(&Ieee));
    assert_eq!(
        "((X - W) / (O * Vx))",
        Expression::Divide(
            Box::new(Expression::Minus(
                Box::new(Expression::Sensor(Sensor::X)),
                Box::new(Expression::Sensor(Sensor::W))
            )),
            Box::new(Expression::Multiply(
                Box::new(Expression::Sensor(Sensor::O)),
                Box::new(Expression::Sensor(Sensor::Vx))
            )),
        )
        .text(&Ieee)
    );
    let compare = |c: Condition| c.text(&Ieee);
    let one = || Box::new(constant(1.0));
    assert_eq!("(1 <= 1)", compare(Condition::LessEqual(one(), one())));
    assert_eq!("(1 == 1)", compare(Condition::Equal(one(), one())));
    assert_eq!("(1 >= 1)", compare(Condition::GreaterEqual(one(), one())));
    assert_eq!("(1 > 1)", compare(Condition::Greater(one(), one())));
}
