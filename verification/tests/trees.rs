use ast::copy::{
    Copyable, CopyReplaceCommand, CopyReplaceCondition, CopyReplaceExpression, CopyReplaceProgram,
    CopyReplaceSensor,
};
use ast::data::{BooleanValue, Evaluate, NumericValue, SensorData};
use ast::depth::Depth;
use ast::num::{partial_max, square, Arithmetic, Operator};
use ast::simplify::{fold, Simplify};
use ast::structure::{Command, Condition, Expression, NodeType, Number, Program, Sensor};
use ast::visit::{collect, shared_kinds, BucketCollector, Visitable};

struct Ieee;

impl Arithmetic for Ieee {
    fn apply(&self, operator: Operator, left: Number, right: Number) -> Number {
        let a = f32::from_bits(left.bits);
        let b = f32::from_bits(right.bits);
        let c = match operator {
            Operator::Plus => a + b,
            Operator::Minus => a - b,
            Operator::Multiply => a * b,
            Operator::Divide => a / b,
        };
        Number::from_bits(c.to_bits())
    }

    fn decimal(&self, value: Number) -> String {
        format!("{:.*}", 4, f32::from_bits(value.bits))
    }

    fn shortest(&self, value: Number) -> String {
        format!("{}", f32::from_bits(value.bits))
    }
}

fn number(value: f32) -> Number {
    Number::from_bits(value.to_bits())
}

fn constant(value: f32) -> Expression {
    Expression::Constant(number(value))
}

fn sensor(sensor: Sensor) -> Expression {
    Expression::Sensor(sensor)
}

fn iff(condition: Condition, left: Program, right: Program) -> Program {
    Program::If(condition, Box::new(left), Box::new(right))
}

fn less(left: Expression, right: Expression) -> Condition {
    Condition::Less(Box::new(left), Box::new(right))
}

fn less_equal(left: Expression, right: Expression) -> Condition {
    Condition::LessEqual(Box::new(left), Box::new(right))
}

fn plus(left: Expression, right: Expression) -> Expression {
    Expression::Plus(Box::new(left), Box::new(right))
}

fn minus(left: Expression, right: Expression) -> Expression {
    Expression::Minus(Box::new(left), Box::new(right))
}

fn multiply(left: Expression, right: Expression) -> Expression {
    Expression::Multiply(Box::new(left), Box::new(right))
}

fn divide(left: Expression, right: Expression) -> Expression {
    Expression::Divide(Box::new(left), Box::new(right))
}

fn command(command: Command) -> Program {
    Program::Command(command)
}

fn long_program() -> Program {
    iff(
        less_equal(
            constant(0.9750),
            minus(
                minus(
                    multiply(
                        minus(
                            sensor(Sensor::Y),
                            minus(divide(constant(0.9907), sensor(Sensor::Y)), sensor(Sensor::W)),
                        ),
                        sensor(Sensor::Vy),
                    ),
                    sensor(Sensor::O),
                ),
                constant(0.7831),
            ),
        ),
        command(Command::Skip),
        command(Command::Thrust),
    )
}

fn nested_program() -> Program {
    iff(
        Condition::Or(
            Box::new(Condition::Not(Box::new(less(sensor(Sensor::Vy), constant(-1.5))))),
            Box::new(Condition::False),
        ),
        iff(
            less(sensor(Sensor::Fuel), constant(0.25)),
            command(Command::Left),
            command(Command::Thrust),
        ),
        command(Command::Right),
    )
}

fn total(program: &Program) -> usize {
    let nodes = collect(program);
    nodes.programs.len()
        + nodes.conditions.len()
        + nodes.expressions.len()
        + nodes.sensors.len()
        + nodes.commands.len()
}

#[test]
fn collect_all_nodes() {
    let program: Program = iff(
        less(sensor(Sensor::Vx), multiply(constant(2.0000), constant(3.0000))),
        command(Command::Left),
        command(Command::Right),
    );

    let mut coll = BucketCollector::new();
    program.visit(&mut coll);

    assert_eq!(3, coll.programs.len()); // iff, left, and right
    assert_eq!(1, coll.conditions.len()); // less
    assert_eq!(2, coll.commands.len()); // left, right
    assert_eq!(4, coll.expressions.len()); // vx, multiply, constant, constant
    assert_eq!(1, coll.sensors.len()); // vx
}

#[test]
fn copy_and_replace() {
    let program = long_program();
    let replacement = long_program();

    let mut nodes = BucketCollector::new();
    program.visit(&mut nodes);
    assert_eq!(&command(Command::Skip), nodes.programs[1]);

    let replacer = CopyReplaceProgram { to_replace: 1, replace_with: &replacement };
    let copied = program.copy(&replacer);

    println!("{:?}", copied);

    // Count the Programs in the new tree, it'll be 5
    let mut new_nodes = BucketCollector::new();
    copied.visit(&mut new_nodes);
    assert_eq!(5, new_nodes.programs.len());
}

#[test]
fn nodes_come_in_the_order_of_the_walk() {
    let program = nested_program();
    let nodes = collect(&program);
    assert_eq!(5, nodes.programs.len());
    assert_eq!(&program, nodes.programs[0]);
    assert_eq!(&command(Command::Left), nodes.programs[2]);
    assert_eq!(&command(Command::Thrust), nodes.programs[3]);
    assert_eq!(&command(Command::Right), nodes.programs[4]);
    assert_eq!(5, nodes.conditions.len());
    assert_eq!(&Condition::False, nodes.conditions[3]);
    assert_eq!(&less(sensor(Sensor::Fuel), constant(0.25)), nodes.conditions[4]);
    assert_eq!(vec![&Sensor::Vy, &Sensor::Fuel], nodes.sensors);
    assert_eq!(vec![&Command::Left, &Command::Thrust, &Command::Right], nodes.commands);
    assert_eq!(4, nodes.expressions.len());
    assert_eq!(3, nodes.count(NodeType::Command));
    assert_eq!(5, nodes.count(NodeType::Program));
}

#[test]
fn a_leaf_has_only_itself() {
    let nodes = collect(&Sensor::O);
    assert_eq!(vec![&Sensor::O], nodes.sensors);
    assert_eq!(0, nodes.programs.len() + nodes.conditions.len() + nodes.expressions.len());
    let nodes = collect(&Command::Thrust);
    assert_eq!(vec![&Command::Thrust], nodes.commands);
}

#[test]
fn shared_kinds_are_those_of_both_trees() {
    let a = nested_program();
    let b = command(Command::Skip);
    let a_nodes = collect(&a);
    let b_nodes = collect(&b);
    assert_eq!(vec![NodeType::Program, NodeType::Command], shared_kinds(&a_nodes, &b_nodes));
    assert_eq!(
        vec![
            NodeType::Program,
            NodeType::Condition,
            NodeType::Expression,
            NodeType::Sensor,
            NodeType::Command
        ],
        shared_kinds(&a_nodes, &a_nodes)
    );
}

#[test]
fn replacing_a_node_by_itself_gives_the_tree_back() {
    let program = nested_program();
    let nodes = collect(&program);
    for (i, node) in nodes.programs.iter().enumerate() {
        assert_eq!(program, program.copy(&CopyReplaceProgram { to_replace: i, replace_with: node }));
    }
    for (i, node) in nodes.conditions.iter().enumerate() {
        assert_eq!(
            program,
            program.copy(&CopyReplaceCondition { to_replace: i, replace_with: node })
        );
    }
    for (i, node) in nodes.expressions.iter().enumerate() {
        assert_eq!(
            program,
            program.copy(&CopyReplaceExpression { to_replace: i, replace_with: node })
        );
    }
    for (i, node) in nodes.sensors.iter().enumerate() {
        assert_eq!(program, program.copy(&CopyReplaceSensor { to_replace: i, replace_with: node }));
    }
    for (i, node) in nodes.commands.iter().enumerate() {
        assert_eq!(program, program.copy(&CopyReplaceCommand { to_replace: i, replace_with: node }));
    }
}

#[test]
fn only_the_named_node_is_replaced() {
    // Two equal subtrees at different places: only the second one goes.
    let program = iff(Condition::True, command(Command::Skip), command(Command::Skip));
    let with = command(Command::Thrust);
    assert_eq!(
        iff(Condition::True, command(Command::Skip), command(Command::Thrust)),
        program.copy(&CopyReplaceProgram { to_replace: 2, replace_with: &with })
    );
    assert_eq!(
        iff(Condition::True, command(Command::Thrust), command(Command::Skip)),
        program.copy(&CopyReplaceProgram { to_replace: 1, replace_with: &with })
    );
    assert_eq!(with, program.copy(&CopyReplaceProgram { to_replace: 0, replace_with: &with }));
    assert_eq!(
        iff(Condition::True, command(Command::Skip), command(Command::Left)),
        program.copy(&CopyReplaceCommand { to_replace: 1, replace_with: &Command::Left })
    );
}

#[test]
fn a_place_that_the_tree_does_not_have_changes_nothing() {
    let program = nested_program();
    let with = command(Command::Thrust);
    assert_eq!(program, program.copy(&CopyReplaceProgram { to_replace: 5, replace_with: &with }));
    assert_eq!(
        program,
        program.copy(&CopyReplaceSensor { to_replace: 2, replace_with: &Sensor::X })
    );
}

#[test]
fn replacing_deep_inside() {
    let program = nested_program();
    let copied =
        program.copy(&CopyReplaceExpression { to_replace: 3, replace_with: &constant(7.0) });
    let expected = iff(
        Condition::Or(
            Box::new(Condition::Not(Box::new(less(sensor(Sensor::Vy), constant(-1.5))))),
            Box::new(Condition::False),
        ),
        iff(
            less(sensor(Sensor::Fuel), constant(7.0)),
            command(Command::Left),
            command(Command::Thrust),
        ),
        command(Command::Right),
    );
    assert_eq!(expected, copied);
    let copied = program.copy(&CopyReplaceSensor { to_replace: 1, replace_with: &Sensor::X });
    assert_eq!(&Sensor::X, collect(&copied).sensors[1]);
    assert_eq!(&Sensor::Vy, collect(&copied).sensors[0]);
    let condition = less(sensor(Sensor::Fuel), constant(0.25));
    assert_eq!(
        less(sensor(Sensor::Fuel), sensor(Sensor::W)),
        condition.copy(&CopyReplaceExpression { to_replace: 1, replace_with: &sensor(Sensor::W) })
    );
}

#[test]
fn a_replacement_adds_and_removes_whole_subtrees() {
    let program = nested_program();
    let graft = long_program();
    let copied = program.copy(&CopyReplaceProgram { to_replace: 1, replace_with: &graft });
    let removed = iff(
        less(sensor(Sensor::Fuel), constant(0.25)),
        command(Command::Left),
        command(Command::Thrust),
    );
    assert_eq!(total(&program) - total(&removed) + total(&graft), total(&copied));
}

#[test]
fn depth_counts_the_levels() {
    assert_eq!(1, Command::Skip.depth());
    assert_eq!(1, Sensor::Fuel.depth());
    assert_eq!(1, Condition::True.depth());
    assert_eq!(1, Condition::False.depth());
    assert_eq!(1, constant(3.0).depth());
    assert_eq!(2, sensor(Sensor::X).depth());
    assert_eq!(2, command(Command::Left).depth());
    assert_eq!(3, plus(constant(1.0), sensor(Sensor::X)).depth());
    assert_eq!(4, less(plus(constant(1.0), sensor(Sensor::X)), constant(2.0)).depth());
    assert_eq!(2, Condition::Not(Box::new(Condition::True)).depth());
}

#[test]
fn depth_of_a_choice_is_one_more_than_its_deepest_part() {
    let condition = less(plus(constant(1.0), sensor(Sensor::X)), constant(2.0));
    let left = command(Command::Left);
    let right = iff(Condition::True, command(Command::Skip), command(Command::Right));
    let expected = 1 + condition.depth().max(left.depth()).max(right.depth());
    assert_eq!(5, expected);
    assert_eq!(expected, iff(condition, left, right).depth());
    assert_eq!(6, nested_program().depth());
    assert_eq!(10, long_program().depth());
}

#[test]
fn simplify_scenarios() {
    assert_eq!(
        command(Command::Skip),
        iff(Condition::True, command(Command::Skip), command(Command::Thrust)).simplify()
    );
    assert_eq!(
        command(Command::Thrust),
        iff(Condition::False, command(Command::Skip), command(Command::Thrust)).simplify()
    );
    assert_eq!(
        Condition::True,
        Condition::Not(Box::new(Condition::Not(Box::new(Condition::True)))).simplify()
    );
    assert_eq!(constant(5.0), plus(constant(2.0), constant(3.0)).simplify(&Ieee));
}

#[test]
fn simplify_conditions() {
    let comparison = less(sensor(Sensor::Y), constant(1.0));
    let not = |c: Condition| Condition::Not(Box::new(c));
    let or = |l: Condition, r: Condition| Condition::Or(Box::new(l), Box::new(r));
    let and = |l: Condition, r: Condition| Condition::And(Box::new(l), Box::new(r));
    assert_eq!(Condition::False, not(Condition::True).simplify());
    assert_eq!(Condition::True, not(Condition::False).simplify());
    assert_eq!(comparison, not(not(comparison.clone())).simplify());
    assert_eq!(not(comparison.clone()), not(comparison.clone()).simplify());
    assert_eq!(comparison, or(Condition::False, comparison.clone()).simplify());
    assert_eq!(comparison, or(comparison.clone(), Condition::False).simplify());
    assert_eq!(
        or(Condition::True, comparison.clone()),
        or(Condition::True, comparison.clone()).simplify()
    );
    assert_eq!(comparison, and(Condition::True, comparison.clone()).simplify());
    assert_eq!(comparison, and(comparison.clone(), Condition::True).simplify());
    assert_eq!(
        and(Condition::False, comparison.clone()),
        and(Condition::False, comparison.clone()).simplify()
    );
    assert_eq!(Condition::False, or(Condition::False, not(Condition::True)).simplify());
    assert_eq!(Sensor::Vx, Sensor::Vx.simplify());
    assert_eq!(Command::Left, Command::Left.simplify());
}

#[test]
fn simplify_leaves_comparisons_alone() {
    let comparison = less(plus(constant(2.0), constant(3.0)), constant(1.0));
    assert_eq!(comparison, comparison.simplify());
    let program = iff(comparison.clone(), command(Command::Skip), command(Command::Left));
    assert_eq!(program, program.simplify());
}

#[test]
fn simplify_expressions() {
    assert_eq!(constant(-1.0), minus(constant(2.0), constant(3.0)).simplify(&Ieee));
    assert_eq!(constant(6.0), multiply(constant(2.0), constant(3.0)).simplify(&Ieee));
    assert_eq!(constant(0.5), divide(constant(1.0), constant(2.0)).simplify(&Ieee));
    assert_eq!(
        constant(9.0),
        multiply(plus(constant(1.0), constant(2.0)), minus(constant(5.0), constant(2.0)))
            .simplify(&Ieee)
    );
    assert_eq!(
        plus(sensor(Sensor::X), constant(3.0)),
        plus(sensor(Sensor::X), plus(constant(1.0), constant(2.0))).simplify(&Ieee)
    );
    assert_eq!(sensor(Sensor::X), sensor(Sensor::X).simplify(&Ieee));
    assert_eq!(
        constant(7.0),
        fold(Operator::Plus, constant(3.0), constant(4.0), &Ieee)
    );
    assert_eq!(
        minus(sensor(Sensor::Y), constant(4.0)),
        fold(Operator::Minus, sensor(Sensor::Y), constant(4.0), &Ieee)
    );
}

#[test]
fn a_quotient_by_zero_is_no_fault() {
    let infinite = divide(constant(1.0), constant(0.0)).simplify(&Ieee);
    assert_eq!(constant(f32::INFINITY), infinite);
    match divide(constant(0.0), constant(0.0)).simplify(&Ieee) {
        Expression::Constant(value) => assert!(value.nan()),
        other => panic!("{:?}", other),
    }
}

#[test]
fn simplifying_twice_changes_nothing_more() {
    let not = |c: Condition| Condition::Not(Box::new(c));
    let program = iff(
        Condition::And(
            Box::new(not(not(not(less(sensor(Sensor::Y), constant(1.0)))))),
            Box::new(Condition::Or(Box::new(Condition::False), Box::new(not(Condition::False)))),
        ),
        iff(not(Condition::True), command(Command::Skip), command(Command::Left)),
        nested_program(),
    );
    let once = program.simplify();
    assert_ne!(program, once);
    assert_eq!(once, once.simplify());
    let expression = multiply(
        plus(constant(1.0), constant(2.0)),
        plus(sensor(Sensor::X), minus(constant(5.0), constant(2.0))),
    );
    let once = expression.simplify(&Ieee);
    assert_eq!(once, once.simplify(&Ieee));
}

#[test]
fn simplifying_keeps_what_a_program_does() {
    let not = |c: Condition| Condition::Not(Box::new(c));
    let program = iff(
        Condition::And(
            Box::new(not(not(less(sensor(Sensor::Y), constant(1.0))))),
            Box::new(Condition::Or(Box::new(Condition::False), Box::new(not(Condition::False)))),
        ),
        iff(not(Condition::True), command(Command::Skip), command(Command::Left)),
        nested_program(),
    );
    let simplified = program.simplify();
    for y in [-3.0f32, 0.0, 0.5, 1.0, 2.0, f32::NAN] {
        for vy in [-2.0f32, -1.5, 0.0] {
            for fuel in [0.0f32, 0.25, 1.0] {
                let data =
                    SensorData::new().with_y(number(y)).with_vy(number(vy)).with_fuel(number(fuel));
                assert_eq!(program.evaluate(data, &Ieee), simplified.evaluate(data, &Ieee));
            }
        }
    }
}

#[test]
fn evaluation() {
    let data = SensorData::new().with_x(number(37.0)).with_y(number(51.0)).with_vx(number(1.0));
    let program = iff(
        less(sensor(Sensor::Vx), multiply(constant(2.0), constant(3.0))),
        command(Command::Left),
        command(Command::Right),
    );
    assert_eq!(Command::Left, program.evaluate(data, &Ieee));
    assert_eq!(Command::Right, program.evaluate(data.with_vx(number(6.0)), &Ieee));
    assert_eq!(number(88.0), plus(sensor(Sensor::X), sensor(Sensor::Y)).value(data, &Ieee));
    assert_eq!(number(51.0), Sensor::Y.value(data, &Ieee));
    assert_eq!(number(1.0), Sensor::Fuel.value(data, &Ieee));
    assert!(Condition::Equal(Box::new(constant(0.0)), Box::new(constant(-0.0))).value(data, &Ieee));
    assert!(!Condition::Equal(Box::new(constant(f32::NAN)), Box::new(constant(f32::NAN)))
        .value(data, &Ieee));
    assert!(Condition::GreaterEqual(Box::new(sensor(Sensor::Y)), Box::new(constant(51.0)))
        .value(data, &Ieee));
    assert!(!Condition::Greater(Box::new(sensor(Sensor::Y)), Box::new(constant(51.0)))
        .value(data, &Ieee));
    assert!(less_equal(constant(-2.0), constant(-1.0)).value(data, &Ieee));
}

#[test]
fn sensor_data_is_built_field_by_field() {
    let data = SensorData::new();
    assert_eq!(number(0.0), data.x);
    assert_eq!(number(1.0), data.fuel);
    assert!(!data.hit_ground && !data.landed && !data.thrusting);
    let data = data
        .with_x(number(1.0))
        .with_y(number(2.0))
        .with_vx(number(3.0))
        .with_vy(number(4.0))
        .with_o(number(5.0))
        .with_w(number(6.0))
        .with_fuel(number(7.0));
    assert_eq!(
        [1.0, 2.0, 3.0, 4.0, 5.0, 6.0, 7.0].map(number),
        [data.x, data.y, data.vx, data.vy, data.o, data.w, data.fuel]
    );
    assert!(data.hit_ground().hit_ground);
    assert!(data.landed().landed);
    assert!(data.thrusting().thrusting);
    assert!(!data.landed().hit_ground);
}

#[test]
fn numbers_are_ordered_as_their_values() {
    let values = [f32::NEG_INFINITY, -2.5, -0.0, 0.0, 1.0e-40, 0.1, 1.0, 3.5, f32::INFINITY];
    for a in values {
        for b in values {
            assert_eq!(a < b, number(a).lt(number(b)));
            assert_eq!(a <= b, number(a).le(number(b)));
            assert_eq!(a == b, number(a).equals(number(b)));
            assert_eq!(a >= b, number(a).ge(number(b)));
            assert_eq!(a > b, number(a).gt(number(b)));
            assert_eq!(a > b, number(a).better(number(b)));
        }
        assert!(!number(a).lt(number(f32::NAN)) && !number(f32::NAN).lt(number(a)));
        assert!(!number(a).ge(number(f32::NAN)) && !number(f32::NAN).le(number(a)));
        assert!(number(a).better(number(f32::NAN)));
        assert!(!number(f32::NAN).better(number(a)));
        assert!(!number(a).nan());
    }
    assert!(number(f32::NAN).nan());
    assert!(!number(f32::NAN).equals(number(f32::NAN)));
    assert!(!number(f32::NAN).better(number(f32::NAN)));
    assert_eq!(0, Number::zero().to_bits());
}

#[test]
fn partial_max_takes_the_first_of_the_greatest() {
    let at = |values: &[f32]| partial_max(&values.iter().map(|v| number(*v)).collect());
    assert_eq!(None, at(&[]));
    assert_eq!(Some(0), at(&[4.0]));
    assert_eq!(Some(3), at(&[0.0, 1.0, 2.0, 3.0]));
    assert_eq!(Some(1), at(&[0.0, 3.0, 2.0, 3.0]));
    assert_eq!(Some(0), at(&[0.0, -0.0]));
    assert_eq!(Some(2), at(&[f32::NAN, f32::NAN, -5.0, f32::NAN]));
    assert_eq!(Some(0), at(&[f32::NAN, f32::NAN]));
    assert_eq!(Some(1), at(&[1.0, f32::INFINITY, f32::NAN]));
}

#[test]
fn square_multiplies_a_number_with_itself() {
    assert_eq!(number(6.25), square(number(-2.5), &Ieee));
}
