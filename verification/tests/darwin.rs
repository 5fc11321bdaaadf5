use ast::darwin::crossover::{cross_over, swap_nodes};
use ast::copy::Graft;
use ast::darwin::evolve::{
    pair_of, random_population, CreatureScore, OptimumKeeper, Population, ScoreCard, Way,
};
use ast::darwin::mutation::{
    between, comparison_of, controlled_mutate_condition, controlled_mutate_expression, logical,
    mutate, mutate_at, mutate_constant, operation_of, operator_at, perturbed,
};
use ast::data::SensorData;
use ast::depth::Depth;
use ast::num::{Arithmetic, Operator};
use ast::pick::{pick, pick_at, sum_weights};
use ast::random::{
    command_at, condition_for, expression_for, program_for, sensor_at, Random,
};
use ast::serialize::{save_source, GameTrace};
use ast::structure::{Command, Condition, Expression, NodeType, Number, Program, Sensor};
use ast::visit::{collect, Visitable};
use rand::{SeedableRng, StdRng};

struct Ieee;

impl Arithmetic for Ieee {
    fn apply(&self, operator: Operator, left: Number, right: Number) -> Number {
        let a = f32::from_bits(left.bits);
        let b = f32::from_bits(right.bits);
        let c = match operator {
            Operator::Plus => a + b,
            Operator::Minus => a - b,
            Operator::Multiply => a * b,
            Operator::Divide => a / b,
        };
        Number::from_bits(c.to_bits())
    }

    fn decimal(&self, value: Number) -> String {
        format!("{:.*}", 4, f32::from_bits(value.bits))
    }

    fn shortest(&self, value: Number) -> String {
        format!("{}", f32::from_bits(value.bits))
    }
}

fn seeded(seed: usize) -> StdRng {
    StdRng::from_seed(&[seed, 2, 3, 4])
}

fn number(value: f32) -> Number {
    Number::from_bits(value.to_bits())
}

fn float(value: Number) -> f32 {
    f32::from_bits(value.to_bits())
}

fn constant(value: f32) -> Expression {
    Expression::Constant(number(value))
}

fn command(command: Command) -> Program {
    Program::Command(command)
}

fn less(left: Expression, right: Expression) -> Condition {
    Condition::Less(Box::new(left), Box::new(right))
}

fn total<T: Visitable>(tree: &T) -> usize {
    let nodes = collect(tree);
    nodes.programs.len()
        + nodes.conditions.len()
        + nodes.expressions.len()
        + nodes.sensors.len()
        + nodes.commands.len()
}

fn card(value: f32) -> ScoreCard {
    ScoreCard::new(vec![("score", number(value))], GameTrace::new(), &Ieee)
}

/// Counts the enum values of commands and sensors
struct CommandCounter {
    value: u32,
}

impl CommandCounter {
    fn new() -> CommandCounter {
        CommandCounter { value: 0 }
    }

    fn count(&mut self, tree: &Program) {
        let nodes = collect(tree);
        for command in nodes.commands {
            self.value += command.clone() as u32;
        }
        for sensor in nodes.sensors {
            self.value += sensor.clone() as u32;
        }
    }
}

fn score_population(p: &mut Population<Program>) {
    p.score(
        |x, _| {
            let mut c = CommandCounter::new();
            c.count(x);
            ScoreCard::new(vec![("score", number(c.value as f32))], GameTrace::new(), &Ieee)
        },
        &mut seeded(0),
    );
}

fn four_commands() -> Population<Program> {
    let mut p = Population::new(10, 1);
    p.add(command(Command::Skip));
    p.add(command(Command::Left));
    p.add(command(Command::Right));
    p.add(command(Command::Thrust));
    score_population(&mut p);
    p
}

#[test]
fn population_scoring() {
    let mut p = Population::new(10, 1);
    p.add(command(Command::Skip));
    p.add(command(Command::Left));
    p.add(command(Command::Right));
    p.add(command(Command::Thrust));

    score_population(&mut p);

    assert_eq!(
        vec![0.0, 1.0, 2.0, 3.0],
        p.scores.iter().map(|s| float(s.total_score())).collect::<Vec<f32>>()
    );
}

#[test]
fn population_tournament() {
    let mut p = Population::new(10, 1);
    p.add(command(Command::Skip));
    p.add(command(Command::Left));
    p.add(command(Command::Right));
    p.add(command(Command::Thrust));

    score_population(&mut p);

    let mut rng = seeded(1);
    // This must always produce the single best one
    assert_eq!(3, p.select_tournament_winner_i(4, &mut rng));

    // This must produce one of the last 2 ones
    assert!(p.select_tournament_winner_i(3, &mut rng) >= 2);
}

#[test]
fn crossover_random_trees() {
    // Cross over some random trees to see we don't stackoverflow
    let mut rng = seeded(5);
    let mut program1 = Program::random(&mut rng, 256);
    for _ in 0..100 {
        let program2 = Program::random(&mut rng, 256);
        let (a, _) = cross_over(&program1, &program2, &mut rng);
        program1 = a;
    }
}

#[test]
fn should_mutate_expression_without_panicing() {
    let mut rng = seeded(6);
    let constant: Expression = Expression::Constant(number(0.0));
    mutate(&constant, &mut rng, &Ieee);

    let sensor: Expression = Expression::Sensor(Sensor::Vx);
    mutate(&sensor, &mut rng, &Ieee);
}

#[test]
fn a_tournament_of_all_takes_the_best() {
    let p = four_commands();
    assert_eq!(Some(3), p.best_of_draws(&vec![0, 1, 2, 3]));
    assert_eq!(Some(3), p.best_of_draws(&vec![3, 1, 0, 2]));
    assert_eq!(Some(3), p.winner_i());
    let best: CreatureScore<Program> = p.winner();
    assert_eq!(command(Command::Thrust), best.program);
    assert_eq!(3.0, float(best.score.total_score()));
}

#[test]
fn a_tournament_takes_the_best_of_those_drawn() {
    let p = four_commands();
    assert_eq!(Some(2), p.best_of_draws(&vec![0, 2, 1]));
    assert_eq!(Some(0), p.best_of_draws(&vec![0, 0, 0, 0]));
    assert_eq!(Some(1), p.best_of_draws(&vec![1]));
    assert_eq!(None, p.best_of_draws(&vec![]));
    assert_eq!(None, p.best_of_draws(&vec![0, 4]));
}

#[test]
fn a_tournament_of_three_never_takes_the_two_worst() {
    let p = four_commands();
    let mut rng = seeded(7);
    let mut seen = [0usize; 4];
    for _ in 0..200 {
        let winner = p.select_tournament_winner_i(3, &mut rng);
        seen[winner] += 1;
        let one = p.select_tournament_winner(1, &mut rng);
        assert!(p.population.contains(one));
    }
    // with three draws out of four places the worst can win only if drawn thrice
    assert!(seen[3] > seen[2] && seen[2] > seen[1] && seen[1] >= seen[0]);
}

#[test]
fn ties_go_to_the_first_and_nan_never_wins() {
    let mut p: Population<Program> = Population::new(4, 0);
    for c in [Command::Skip, Command::Left, Command::Right, Command::Thrust] {
        p.add(command(c));
    }
    p.scores = vec![card(f32::NAN), card(2.0), card(2.0), card(f32::NAN)];
    assert_eq!(Some(1), p.winner_i());
    assert_eq!(Some(2), p.best_of_draws(&vec![3, 2, 1, 0]));
    assert_eq!(Some(3), p.best_of_draws(&vec![3, 0]));
    p.scores = vec![];
    assert_eq!(None, p.winner_i());
}

#[test]
fn score_card_totals_add_up() {
    let card = ScoreCard::new(
        vec![("a", number(1.5)), ("b", number(-4.0)), ("c", number(10.25))],
        GameTrace::new(),
        &Ieee,
    );
    assert_eq!(7.75, float(card.total_score()));
    assert_eq!(3, card.scores().len());
    let more = card.clone().add(vec![("d", number(0.25)), ("e", number(2.0))], &Ieee);
    assert_eq!(10.0, float(more.total_score()));
    assert_eq!(7.75, float(card.total_score()));
    assert_eq!(
        vec!["a", "b", "c", "d", "e"],
        more.scores().iter().map(|s| s.0).collect::<Vec<&str>>()
    );
    assert_eq!(0.0, float(ScoreCard::new(vec![], GameTrace::new(), &Ieee).total_score()));
    assert!(ScoreCard::new(vec![("a", number(f32::NAN))], GameTrace::new(), &Ieee)
        .total_score()
        .nan());
}

#[test]
fn score_card_keeps_its_trace() {
    let mut trace = GameTrace::new();
    trace.add(&SensorData::new());
    trace.add(&SensorData::new().with_y(number(3.0)));
    assert_eq!(2, trace.frames());
    let card = ScoreCard::new(vec![("a", number(1.0))], trace, &Ieee);
    let more = card.add(vec![("b", number(1.0))], &Ieee);
    assert_eq!(2, more.trace().frames());
    assert_eq!(number(3.0), more.trace().trace()[1].y);
    assert_eq!(2, more.clone().trace().frames());
    assert_eq!(0, GameTrace::new().frames());
}

#[test]
fn the_keeper_takes_only_improvements() {
    let mut keeper: OptimumKeeper<Program> = OptimumKeeper::new();
    assert!(keeper.best_program().is_none());
    let first = Program::If(
        Condition::True,
        Box::new(command(Command::Left)),
        Box::new(command(Command::Right)),
    );
    assert!(keeper.improved(&first, &card(1.0), 3));
    assert_eq!(&Some(command(Command::Left)), keeper.best_program());
    assert_eq!(3, keeper.best_generation());
    assert!(!keeper.improved(&command(Command::Skip), &card(1.0), 4));
    assert!(!keeper.improved(&command(Command::Skip), &card(0.5), 5));
    assert!(!keeper.improved(&command(Command::Skip), &card(f32::NAN), 6));
    assert_eq!(&Some(command(Command::Left)), keeper.best_program());
    assert_eq!(3, keeper.best_generation());
    assert!(keeper.improved(&command(Command::Thrust), &card(1.5), 7));
    assert_eq!(&Some(command(Command::Thrust)), keeper.best_program());
    assert_eq!(7, keeper.best_generation());
    assert_eq!(1.5, float(keeper.best_score().as_ref().unwrap().total_score()));
}

#[test]
fn a_keeper_that_holds_nan_takes_nothing_more() {
    let mut keeper: OptimumKeeper<Condition> = OptimumKeeper::new();
    assert!(keeper.improved(&Condition::True, &card(f32::NAN), 0));
    assert!(!keeper.improved(&Condition::False, &card(100.0), 1));
    assert_eq!(&Some(Condition::True), keeper.best_program());
}

#[test]
fn picking_by_weight() {
    assert_eq!(0, pick_at(&[3, 4], 0));
    assert_eq!(0, pick_at(&[3, 4], 2));
    assert_eq!(1, pick_at(&[3, 4], 3));
    assert_eq!(1, pick_at(&[3, 4], 6));
    assert_eq!(2, pick_at(&[0, 0, 5, 0], 0));
    assert_eq!(3, pick_at(&[1, 0, 0, 1], 1));
    assert_eq!(Some(7), sum_weights(&[3, 4]));
    assert_eq!(Some(0), sum_weights(&[]));
    let mut rng = seeded(8);
    let mut seen = [0usize; 3];
    for _ in 0..3000 {
        seen[pick(&[1, 0, 9], &mut rng)] += 1;
    }
    assert_eq!(0, seen[1]);
    assert!(seen[0] > 150 && seen[0] < 450);
    assert_eq!(3000, seen[0] + seen[2]);
}

#[test]
fn random_trees_stay_under_the_ceiling() {
    let mut rng = seeded(9);
    let mut deepest = 0;
    for _ in 0..300 {
        let program = Program::random(&mut rng, 3);
        assert!(program.depth() <= 5);
        assert!(program.depth() >= 2);
        deepest = deepest.max(program.depth());
        assert!(Condition::random(&mut rng, 0).depth() == 1);
        assert!(Expression::random(&mut rng, 0).depth() <= 2);
        assert_eq!(2, Program::random(&mut rng, 0).depth());
        assert_eq!(1, Sensor::random(&mut rng, 0).depth());
        assert_eq!(1, Command::random(&mut rng, 0).depth());
    }
    assert!(deepest > 2);
}

#[test]
fn random_constants_lie_between_zero_and_one() {
    let mut rng = seeded(10);
    let mut constants = 0;
    for _ in 0..200 {
        let expression = Expression::random(&mut rng, 8);
        for node in collect(&expression).expressions {
            if let Expression::Constant(value) = node {
                let value = float(*value);
                assert!(0.0 <= value && value < 1.0);
                constants += 1;
            }
        }
    }
    assert!(constants > 50);
}

#[test]
fn random_population_has_the_size_asked_for() {
    let mut rng = seeded(11);
    let population: Population<Condition> = random_population(25, &mut rng);
    assert_eq!(25, population.n());
    assert_eq!(0, population.generation);
    assert!(population.scores.is_empty());
    let mut different = false;
    for tree in &population.population {
        different = different || tree != &population.population[0];
    }
    assert!(different);
}

#[test]
fn mutation_replaces_one_node() {
    let mut rng = seeded(12);
    let program = Program::If(
        less(Expression::Sensor(Sensor::Y), constant(1.0)),
        Box::new(command(Command::Left)),
        Box::new(command(Command::Right)),
    );
    let kept = program.clone();
    let mut changed = 0;
    let mut same = 0;
    for _ in 0..200 {
        let mutation = mutate(&program, &mut rng, &Ieee);
        assert_eq!(kept, program);
        if mutation == program {
            same += 1;
        } else {
            changed += 1;
        }
    }
    assert!(changed > 100);
    assert!(same > 0);
}

#[test]
fn mutation_of_a_single_node() {
    let mut rng = seeded(13);
    let mut seen = [false; 4];
    for _ in 0..100 {
        let mutation = mutate(&Command::Skip, &mut rng, &Ieee);
        seen[mutation as usize] = true;
    }
    assert_eq!([true; 4], seen);
    for _ in 0..20 {
        let mutation = mutate(&command(Command::Skip), &mut rng, &Ieee);
        assert!(mutation.depth() >= 2);
    }
}

#[test]
fn controlled_mutation_keeps_the_parts() {
    let mut rng = seeded(14);
    let left = Expression::Sensor(Sensor::Y);
    let right = constant(2.0);
    let expression = Expression::Plus(Box::new(left.clone()), Box::new(right.clone()));
    let mut swapped = 0;
    for _ in 0..200 {
        let (a, b) = match controlled_mutate_expression(&expression, &mut rng, &Ieee) {
            Expression::Plus(a, b)
            | Expression::Minus(a, b)
            | Expression::Multiply(a, b)
            | Expression::Divide(a, b) => (*a, *b),
            other => panic!("{:?}", other),
        };
        if a == right {
            assert_eq!(left, b);
            swapped += 1;
        } else {
            assert_eq!((&left, &right), (&a, &b));
        }
    }
    assert!(swapped > 10 && swapped < 90);
    let comparison = less(left.clone(), right.clone());
    for _ in 0..50 {
        let (a, b) = match controlled_mutate_condition(&comparison, &mut rng) {
            Condition::Less(a, b)
            | Condition::LessEqual(a, b)
            | Condition::Equal(a, b)
            | Condition::GreaterEqual(a, b)
            | Condition::Greater(a, b) => (*a, *b),
            other => panic!("{:?}", other),
        };
        assert!((a == left && b == right) || (a == right && b == left));
    }
    let both = Condition::And(Box::new(comparison.clone()), Box::new(Condition::True));
    for _ in 0..50 {
        match controlled_mutate_condition(&both, &mut rng) {
            Condition::True | Condition::False => {}
            Condition::Not(a) => assert!(*a == comparison || *a == Condition::True),
            Condition::Or(a, b) | Condition::And(a, b) => assert!(
                (*a == comparison && *b == Condition::True)
                    || (*a == Condition::True && *b == comparison)
            ),
            other => panic!("{:?}", other),
        }
    }
    for _ in 0..20 {
        match controlled_mutate_expression(&left, &mut rng, &Ieee) {
            Expression::Sensor(_) => {}
            other => panic!("{:?}", other),
        }
    }
}

#[test]
fn constants_are_nudged() {
    let mut rng = seeded(15);
    for _ in 0..300 {
        let out = float(mutate_constant(number(10.0), &mut rng, &Ieee));
        assert!((0.0 <= out && out < 1.0) || (1.0 <= out && out < 20.0));
        let factor = float(between(number(0.1), number(2.0), &mut rng, &Ieee));
        assert!(0.1 <= factor && factor < 2.0);
        let amount = float(between(number(-1.0), number(1.0), &mut rng, &Ieee));
        assert!(-1.0 <= amount && amount < 1.0);
    }
    assert_eq!(Operator::Plus, operator_at(0));
    assert_eq!(Operator::Minus, operator_at(1));
    assert_eq!(Operator::Multiply, operator_at(2));
    assert_eq!(Operator::Divide, operator_at(3));
}

#[test]
fn crossover_swaps_two_nodes() {
    let a = Program::If(
        less(Expression::Sensor(Sensor::Y), constant(1.0)),
        Box::new(command(Command::Left)),
        Box::new(command(Command::Right)),
    );
    let b = command(Command::Thrust);
    let (a2, b2) = swap_nodes(&a, &b, NodeType::Program, 2, 0).unwrap();
    assert_eq!(
        Program::If(
            less(Expression::Sensor(Sensor::Y), constant(1.0)),
            Box::new(command(Command::Left)),
            Box::new(command(Command::Thrust)),
        ),
        a2
    );
    assert_eq!(command(Command::Right), b2);
    let (a2, b2) = swap_nodes(&a, &b, NodeType::Command, 0, 0).unwrap();
    assert_eq!(command(Command::Left), b2);
    assert_eq!(&Command::Thrust, collect(&a2).commands[0]);
    let (a2, b2) = swap_nodes(&a, &b, NodeType::Program, 0, 0).unwrap();
    assert_eq!((&b, &a), (&a2, &b2));
    assert!(swap_nodes(&a, &b, NodeType::Program, 3, 0).is_none());
    assert!(swap_nodes(&a, &b, NodeType::Program, 0, 1).is_none());
    assert!(swap_nodes(&a, &b, NodeType::Condition, 0, 0).is_none());
}

#[test]
fn crossover_conserves_the_nodes() {
    let mut rng = seeded(16);
    for _ in 0..200 {
        let a = Program::random(&mut rng, 256);
        let b = Program::random(&mut rng, 256);
        let kept = (a.clone(), b.clone());
        let (a2, b2) = cross_over(&a, &b, &mut rng);
        assert_eq!(total(&a) + total(&b), total(&a2) + total(&b2));
        assert_eq!(kept, (a, b));
    }
    let a = Condition::random(&mut rng, 256);
    let b = Condition::random(&mut rng, 256);
    let (a2, b2) = cross_over(&a, &b, &mut rng);
    assert_eq!(total(&a) + total(&b), total(&a2) + total(&b2));
}

#[test]
fn evolve_keeps_the_size_and_counts_the_generation() {
    let mut rng = seeded(17);
    let mut population: Population<Program> = random_population(40, &mut rng);
    for generation in 0..5 {
        assert_eq!(generation, population.generation);
        population.score(
            |tree, _| {
                ScoreCard::new(
                    vec![("depth", number(tree.depth() as f32 * -1.0))],
                    GameTrace::new(),
                    &Ieee,
                )
            },
            &mut rng,
        );
        assert_eq!(40, population.scores.len());
        population = population.evolve(5, 10, 10, 10, &mut rng, &Ieee);
        assert_eq!(40, population.n());
        assert!(population.scores.is_empty());
    }
}

#[test]
fn evolve_with_one_way_only() {
    let p = four_commands();
    let mut rng = seeded(18);
    let next = p.evolve(2, 1, 0, 0, &mut rng, &Ieee);
    assert_eq!(2, next.generation);
    for tree in &next.population {
        assert!(p.population.contains(tree));
    }
    let next = p.evolve(4, 0, 0, 1, &mut rng, &Ieee);
    assert_eq!(4, next.n());
    let mut single: Population<Program> = Population::new(1, 0);
    single.add(command(Command::Left));
    single.scores = vec![card(1.0)];
    let next = single.evolve(3, 0, 0, 5, &mut rng, &Ieee);
    assert_eq!(vec![command(Command::Left)], next.population);
    assert!(single.pick_two(3, &mut rng, 10).is_none());
    let (one, two) = p.pick_two(1, &mut rng, 1000).unwrap();
    assert!(one != two && one < 4 && two < 4);
    let empty: Population<Program> = Population::new(0, 7);
    assert_eq!(0, empty.evolve(3, 1, 1, 1, &mut rng, &Ieee).n());
}

#[test]
fn the_text_of_a_tree_as_bytes() {
    let program = Program::If(
        less(Expression::Sensor(Sensor::Vx), constant(2.0)),
        Box::new(command(Command::Left)),
        Box::new(command(Command::Right)),
    );
    assert_eq!(
        b"iff!(less!(vx!(),constant!(2.0000)),left!(),right!())".to_vec(),
        save_source(&program, &Ieee)
    );
}

#[test]
fn score_cards_are_ordered_by_their_totals() {
    assert!(card(1.0) < card(2.0));
    assert!(card(2.0) > card(1.0));
    assert!(card(2.0) >= card(2.0));
    assert!(card(0.0) == card(-0.0));
    assert!(card(1.0) != card(2.0));
    assert!(card(f32::NAN) != card(f32::NAN));
    assert!(!(card(f32::NAN) < card(1.0)) && !(card(f32::NAN) > card(1.0)));
    assert_eq!(None, card(f32::NAN).partial_cmp(&card(1.0)));
    assert_eq!(Some(std::cmp::Ordering::Equal), card(3.0).partial_cmp(&card(3.0)));
    let more = ScoreCard::new(
        vec![("a", number(1.0)), ("b", number(2.0))],
        GameTrace::new(),
        &Ieee,
    );
    assert!(more == card(3.0));
}

#[test]
fn a_choice_gives_its_variant() {
    let mut rng = seeded(20);
    assert_eq!(Command::Skip, command_at(0));
    assert_eq!(Command::Left, command_at(1));
    assert_eq!(Command::Right, command_at(2));
    assert_eq!(Command::Thrust, command_at(3));
    assert_eq!(Command::Thrust, command_at(9));
    assert_eq!(
        [Sensor::Y, Sensor::Vy, Sensor::Fuel, Sensor::X, Sensor::Vx, Sensor::O, Sensor::W],
        [0, 1, 2, 3, 4, 5, 6].map(sensor_at)
    );
    for _ in 0..20 {
        assert!(matches!(expression_for(0, &mut rng, 4), Expression::Constant(_)));
        assert!(matches!(expression_for(1, &mut rng, 4), Expression::Sensor(_)));
        assert!(matches!(expression_for(2, &mut rng, 4), Expression::Plus(_, _)));
        assert!(matches!(expression_for(3, &mut rng, 4), Expression::Minus(_, _)));
        assert!(matches!(expression_for(4, &mut rng, 4), Expression::Multiply(_, _)));
        assert!(matches!(expression_for(5, &mut rng, 4), Expression::Divide(_, _)));
        assert!(matches!(expression_for(8, &mut rng, 4), Expression::Divide(_, _)));
        assert!(matches!(expression_for(3, &mut rng, 0), Expression::Sensor(_)));
        assert!(matches!(expression_for(0, &mut rng, 0), Expression::Constant(_)));
        assert_eq!(Condition::True, condition_for(0, &mut rng, 4));
        assert_eq!(Condition::False, condition_for(1, &mut rng, 4));
        assert_eq!(Condition::False, condition_for(7, &mut rng, 0));
        assert!(matches!(condition_for(2, &mut rng, 4), Condition::Not(_)));
        assert!(matches!(condition_for(3, &mut rng, 4), Condition::Or(_, _)));
        assert!(matches!(condition_for(4, &mut rng, 4), Condition::And(_, _)));
        assert!(matches!(condition_for(5, &mut rng, 4), Condition::Less(_, _)));
        assert!(matches!(condition_for(6, &mut rng, 4), Condition::LessEqual(_, _)));
        assert!(matches!(condition_for(7, &mut rng, 4), Condition::Greater(_, _)));
        assert!(matches!(condition_for(8, &mut rng, 4), Condition::GreaterEqual(_, _)));
        assert!(matches!(condition_for(9, &mut rng, 4), Condition::Equal(_, _)));
        assert!(matches!(condition_for(12, &mut rng, 4), Condition::Equal(_, _)));
        assert!(matches!(program_for(0, &mut rng, 4), Program::If(_, _, _)));
        assert!(matches!(program_for(1, &mut rng, 4), Program::Command(_)));
        assert!(matches!(program_for(0, &mut rng, 0), Program::Command(_)));
        assert!(condition_for(5, &mut rng, 1).depth() <= 3);
        assert!(program_for(0, &mut rng, 1).depth() == 3);
    }
}

#[test]
fn a_way_and_an_amount_give_the_new_constant() {
    assert_eq!(number(0.25), perturbed(0, number(10.0), number(0.25), &Ieee));
    assert_eq!(number(2.5), perturbed(1, number(10.0), number(0.25), &Ieee));
    assert_eq!(number(10.25), perturbed(2, number(10.0), number(0.25), &Ieee));
    assert_eq!(number(9.0), perturbed(5, number(10.0), number(-1.0), &Ieee));
}

#[test]
fn a_variant_and_a_slot_give_the_combination() {
    let mut rng = seeded(21);
    let a = less(Expression::Sensor(Sensor::Y), constant(1.0));
    let b = Condition::Not(Box::new(Condition::True));
    let and = |l: &Condition, r: &Condition| {
        Condition::And(Box::new(l.clone()), Box::new(r.clone()))
    };
    let or = |l: &Condition, r: &Condition| Condition::Or(Box::new(l.clone()), Box::new(r.clone()));
    assert_eq!(Condition::True, logical(0, 0, &[&a, &b], &mut rng));
    assert_eq!(Condition::False, logical(1, 1, &[&a, &b], &mut rng));
    assert_eq!(Condition::Not(Box::new(a.clone())), logical(2, 0, &[&a, &b], &mut rng));
    assert_eq!(Condition::Not(Box::new(b.clone())), logical(2, 1, &[&a, &b], &mut rng));
    assert_eq!(or(&a, &b), logical(3, 0, &[&a, &b], &mut rng));
    assert_eq!(or(&b, &a), logical(3, 1, &[&a, &b], &mut rng));
    assert_eq!(and(&a, &b), logical(4, 0, &[&a, &b], &mut rng));
    assert_eq!(and(&b, &a), logical(4, 1, &[&a, &b], &mut rng));
    assert_eq!(and(&b, &a), logical(7, 1, &[&a, &b], &mut rng));
    for _ in 0..20 {
        match logical(3, 0, &[&a], &mut rng) {
            Condition::Or(left, _) => assert_eq!(a, *left),
            other => panic!("{:?}", other),
        }
        match logical(4, 1, &[&a], &mut rng) {
            Condition::And(_, right) => assert_eq!(a, *right),
            other => panic!("{:?}", other),
        }
        assert!(matches!(logical(2, 0, &[], &mut rng), Condition::Not(_)));
    }
}

#[test]
fn two_winners_make_a_pair_where_they_differ() {
    assert_eq!(Some((1, 3)), pair_of(1, 3));
    assert_eq!(Some((3, 1)), pair_of(3, 1));
    assert_eq!(None, pair_of(2, 2));
}

#[test]
fn a_variant_and_an_order_give_the_operation() {
    let y = Expression::Sensor(Sensor::Y);
    let two = constant(2.0);
    let b = |e: &Expression| Box::new(e.clone());
    assert_eq!(Expression::Plus(b(&y), b(&two)), operation_of(0, 0, &y, &two));
    assert_eq!(Expression::Plus(b(&two), b(&y)), operation_of(0, 1, &y, &two));
    assert_eq!(Expression::Minus(b(&y), b(&two)), operation_of(1, 0, &y, &two));
    assert_eq!(Expression::Multiply(b(&two), b(&y)), operation_of(2, 1, &y, &two));
    assert_eq!(Expression::Divide(b(&y), b(&two)), operation_of(3, 0, &y, &two));
    assert_eq!(Expression::Divide(b(&two), b(&y)), operation_of(9, 4, &y, &two));
    assert_eq!(Condition::Less(b(&y), b(&two)), comparison_of(0, 0, &y, &two));
    assert_eq!(Condition::Less(b(&two), b(&y)), comparison_of(0, 1, &y, &two));
    assert_eq!(Condition::LessEqual(b(&y), b(&two)), comparison_of(1, 0, &y, &two));
    assert_eq!(Condition::Equal(b(&two), b(&y)), comparison_of(2, 1, &y, &two));
    assert_eq!(Condition::GreaterEqual(b(&y), b(&two)), comparison_of(3, 0, &y, &two));
    assert_eq!(Condition::Greater(b(&y), b(&two)), comparison_of(4, 0, &y, &two));
    assert_eq!(Condition::Greater(b(&two), b(&y)), comparison_of(8, 1, &y, &two));
}

#[test]
fn a_place_and_a_graft_give_the_mutation() {
    let program = Program::If(
        less(Expression::Sensor(Sensor::Y), constant(1.0)),
        Box::new(command(Command::Left)),
        Box::new(command(Command::Right)),
    );
    assert_eq!(
        Some(Program::If(
            less(Expression::Sensor(Sensor::Y), constant(1.0)),
            Box::new(command(Command::Left)),
            Box::new(command(Command::Thrust)),
        )),
        mutate_at(&program, 1, Graft::Command(&Command::Thrust))
    );
    assert_eq!(
        Some(Program::If(
            less(constant(3.0), constant(1.0)),
            Box::new(command(Command::Left)),
            Box::new(command(Command::Right)),
        )),
        mutate_at(&program, 0, Graft::Expression(&constant(3.0)))
    );
    assert_eq!(
        Some(command(Command::Skip)),
        mutate_at(&program, 0, Graft::Program(&command(Command::Skip)))
    );
    assert_eq!(
        Some(Program::If(
            Condition::True,
            Box::new(command(Command::Left)),
            Box::new(command(Command::Right)),
        )),
        mutate_at(&program, 0, Graft::Condition(&Condition::True))
    );
    assert_eq!(
        Some(Program::If(
            less(Expression::Sensor(Sensor::W), constant(1.0)),
            Box::new(command(Command::Left)),
            Box::new(command(Command::Right)),
        )),
        mutate_at(&program, 0, Graft::Sensor(&Sensor::W))
    );
    assert_eq!(None, mutate_at(&program, 2, Graft::Command(&Command::Thrust)));
    assert_eq!(None, mutate_at(&program, 1, Graft::Condition(&Condition::True)));
    assert_eq!(None, mutate_at(&Condition::True, 0, Graft::Sensor(&Sensor::W)));
    assert_eq!(NodeType::Sensor, Graft::Sensor(&Sensor::W).kind());
    assert_eq!(NodeType::Program, Graft::Program(&program).kind());
}

#[test]
fn a_way_makes_its_trees() {
    let p = four_commands();
    let mut rng = seeded(22);
    assert_eq!((command(Command::Right), None), p.breed(Way::Reproduce(2), 3, &mut rng, &Ieee));
    for _ in 0..20 {
        let (mutation, none) = p.breed(Way::Mutate(1), 3, &mut rng, &Ieee);
        assert!(none.is_none());
        assert!(mutation.depth() >= 2);
        let (first, second) = p.breed(Way::Crossover(0, 3), 2, &mut rng, &Ieee);
        assert_eq!((command(Command::Thrust), Some(command(Command::Skip))), (first, second));
        let (first, second) = p.breed(Way::Crossover(3, 1), 1, &mut rng, &Ieee);
        assert_eq!((command(Command::Left), None), (first, second));
    }
}

#[test]
fn with_weight_on_reproduction_alone_every_tree_is_a_copy() {
    let mut rng = seeded(23);
    let mut population: Population<Program> = random_population(30, &mut rng);
    population.score(
        |tree, _| card(tree.depth() as f32),
        &mut rng,
    );
    let next = population.evolve(3, 7, 0, 0, &mut rng, &Ieee);
    assert_eq!(30, next.n());
    for tree in &next.population {
        assert!(population.population.contains(tree));
    }
}

#[test]
fn with_weight_on_mutation_alone_every_tree_is_one_node_away() {
    let p = four_commands();
    let mut rng = seeded(24);
    for _ in 0..20 {
        let next = p.evolve(2, 0, 3, 0, &mut rng, &Ieee);
        for tree in &next.population {
            // a one-node program: the command or the whole program was replaced
            assert!(tree.depth() >= 2);
        }
    }
}

#[test]
fn adding_to_a_card_goes_on_from_its_total() {
    let card = ScoreCard::new(
        vec![("a", number(1.0)), ("b", number(2.0))],
        GameTrace::new(),
        &Ieee,
    );
    assert_eq!(3.0, float(card.total_score()));
    let more = card.add(vec![("c", number(4.0))], &Ieee);
    assert_eq!(7.0, float(more.total_score()));
    let big = ScoreCard::new(vec![("a", number(1.0e8)), ("b", number(1.0))], GameTrace::new(), &Ieee);
    let anew = ScoreCard::new(
        vec![("a", number(1.0e8)), ("b", number(1.0)), ("c", number(-1.0e8))],
        GameTrace::new(),
        &Ieee,
    );
    assert_eq!(float(anew.total_score()), float(big.add(vec![("c", number(-1.0e8))], &Ieee).total_score()));
}
