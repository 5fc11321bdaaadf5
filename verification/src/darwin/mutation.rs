//! Mutation: a copy of a tree with one node changed.
//!
//! The node is chosen in two uniform draws, first a kind among those the
//! tree has, then a node among those of the kind. A program, a sensor or a
//! command is replaced by a random one. An expression or a condition is so
//! replaced one time in five; else it keeps its parts, mostly in their order,
//! and changes what it does with them, and a constant is nudged.
use vstd::prelude::*;
use crate::copy::{Copyable, CopyReplace, Graft};
use crate::num::{applies, Arithmetic, Operator};
use crate::pick::{below, pick, weight_before};
use crate::random::{
    condition_fits, expression_fits, program_fits, unit, Random, CEILING,
};
use crate::simplify::{combined, operation};
use crate::structure::{Command, Condition, Expression, Node, NodeType, Number, Program, Sensor};
use crate::visit::{collect, node_is_first, node_nodes, shared_kinds, Visitor};

verus! {

/// The bits of one tenth, the least factor by which a constant is scaled.
pub const TENTH: u32 = 0x3dcc_cccd;

/// The bits of two, the bound of the factors by which a constant is scaled.
pub const TWO: u32 = 0x4000_0000;

/// The bits of minus one, the least amount by which a constant is moved.
pub const MINUS_ONE: u32 = 0xbf80_0000;

/// The bits of one, the bound of the amounts by which a constant is moved.
pub const ONE: u32 = 0x3f80_0000;

/// `out` is `low + (high - low) * draw` for a draw from zero up to one.
pub open spec fn spans<A: Arithmetic>(arithmetic: &A, low: Number, high: Number, out: Number) -> bool {
    exists|draw: Number, width: Number, part: Number|
        draw.bits < 0x3f80_0000 && applies(arithmetic, Operator::Minus, high, low, width)
            && #[trigger] applies(arithmetic, Operator::Multiply, width, draw, part) && applies(
            arithmetic,
            Operator::Plus,
            low,
            part,
            out,
        )
}

/// A number between two bounds: the lower bound and a random share of the
/// distance to the upper one.
pub fn between<A: Arithmetic>(
    low: Number,
    high: Number,
    rng: &mut rand::StdRng,
    arithmetic: &A,
) -> (out: Number)
    ensures
        spans(arithmetic, low, high, out),
{
    let draw = unit(rng);
    let width = arithmetic.apply(Operator::Minus, high, low);
    let part = arithmetic.apply(Operator::Multiply, width, draw);
    let out = arithmetic.apply(Operator::Plus, low, part);
    assert(applies(arithmetic, Operator::Multiply, width, draw, part));
    out
}

/// `out` is a new draw from zero up to one, or `value` times a factor between
/// a tenth and two, or `value` plus an amount between minus one and one.
pub open spec fn perturbs<A: Arithmetic>(arithmetic: &A, value: Number, out: Number) -> bool {
    ||| out.bits < 0x3f80_0000
    ||| exists|factor: Number|
        spans(arithmetic, Number { bits: TENTH }, Number { bits: TWO }, factor) && #[trigger] applies(
            arithmetic,
            Operator::Multiply,
            value,
            factor,
            out,
        )
    ||| exists|amount: Number|
        spans(arithmetic, Number { bits: MINUS_ONE }, Number { bits: ONE }, amount) && #[trigger] applies(
            arithmetic,
            Operator::Plus,
            value,
            amount,
            out,
        )
}

/// What becomes of a constant in one of three ways, with an amount that was
/// drawn for it: in the first way the amount takes its place, in the second
/// the constant is multiplied by the amount, and in every other way the
/// amount is added to it.
pub fn perturbed<A: Arithmetic>(way: usize, value: Number, amount: Number, arithmetic: &A) -> (out:
    Number)
    ensures
        way == 0 ==> out == amount,
        way == 1 ==> applies(arithmetic, Operator::Multiply, value, amount, out),
        way >= 2 ==> applies(arithmetic, Operator::Plus, value, amount, out),
{
    if way == 0 {
        amount
    } else if way == 1 {
        arithmetic.apply(Operator::Multiply, value, amount)
    } else {
        arithmetic.apply(Operator::Plus, value, amount)
    }
}

/// A constant near the given one: scaled seven times in ten, moved two times
/// in ten, and drawn anew one time in ten.
pub fn mutate_constant<A: Arithmetic>(value: Number, rng: &mut rand::StdRng, arithmetic: &A) -> (out:
    Number)
    ensures
        perturbs(arithmetic, value, out),
{
    let weights: [u32; 3] = [1, 7, 2];
    proof {
        reveal_with_fuel(weight_before, 4);
    }
    let way = pick(&weights, rng);
    let amount = if way == 0 {
        unit(rng)
    } else if way == 1 {
        between(Number { bits: TENTH }, Number { bits: TWO }, rng, arithmetic)
    } else {
        between(Number { bits: MINUS_ONE }, Number { bits: ONE }, rng, arithmetic)
    };
    let out = perturbed(way, value, amount, arithmetic);
    assert(way == 1 ==> applies(arithmetic, Operator::Multiply, value, amount, out));
    assert(way >= 2 ==> applies(arithmetic, Operator::Plus, value, amount, out));
    out
}

/// Which of two parts comes first: the first one eight times in ten.
fn first_slot(rng: &mut rand::StdRng) -> (i: usize)
    ensures
        i <= 1,
{
    let weights: [u32; 2] = [8, 2];
    proof {
        reveal_with_fuel(weight_before, 3);
    }
    pick(&weights, rng)
}

/// The part at place `i`, copied; a random one where there is no such part.
fn pick_or_rand<T: Random + Clone>(parts: &[&T], i: usize, rng: &mut rand::StdRng) -> (out: T)
    ensures
        i < parts@.len() ==> cloned(*parts@[i as int], out),
{
    if i < parts.len() {
        T::clone(parts[i])
    } else {
        T::random(rng, CEILING)
    }
}

/// The slot holds the part at place `i`, where there is such a part.
pub open spec fn kept<T>(parts: Seq<T>, i: int, slot: T) -> bool {
    0 <= i < parts.len() ==> slot == parts[i]
}

/// The operator with the given number, the last one for every number beyond.
pub open spec fn operator_numbered(variant: usize) -> Operator {
    if variant == 0 {
        Operator::Plus
    } else if variant == 1 {
        Operator::Minus
    } else if variant == 2 {
        Operator::Multiply
    } else {
        Operator::Divide
    }
}

/// The operator with the given number, the last one for every number beyond.
pub fn operator_at(variant: usize) -> (operator: Operator)
    ensures
        operator == operator_numbered(variant),
{
    if variant == 0 {
        Operator::Plus
    } else if variant == 1 {
        Operator::Minus
    } else if variant == 2 {
        Operator::Multiply
    } else {
        Operator::Divide
    }
}

/// `out` applies some operator to the two parts, in their order or swapped.
pub open spec fn rearranges_operands(left: Expression, right: Expression, out: Expression) -> bool {
    operation(out) matches Some((_, first, second)) && ((first == left && second == right) || (first
        == right && second == left))
}

/// The operation with the given number on two operands: the left one first
/// where `first` is zero, else the right one first.
pub fn operation_of(variant: usize, first: usize, left: &Expression, right: &Expression) -> (out:
    Expression)
    ensures
        out == (if first == 0 {
            combined(operator_numbered(variant), *left, *right)
        } else {
            combined(operator_numbered(variant), *right, *left)
        }),
{
    let (one, two) = if first == 0 {
        (left.clone(), right.clone())
    } else {
        (right.clone(), left.clone())
    };
    match operator_at(variant) {
        Operator::Plus => Expression::Plus(Box::new(one), Box::new(two)),
        Operator::Minus => Expression::Minus(Box::new(one), Box::new(two)),
        Operator::Multiply => Expression::Multiply(Box::new(one), Box::new(two)),
        Operator::Divide => Expression::Divide(Box::new(one), Box::new(two)),
    }
}

/// An operation, drawn evenly among the four, on the two given operands,
/// which are swapped two times in ten.
fn expression_with_expressions(parts: &[&Expression], rng: &mut rand::StdRng) -> (out: Expression)
    requires
        parts@.len() == 2,
    ensures
        rearranges_operands(*parts@[0], *parts@[1], out),
{
    let first = first_slot(rng);
    let weights: [u32; 4] = [1, 1, 1, 1];
    proof {
        reveal_with_fuel(weight_before, 5);
    }
    let variant = pick(&weights, rng);
    operation_of(variant, first, parts[0], parts[1])
}

/// `out` is what a controlled mutation can make of the expression: a
/// perturbed constant of a constant, a sensor of a sensor, and of an
/// operation some operation on the same operands, in their order or swapped.
pub open spec fn varies_expression<A: Arithmetic>(
    arithmetic: &A,
    expression: Expression,
    out: Expression,
) -> bool {
    match expression {
        Expression::Constant(value) => out matches Expression::Constant(other) && perturbs(
            arithmetic,
            value,
            other,
        ),
        Expression::Sensor(_) => out is Sensor,
        Expression::Plus(left, right)
        | Expression::Minus(left, right)
        | Expression::Multiply(left, right)
        | Expression::Divide(left, right) => rearranges_operands(*left, *right, out),
    }
}

/// A variant of the expression that keeps its operands.
pub fn controlled_mutate_expression<A: Arithmetic>(
    expression: &Expression,
    rng: &mut rand::StdRng,
    arithmetic: &A,
) -> (out: Expression)
    ensures
        varies_expression(arithmetic, *expression, out),
{
    match expression {
        Expression::Constant(value) => Expression::Constant(
            mutate_constant(*value, rng, arithmetic),
        ),
        Expression::Sensor(_) => Expression::Sensor(Sensor::random(rng, CEILING)),
        Expression::Plus(left, right)
        | Expression::Minus(left, right)
        | Expression::Multiply(left, right)
        | Expression::Divide(left, right) => {
            let parts: [&Expression; 2] = [&**left, &**right];
            expression_with_expressions(&parts, rng)
        },
    }
}

/// The place of the part for the second slot: the second part where the
/// first part goes first, else the first part.
pub open spec fn other_slot(first: usize) -> int {
    if first == 0 {
        1
    } else {
        0
    }
}

/// `out` is a literal, or a logical combination in which a slot holds the
/// part whose turn it is, the parts taken in their order or swapped. A slot
/// for which there is no part holds any condition.
pub open spec fn rearranges_conditions(parts: Seq<&Condition>, out: Condition) -> bool {
    match out {
        Condition::True | Condition::False => true,
        Condition::Not(inner) => kept(parts, 0, &*inner) || kept(parts, 1, &*inner),
        Condition::Or(left, right) | Condition::And(left, right) => (kept(parts, 0, &*left) && kept(
            parts,
            1,
            &*right,
        )) || (kept(parts, 1, &*left) && kept(parts, 0, &*right)),
        _ => false,
    }
}

/// The literal or logical combination with the given number: `True`,
/// `False`, a negation, an `or`, and for every number beyond an `and`. The
/// part at place `first` goes into the first slot and the other one of the
/// first two parts into the second; a slot for which there is no part gets a
/// random condition.
pub fn logical(variant: usize, first: usize, parts: &[&Condition], rng: &mut rand::StdRng) -> (out:
    Condition)
    ensures
        variant == 0 ==> out == Condition::True,
        variant == 1 ==> out == Condition::False,
        variant == 2 ==> (out matches Condition::Not(inner) && kept(
            parts@,
            first as int,
            &*inner,
        )),
        variant == 3 ==> (out matches Condition::Or(left, right) && kept(
            parts@,
            first as int,
            &*left,
        ) && kept(parts@, other_slot(first), &*right)),
        variant >= 4 ==> (out matches Condition::And(left, right) && kept(
            parts@,
            first as int,
            &*left,
        ) && kept(parts@, other_slot(first), &*right)),
{
    let second = if first == 0 {
        1
    } else {
        0
    };
    if variant == 0 {
        Condition::True
    } else if variant == 1 {
        Condition::False
    } else if variant == 2 {
        Condition::Not(Box::new(pick_or_rand(parts, first, rng)))
    } else if variant == 3 {
        let left = pick_or_rand(parts, first, rng);
        let right = pick_or_rand(parts, second, rng);
        Condition::Or(Box::new(left), Box::new(right))
    } else {
        let left = pick_or_rand(parts, first, rng);
        let right = pick_or_rand(parts, second, rng);
        Condition::And(Box::new(left), Box::new(right))
    }
}

/// A literal or a logical combination, drawn evenly among the five, that
/// takes its parts from the given ones, swapped two times in ten.
fn condition_with_conditions(parts: &[&Condition], rng: &mut rand::StdRng) -> (out: Condition)
    ensures
        rearranges_conditions(parts@, out),
{
    let first = first_slot(rng);
    let weights: [u32; 5] = [1, 1, 1, 1, 1];
    proof {
        reveal_with_fuel(weight_before, 6);
    }
    let variant = pick(&weights, rng);
    logical(variant, first, parts, rng)
}

/// The two sides of a comparison; `None` for every other condition.
pub open spec fn comparison(condition: Condition) -> Option<(Expression, Expression)> {
    match condition {
        Condition::Less(left, right)
        | Condition::LessEqual(left, right)
        | Condition::Equal(left, right)
        | Condition::GreaterEqual(left, right)
        | Condition::Greater(left, right) => Some((*left, *right)),
        _ => None,
    }
}

/// `out` compares the two sides, in their order or swapped.
pub open spec fn rearranges_sides(left: Expression, right: Expression, out: Condition) -> bool {
    comparison(out) matches Some((first, second)) && ((first == left && second == right) || (first
        == right && second == left))
}

/// The comparison with the given number: less, less or equal, equal, greater
/// or equal, and for every number beyond greater.
pub open spec fn compared(variant: usize, left: Expression, right: Expression) -> Condition {
    if variant == 0 {
        Condition::Less(Box::new(left), Box::new(right))
    } else if variant == 1 {
        Condition::LessEqual(Box::new(left), Box::new(right))
    } else if variant == 2 {
        Condition::Equal(Box::new(left), Box::new(right))
    } else if variant == 3 {
        Condition::GreaterEqual(Box::new(left), Box::new(right))
    } else {
        Condition::Greater(Box::new(left), Box::new(right))
    }
}

/// The comparison with the given number of two sides: the left one first
/// where `first` is zero, else the right one first.
pub fn comparison_of(variant: usize, first: usize, left: &Expression, right: &Expression) -> (out:
    Condition)
    ensures
        out == (if first == 0 {
            compared(variant, *left, *right)
        } else {
            compared(variant, *right, *left)
        }),
{
    let (one, two) = if first == 0 {
        (left.clone(), right.clone())
    } else {
        (right.clone(), left.clone())
    };
    if variant == 0 {
        Condition::Less(Box::new(one), Box::new(two))
    } else if variant == 1 {
        Condition::LessEqual(Box::new(one), Box::new(two))
    } else if variant == 2 {
        Condition::Equal(Box::new(one), Box::new(two))
    } else if variant == 3 {
        Condition::GreaterEqual(Box::new(one), Box::new(two))
    } else {
        Condition::Greater(Box::new(one), Box::new(two))
    }
}

/// A comparison, drawn evenly among the five, of the two given sides, which
/// are swapped two times in ten.
fn condition_with_expressions(parts: &[&Expression], rng: &mut rand::StdRng) -> (out: Condition)
    requires
        parts@.len() == 2,
    ensures
        rearranges_sides(*parts@[0], *parts@[1], out),
{
    let first = first_slot(rng);
    let weights: [u32; 5] = [1, 1, 1, 1, 1];
    proof {
        reveal_with_fuel(weight_before, 6);
    }
    let variant = pick(&weights, rng);
    comparison_of(variant, first, parts[0], parts[1])
}

/// `out` is what a controlled mutation can make of the condition: of a
/// literal or a logical combination a literal or a logical combination that
/// keeps the parts it has room for, and of a comparison some comparison of
/// the same sides; the parts in their order or swapped.
pub open spec fn varies_condition(condition: Condition, out: Condition) -> bool {
    match condition {
        Condition::True | Condition::False => rearranges_conditions(Seq::empty(), out),
        Condition::Not(inner) => rearranges_conditions(seq![&*inner], out),
        Condition::Or(left, right) | Condition::And(left, right) => rearranges_conditions(
            seq![&*left, &*right],
            out,
        ),
        Condition::Less(left, right)
        | Condition::LessEqual(left, right)
        | Condition::Equal(left, right)
        | Condition::GreaterEqual(left, right)
        | Condition::Greater(left, right) => rearranges_sides(*left, *right, out),
    }
}

/// A variant of the condition that keeps its parts.
pub fn controlled_mutate_condition(condition: &Condition, rng: &mut rand::StdRng) -> (out:
    Condition)
    ensures
        varies_condition(*condition, out),
{
    match condition {
        Condition::True | Condition::False => {
            let parts: [&Condition; 0] = [];
            assert(parts@ =~= Seq::empty());
            condition_with_conditions(&parts, rng)
        },
        Condition::Not(inner) => {
            let parts: [&Condition; 1] = [&**inner];
            assert(parts@ =~= seq![&**inner]);
            condition_with_conditions(&parts, rng)
        },
        Condition::Or(left, right) | Condition::And(left, right) => {
            let parts: [&Condition; 2] = [&**left, &**right];
            assert(parts@ =~= seq![&**left, &**right]);
            condition_with_conditions(&parts, rng)
        },
        Condition::Less(left, right)
        | Condition::LessEqual(left, right)
        | Condition::Equal(left, right)
        | Condition::GreaterEqual(left, right)
        | Condition::Greater(left, right) => {
            let parts: [&Expression; 2] = [&**left, &**right];
            condition_with_expressions(&parts, rng)
        },
    }
}

/// `graft` is what a mutation can put in the place of `node`: for a program
/// a program that a random draw can give; for a condition or an expression
/// such a draw or a controlled variant of the node; for a sensor any sensor
/// and for a command any command.
pub open spec fn replaces<A: Arithmetic>(arithmetic: &A, node: Node, graft: Node) -> bool {
    match (node, graft) {
        (Node::Program(_), Node::Program(new)) => program_fits(new, CEILING as nat),
        (Node::Condition(old), Node::Condition(new)) => condition_fits(new, CEILING as nat)
            || varies_condition(old, new),
        (Node::Expression(old), Node::Expression(new)) => expression_fits(new, CEILING as nat)
            || varies_expression(arithmetic, old, new),
        (Node::Sensor(_), Node::Sensor(_)) => true,
        (Node::Command(_), Node::Command(_)) => true,
        _ => false,
    }
}

/// `out` is `from` with the node at place `at` replaced by `graft`, which is
/// a node of the kind of the one replaced and something that a mutation can
/// put in its place.
pub open spec fn mutated_at<T: Copyable, A: Arithmetic>(
    arithmetic: &A,
    from: T,
    at: int,
    graft: Node,
    out: T,
) -> bool {
    &&& 0 <= at < node_nodes(from.node(), graft.kind()).len()
    &&& replaces(arithmetic, node_nodes(from.node(), graft.kind())[at], graft)
    &&& out == from.replaced(at, graft)
}

/// `out` is a mutation of `from`: the tree with one of its nodes replaced by
/// something that a mutation can put in its place.
pub open spec fn mutated<T: Copyable, A: Arithmetic>(arithmetic: &A, from: T, out: T) -> bool {
    exists|at: int, graft: Node| #[trigger] mutated_at(arithmetic, from, at, graft, out)
}

/// The tree with the node of the graft's kind at place `at` replaced by the
/// graft; `None` where the tree has no such place.
pub fn mutate_at<T: Copyable>(a: &T, at: usize, graft: Graft) -> (out: Option<T>)
    ensures
        out is Some <==> at < node_nodes(a.node(), graft.node().kind()).len(),
        out matches Some(tree) ==> tree == a.replaced(at as int, graft.node()),
{
    let nodes = collect(a);
    if at < nodes.count(graft.kind()) {
        Some(a.copy(&CopyReplace { to_replace: at, replace_with: graft }))
    } else {
        None
    }
}

fn mut_program<P: Copyable, A: Arithmetic>(
    a: &P,
    at: usize,
    rng: &mut rand::StdRng,
    arithmetic: &A,
) -> (out: P)
    requires
        at < node_nodes(a.node(), NodeType::Program).len(),
    ensures
        mutated(arithmetic, *a, out),
{
    let bn = Program::random(rng, CEILING);
    let out = mutate_at(a, at, Graft::Program(&bn)).unwrap();
    proof {
        a.listed_kind(NodeType::Program, at as int);
        assert(mutated_at(arithmetic, *a, at as int, Node::Program(bn), out));
    }
    out
}

fn mut_expression<P: Copyable, A: Arithmetic>(
    a: &P,
    at: usize,
    an: &Expression,
    rng: &mut rand::StdRng,
    arithmetic: &A,
) -> (out: P)
    requires
        at < node_nodes(a.node(), NodeType::Expression).len(),
        node_nodes(a.node(), NodeType::Expression)[at as int] == Node::Expression(*an),
    ensures
        mutated(arithmetic, *a, out),
{
    let weights: [u32; 2] = [1, 4];
    proof {
        reveal_with_fuel(weight_before, 3);
    }
    let bn = if pick(&weights, rng) == 0 {
        Expression::random(rng, CEILING)
    } else {
        controlled_mutate_expression(an, rng, arithmetic)
    };
    let out = mutate_at(a, at, Graft::Expression(&bn)).unwrap();
    assert(mutated_at(arithmetic, *a, at as int, Node::Expression(bn), out));
    out
}

fn mut_condition<P: Copyable, A: Arithmetic>(
    a: &P,
    at: usize,
    an: &Condition,
    rng: &mut rand::StdRng,
    arithmetic: &A,
) -> (out: P)
    requires
        at < node_nodes(a.node(), NodeType::Condition).len(),
        node_nodes(a.node(), NodeType::Condition)[at as int] == Node::Condition(*an),
    ensures
        mutated(arithmetic, *a, out),
{
    let weights: [u32; 2] = [1, 4];
    proof {
        reveal_with_fuel(weight_before, 3);
    }
    let bn = if pick(&weights, rng) == 0 {
        Condition::random(rng, CEILING)
    } else {
        controlled_mutate_condition(an, rng)
    };
    let out = mutate_at(a, at, Graft::Condition(&bn)).unwrap();
    assert(mutated_at(arithmetic, *a, at as int, Node::Condition(bn), out));
    out
}

fn mut_sensor<P: Copyable, A: Arithmetic>(
    a: &P,
    at: usize,
    rng: &mut rand::StdRng,
    arithmetic: &A,
) -> (out: P)
    requires
        at < node_nodes(a.node(), NodeType::Sensor).len(),
    ensures
        mutated(arithmetic, *a, out),
{
    let bn = Sensor::random(rng, CEILING);
    let out = mutate_at(a, at, Graft::Sensor(&bn)).unwrap();
    proof {
        a.listed_kind(NodeType::Sensor, at as int);
        assert(mutated_at(arithmetic, *a, at as int, Node::Sensor(bn), out));
    }
    out
}

fn mut_command<P: Copyable, A: Arithmetic>(
    a: &P,
    at: usize,
    rng: &mut rand::StdRng,
    arithmetic: &A,
) -> (out: P)
    requires
        at < node_nodes(a.node(), NodeType::Command).len(),
    ensures
        mutated(arithmetic, *a, out),
{
    let bn = Command::random(rng, CEILING);
    let out = mutate_at(a, at, Graft::Command(&bn)).unwrap();
    proof {
        a.listed_kind(NodeType::Command, at as int);
        assert(mutated_at(arithmetic, *a, at as int, Node::Command(bn), out));
    }
    out
}

/// A mutated copy of a tree. A kind is drawn among those that the tree has,
/// then a node of that kind, and the node is replaced: a program, a sensor
/// or a command by a random one; an expression or a condition one time in
/// five by a random one and else by a controlled variant of itself. The tree
/// itself is not touched.
pub fn mutate<T: Copyable, A: Arithmetic>(a: &T, rng: &mut rand::StdRng, arithmetic: &A) -> (out: T)
    ensures
        mutated(arithmetic, *a, out),
{
    let nodes = collect(a);
    let present = shared_kinds(&nodes, &nodes);
    proof {
        node_is_first(a.node());
        assert(present@.contains(a.node().kind()));
    }
    let kind = present[below(rng, present.len())];
    assert(present@.contains(kind));
    let at = below(rng, nodes.count(kind));
    assert(nodes.seen(kind)[at as int] == node_nodes(a.node(), kind)[at as int]);
    match kind {
        NodeType::Program => mut_program(a, at, rng, arithmetic),
        NodeType::Expression => mut_expression(a, at, nodes.expressions[at], rng, arithmetic),
        NodeType::Condition => mut_condition(a, at, nodes.conditions[at], rng, arithmetic),
        NodeType::Sensor => mut_sensor(a, at, rng, arithmetic),
        NodeType::Command => mut_command(a, at, rng, arithmetic),
    }
}

} // verus!
