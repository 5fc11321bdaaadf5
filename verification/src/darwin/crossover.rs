//! Crossover: two trees swap a node of the same kind.
use vstd::prelude::*;
use crate::copy::{
    Copyable, CopyReplaceCommand, CopyReplaceCondition, CopyReplaceExpression, CopyReplaceProgram,
    CopyReplaceSensor,
};
use crate::pick::below;
use crate::structure::{Command, Condition, Expression, Node, NodeType, Program, Sensor};
use crate::visit::{collect, node_is_first, node_nodes, shared_kinds, BucketCollector, Visitor};

verus! {

/// `out` is the two trees after the swap of node `i` of `a` with node `j` of
/// `b`, both of the given kind: `a` with the node of `b` in the place of its
/// own, and `b` with the node of `a`.
pub open spec fn crossed<P: Copyable>(a: P, b: P, kind: NodeType, i: int, j: int, out: (P, P)) -> bool {
    &&& 0 <= i < node_nodes(a.node(), kind).len()
    &&& 0 <= j < node_nodes(b.node(), kind).len()
    &&& out.0 == a.replaced(i, node_nodes(b.node(), kind)[j])
    &&& out.1 == b.replaced(j, node_nodes(a.node(), kind)[i])
}

fn cross_over_program<P: Copyable>(a: &P, b: &P, i: usize, an: &Program, j: usize, bn: &Program) -> (out:
    (P, P))
    ensures
        out.0 == a.replaced(i as int, Node::Program(*bn)),
        out.1 == b.replaced(j as int, Node::Program(*an)),
{
    (
        a.copy(&CopyReplaceProgram { to_replace: i, replace_with: bn }),
        b.copy(&CopyReplaceProgram { to_replace: j, replace_with: an }),
    )
}

fn cross_over_expression<P: Copyable>(
    a: &P,
    b: &P,
    i: usize,
    an: &Expression,
    j: usize,
    bn: &Expression,
) -> (out: (P, P))
    ensures
        out.0 == a.replaced(i as int, Node::Expression(*bn)),
        out.1 == b.replaced(j as int, Node::Expression(*an)),
{
    (
        a.copy(&CopyReplaceExpression { to_replace: i, replace_with: bn }),
        b.copy(&CopyReplaceExpression { to_replace: j, replace_with: an }),
    )
}

fn cross_over_condition<P: Copyable>(
    a: &P,
    b: &P,
    i: usize,
    an: &Condition,
    j: usize,
    bn: &Condition,
) -> (out: (P, P))
    ensures
        out.0 == a.replaced(i as int, Node::Condition(*bn)),
        out.1 == b.replaced(j as int, Node::Condition(*an)),
{
    (
        a.copy(&CopyReplaceCondition { to_replace: i, replace_with: bn }),
        b.copy(&CopyReplaceCondition { to_replace: j, replace_with: an }),
    )
}

fn cross_over_sensor<P: Copyable>(a: &P, b: &P, i: usize, an: &Sensor, j: usize, bn: &Sensor) -> (out:
    (P, P))
    ensures
        out.0 == a.replaced(i as int, Node::Sensor(*bn)),
        out.1 == b.replaced(j as int, Node::Sensor(*an)),
{
    (
        a.copy(&CopyReplaceSensor { to_replace: i, replace_with: bn }),
        b.copy(&CopyReplaceSensor { to_replace: j, replace_with: an }),
    )
}

fn cross_over_command<P: Copyable>(a: &P, b: &P, i: usize, an: &Command, j: usize, bn: &Command) -> (out:
    (P, P))
    ensures
        out.0 == a.replaced(i as int, Node::Command(*bn)),
        out.1 == b.replaced(j as int, Node::Command(*an)),
{
    (
        a.copy(&CopyReplaceCommand { to_replace: i, replace_with: bn }),
        b.copy(&CopyReplaceCommand { to_replace: j, replace_with: an }),
    )
}

fn exchange<P: Copyable>(
    a: &P,
    b: &P,
    a_nodes: &BucketCollector,
    b_nodes: &BucketCollector,
    kind: NodeType,
    i: usize,
    j: usize,
) -> (out: (P, P))
    requires
        forall|k: NodeType| #[trigger] a_nodes.seen(k) == node_nodes(a.node(), k),
        forall|k: NodeType| #[trigger] b_nodes.seen(k) == node_nodes(b.node(), k),
        i < a_nodes.seen(kind).len(),
        j < b_nodes.seen(kind).len(),
    ensures
        crossed(*a, *b, kind, i as int, j as int, out),
{
    assert(a_nodes.seen(kind)[i as int] == node_nodes(a.node(), kind)[i as int]);
    assert(b_nodes.seen(kind)[j as int] == node_nodes(b.node(), kind)[j as int]);
    match kind {
        NodeType::Program => cross_over_program(
            a,
            b,
            i,
            a_nodes.programs[i],
            j,
            b_nodes.programs[j],
        ),
        NodeType::Expression => cross_over_expression(
            a,
            b,
            i,
            a_nodes.expressions[i],
            j,
            b_nodes.expressions[j],
        ),
        NodeType::Condition => cross_over_condition(
            a,
            b,
            i,
            a_nodes.conditions[i],
            j,
            b_nodes.conditions[j],
        ),
        NodeType::Sensor => cross_over_sensor(a, b, i, a_nodes.sensors[i], j, b_nodes.sensors[j]),
        NodeType::Command => cross_over_command(
            a,
            b,
            i,
            a_nodes.commands[i],
            j,
            b_nodes.commands[j],
        ),
    }
}

/// Swaps node `i` of `a` with node `j` of `b`, both of the given kind, and
/// returns the two new trees; `None` where one of the trees has no such node.
pub fn swap_nodes<P: Copyable>(a: &P, b: &P, kind: NodeType, i: usize, j: usize) -> (out: Option<
    (P, P),
>)
    ensures
        out is Some <==> i < node_nodes(a.node(), kind).len() && j < node_nodes(
            b.node(),
            kind,
        ).len(),
        out matches Some(pair) ==> crossed(*a, *b, kind, i as int, j as int, pair),
{
    let a_nodes = collect(a);
    let b_nodes = collect(b);
    if i < a_nodes.count(kind) && j < b_nodes.count(kind) {
        Some(exchange(a, b, &a_nodes, &b_nodes, kind, i, j))
    } else {
        None
    }
}

/// `out` is the outcome of some swap of a node of `a` with a node of `b` of
/// the same kind.
pub open spec fn crossing<P: Copyable>(a: P, b: P, out: (P, P)) -> bool {
    exists|kind: NodeType, i: int, j: int| #[trigger] crossed(a, b, kind, i, j, out)
}

/// Crosses two trees: a kind is drawn among those of which both trees have a
/// node, then a node of that kind in each tree, and the two nodes are
/// swapped. Both trees stay as they were; the two new trees are returned.
pub fn cross_over<P: Copyable>(a: &P, b: &P, rng: &mut rand::StdRng) -> (out: (P, P))
    ensures
        crossing(*a, *b, out),
{
    let a_nodes = collect(a);
    let b_nodes = collect(b);
    let shared = shared_kinds(&a_nodes, &b_nodes);
    proof {
        a.same_kind(b);
        node_is_first(a.node());
        node_is_first(b.node());
        assert(shared@.contains(a.node().kind()));
    }
    let kind = shared[below(rng, shared.len())];
    assert(shared@.contains(kind));
    let i = below(rng, a_nodes.count(kind));
    let j = below(rng, b_nodes.count(kind));
    let out = exchange(a, b, &a_nodes, &b_nodes, kind, i, j);
    assert(crossed(*a, *b, kind, i as int, j as int, out));
    out
}

/// A crossover neither makes nor loses a node: the two new trees together
/// have as many nodes, of all kinds, as the two crossed.
pub proof fn crossover_conserves_nodes<P: Copyable>(a: P, b: P, out: (P, P))
    requires
        crossing(a, b, out),
    ensures
        crate::copy::total(out.0) + crate::copy::total(out.1) == crate::copy::total(a)
            + crate::copy::total(b),
{
    let (kind, i, j) = choose|kind: NodeType, i: int, j: int| #[trigger]
        crossed(a, b, kind, i, j, out);
    crate::copy::swap_conserves_nodes(a, b, kind, i, j);
}

} // verus!
