//! Walking a tree, and collecting its nodes by kind.
//!
//! A node inside a tree is named by its kind and by its place among the nodes
//! of that kind, counted in the order of the walk: a node first, then what
//! lies below it, from left to right.
use vstd::prelude::*;
use crate::structure::{Command, Condition, Expression, Node, NodeType, Program, Sensor};

verus! {

/// The node itself where it is of the given kind, else nothing.
pub open spec fn own(node: Node, kind: NodeType) -> Seq<Node> {
    if node.kind() == kind {
        seq![node]
    } else {
        Seq::empty()
    }
}

/// The nodes of one kind in a sensor.
pub open spec fn sensor_nodes(sensor: Sensor, kind: NodeType) -> Seq<Node> {
    own(Node::Sensor(sensor), kind)
}

/// The nodes of one kind in a command.
pub open spec fn command_nodes(command: Command, kind: NodeType) -> Seq<Node> {
    own(Node::Command(command), kind)
}

/// The nodes of one kind in an expression, in the order of the walk.
pub open spec fn expression_nodes(expression: Expression, kind: NodeType) -> Seq<Node>
    decreases expression,
{
    own(Node::Expression(expression), kind) + match expression {
        Expression::Constant(_) => Seq::empty(),
        Expression::Sensor(sensor) => sensor_nodes(sensor, kind),
        Expression::Plus(left, right)
        | Expression::Minus(left, right)
        | Expression::Multiply(left, right)
        | Expression::Divide(left, right) => expression_nodes(*left, kind) + expression_nodes(
            *right,
            kind,
        ),
    }
}

/// The nodes of one kind in a condition, in the order of the walk.
pub open spec fn condition_nodes(condition: Condition, kind: NodeType) -> Seq<Node>
    decreases condition,
{
    own(Node::Condition(condition), kind) + match condition {
        Condition::True | Condition::False => Seq::empty(),
        Condition::Not(inner) => condition_nodes(*inner, kind),
        Condition::Or(left, right) | Condition::And(left, right) => condition_nodes(*left, kind)
            + condition_nodes(*right, kind),
        Condition::Less(left, right)
        | Condition::LessEqual(left, right)
        | Condition::Equal(left, right)
        | Condition::GreaterEqual(left, right)
        | Condition::Greater(left, right) => expression_nodes(*left, kind) + expression_nodes(
            *right,
            kind,
        ),
    }
}

/// The nodes of one kind in a program, in the order of the walk.
pub open spec fn program_nodes(program: Program, kind: NodeType) -> Seq<Node>
    decreases program,
{
    own(Node::Program(program), kind) + match program {
        Program::If(condition, left, right) => condition_nodes(condition, kind) + program_nodes(
            *left,
            kind,
        ) + program_nodes(*right, kind),
        Program::Command(command) => command_nodes(command, kind),
    }
}

/// The nodes of one kind in the subtree of a node, in the order of the walk.
pub open spec fn node_nodes(node: Node, kind: NodeType) -> Seq<Node> {
    match node {
        Node::Program(program) => program_nodes(program, kind),
        Node::Condition(condition) => condition_nodes(condition, kind),
        Node::Expression(expression) => expression_nodes(expression, kind),
        Node::Sensor(sensor) => sensor_nodes(sensor, kind),
        Node::Command(command) => command_nodes(command, kind),
    }
}

/// The number of nodes in the subtree of a node, of all kinds together.
pub open spec fn node_total(node: Node) -> nat {
    node_nodes(node, NodeType::Program).len() + node_nodes(node, NodeType::Condition).len()
        + node_nodes(node, NodeType::Expression).len() + node_nodes(node, NodeType::Sensor).len()
        + node_nodes(node, NodeType::Command).len()
}

/// The nodes of an expression in the order of the walk: the expression, then
/// the nodes of its parts, the left part first.
pub open spec fn expression_walk(expression: Expression) -> Seq<Node>
    decreases expression,
{
    seq![Node::Expression(expression)] + match expression {
        Expression::Constant(_) => Seq::empty(),
        Expression::Sensor(sensor) => seq![Node::Sensor(sensor)],
        Expression::Plus(left, right)
        | Expression::Minus(left, right)
        | Expression::Multiply(left, right)
        | Expression::Divide(left, right) => expression_walk(*left) + expression_walk(*right),
    }
}

/// The nodes of a condition in the order of the walk: the condition, then
/// the nodes of its parts, the left part first.
pub open spec fn condition_walk(condition: Condition) -> Seq<Node>
    decreases condition,
{
    seq![Node::Condition(condition)] + match condition {
        Condition::True | Condition::False => Seq::empty(),
        Condition::Not(inner) => condition_walk(*inner),
        Condition::Or(left, right) | Condition::And(left, right) => condition_walk(*left)
            + condition_walk(*right),
        Condition::Less(left, right)
        | Condition::LessEqual(left, right)
        | Condition::Equal(left, right)
        | Condition::GreaterEqual(left, right)
        | Condition::Greater(left, right) => expression_walk(*left) + expression_walk(*right),
    }
}

/// The nodes of a program in the order of the walk: the program, then the
/// nodes of its condition, of its first and of its second branch.
pub open spec fn program_walk(program: Program) -> Seq<Node>
    decreases program,
{
    seq![Node::Program(program)] + match program {
        Program::If(condition, left, right) => condition_walk(condition) + program_walk(*left)
            + program_walk(*right),
        Program::Command(command) => seq![Node::Command(command)],
    }
}

/// The nodes of the subtree of a node, in the order of the walk.
pub open spec fn node_walk(node: Node) -> Seq<Node> {
    match node {
        Node::Program(program) => program_walk(program),
        Node::Condition(condition) => condition_walk(condition),
        Node::Expression(expression) => expression_walk(expression),
        Node::Sensor(_) => seq![node],
        Node::Command(_) => seq![node],
    }
}

/// Whether a node is of the given kind.
pub open spec fn of_kind(kind: NodeType) -> spec_fn(Node) -> bool {
    |node: Node| node.kind() == kind
}

proof fn one_of_kind(node: Node, kind: NodeType)
    ensures
        seq![node].filter(of_kind(kind)) == own(node, kind),
{
    reveal_with_fuel(Seq::filter, 2);
    assert(seq![node].drop_last() =~= Seq::<Node>::empty());
    assert(seq![node].filter(of_kind(kind)) =~= own(node, kind));
}

/// The nodes of one kind are those of the walk that are of the kind, in the
/// order of the walk.
pub proof fn expression_nodes_in_walk(expression: Expression, kind: NodeType)
    ensures
        expression_nodes(expression, kind) == expression_walk(expression).filter(of_kind(kind)),
    decreases expression,
{
    broadcast use Seq::filter_distributes_over_add;

    one_of_kind(Node::Expression(expression), kind);
    match expression {
        Expression::Constant(_) => {
            assert(Seq::<Node>::empty().filter(of_kind(kind)) =~= Seq::<Node>::empty());
        },
        Expression::Sensor(sensor) => {
            one_of_kind(Node::Sensor(sensor), kind);
        },
        Expression::Plus(left, right)
        | Expression::Minus(left, right)
        | Expression::Multiply(left, right)
        | Expression::Divide(left, right) => {
            expression_nodes_in_walk(*left, kind);
            expression_nodes_in_walk(*right, kind);
        },
    }
}

/// The nodes of one kind are those of the walk that are of the kind, in the
/// order of the walk.
pub proof fn condition_nodes_in_walk(condition: Condition, kind: NodeType)
    ensures
        condition_nodes(condition, kind) == condition_walk(condition).filter(of_kind(kind)),
    decreases condition,
{
    broadcast use Seq::filter_distributes_over_add;

    one_of_kind(Node::Condition(condition), kind);
    match condition {
        Condition::True | Condition::False => {
            assert(Seq::<Node>::empty().filter(of_kind(kind)) =~= Seq::<Node>::empty());
        },
        Condition::Not(inner) => {
            condition_nodes_in_walk(*inner, kind);
        },
        Condition::Or(left, right) | Condition::And(left, right) => {
            condition_nodes_in_walk(*left, kind);
            condition_nodes_in_walk(*right, kind);
        },
        Condition::Less(left, right)
        | Condition::LessEqual(left, right)
        | Condition::Equal(left, right)
        | Condition::GreaterEqual(left, right)
        | Condition::Greater(left, right) => {
            expression_nodes_in_walk(*left, kind);
            expression_nodes_in_walk(*right, kind);
        },
    }
}

/// The nodes of one kind are those of the walk that are of the kind, in the
/// order of the walk.
pub proof fn program_nodes_in_walk(program: Program, kind: NodeType)
    ensures
        program_nodes(program, kind) == program_walk(program).filter(of_kind(kind)),
    decreases program,
{
    broadcast use Seq::filter_distributes_over_add;

    one_of_kind(Node::Program(program), kind);
    match program {
        Program::If(condition, left, right) => {
            condition_nodes_in_walk(condition, kind);
            program_nodes_in_walk(*left, kind);
            program_nodes_in_walk(*right, kind);
        },
        Program::Command(command) => {
            one_of_kind(Node::Command(command), kind);
        },
    }
}

/// The nodes of one kind are those of the walk that are of the kind, in the
/// order of the walk.
pub proof fn node_nodes_in_walk(node: Node, kind: NodeType)
    ensures
        node_nodes(node, kind) == node_walk(node).filter(of_kind(kind)),
{
    match node {
        Node::Program(program) => program_nodes_in_walk(program, kind),
        Node::Condition(condition) => condition_nodes_in_walk(condition, kind),
        Node::Expression(expression) => expression_nodes_in_walk(expression, kind),
        Node::Sensor(_) => one_of_kind(node, kind),
        Node::Command(_) => one_of_kind(node, kind),
    }
}

/// A node is the first of the nodes of its own kind in its subtree.
pub proof fn node_is_first(node: Node)
    ensures
        node_nodes(node, node.kind()).len() > 0,
        node_nodes(node, node.kind())[0] == node,
{
}

/// Something that is shown the nodes of a tree, one by one.
pub trait Visitor<'a> {
    /// The nodes shown so far, in the order in which they came.
    spec fn shown(&self) -> Seq<Node>;

    /// The nodes of one kind shown so far, in the order in which they came.
    spec fn seen(&self, kind: NodeType) -> Seq<Node>;

    fn visit_program(&mut self, program: &'a Program)
        ensures
            final(self).shown() == old(self).shown().push(Node::Program(*program)),
            forall|kind: NodeType| #[trigger]
                final(self).seen(kind) == old(self).seen(kind) + own(Node::Program(*program), kind),
    ;

    fn visit_condition(&mut self, condition: &'a Condition)
        ensures
            final(self).shown() == old(self).shown().push(Node::Condition(*condition)),
            forall|kind: NodeType| #[trigger]
                final(self).seen(kind) == old(self).seen(kind) + own(
                    Node::Condition(*condition),
                    kind,
                ),
    ;

    fn visit_command(&mut self, command: &'a Command)
        ensures
            final(self).shown() == old(self).shown().push(Node::Command(*command)),
            forall|kind: NodeType| #[trigger]
                final(self).seen(kind) == old(self).seen(kind) + own(Node::Command(*command), kind),
    ;

    fn visit_expression(&mut self, expression: &'a Expression)
        ensures
            final(self).shown() == old(self).shown().push(Node::Expression(*expression)),
            forall|kind: NodeType| #[trigger]
                final(self).seen(kind) == old(self).seen(kind) + own(
                    Node::Expression(*expression),
                    kind,
                ),
    ;

    fn visit_sensor(&mut self, sensor: &'a Sensor)
        ensures
            final(self).shown() == old(self).shown().push(Node::Sensor(*sensor)),
            forall|kind: NodeType| #[trigger]
                final(self).seen(kind) == old(self).seen(kind) + own(Node::Sensor(*sensor), kind),
    ;
}

/// Shows a visitor the expression and then all that lies below it.
pub fn walk_expression<'a, V: Visitor<'a>>(expression: &'a Expression, visitor: &mut V)
    ensures
        final(visitor).shown() == old(visitor).shown() + expression_walk(*expression),
        forall|kind: NodeType| #[trigger]
            final(visitor).seen(kind) == old(visitor).seen(kind) + expression_nodes(
                *expression,
                kind,
            ),
    decreases *expression,
{
    visitor.visit_expression(expression);
    match expression {
        Expression::Constant(_) => {},
        Expression::Sensor(sensor) => {
            visitor.visit_sensor(sensor);
        },
        Expression::Plus(left, right)
        | Expression::Minus(left, right)
        | Expression::Multiply(left, right)
        | Expression::Divide(left, right) => {
            walk_expression(left, visitor);
            walk_expression(right, visitor);
        },
    }
}

/// Shows a visitor the condition and then all that lies below it.
pub fn walk_condition<'a, V: Visitor<'a>>(condition: &'a Condition, visitor: &mut V)
    ensures
        final(visitor).shown() == old(visitor).shown() + condition_walk(*condition),
        forall|kind: NodeType| #[trigger]
            final(visitor).seen(kind) == old(visitor).seen(kind) + condition_nodes(*condition, kind),
    decreases *condition,
{
    visitor.visit_condition(condition);
    match condition {
        Condition::True | Condition::False => {},
        Condition::Not(inner) => {
            walk_condition(inner, visitor);
        },
        Condition::Or(left, right) | Condition::And(left, right) => {
            walk_condition(left, visitor);
            walk_condition(right, visitor);
        },
        Condition::Less(left, right)
        | Condition::LessEqual(left, right)
        | Condition::Equal(left, right)
        | Condition::GreaterEqual(left, right)
        | Condition::Greater(left, right) => {
            walk_expression(left, visitor);
            walk_expression(right, visitor);
        },
    }
}

/// Shows a visitor the program and then all that lies below it.
pub fn walk_program<'a, V: Visitor<'a>>(program: &'a Program, visitor: &mut V)
    ensures
        final(visitor).shown() == old(visitor).shown() + program_walk(*program),
        forall|kind: NodeType| #[trigger]
            final(visitor).seen(kind) == old(visitor).seen(kind) + program_nodes(*program, kind),
    decreases *program,
{
    visitor.visit_program(program);
    match program {
        Program::If(condition, left, right) => {
            walk_condition(condition, visitor);
            walk_program(left, visitor);
            walk_program(right, visitor);
        },
        Program::Command(command) => {
            visitor.visit_command(command);
        },
    }
}

/// A tree that can be walked.
pub trait Visitable {
    /// This tree as a node.
    spec fn node(&self) -> Node;

    /// Shows the visitor every node of the tree once, each node before the
    /// nodes below it, and of two nodes side by side the left one first.
    fn visit<'a, V: Visitor<'a>>(&'a self, visitor: &mut V)
        ensures
            final(visitor).shown() == old(visitor).shown() + node_walk(self.node()),
            forall|kind: NodeType| #[trigger]
                final(visitor).seen(kind) == old(visitor).seen(kind) + node_nodes(
                    self.node(),
                    kind,
                ),
    ;
}

impl Visitable for Program {
    open spec fn node(&self) -> Node {
        Node::Program(*self)
    }

    fn visit<'a, V: Visitor<'a>>(&'a self, visitor: &mut V) {
        walk_program(self, visitor);
    }
}

impl Visitable for Condition {
    open spec fn node(&self) -> Node {
        Node::Condition(*self)
    }

    fn visit<'a, V: Visitor<'a>>(&'a self, visitor: &mut V) {
        walk_condition(self, visitor);
    }
}

impl Visitable for Expression {
    open spec fn node(&self) -> Node {
        Node::Expression(*self)
    }

    fn visit<'a, V: Visitor<'a>>(&'a self, visitor: &mut V) {
        walk_expression(self, visitor);
    }
}

impl Visitable for Sensor {
    open spec fn node(&self) -> Node {
        Node::Sensor(*self)
    }

    fn visit<'a, V: Visitor<'a>>(&'a self, visitor: &mut V) {
        visitor.visit_sensor(self);
    }
}

impl Visitable for Command {
    open spec fn node(&self) -> Node {
        Node::Command(*self)
    }

    fn visit<'a, V: Visitor<'a>>(&'a self, visitor: &mut V) {
        visitor.visit_command(self);
    }
}

/// A visitor that keeps a reference to every node it is shown, in one list for
/// each kind, in the order in which the nodes came.
pub struct BucketCollector<'a> {
    pub programs: Vec<&'a Program>,
    pub conditions: Vec<&'a Condition>,
    pub commands: Vec<&'a Command>,
    pub expressions: Vec<&'a Expression>,
    pub sensors: Vec<&'a Sensor>,
    /// Every node shown, in the order in which the nodes came.
    pub shown: Ghost<Seq<Node>>,
}

impl<'a> BucketCollector<'a> {
    /// The list kept for one kind, as nodes.
    pub open spec fn bucket(&self, kind: NodeType) -> Seq<Node> {
        match kind {
            NodeType::Program => Seq::new(
                self.programs@.len(),
                |i: int| Node::Program(*self.programs@[i]),
            ),
            NodeType::Condition => Seq::new(
                self.conditions@.len(),
                |i: int| Node::Condition(*self.conditions@[i]),
            ),
            NodeType::Expression => Seq::new(
                self.expressions@.len(),
                |i: int| Node::Expression(*self.expressions@[i]),
            ),
            NodeType::Sensor => Seq::new(
                self.sensors@.len(),
                |i: int| Node::Sensor(*self.sensors@[i]),
            ),
            NodeType::Command => Seq::new(
                self.commands@.len(),
                |i: int| Node::Command(*self.commands@[i]),
            ),
        }
    }

    /// A collector that has seen nothing.
    pub fn new() -> (collector: BucketCollector<'a>)
        ensures
            collector.shown() == Seq::<Node>::empty(),
            forall|kind: NodeType| #[trigger] collector.seen(kind) == Seq::<Node>::empty(),
    {
        let collector = BucketCollector {
            programs: Vec::new(),
            conditions: Vec::new(),
            commands: Vec::new(),
            expressions: Vec::new(),
            sensors: Vec::new(),
            shown: Ghost(Seq::empty()),
        };
        assert forall|kind: NodeType| #[trigger]
            collector.seen(kind) == Seq::<Node>::empty() by {
            assert(collector.bucket(kind) =~= Seq::<Node>::empty());
        }
        collector
    }

    /// How many nodes of one kind have been collected.
    pub fn count(&self, kind: NodeType) -> (n: usize)
        ensures
            n == self.seen(kind).len(),
    {
        match kind {
            NodeType::Program => self.programs.len(),
            NodeType::Condition => self.conditions.len(),
            NodeType::Expression => self.expressions.len(),
            NodeType::Sensor => self.sensors.len(),
            NodeType::Command => self.commands.len(),
        }
    }
}

impl<'a> Visitor<'a> for BucketCollector<'a> {
    open spec fn shown(&self) -> Seq<Node> {
        self.shown@
    }

    open spec fn seen(&self, kind: NodeType) -> Seq<Node> {
        self.bucket(kind)
    }

    fn visit_program(&mut self, program: &'a Program) {
        self.programs.push(program);
        self.shown = Ghost(self.shown@.push(Node::Program(*program)));
        assert forall|kind: NodeType| #[trigger]
            self.seen(kind) == old(self).seen(kind) + own(Node::Program(*program), kind) by {
            assert(self.bucket(kind) =~= old(self).bucket(kind) + own(
                Node::Program(*program),
                kind,
            ));
        }
    }

    fn visit_condition(&mut self, condition: &'a Condition) {
        self.conditions.push(condition);
        self.shown = Ghost(self.shown@.push(Node::Condition(*condition)));
        assert forall|kind: NodeType| #[trigger]
            self.seen(kind) == old(self).seen(kind) + own(Node::Condition(*condition), kind) by {
            assert(self.bucket(kind) =~= old(self).bucket(kind) + own(
                Node::Condition(*condition),
                kind,
            ));
        }
    }

    fn visit_command(&mut self, command: &'a Command) {
        self.commands.push(command);
        self.shown = Ghost(self.shown@.push(Node::Command(*command)));
        assert forall|kind: NodeType| #[trigger]
            self.seen(kind) == old(self).seen(kind) + own(Node::Command(*command), kind) by {
            assert(self.bucket(kind) =~= old(self).bucket(kind) + own(
                Node::Command(*command),
                kind,
            ));
        }
    }

    fn visit_expression(&mut self, expression: &'a Expression) {
        self.expressions.push(expression);
        self.shown = Ghost(self.shown@.push(Node::Expression(*expression)));
        assert forall|kind: NodeType| #[trigger]
            self.seen(kind) == old(self).seen(kind) + own(Node::Expression(*expression), kind) by {
            assert(self.bucket(kind) =~= old(self).bucket(kind) + own(
                Node::Expression(*expression),
                kind,
            ));
        }
    }

    fn visit_sensor(&mut self, sensor: &'a Sensor) {
        self.sensors.push(sensor);
        self.shown = Ghost(self.shown@.push(Node::Sensor(*sensor)));
        assert forall|kind: NodeType| #[trigger]
            self.seen(kind) == old(self).seen(kind) + own(Node::Sensor(*sensor), kind) by {
            assert(self.bucket(kind) =~= old(self).bucket(kind) + own(
                Node::Sensor(*sensor),
                kind,
            ));
        }
    }
}

/// The five kinds, in the order in which they are offered for a choice.
pub open spec fn all_kinds() -> Seq<NodeType> {
    seq![
        NodeType::Program,
        NodeType::Condition,
        NodeType::Expression,
        NodeType::Sensor,
        NodeType::Command,
    ]
}

/// The five kinds, in the order in which they are offered for a choice.
pub fn kinds() -> (all: [NodeType; 5])
    ensures
        all@ == all_kinds(),
{
    let all = [
        NodeType::Program,
        NodeType::Condition,
        NodeType::Expression,
        NodeType::Sensor,
        NodeType::Command,
    ];
    assert(all@ =~= all_kinds());
    all
}

/// Collects the nodes of a tree.
pub fn collect<'a, T: Visitable>(tree: &'a T) -> (nodes: BucketCollector<'a>)
    ensures
        nodes.shown() == node_walk(tree.node()),
        forall|kind: NodeType| #[trigger] nodes.seen(kind) == node_nodes(tree.node(), kind),
{
    let mut nodes = BucketCollector::new();
    tree.visit(&mut nodes);
    assert(Seq::<Node>::empty() + node_walk(tree.node()) =~= node_walk(tree.node()));
    assert forall|kind: NodeType| #[trigger] nodes.seen(kind) == node_nodes(tree.node(), kind) by {
        assert(Seq::<Node>::empty() + node_nodes(tree.node(), kind) =~= node_nodes(
            tree.node(),
            kind,
        ));
    }
    nodes
}

/// Whether both collectors hold a node of a kind.
pub open spec fn both_hold(a: BucketCollector, b: BucketCollector) -> spec_fn(NodeType) -> bool {
    |kind: NodeType| a.seen(kind).len() > 0 && b.seen(kind).len() > 0
}

/// The kinds of which both collectors hold a node, in the order of `kinds`.
pub fn shared_kinds(a: &BucketCollector, b: &BucketCollector) -> (shared: Vec<NodeType>)
    ensures
        shared@ == all_kinds().filter(both_hold(*a, *b)),
        forall|kind: NodeType| #[trigger]
            shared@.contains(kind) <==> a.seen(kind).len() > 0 && b.seen(kind).len() > 0,
{
    let all = kinds();
    let mut shared: Vec<NodeType> = Vec::new();
    let mut i: usize = 0;
    while i < 5
        invariant
            i <= 5,
            all@ == all_kinds(),
            shared@ == all_kinds().take(i as int).filter(both_hold(*a, *b)),
        decreases 5 - i,
    {
        let kind = all[i];
        proof {
            reveal_with_fuel(Seq::filter, 2);
            assert(all_kinds().take(i + 1).drop_last() =~= all_kinds().take(i as int));
        }
        if a.count(kind) > 0 && b.count(kind) > 0 {
            shared.push(kind);
        }
        i = i + 1;
    }
    proof {
        assert(all_kinds().take(5) =~= all_kinds());
        broadcast use vstd::seq_lib::group_filter_ensures;

        assert forall|kind: NodeType| #[trigger]
            shared@.contains(kind) <==> a.seen(kind).len() > 0 && b.seen(kind).len() > 0 by {
            if a.seen(kind).len() > 0 && b.seen(kind).len() > 0 {
                let at: int = match kind {
                    NodeType::Program => 0,
                    NodeType::Condition => 1,
                    NodeType::Expression => 2,
                    NodeType::Sensor => 3,
                    NodeType::Command => 4,
                };
                assert(all_kinds()[at] == kind);
            }
            if shared@.contains(kind) {
                let k = choose|k: int| 0 <= k < shared@.len() && shared@[k] == kind;
                assert(both_hold(*a, *b)(shared@[k]));
            }
        }
    }
    shared
}

} // verus!
