//! Rebuilding a tree with one node replaced.
//!
//! The node to replace is named by its kind and by its place among the nodes
//! of that kind in the order of the walk (see `visit`). The rebuilt tree is a
//! new value; the tree it was made from is left as it was.
use vstd::prelude::*;
use crate::structure::{Command, Condition, Expression, Node, NodeType, Program, Sensor};
use crate::visit::{
    command_nodes, condition_nodes, expression_nodes, node_nodes, node_total, program_nodes,
    sensor_nodes, Visitable,
};

verus! {

/// The sensor, or the graft where the sensor is the node counted down to.
pub open spec fn sensor_replaced(sensor: Sensor, at: int, graft: Node) -> Sensor {
    if at == 0 {
        match graft {
            Node::Sensor(other) => other,
            _ => sensor,
        }
    } else {
        sensor
    }
}

/// The command, or the graft where the command is the node counted down to.
pub open spec fn command_replaced(command: Command, at: int, graft: Node) -> Command {
    if at == 0 {
        match graft {
            Node::Command(other) => other,
            _ => command,
        }
    } else {
        command
    }
}

/// What is left of a countdown below a node: one less where the node is of
/// the kind that is counted.
pub open spec fn below(at: int, node: NodeType, graft: Node) -> int {
    if graft.kind() == node {
        at - 1
    } else {
        at
    }
}

/// What is left of a countdown after `count` nodes of the kind that is
/// counted: negative once the node to replace lies behind.
pub open spec fn after(at: int, count: nat) -> int {
    if at >= count {
        at - count
    } else {
        -1
    }
}

/// The expression with the node of the graft's kind at place `at` replaced by
/// the graft. Where there is no such place the expression is unchanged.
pub open spec fn expression_replaced(expression: Expression, at: int, graft: Node) -> Expression
    decreases expression,
{
    let rest = below(at, NodeType::Expression, graft);
    let kind = graft.kind();
    if at < 0 {
        expression
    } else if at == 0 && graft is Expression {
        match graft {
            Node::Expression(other) => other,
            _ => expression,
        }
    } else {
        match expression {
            Expression::Constant(_) => expression,
            Expression::Sensor(sensor) => Expression::Sensor(
                sensor_replaced(sensor, rest, graft),
            ),
            Expression::Plus(left, right) => Expression::Plus(
                Box::new(expression_replaced(*left, rest, graft)),
                Box::new(
                    expression_replaced(*right, after(rest, expression_nodes(*left, kind).len()), graft),
                ),
            ),
            Expression::Minus(left, right) => Expression::Minus(
                Box::new(expression_replaced(*left, rest, graft)),
                Box::new(
                    expression_replaced(*right, after(rest, expression_nodes(*left, kind).len()), graft),
                ),
            ),
            Expression::Multiply(left, right) => Expression::Multiply(
                Box::new(expression_replaced(*left, rest, graft)),
                Box::new(
                    expression_replaced(*right, after(rest, expression_nodes(*left, kind).len()), graft),
                ),
            ),
            Expression::Divide(left, right) => Expression::Divide(
                Box::new(expression_replaced(*left, rest, graft)),
                Box::new(
                    expression_replaced(*right, after(rest, expression_nodes(*left, kind).len()), graft),
                ),
            ),
        }
    }
}

/// The condition with the node of the graft's kind at place `at` replaced by
/// the graft. Where there is no such place the condition is unchanged.
pub open spec fn condition_replaced(condition: Condition, at: int, graft: Node) -> Condition
    decreases condition,
{
    let rest = below(at, NodeType::Condition, graft);
    let kind = graft.kind();
    if at < 0 {
        condition
    } else if at == 0 && graft is Condition {
        match graft {
            Node::Condition(other) => other,
            _ => condition,
        }
    } else {
        match condition {
            Condition::True => condition,
            Condition::False => condition,
            Condition::Not(inner) => Condition::Not(
                Box::new(condition_replaced(*inner, rest, graft)),
            ),
            Condition::Or(left, right) => Condition::Or(
                Box::new(condition_replaced(*left, rest, graft)),
                Box::new(
                    condition_replaced(*right, after(rest, condition_nodes(*left, kind).len()), graft),
                ),
            ),
            Condition::And(left, right) => Condition::And(
                Box::new(condition_replaced(*left, rest, graft)),
                Box::new(
                    condition_replaced(*right, after(rest, condition_nodes(*left, kind).len()), graft),
                ),
            ),
            Condition::Less(left, right) => Condition::Less(
                Box::new(expression_replaced(*left, rest, graft)),
                Box::new(
                    expression_replaced(*right, after(rest, expression_nodes(*left, kind).len()), graft),
                ),
            ),
            Condition::LessEqual(left, right) => Condition::LessEqual(
                Box::new(expression_replaced(*left, rest, graft)),
                Box::new(
                    expression_replaced(*right, after(rest, expression_nodes(*left, kind).len()), graft),
                ),
            ),
            Condition::Equal(left, right) => Condition::Equal(
                Box::new(expression_replaced(*left, rest, graft)),
                Box::new(
                    expression_replaced(*right, after(rest, expression_nodes(*left, kind).len()), graft),
                ),
            ),
            Condition::GreaterEqual(left, right) => Condition::GreaterEqual(
                Box::new(expression_replaced(*left, rest, graft)),
                Box::new(
                    expression_replaced(*right, after(rest, expression_nodes(*left, kind).len()), graft),
                ),
            ),
            Condition::Greater(left, right) => Condition::Greater(
                Box::new(expression_replaced(*left, rest, graft)),
                Box::new(
                    expression_replaced(*right, after(rest, expression_nodes(*left, kind).len()), graft),
                ),
            ),
        }
    }
}

/// The program with the node of the graft's kind at place `at` replaced by
/// the graft. Where there is no such place the program is unchanged.
pub open spec fn program_replaced(program: Program, at: int, graft: Node) -> Program
    decreases program,
{
    let rest = below(at, NodeType::Program, graft);
    let kind = graft.kind();
    if at < 0 {
        program
    } else if at == 0 && graft is Program {
        match graft {
            Node::Program(other) => other,
            _ => program,
        }
    } else {
        match program {
            Program::If(condition, left, right) => Program::If(
                condition_replaced(condition, rest, graft),
                Box::new(
                    program_replaced(
                        *left,
                        after(rest, condition_nodes(condition, kind).len()),
                        graft,
                    ),
                ),
                Box::new(
                    program_replaced(
                        *right,
                        after(
                            after(rest, condition_nodes(condition, kind).len()),
                            program_nodes(*left, kind).len(),
                        ),
                        graft,
                    ),
                ),
            ),
            Program::Command(command) => Program::Command(
                command_replaced(command, rest, graft),
            ),
        }
    }
}

/// A replacement for one node, borrowed from where it stands.
#[derive(Clone, Copy)]
pub enum Graft<'a> {
    Program(&'a Program),
    Condition(&'a Condition),
    Expression(&'a Expression),
    Sensor(&'a Sensor),
    Command(&'a Command),
}

impl<'a> Graft<'a> {
    /// The node that this graft puts in.
    pub open spec fn node(self) -> Node {
        match self {
            Graft::Program(program) => Node::Program(*program),
            Graft::Condition(condition) => Node::Condition(*condition),
            Graft::Expression(expression) => Node::Expression(*expression),
            Graft::Sensor(sensor) => Node::Sensor(*sensor),
            Graft::Command(command) => Node::Command(*command),
        }
    }
}

impl<'a> Graft<'a> {
    /// The kind of the node that this graft puts in.
    pub fn kind(&self) -> (kind: NodeType)
        ensures
            kind == self.node().kind(),
    {
        match self {
            Graft::Program(_) => NodeType::Program,
            Graft::Condition(_) => NodeType::Condition,
            Graft::Expression(_) => NodeType::Expression,
            Graft::Sensor(_) => NodeType::Sensor,
            Graft::Command(_) => NodeType::Command,
        }
    }
}

/// A countdown as a number: how many nodes of the kind are still to pass
/// before the one to replace; negative when there is none to replace.
pub open spec fn countdown(at: Option<usize>) -> int {
    match at {
        Some(k) => k as int,
        None => -1,
    }
}

/// The countdown after `count` nodes of the kind have been passed.
pub open spec fn passed(at: Option<usize>, count: nat) -> Option<usize> {
    match at {
        Some(k) if k >= count => Some((k - count) as usize),
        _ => None,
    }
}

/// The countdown below a node of the given kind.
fn step(at: Option<usize>, node: NodeType, graft: Graft) -> (rest: Option<usize>)
    requires
        !(graft.node().kind() == node && at == Some(0usize)),
    ensures
        countdown(rest) == (if at is Some {
            below(countdown(at), node, graft.node())
        } else {
            -1
        }),
        graft.node().kind() == node ==> rest == passed(at, 1),
        graft.node().kind() != node ==> rest == at,
{
    let counted = match (graft, node) {
        (Graft::Program(_), NodeType::Program) => true,
        (Graft::Condition(_), NodeType::Condition) => true,
        (Graft::Expression(_), NodeType::Expression) => true,
        (Graft::Sensor(_), NodeType::Sensor) => true,
        (Graft::Command(_), NodeType::Command) => true,
        _ => false,
    };
    match at {
        Some(k) if counted => Some(k - 1),
        _ => at,
    }
}

/// Copies a sensor, or puts the graft in its place.
pub fn copy_sensor(sensor: &Sensor, graft: Graft, at: Option<usize>) -> (out: (
    Sensor,
    Option<usize>,
))
    ensures
        out.0 == sensor_replaced(*sensor, countdown(at), graft.node()),
        out.1 == passed(at, sensor_nodes(*sensor, graft.node().kind()).len()),
{
    match (graft, at) {
        (Graft::Sensor(other), Some(0)) => (*other, None),
        (Graft::Sensor(_), Some(k)) => (*sensor, Some(k - 1)),
        _ => (*sensor, at),
    }
}

/// Copies a command, or puts the graft in its place.
pub fn copy_command(command: &Command, graft: Graft, at: Option<usize>) -> (out: (
    Command,
    Option<usize>,
))
    ensures
        out.0 == command_replaced(*command, countdown(at), graft.node()),
        out.1 == passed(at, command_nodes(*command, graft.node().kind()).len()),
{
    match (graft, at) {
        (Graft::Command(other), Some(0)) => (*other, None),
        (Graft::Command(_), Some(k)) => (*command, Some(k - 1)),
        _ => (*command, at),
    }
}

/// Copies an expression node by node; the node counted down to is not copied:
/// the graft is put in its place, as it is. `at` says how many nodes of the
/// graft's kind are to pass before the one to replace, `None` where there is
/// none to replace; what is left of the count comes back with the copy.
pub fn copy_expression(expression: &Expression, graft: Graft, at: Option<usize>) -> (out: (
    Expression,
    Option<usize>,
))
    ensures
        out.0 == expression_replaced(*expression, countdown(at), graft.node()),
        out.1 == passed(at, expression_nodes(*expression, graft.node().kind()).len()),
    decreases *expression,
{
    if let (Graft::Expression(other), Some(0)) = (graft, at) {
        return (other.clone(), None);
    }
    let rest = step(at, NodeType::Expression, graft);
    match expression {
        Expression::Constant(value) => (Expression::Constant(*value), rest),
        Expression::Sensor(sensor) => {
            let (sensor, rest) = copy_sensor(sensor, graft, rest);
            (Expression::Sensor(sensor), rest)
        },
        Expression::Plus(left, right) => {
            let (left, rest) = copy_expression(left, graft, rest);
            let (right, rest) = copy_expression(right, graft, rest);
            (Expression::Plus(Box::new(left), Box::new(right)), rest)
        },
        Expression::Minus(left, right) => {
            let (left, rest) = copy_expression(left, graft, rest);
            let (right, rest) = copy_expression(right, graft, rest);
            (Expression::Minus(Box::new(left), Box::new(right)), rest)
        },
        Expression::Multiply(left, right) => {
            let (left, rest) = copy_expression(left, graft, rest);
            let (right, rest) = copy_expression(right, graft, rest);
            (Expression::Multiply(Box::new(left), Box::new(right)), rest)
        },
        Expression::Divide(left, right) => {
            let (left, rest) = copy_expression(left, graft, rest);
            let (right, rest) = copy_expression(right, graft, rest);
            (Expression::Divide(Box::new(left), Box::new(right)), rest)
        },
    }
}

/// Copies a condition node by node; the node counted down to is not copied:
/// the graft is put in its place, as it is.
pub fn copy_condition(condition: &Condition, graft: Graft, at: Option<usize>) -> (out: (
    Condition,
    Option<usize>,
))
    ensures
        out.0 == condition_replaced(*condition, countdown(at), graft.node()),
        out.1 == passed(at, condition_nodes(*condition, graft.node().kind()).len()),
    decreases *condition,
{
    if let (Graft::Condition(other), Some(0)) = (graft, at) {
        return (other.clone(), None);
    }
    let rest = step(at, NodeType::Condition, graft);
    match condition {
        Condition::True => (Condition::True, rest),
        Condition::False => (Condition::False, rest),
        Condition::Not(inner) => {
            let (inner, rest) = copy_condition(inner, graft, rest);
            (Condition::Not(Box::new(inner)), rest)
        },
        Condition::Or(left, right) => {
            let (left, rest) = copy_condition(left, graft, rest);
            let (right, rest) = copy_condition(right, graft, rest);
            (Condition::Or(Box::new(left), Box::new(right)), rest)
        },
        Condition::And(left, right) => {
            let (left, rest) = copy_condition(left, graft, rest);
            let (right, rest) = copy_condition(right, graft, rest);
            (Condition::And(Box::new(left), Box::new(right)), rest)
        },
        Condition::Less(left, right) => {
            let (left, rest) = copy_expression(left, graft, rest);
            let (right, rest) = copy_expression(right, graft, rest);
            (Condition::Less(Box::new(left), Box::new(right)), rest)
        },
        Condition::LessEqual(left, right) => {
            let (left, rest) = copy_expression(left, graft, rest);
            let (right, rest) = copy_expression(right, graft, rest);
            (Condition::LessEqual(Box::new(left), Box::new(right)), rest)
        },
        Condition::Equal(left, right) => {
            let (left, rest) = copy_expression(left, graft, rest);
            let (right, rest) = copy_expression(right, graft, rest);
            (Condition::Equal(Box::new(left), Box::new(right)), rest)
        },
        Condition::GreaterEqual(left, right) => {
            let (left, rest) = copy_expression(left, graft, rest);
            let (right, rest) = copy_expression(right, graft, rest);
            (Condition::GreaterEqual(Box::new(left), Box::new(right)), rest)
        },
        Condition::Greater(left, right) => {
            let (left, rest) = copy_expression(left, graft, rest);
            let (right, rest) = copy_expression(right, graft, rest);
            (Condition::Greater(Box::new(left), Box::new(right)), rest)
        },
    }
}

/// Copies a program node by node; the node counted down to is not copied: the
/// graft is put in its place, as it is.
pub fn copy_program(program: &Program, graft: Graft, at: Option<usize>) -> (out: (
    Program,
    Option<usize>,
))
    ensures
        out.0 == program_replaced(*program, countdown(at), graft.node()),
        out.1 == passed(at, program_nodes(*program, graft.node().kind()).len()),
    decreases *program,
{
    if let (Graft::Program(other), Some(0)) = (graft, at) {
        return (other.clone(), None);
    }
    let rest = step(at, NodeType::Program, graft);
    match program {
        Program::If(condition, left, right) => {
            let (condition, rest) = copy_condition(condition, graft, rest);
            let (left, rest) = copy_program(left, graft, rest);
            let (right, rest) = copy_program(right, graft, rest);
            (Program::If(condition, Box::new(left), Box::new(right)), rest)
        },
        Program::Command(command) => {
            let (command, rest) = copy_command(command, graft, rest);
            (Program::Command(command), rest)
        },
    }
}

/// What a rebuild replaces, and by what.
pub trait Copier {
    /// The place of the node to replace, among the nodes of the graft's kind.
    spec fn position(&self) -> nat;

    /// The node that is put in.
    spec fn graft(&self) -> Node;

    fn place(&self) -> (at: usize)
        ensures
            at == self.position(),
    ;

    fn replacement(&self) -> (graft: Graft<'_>)
        ensures
            graft.node() == self.graft(),
    ;
}

/// Replaces the node of the graft's kind at place `to_replace` by the graft.
pub struct CopyReplace<'a> {
    pub to_replace: usize,
    pub replace_with: Graft<'a>,
}

impl<'a> Copier for CopyReplace<'a> {
    open spec fn position(&self) -> nat {
        self.to_replace as nat
    }

    open spec fn graft(&self) -> Node {
        self.replace_with.node()
    }

    fn place(&self) -> (at: usize) {
        self.to_replace
    }

    fn replacement(&self) -> (graft: Graft<'_>) {
        self.replace_with
    }
}

/// Replaces the program at place `to_replace` by `replace_with`.
pub struct CopyReplaceProgram<'a> {
    pub to_replace: usize,
    pub replace_with: &'a Program,
}

impl<'a> Copier for CopyReplaceProgram<'a> {
    open spec fn position(&self) -> nat {
        self.to_replace as nat
    }

    open spec fn graft(&self) -> Node {
        Node::Program(*self.replace_with)
    }

    fn place(&self) -> (at: usize) {
        self.to_replace
    }

    fn replacement(&self) -> (graft: Graft<'_>) {
        Graft::Program(self.replace_with)
    }
}

/// Replaces the condition at place `to_replace` by `replace_with`.
pub struct CopyReplaceCondition<'a> {
    pub to_replace: usize,
    pub replace_with: &'a Condition,
}

impl<'a> Copier for CopyReplaceCondition<'a> {
    open spec fn position(&self) -> nat {
        self.to_replace as nat
    }

    open spec fn graft(&self) -> Node {
        Node::Condition(*self.replace_with)
    }

    fn place(&self) -> (at: usize) {
        self.to_replace
    }

    fn replacement(&self) -> (graft: Graft<'_>) {
        Graft::Condition(self.replace_with)
    }
}

/// Replaces the command at place `to_replace` by `replace_with`.
pub struct CopyReplaceCommand<'a> {
    pub to_replace: usize,
    pub replace_with: &'a Command,
}

impl<'a> Copier for CopyReplaceCommand<'a> {
    open spec fn position(&self) -> nat {
        self.to_replace as nat
    }

    open spec fn graft(&self) -> Node {
        Node::Command(*self.replace_with)
    }

    fn place(&self) -> (at: usize) {
        self.to_replace
    }

    fn replacement(&self) -> (graft: Graft<'_>) {
        Graft::Command(self.replace_with)
    }
}

/// Replaces the expression at place `to_replace` by `replace_with`.
pub struct CopyReplaceExpression<'a> {
    pub to_replace: usize,
    pub replace_with: &'a Expression,
}

impl<'a> Copier for CopyReplaceExpression<'a> {
    open spec fn position(&self) -> nat {
        self.to_replace as nat
    }

    open spec fn graft(&self) -> Node {
        Node::Expression(*self.replace_with)
    }

    fn place(&self) -> (at: usize) {
        self.to_replace
    }

    fn replacement(&self) -> (graft: Graft<'_>) {
        Graft::Expression(self.replace_with)
    }
}

/// Replaces the sensor at place `to_replace` by `replace_with`.
pub struct CopyReplaceSensor<'a> {
    pub to_replace: usize,
    pub replace_with: &'a Sensor,
}

impl<'a> Copier for CopyReplaceSensor<'a> {
    open spec fn position(&self) -> nat {
        self.to_replace as nat
    }

    open spec fn graft(&self) -> Node {
        Node::Sensor(*self.replace_with)
    }

    fn place(&self) -> (at: usize) {
        self.to_replace
    }

    fn replacement(&self) -> (graft: Graft<'_>) {
        Graft::Sensor(self.replace_with)
    }
}

/// Every node listed under a kind is of that kind.
pub proof fn expression_nodes_kind(expression: Expression, kind: NodeType, i: int)
    requires
        0 <= i < expression_nodes(expression, kind).len(),
    ensures
        expression_nodes(expression, kind)[i].kind() == kind,
    decreases expression,
{
    let first: int = if kind == NodeType::Expression {
        1
    } else {
        0
    };
    if i >= first {
        match expression {
            Expression::Constant(_) => {},
            Expression::Sensor(_) => {},
            Expression::Plus(left, right)
            | Expression::Minus(left, right)
            | Expression::Multiply(left, right)
            | Expression::Divide(left, right) => {
                let l = expression_nodes(*left, kind);
                if i - first < l.len() {
                    expression_nodes_kind(*left, kind, i - first);
                } else {
                    expression_nodes_kind(*right, kind, i - first - l.len());
                }
            },
        }
    }
}

/// A countdown that runs past the last node of the kind, or that has ended,
/// changes nothing.
pub proof fn expression_replaced_beyond(expression: Expression, at: int, graft: Node)
    requires
        at < 0 || at >= expression_nodes(expression, graft.kind()).len(),
    ensures
        expression_replaced(expression, at, graft) == expression,
    decreases expression,
{
    let kind = graft.kind();
    let rest = below(at, NodeType::Expression, graft);
    if at >= 0 {
        match expression {
            Expression::Constant(_) => {},
            Expression::Sensor(_) => {},
            Expression::Plus(left, right)
            | Expression::Minus(left, right)
            | Expression::Multiply(left, right)
            | Expression::Divide(left, right) => {
                expression_replaced_beyond(*left, rest, graft);
                expression_replaced_beyond(
                    *right,
                    after(rest, expression_nodes(*left, kind).len()),
                    graft,
                );
            },
        }
    }
}

/// Replacing a node by itself gives the tree back.
pub proof fn expression_replaced_by_itself(expression: Expression, kind: NodeType, i: int)
    requires
        0 <= i < expression_nodes(expression, kind).len(),
    ensures
        expression_replaced(expression, i, expression_nodes(expression, kind)[i]) == expression,
    decreases expression,
{
    let graft = expression_nodes(expression, kind)[i];
    expression_nodes_kind(expression, kind, i);
    let rest = below(i, NodeType::Expression, graft);
    if !(i == 0 && kind == NodeType::Expression) {
        match expression {
            Expression::Constant(_) => {},
            Expression::Sensor(_) => {},
            Expression::Plus(left, right)
            | Expression::Minus(left, right)
            | Expression::Multiply(left, right)
            | Expression::Divide(left, right) => {
                let l = expression_nodes(*left, kind);
                if rest < l.len() {
                    expression_replaced_by_itself(*left, kind, rest);
                    expression_replaced_beyond(*right, after(rest, l.len()), graft);
                } else {
                    expression_replaced_beyond(*left, rest, graft);
                    expression_replaced_by_itself(*right, kind, rest - l.len());
                }
            },
        }
    }
}

/// Replacing a node takes the nodes of its subtree out of the tree and puts
/// those of the graft in, kind by kind.
pub proof fn expression_replaced_count(expression: Expression, at: int, graft: Node, kind: NodeType)
    requires
        0 <= at < expression_nodes(expression, graft.kind()).len(),
    ensures
        expression_nodes(expression_replaced(expression, at, graft), kind).len()
            == expression_nodes(expression, kind).len() - node_nodes(
            expression_nodes(expression, graft.kind())[at],
            kind,
        ).len() + node_nodes(graft, kind).len(),
    decreases expression,
{
    let counted = graft.kind();
    let rest = below(at, NodeType::Expression, graft);
    if !(at == 0 && counted == NodeType::Expression) {
        match expression {
            Expression::Constant(_) => {},
            Expression::Sensor(_) => {},
            Expression::Plus(left, right)
            | Expression::Minus(left, right)
            | Expression::Multiply(left, right)
            | Expression::Divide(left, right) => {
                let l = expression_nodes(*left, counted);
                if rest < l.len() {
                    expression_replaced_count(*left, rest, graft, kind);
                    expression_replaced_beyond(*right, after(rest, l.len()), graft);
                } else {
                    expression_replaced_beyond(*left, rest, graft);
                    expression_replaced_count(*right, rest - l.len(), graft, kind);
                }
            },
        }
    }
}

/// Every node listed under a kind is of that kind.
pub proof fn condition_nodes_kind(condition: Condition, kind: NodeType, i: int)
    requires
        0 <= i < condition_nodes(condition, kind).len(),
    ensures
        condition_nodes(condition, kind)[i].kind() == kind,
    decreases condition,
{
    let first: int = if kind == NodeType::Condition {
        1
    } else {
        0
    };
    if i >= first {
        match condition {
            Condition::True | Condition::False => {},
            Condition::Not(inner) => {
                condition_nodes_kind(*inner, kind, i - first);
            },
            Condition::Or(left, right) | Condition::And(left, right) => {
                let l = condition_nodes(*left, kind);
                if i - first < l.len() {
                    condition_nodes_kind(*left, kind, i - first);
                } else {
                    condition_nodes_kind(*right, kind, i - first - l.len());
                }
            },
            Condition::Less(left, right)
            | Condition::LessEqual(left, right)
            | Condition::Equal(left, right)
            | Condition::GreaterEqual(left, right)
            | Condition::Greater(left, right) => {
                let l = expression_nodes(*left, kind);
                if i - first < l.len() {
                    expression_nodes_kind(*left, kind, i - first);
                } else {
                    expression_nodes_kind(*right, kind, i - first - l.len());
                }
            },
        }
    }
}

/// Every node listed under a kind is of that kind.
pub proof fn program_nodes_kind(program: Program, kind: NodeType, i: int)
    requires
        0 <= i < program_nodes(program, kind).len(),
    ensures
        program_nodes(program, kind)[i].kind() == kind,
    decreases program,
{
    let first: int = if kind == NodeType::Program {
        1
    } else {
        0
    };
    if i >= first {
        match program {
            Program::If(condition, left, right) => {
                let c = condition_nodes(condition, kind);
                let l = program_nodes(*left, kind);
                if i - first < c.len() {
                    condition_nodes_kind(condition, kind, i - first);
                } else if i - first - c.len() < l.len() {
                    program_nodes_kind(*left, kind, i - first - c.len());
                } else {
                    program_nodes_kind(*right, kind, i - first - c.len() - l.len());
                }
            },
            Program::Command(_) => {},
        }
    }
}

/// A countdown that runs past the last node of the kind, or that has ended,
/// changes nothing.
pub proof fn condition_replaced_beyond(condition: Condition, at: int, graft: Node)
    requires
        at < 0 || at >= condition_nodes(condition, graft.kind()).len(),
    ensures
        condition_replaced(condition, at, graft) == condition,
    decreases condition,
{
    let kind = graft.kind();
    let rest = below(at, NodeType::Condition, graft);
    if at >= 0 {
        match condition {
            Condition::True | Condition::False => {},
            Condition::Not(inner) => {
                condition_replaced_beyond(*inner, rest, graft);
            },
            Condition::Or(left, right) | Condition::And(left, right) => {
                condition_replaced_beyond(*left, rest, graft);
                condition_replaced_beyond(
                    *right,
                    after(rest, condition_nodes(*left, kind).len()),
                    graft,
                );
            },
            Condition::Less(left, right)
            | Condition::LessEqual(left, right)
            | Condition::Equal(left, right)
            | Condition::GreaterEqual(left, right)
            | Condition::Greater(left, right) => {
                expression_replaced_beyond(*left, rest, graft);
                expression_replaced_beyond(
                    *right,
                    after(rest, expression_nodes(*left, kind).len()),
                    graft,
                );
            },
        }
    }
}

/// A countdown that runs past the last node of the kind, or that has ended,
/// changes nothing.
pub proof fn program_replaced_beyond(program: Program, at: int, graft: Node)
    requires
        at < 0 || at >= program_nodes(program, graft.kind()).len(),
    ensures
        program_replaced(program, at, graft) == program,
    decreases program,
{
    let kind = graft.kind();
    let rest = below(at, NodeType::Program, graft);
    if at >= 0 {
        match program {
            Program::If(condition, left, right) => {
                let c = condition_nodes(condition, kind).len();
                let l = program_nodes(*left, kind).len();
                condition_replaced_beyond(condition, rest, graft);
                program_replaced_beyond(*left, after(rest, c), graft);
                program_replaced_beyond(*right, after(after(rest, c), l), graft);
            },
            Program::Command(_) => {},
        }
    }
}

/// Replacing a node by itself gives the tree back.
#[verifier::rlimit(40)]
#[verifier::spinoff_prover]
pub proof fn condition_replaced_by_itself(condition: Condition, kind: NodeType, i: int)
    requires
        0 <= i < condition_nodes(condition, kind).len(),
    ensures
        condition_replaced(condition, i, condition_nodes(condition, kind)[i]) == condition,
    decreases condition,
{
    let graft = condition_nodes(condition, kind)[i];
    condition_nodes_kind(condition, kind, i);
    let rest = below(i, NodeType::Condition, graft);
    if !(i == 0 && kind == NodeType::Condition) {
        match condition {
            Condition::True | Condition::False => {},
            Condition::Not(inner) => {
                condition_replaced_by_itself(*inner, kind, rest);
            },
            Condition::Or(left, right) | Condition::And(left, right) => {
                let l = condition_nodes(*left, kind);
                if rest < l.len() {
                    condition_replaced_by_itself(*left, kind, rest);
                    condition_replaced_beyond(*right, after(rest, l.len()), graft);
                } else {
                    condition_replaced_beyond(*left, rest, graft);
                    condition_replaced_by_itself(*right, kind, rest - l.len());
                }
            },
            Condition::Less(left, right)
            | Condition::LessEqual(left, right)
            | Condition::Equal(left, right)
            | Condition::GreaterEqual(left, right)
            | Condition::Greater(left, right) => {
                let l = expression_nodes(*left, kind);
                if rest < l.len() {
                    expression_replaced_by_itself(*left, kind, rest);
                    expression_replaced_beyond(*right, after(rest, l.len()), graft);
                } else {
                    expression_replaced_beyond(*left, rest, graft);
                    expression_replaced_by_itself(*right, kind, rest - l.len());
                }
            },
        }
    }
}

/// Replacing a node by itself gives the tree back.
pub proof fn program_replaced_by_itself(program: Program, kind: NodeType, i: int)
    requires
        0 <= i < program_nodes(program, kind).len(),
    ensures
        program_replaced(program, i, program_nodes(program, kind)[i]) == program,
    decreases program,
{
    let graft = program_nodes(program, kind)[i];
    program_nodes_kind(program, kind, i);
    let rest = below(i, NodeType::Program, graft);
    if !(i == 0 && kind == NodeType::Program) {
        match program {
            Program::If(condition, left, right) => {
                let c = condition_nodes(condition, kind).len();
                let l = program_nodes(*left, kind).len();
                if rest < c {
                    condition_replaced_by_itself(condition, kind, rest);
                    program_replaced_beyond(*left, after(rest, c), graft);
                    program_replaced_beyond(*right, after(after(rest, c), l), graft);
                } else if rest - c < l {
                    condition_replaced_beyond(condition, rest, graft);
                    program_replaced_by_itself(*left, kind, rest - c);
                    program_replaced_beyond(*right, after(after(rest, c), l), graft);
                } else {
                    condition_replaced_beyond(condition, rest, graft);
                    program_replaced_beyond(*left, after(rest, c), graft);
                    program_replaced_by_itself(*right, kind, rest - c - l);
                }
            },
            Program::Command(_) => {},
        }
    }
}

/// Replacing a node takes the nodes of its subtree out of the tree and puts
/// those of the graft in, kind by kind.
#[verifier::rlimit(40)]
#[verifier::spinoff_prover]
pub proof fn condition_replaced_count(condition: Condition, at: int, graft: Node, kind: NodeType)
    requires
        0 <= at < condition_nodes(condition, graft.kind()).len(),
    ensures
        condition_nodes(condition_replaced(condition, at, graft), kind).len()
            == condition_nodes(condition, kind).len() - node_nodes(
            condition_nodes(condition, graft.kind())[at],
            kind,
        ).len() + node_nodes(graft, kind).len(),
    decreases condition,
{
    let counted = graft.kind();
    let rest = below(at, NodeType::Condition, graft);
    if !(at == 0 && counted == NodeType::Condition) {
        match condition {
            Condition::True | Condition::False => {},
            Condition::Not(inner) => {
                condition_replaced_count(*inner, rest, graft, kind);
            },
            Condition::Or(left, right) | Condition::And(left, right) => {
                let l = condition_nodes(*left, counted);
                if rest < l.len() {
                    condition_replaced_count(*left, rest, graft, kind);
                    condition_replaced_beyond(*right, after(rest, l.len()), graft);
                } else {
                    condition_replaced_beyond(*left, rest, graft);
                    condition_replaced_count(*right, rest - l.len(), graft, kind);
                }
            },
            Condition::Less(left, right)
            | Condition::LessEqual(left, right)
            | Condition::Equal(left, right)
            | Condition::GreaterEqual(left, right)
            | Condition::Greater(left, right) => {
                let l = expression_nodes(*left, counted);
                if rest < l.len() {
                    expression_replaced_count(*left, rest, graft, kind);
                    expression_replaced_beyond(*right, after(rest, l.len()), graft);
                } else {
                    expression_replaced_beyond(*left, rest, graft);
                    expression_replaced_count(*right, rest - l.len(), graft, kind);
                }
            },
        }
    }
}

/// Replacing a node takes the nodes of its subtree out of the tree and puts
/// those of the graft in, kind by kind.
pub proof fn program_replaced_count(program: Program, at: int, graft: Node, kind: NodeType)
    requires
        0 <= at < program_nodes(program, graft.kind()).len(),
    ensures
        program_nodes(program_replaced(program, at, graft), kind).len() == program_nodes(
            program,
            kind,
        ).len() - node_nodes(program_nodes(program, graft.kind())[at], kind).len() + node_nodes(
            graft,
            kind,
        ).len(),
    decreases program,
{
    let counted = graft.kind();
    let rest = below(at, NodeType::Program, graft);
    if !(at == 0 && counted == NodeType::Program) {
        match program {
            Program::If(condition, left, right) => {
                let c = condition_nodes(condition, counted).len();
                let l = program_nodes(*left, counted).len();
                if rest < c {
                    condition_replaced_count(condition, rest, graft, kind);
                    program_replaced_beyond(*left, after(rest, c), graft);
                    program_replaced_beyond(*right, after(after(rest, c), l), graft);
                } else if rest - c < l {
                    condition_replaced_beyond(condition, rest, graft);
                    program_replaced_count(*left, rest - c, graft, kind);
                    program_replaced_beyond(*right, after(after(rest, c), l), graft);
                } else {
                    condition_replaced_beyond(condition, rest, graft);
                    program_replaced_beyond(*left, after(rest, c), graft);
                    program_replaced_count(*right, rest - c - l, graft, kind);
                }
            },
            Program::Command(_) => {},
        }
    }
}

/// A tree that can be rebuilt with one node replaced.
pub trait Copyable: Visitable + Sized {
    /// This tree with the node of the graft's kind at place `at` replaced by
    /// the graft; this tree itself where it has no such place.
    spec fn replaced(&self, at: int, graft: Node) -> Self;

    /// A new tree, equal to this one but for the node that the copier names.
    fn copy<C: Copier>(&self, copier: &C) -> (copy: Self)
        ensures
            copy == self.replaced(copier.position() as int, copier.graft()),
    ;

    /// Two trees of one type are nodes of one kind.
    proof fn same_kind(&self, other: &Self)
        ensures
            self.node().kind() == other.node().kind(),
    ;

    /// Every node listed under a kind is of that kind.
    proof fn listed_kind(&self, kind: NodeType, i: int)
        requires
            0 <= i < node_nodes(self.node(), kind).len(),
        ensures
            node_nodes(self.node(), kind)[i].kind() == kind,
    ;

    /// Replacing a node by itself gives the tree back.
    proof fn replaced_by_itself(&self, kind: NodeType, i: int)
        requires
            0 <= i < node_nodes(self.node(), kind).len(),
        ensures
            self.replaced(i, node_nodes(self.node(), kind)[i]) == *self,
    ;

    /// Replacing a node takes the nodes of its subtree out of the tree and
    /// puts those of the graft in, kind by kind.
    proof fn replaced_count(&self, at: int, graft: Node, kind: NodeType)
        requires
            0 <= at < node_nodes(self.node(), graft.kind()).len(),
        ensures
            node_nodes(self.replaced(at, graft).node(), kind).len() == node_nodes(
                self.node(),
                kind,
            ).len() - node_nodes(node_nodes(self.node(), graft.kind())[at], kind).len()
                + node_nodes(graft, kind).len(),
    ;
}

impl Copyable for Program {
    open spec fn replaced(&self, at: int, graft: Node) -> Self {
        program_replaced(*self, at, graft)
    }

    fn copy<C: Copier>(&self, copier: &C) -> (copy: Self) {
        copy_program(self, copier.replacement(), Some(copier.place())).0
    }

    proof fn same_kind(&self, other: &Self) {
    }

    proof fn listed_kind(&self, kind: NodeType, i: int) {
        program_nodes_kind(*self, kind, i);
    }

    proof fn replaced_by_itself(&self, kind: NodeType, i: int) {
        program_replaced_by_itself(*self, kind, i);
    }

    proof fn replaced_count(&self, at: int, graft: Node, kind: NodeType) {
        program_replaced_count(*self, at, graft, kind);
    }
}

impl Copyable for Condition {
    open spec fn replaced(&self, at: int, graft: Node) -> Self {
        condition_replaced(*self, at, graft)
    }

    fn copy<C: Copier>(&self, copier: &C) -> (copy: Self) {
        copy_condition(self, copier.replacement(), Some(copier.place())).0
    }

    proof fn same_kind(&self, other: &Self) {
    }

    proof fn listed_kind(&self, kind: NodeType, i: int) {
        condition_nodes_kind(*self, kind, i);
    }

    proof fn replaced_by_itself(&self, kind: NodeType, i: int) {
        condition_replaced_by_itself(*self, kind, i);
    }

    proof fn replaced_count(&self, at: int, graft: Node, kind: NodeType) {
        condition_replaced_count(*self, at, graft, kind);
    }
}

impl Copyable for Expression {
    open spec fn replaced(&self, at: int, graft: Node) -> Self {
        expression_replaced(*self, at, graft)
    }

    fn copy<C: Copier>(&self, copier: &C) -> (copy: Self) {
        copy_expression(self, copier.replacement(), Some(copier.place())).0
    }

    proof fn same_kind(&self, other: &Self) {
    }

    proof fn listed_kind(&self, kind: NodeType, i: int) {
        expression_nodes_kind(*self, kind, i);
    }

    proof fn replaced_by_itself(&self, kind: NodeType, i: int) {
        expression_replaced_by_itself(*self, kind, i);
    }

    proof fn replaced_count(&self, at: int, graft: Node, kind: NodeType) {
        expression_replaced_count(*self, at, graft, kind);
    }
}

impl Copyable for Sensor {
    open spec fn replaced(&self, at: int, graft: Node) -> Self {
        sensor_replaced(*self, at, graft)
    }

    fn copy<C: Copier>(&self, copier: &C) -> (copy: Self) {
        copy_sensor(self, copier.replacement(), Some(copier.place())).0
    }

    proof fn same_kind(&self, other: &Self) {
    }

    proof fn listed_kind(&self, kind: NodeType, i: int) {
    }

    proof fn replaced_by_itself(&self, kind: NodeType, i: int) {
    }

    proof fn replaced_count(&self, at: int, graft: Node, kind: NodeType) {
    }
}

impl Copyable for Command {
    open spec fn replaced(&self, at: int, graft: Node) -> Self {
        command_replaced(*self, at, graft)
    }

    fn copy<C: Copier>(&self, copier: &C) -> (copy: Self) {
        copy_command(self, copier.replacement(), Some(copier.place())).0
    }

    proof fn same_kind(&self, other: &Self) {
    }

    proof fn listed_kind(&self, kind: NodeType, i: int) {
    }

    proof fn replaced_by_itself(&self, kind: NodeType, i: int) {
    }

    proof fn replaced_count(&self, at: int, graft: Node, kind: NodeType) {
    }
}

/// The number of nodes of a tree, of all kinds together.
pub open spec fn total<T: Visitable>(tree: T) -> nat {
    node_total(tree.node())
}

/// Swapping a node of one tree with a node of the same kind of another
/// neither makes nor loses a node: the two new trees together have as many
/// nodes as the two old ones.
pub proof fn swap_conserves_nodes<T: Copyable>(a: T, b: T, kind: NodeType, i: int, j: int)
    requires
        0 <= i < node_nodes(a.node(), kind).len(),
        0 <= j < node_nodes(b.node(), kind).len(),
    ensures
        total(a.replaced(i, node_nodes(b.node(), kind)[j])) + total(
            b.replaced(j, node_nodes(a.node(), kind)[i]),
        ) == total(a) + total(b),
{
    let from_a = node_nodes(a.node(), kind)[i];
    let from_b = node_nodes(b.node(), kind)[j];
    a.listed_kind(kind, i);
    b.listed_kind(kind, j);
    a.replaced_count(i, from_b, NodeType::Program);
    a.replaced_count(i, from_b, NodeType::Condition);
    a.replaced_count(i, from_b, NodeType::Expression);
    a.replaced_count(i, from_b, NodeType::Sensor);
    a.replaced_count(i, from_b, NodeType::Command);
    b.replaced_count(j, from_a, NodeType::Program);
    b.replaced_count(j, from_a, NodeType::Condition);
    b.replaced_count(j, from_a, NodeType::Expression);
    b.replaced_count(j, from_a, NodeType::Sensor);
    b.replaced_count(j, from_a, NodeType::Command);
}

} // verus!
