//! A population of trees, its scores, and the step from one generation to
//! the next.
use vstd::prelude::*;
use crate::copy::Copyable;
use crate::darwin::crossover::{cross_over, crossed, crossing};
use crate::darwin::mutation::{mutate, mutated};
use crate::depth::Depth;
use crate::num::{applies, first_best, partial_max, single_valued, Arithmetic, Operator};
use crate::pick::{pick, total_weight, weight_before};
use crate::random::{Random, CEILING};
use crate::serialize::GameTrace;
use crate::simplify::Simplify;
use crate::structure::{NodeType, Number};
use crate::visit::node_nodes;

verus! {

/// The parts of a score, each under its label.
pub type Scores = Vec<(&'static str, Number)>;

/// `total` is what the arithmetic can give when the values are added to
/// `start` one after the other, first to last.
pub open spec fn sums<A: Arithmetic>(
    arithmetic: &A,
    scores: Seq<(&'static str, Number)>,
    start: Number,
    total: Number,
) -> bool
    decreases scores.len(),
{
    if scores.len() == 0 {
        total == start
    } else {
        exists|before: Number| #[trigger]
            applies(arithmetic, Operator::Plus, before, scores.last().1, total) && sums(
                arithmetic,
                scores.drop_last(),
                start,
                before,
            )
    }
}

/// Adding up a list from zero, and a second list on from the total of the
/// first, is a way of adding up the two lists joined.
pub proof fn sums_join<A: Arithmetic>(
    arithmetic: &A,
    first: Seq<(&'static str, Number)>,
    more: Seq<(&'static str, Number)>,
    start: Number,
    middle: Number,
    total: Number,
)
    requires
        sums(arithmetic, first, start, middle),
        sums(arithmetic, more, middle, total),
    ensures
        sums(arithmetic, first + more, start, total),
    decreases more.len(),
{
    if more.len() == 0 {
        assert(first + more =~= first);
    } else {
        let before = choose|before: Number| #[trigger]
            applies(arithmetic, Operator::Plus, before, more.last().1, total) && sums(
                arithmetic,
                more.drop_last(),
                middle,
                before,
            );
        sums_join(arithmetic, first, more.drop_last(), start, middle, before);
        assert((first + more).drop_last() =~= first + more.drop_last());
        assert((first + more).last() == more.last());
    }
}

/// A score in parts, with its total and the trace of the flight that earned
/// it. A card is never changed: adding parts makes a new card.
pub struct ScoreCard {
    scores: Scores,
    total: Number,
    trace: GameTrace,
}

/// Adds the values to `start`, first to last.
fn sum_from<A: Arithmetic>(scores: &Scores, start: Number, arithmetic: &A) -> (total: Number)
    ensures
        sums(arithmetic, scores@, start, total),
{
    let mut total = start;
    let mut i: usize = 0;
    while i < scores.len()
        invariant
            i <= scores.len(),
            sums(arithmetic, scores@.take(i as int), start, total),
        decreases scores.len() - i,
    {
        let before = total;
        total = arithmetic.apply(Operator::Plus, before, scores[i].1);
        proof {
            let now = scores@.take(i + 1);
            assert(now.drop_last() =~= scores@.take(i as int));
            assert(applies(arithmetic, Operator::Plus, before, now.last().1, total));
        }
        i = i + 1;
    }
    assert(scores@.take(i as int) =~= scores@);
    total
}

impl ScoreCard {
    /// The parts of the score.
    pub closed spec fn parts(&self) -> Seq<(&'static str, Number)> {
        self.scores@
    }

    /// The total of the score.
    pub closed spec fn total(&self) -> Number {
        self.total
    }

    /// The trace of the flight.
    pub closed spec fn flight(&self) -> Seq<crate::data::SensorData> {
        self.trace@
    }

    /// The total is the sum of the parts, added up from zero under the given
    /// arithmetic.
    pub open spec fn adds_up<A: Arithmetic>(&self, arithmetic: &A) -> bool {
        sums(arithmetic, self.parts(), Number { bits: 0 }, self.total())
    }

    /// A card of the given parts.
    pub fn new<A: Arithmetic>(scores: Scores, trace: GameTrace, arithmetic: &A) -> (card: ScoreCard)
        ensures
            card.parts() == scores@,
            card.flight() == trace@,
            card.adds_up(arithmetic),
    {
        let total = sum_from(&scores, Number::zero(), arithmetic);
        ScoreCard { scores, total, trace }
    }

    /// A card of the parts of this one and the given ones after them, with
    /// the trace of this one. Its total is the total of this card with the
    /// new values added on, first to last; so it is again the sum of all its
    /// parts where the total of this card is.
    pub fn add<A: Arithmetic>(self, scores: Scores, arithmetic: &A) -> (card: ScoreCard)
        ensures
            card.parts() == self.parts() + scores@,
            card.flight() == self.flight(),
            sums(arithmetic, scores@, self.total(), card.total()),
            self.adds_up(arithmetic) ==> card.adds_up(arithmetic),
    {
        let total = sum_from(&scores, self.total, arithmetic);
        let mut xs = self.scores;
        let mut i: usize = 0;
        while i < scores.len()
            invariant
                i <= scores.len(),
                xs@ == self.scores@ + scores@.take(i as int),
            decreases scores.len() - i,
        {
            xs.push(scores[i]);
            assert(scores@.take(i + 1) =~= scores@.take(i as int).push(scores@[i as int]));
            i = i + 1;
        }
        proof {
            assert(scores@.take(i as int) =~= scores@);
            if self.adds_up(arithmetic) {
                sums_join(
                    arithmetic,
                    self.scores@,
                    scores@,
                    Number { bits: 0 },
                    self.total,
                    total,
                );
            }
        }
        ScoreCard { scores: xs, total, trace: self.trace }
    }

    /// The parts of the score.
    pub fn scores(&self) -> (scores: &Scores)
        ensures
            scores@ == self.parts(),
    {
        &self.scores
    }

    /// The total, by which two cards are compared.
    pub fn total_score(&self) -> (total: Number)
        ensures
            total == self.total(),
    {
        self.total
    }

    /// The trace of the flight.
    pub fn trace(&self) -> (trace: &GameTrace)
        ensures
            trace@ == self.flight(),
    {
        &self.trace
    }
}

impl Clone for ScoreCard {
    fn clone(&self) -> (copy: Self)
        ensures
            copy.parts() == self.parts(),
            copy.total() == self.total(),
            copy.flight() == self.flight(),
    {
        let mut scores: Scores = Vec::with_capacity(self.scores.len());
        let mut i: usize = 0;
        while i < self.scores.len()
            invariant
                i <= self.scores.len(),
                scores@ == self.scores@.take(i as int),
            decreases self.scores.len() - i,
        {
            scores.push(self.scores[i]);
            assert(self.scores@.take(i + 1) =~= self.scores@.take(i as int).push(
                self.scores@[i as int],
            ));
            i = i + 1;
        }
        assert(self.scores@.take(i as int) =~= self.scores@);
        ScoreCard { scores, total: self.total, trace: self.trace.clone() }
    }
}

/// Where the arithmetic gives one result only for every operation, a list
/// has one sum.
pub proof fn sums_once<A: Arithmetic>(
    arithmetic: &A,
    scores: Seq<(&'static str, Number)>,
    start: Number,
    one: Number,
    other: Number,
)
    requires
        single_valued(arithmetic),
        sums(arithmetic, scores, start, one),
        sums(arithmetic, scores, start, other),
    ensures
        one == other,
    decreases scores.len(),
{
    if scores.len() > 0 {
        let a = choose|before: Number| #[trigger]
            applies(arithmetic, Operator::Plus, before, scores.last().1, one) && sums(
                arithmetic,
                scores.drop_last(),
                start,
                before,
            );
        let b = choose|before: Number| #[trigger]
            applies(arithmetic, Operator::Plus, before, scores.last().1, other) && sums(
                arithmetic,
                scores.drop_last(),
                start,
                before,
            );
        sums_once(arithmetic, scores.drop_last(), start, a, b);
    }
}

/// The total of a card that parts were added to is the total of the card
/// with the new parts added on, where the arithmetic gives one result only
/// for every operation.
pub proof fn added_total<A: Arithmetic>(
    arithmetic: &A,
    card: ScoreCard,
    more: Seq<(&'static str, Number)>,
    added: ScoreCard,
    total: Number,
)
    requires
        single_valued(arithmetic),
        card.adds_up(arithmetic),
        added.adds_up(arithmetic),
        added.parts() == card.parts() + more,
        sums(arithmetic, more, card.total(), total),
    ensures
        added.total() == total,
{
    sums_join(arithmetic, card.parts(), more, Number { bits: 0 }, card.total(), total);
    sums_once(arithmetic, added.parts(), Number { bits: 0 }, added.total(), total);
}

/// A tree with its score.
pub struct CreatureScore<P> {
    pub program: P,
    pub score: ScoreCard,
}

impl<P> CreatureScore<P> {
    pub fn new(program: P, score: ScoreCard) -> (creature: CreatureScore<P>)
        ensures
            creature.program == program,
            creature.score == score,
    {
        CreatureScore { program, score }
    }
}

/// Keeps the best tree seen so far, simplified, with its score and the
/// generation in which it was seen.
pub struct OptimumKeeper<P> {
    best_program: Option<P>,
    best_score: Option<ScoreCard>,
    best_generation: u32,
}

impl<P> OptimumKeeper<P> {
    /// A tree is kept with its score, and a score with its tree.
    #[verifier::type_invariant]
    spec fn paired(&self) -> bool {
        self.best_program is Some <==> self.best_score is Some
    }
}

impl<P: Simplify + Clone> OptimumKeeper<P> {
    /// The best tree so far, if there is one.
    pub closed spec fn program(&self) -> Option<P> {
        self.best_program
    }

    /// The score of the best tree so far, if there is one.
    pub closed spec fn score(&self) -> Option<ScoreCard> {
        self.best_score
    }

    /// The generation of the best tree so far; zero while there is none.
    pub closed spec fn generation(&self) -> u32 {
        self.best_generation
    }

    /// A keeper that has seen nothing.
    pub fn new() -> (keeper: OptimumKeeper<P>)
        ensures
            keeper.program() is None,
            keeper.score() is None,
            keeper.generation() == 0,
    {
        OptimumKeeper { best_program: None, best_score: None, best_generation: 0 }
    }

    /// Whether the score is an improvement on the one kept: there is none
    /// kept yet, or the total is greater than the total kept. A comparison
    /// with NaN on either side is no improvement.
    pub open spec fn improves(&self, score: &ScoreCard) -> bool {
        match self.score() {
            None => true,
            Some(best) => best.total().less(score.total()),
        }
    }

    /// Offers a tree with its score. Where the score improves on the one
    /// kept, the keeper takes the tree, simplified, with a copy of the score
    /// and the generation, and says so; else it stays as it is.
    pub fn improved(&mut self, program: &P, score: &ScoreCard, generation: u32) -> (better: bool)
        ensures
            better == old(self).improves(score),
            better ==> final(self).program() == Some(program.simplified()),
            better ==> final(self).generation() == generation,
            better ==> (final(self).score() matches Some(kept) && kept.parts() == score.parts()
                && kept.total() == score.total() && kept.flight() == score.flight()),
            !better ==> *final(self) == *old(self),
    {
        let better = match &self.best_score {
            None => true,
            Some(best) => score.total_score().gt(best.total_score()),
        };
        if better {
            *self = OptimumKeeper {
                best_program: Some(program.simplify()),
                best_score: Some(score.clone()),
                best_generation: generation,
            };
        }
        better
    }

    /// The best tree so far; there is one where there is a score.
    pub fn best_program(&self) -> (best: &Option<P>)
        ensures
            *best == self.program(),
            *best is Some <==> self.score() is Some,
    {
        proof {
            use_type_invariant(self);
        }
        &self.best_program
    }

    /// The score of the best tree so far.
    pub fn best_score(&self) -> (best: &Option<ScoreCard>)
        ensures
            *best == self.score(),
    {
        &self.best_score
    }

    /// The generation of the best tree so far.
    pub fn best_generation(&self) -> (generation: u32)
        ensures
            generation == self.generation(),
    {
        self.best_generation
    }
}

/// The next 64 random bits, by `rand::Rng::next_u64`. Nothing is promised of
/// them.
#[verifier::external_body]
pub(crate) fn next_bits(rng: &mut rand::StdRng) -> (bits: u64) {
    rand::Rng::next_u64(rng)
}

/// The totals of the cards.
pub open spec fn totals(scores: Seq<ScoreCard>) -> Seq<Number> {
    Seq::new(scores.len(), |i: int| scores[i].total())
}

/// The totals of the cards at the drawn places, in the order of the draws.
pub open spec fn drawn_totals(scores: Seq<ScoreCard>, draws: Seq<usize>) -> Seq<Number> {
    Seq::new(draws.len(), |k: int| scores[draws[k] as int].total())
}

/// `winner` is the first of the best among the places drawn.
pub open spec fn wins(scores: Seq<ScoreCard>, draws: Seq<usize>, winner: usize) -> bool {
    exists|k: int| #[trigger] first_best(drawn_totals(scores, draws), k) && winner == draws[k]
}

/// `winner` can win a tournament of `n` draws among the places that have a
/// score.
pub open spec fn tournament(scores: Seq<ScoreCard>, n: int, winner: usize) -> bool {
    exists|draws: Seq<usize>|
        draws.len() == n && (forall|k: int| 0 <= k < n ==> #[trigger] draws[k] < scores.len())
            && #[trigger] wins(scores, draws, winner)
}

/// One way of making trees for the next generation, with the places of the
/// tournament winners that it works on.
#[derive(Clone, Copy, Debug, PartialEq, Eq, Structural)]
pub enum Way {
    /// The winner is taken over as it is.
    Reproduce(usize),
    /// The winner is mutated.
    Mutate(usize),
    /// Two different winners are crossed.
    Crossover(usize, usize),
}

/// Whether the weights leave a way open: a way is taken only where its
/// weight is not zero, but that a winner is also taken over as it is where a
/// crossing finds no two different winners.
pub open spec fn open_to(
    way: Way,
    reproduce_weight: u32,
    mutate_weight: u32,
    crossover_weight: u32,
) -> bool {
    match way {
        Way::Reproduce(_) => reproduce_weight > 0 || crossover_weight > 0,
        Way::Mutate(_) => mutate_weight > 0,
        Way::Crossover(_, _) => crossover_weight > 0,
    }
}

/// `made` is what a way makes of the parents while there is room for `room`
/// more trees: a clone of the winner, or a mutation of it, or the first tree
/// of a crossing of the two winners and, where there is room for two, the
/// second one.
pub open spec fn makes<P: Copyable + Clone, A: Arithmetic>(
    arithmetic: &A,
    parents: Seq<P>,
    way: Way,
    room: usize,
    made: (P, Option<P>),
) -> bool {
    match way {
        Way::Reproduce(i) => i < parents.len() && cloned(parents[i as int], made.0) && made.1
            is None,
        Way::Mutate(i) => i < parents.len() && mutated(arithmetic, parents[i as int], made.0)
            && made.1 is None,
        Way::Crossover(i, j) => i < parents.len() && j < parents.len() && i != j && exists|
            second: P,
        | #[trigger]
            crossing(parents[i as int], parents[j as int], (made.0, second)) && made.1 == (if room
                >= 2 {
                Some(second)
            } else {
                None
            }),
    }
}

/// `child` and `other` are the two trees of a crossing of `a` with `b`, in
/// one order or the other.
pub open spec fn crossed_child<P: Copyable>(a: P, b: P, child: P, other: P) -> bool {
    crossing(a, b, (child, other)) || crossing(a, b, (other, child))
}

/// `child` comes from the parents by the given way: it is a clone of the
/// winner, or a mutation of it, or one of the two trees of a crossing of the
/// two winners.
pub open spec fn comes<P: Copyable + Clone, A: Arithmetic>(
    arithmetic: &A,
    parents: Seq<P>,
    way: Way,
    child: P,
) -> bool {
    match way {
        Way::Reproduce(i) => i < parents.len() && cloned(parents[i as int], child),
        Way::Mutate(i) => i < parents.len() && mutated(arithmetic, parents[i as int], child),
        Way::Crossover(i, j) => i < parents.len() && j < parents.len() && i != j && exists|
            other: P,
        | #[trigger] crossed_child(parents[i as int], parents[j as int], child, other),
    }
}

/// `child` is bred from the parents by a way that the weights leave open.
pub open spec fn bred<P: Copyable + Clone, A: Arithmetic>(
    arithmetic: &A,
    parents: Seq<P>,
    reproduce_weight: u32,
    mutate_weight: u32,
    crossover_weight: u32,
    child: P,
) -> bool {
    exists|way: Way|
        open_to(way, reproduce_weight, mutate_weight, crossover_weight) && #[trigger] comes(
            arithmetic,
            parents,
            way,
            child,
        )
}

/// `child` is a clone of one of the parents.
pub open spec fn copied<P: Clone>(parents: Seq<P>, child: P) -> bool {
    exists|i: int| 0 <= i < parents.len() && cloned(#[trigger] parents[i], child)
}

/// `card` is a score that the function can give the tree, at some state of
/// the source of chance.
pub open spec fn scored_by<P, F: Fn(&P, &mut rand::StdRng) -> ScoreCard>(
    scoring_fn: F,
    tree: P,
    card: ScoreCard,
) -> bool {
    exists|state: &mut rand::StdRng| #[trigger] call_ensures(scoring_fn, (&tree, state), card)
}

/// The two winners as a pair, where they are different trees.
pub fn pair_of(one: usize, two: usize) -> (pair: Option<(usize, usize)>)
    ensures
        pair == (if one != two {
            Some((one, two))
        } else {
            None
        }),
{
    if one != two {
        Some((one, two))
    } else {
        None
    }
}

/// A generation of trees of one kind, with the scores of its last scoring.
pub struct Population<P> {
    /// The trees.
    pub population: Vec<P>,
    /// The number of this generation.
    pub generation: u32,
    /// The score of each tree, in the order of the trees; empty until the
    /// population is scored.
    pub scores: Vec<ScoreCard>,
}

impl<P: Copyable + Clone> Population<P> {
    /// An empty population with room for `n` trees.
    pub fn new(n: usize, generation: u32) -> (population: Population<P>)
        ensures
            population.population@.len() == 0,
            population.scores@.len() == 0,
            population.generation == generation,
    {
        Population { population: Vec::with_capacity(n), scores: Vec::with_capacity(n), generation }
    }

    /// Adds a tree to the population.
    pub fn add(&mut self, program: P)
        ensures
            final(self).population@ == old(self).population@.push(program),
            final(self).scores == old(self).scores,
            final(self).generation == old(self).generation,
    {
        self.population.push(program);
    }

    /// The number of trees.
    pub fn n(&self) -> (n: usize)
        ensures
            n == self.population@.len(),
    {
        self.population.len()
    }

    /// Scores every tree anew with the given function.
    pub fn score<F: Fn(&P, &mut rand::StdRng) -> ScoreCard>(
        &mut self,
        scoring_fn: F,
        rng: &mut rand::StdRng,
    )
        requires
            forall|tree: &P, state: &mut rand::StdRng| call_requires(scoring_fn, (tree, state)),
        ensures
            final(self).population == old(self).population,
            final(self).generation == old(self).generation,
            final(self).scores@.len() == old(self).population@.len(),
            forall|i: int|
                0 <= i < old(self).population@.len() ==> scored_by(
                    scoring_fn,
                    old(self).population@[i],
                    #[trigger] final(self).scores@[i],
                ),
    {
        let mut scores: Vec<ScoreCard> = Vec::with_capacity(self.population.len());
        let mut i: usize = 0;
        while i < self.population.len()
            invariant
                i <= self.population.len(),
                scores@.len() == i,
                forall|tree: &P, state: &mut rand::StdRng| call_requires(scoring_fn, (tree, state)),
                forall|k: int|
                    0 <= k < i ==> scored_by(scoring_fn, self.population@[k], #[trigger] scores@[k]),
            decreases self.population.len() - i,
        {
            let card = scoring_fn(&self.population[i], rng);
            assert(scored_by(scoring_fn, self.population@[i as int], card));
            scores.push(card);
            i = i + 1;
        }
        self.scores = scores;
    }

    /// The totals of the scores, in the order of the trees.
    fn all_totals(&self) -> (all: Vec<Number>)
        ensures
            all@ == totals(self.scores@),
    {
        let mut all: Vec<Number> = Vec::with_capacity(self.scores.len());
        let mut i: usize = 0;
        while i < self.scores.len()
            invariant
                i <= self.scores.len(),
                all@ == totals(self.scores@).take(i as int),
            decreases self.scores.len() - i,
        {
            all.push(self.scores[i].total_score());
            assert(totals(self.scores@).take(i + 1) =~= totals(self.scores@).take(i as int).push(
                self.scores@[i as int].total(),
            ));
            i = i + 1;
        }
        assert(totals(self.scores@).take(i as int) =~= totals(self.scores@));
        all
    }

    /// The winner of a tournament among the trees at the drawn places: the
    /// first drawn of those with the best score. `None` where nothing was
    /// drawn or a draw names a place without a score.
    pub fn best_of_draws(&self, draws: &Vec<usize>) -> (winner: Option<usize>)
        ensures
            winner is Some <==> draws@.len() > 0 && forall|k: int|
                0 <= k < draws@.len() ==> #[trigger] draws@[k] < self.scores@.len(),
            winner matches Some(w) ==> wins(self.scores@, draws@, w),
    {
        let mut drawn: Vec<Number> = Vec::with_capacity(draws.len());
        let mut k: usize = 0;
        while k < draws.len()
            invariant
                k <= draws.len(),
                drawn@.len() == k,
                forall|j: int| 0 <= j < k ==> #[trigger] draws@[j] < self.scores@.len(),
                forall|j: int|
                    0 <= j < k ==> #[trigger] drawn@[j] == self.scores@[draws@[j] as int].total(),
            decreases draws.len() - k,
        {
            if draws[k] >= self.scores.len() {
                return None;
            }
            drawn.push(self.scores[draws[k]].total_score());
            k = k + 1;
        }
        assert(drawn@ =~= drawn_totals(self.scores@, draws@));
        match partial_max(&drawn) {
            Some(best) => Some(draws[best]),
            None => None,
        }
    }

    /// The place of the winner of a tournament of `n` trees, each drawn
    /// evenly from the whole population; a tree can be drawn more than once.
    pub fn select_tournament_winner_i(&self, n: usize, rng: &mut rand::StdRng) -> (winner: usize)
        requires
            n > 0,
            self.population@.len() > 0,
            self.scores@.len() == self.population@.len(),
        ensures
            winner < self.population@.len(),
            tournament(self.scores@, n as int, winner),
    {
        let count = self.population.len();
        let mut draws: Vec<usize> = Vec::with_capacity(n);
        let mut i: usize = 0;
        while i < n
            invariant
                i <= n,
                count > 0,
                draws@.len() == i,
                forall|k: int| 0 <= k < i ==> #[trigger] draws@[k] < count,
            decreases n - i,
        {
            let bits = next_bits(rng);
            draws.push((bits as usize) % count);
            i = i + 1;
        }
        let winner = self.best_of_draws(&draws).unwrap();
        assert(wins(self.scores@, draws@, winner));
        winner
    }

    /// The winner of a tournament of `n` trees.
    pub fn select_tournament_winner(&self, n: usize, rng: &mut rand::StdRng) -> (winner: &P)
        requires
            n > 0,
            self.population@.len() > 0,
            self.scores@.len() == self.population@.len(),
        ensures
            exists|i: usize|
                i < self.population@.len() && #[trigger] tournament(self.scores@, n as int, i)
                    && *winner == self.population@[i as int],
    {
        &self.population[self.select_tournament_winner_i(n, rng)]
    }

    /// The place of the best tree of the population: the first of those with
    /// the best score. `None` where there are no scores.
    pub fn winner_i(&self) -> (best: Option<usize>)
        ensures
            best is None <==> self.scores@.len() == 0,
            best matches Some(i) ==> first_best(totals(self.scores@), i as int),
    {
        partial_max(&self.all_totals())
    }

    /// The best tree of the population with its score, both copied.
    pub fn winner(&self) -> (best: CreatureScore<P>)
        requires
            self.population@.len() > 0,
            self.scores@.len() == self.population@.len(),
        ensures
            exists|i: int| #[trigger]
                first_best(totals(self.scores@), i) && cloned(self.population@[i], best.program)
                    && best.score.parts() == self.scores@[i].parts() && best.score.total()
                    == self.scores@[i].total() && best.score.flight() == self.scores@[i].flight(),
    {
        let i = self.winner_i().unwrap();
        let best = CreatureScore::new(self.population[i].clone(), self.scores[i].clone());
        assert(first_best(totals(self.scores@), i as int));
        best
    }

    /// The places of two different winners of tournaments. Pairs of
    /// tournaments are held until their winners differ, `attempts` times at
    /// most; `None` where they never did, as in a population of one tree.
    pub fn pick_two(&self, tournament_size: usize, rng: &mut rand::StdRng, attempts: usize) -> (pair:
        Option<(usize, usize)>)
        requires
            tournament_size > 0,
            self.population@.len() > 0,
            self.scores@.len() == self.population@.len(),
        ensures
            attempts == 0 || self.population@.len() == 1 ==> pair is None,
            pair matches Some((one, two)) ==> one != two && one < self.population@.len() && two
                < self.population@.len() && tournament(self.scores@, tournament_size as int, one)
                && tournament(self.scores@, tournament_size as int, two),
    {
        let mut left = attempts;
        while left > 0
            invariant
                left <= attempts,
                tournament_size > 0,
                self.population@.len() > 0,
                self.scores@.len() == self.population@.len(),
            decreases left,
        {
            let one = self.select_tournament_winner_i(tournament_size, rng);
            let two = self.select_tournament_winner_i(tournament_size, rng);
            let pair = pair_of(one, two);
            if pair.is_some() {
                return pair;
            }
            left = left - 1;
        }
        None
    }

    /// What one way makes: a clone of the winner, a mutation of it, or the
    /// two trees of a crossing of the two winners, of which the second is
    /// handed out only where there is room for two more trees.
    pub fn breed<A: Arithmetic>(
        &self,
        way: Way,
        room: usize,
        rng: &mut rand::StdRng,
        arithmetic: &A,
    ) -> (made: (P, Option<P>))
        requires
            way matches Way::Reproduce(i) ==> i < self.population@.len(),
            way matches Way::Mutate(i) ==> i < self.population@.len(),
            way matches Way::Crossover(i, j) ==> i < self.population@.len() && j
                < self.population@.len() && i != j,
        ensures
            makes(arithmetic, self.population@, way, room, made),
    {
        match way {
            Way::Reproduce(i) => {
                let copy = self.population[i].clone();
                assert(cloned(self.population@[i as int], copy));
                (copy, None)
            },
            Way::Mutate(i) => {
                let mutation = mutate(&self.population[i], rng, arithmetic);
                (mutation, None)
            },
            Way::Crossover(i, j) => {
                let (first, second) = cross_over(&self.population[i], &self.population[j], rng);
                let ghost both = second;
                let made = if room >= 2 {
                    (first, Some(second))
                } else {
                    (first, None)
                };
                assert(crossing(
                    self.population@[i as int],
                    self.population@[j as int],
                    (made.0, both),
                ) && made.1 == (if room >= 2 {
                    Some(both)
                } else {
                    None
                }));
                made
            },
        }
    }

    /// The way for one step, with its winners drawn by tournament: the way
    /// with the given number, but that a winner is taken over as it is where
    /// a crossing is asked for and the population has one tree only or no
    /// two different winners are found.
    fn draw_way(&self, choice: usize, tournament_size: usize, rng: &mut rand::StdRng) -> (way: Way)
        requires
            tournament_size > 0,
            self.population@.len() > 0,
            self.scores@.len() == self.population@.len(),
        ensures
            choice == 0 ==> way is Reproduce,
            choice == 1 ==> way is Mutate,
            choice >= 2 ==> way is Crossover || way is Reproduce,
            way matches Way::Reproduce(i) ==> i < self.population@.len(),
            way matches Way::Mutate(i) ==> i < self.population@.len(),
            way matches Way::Crossover(i, j) ==> i < self.population@.len() && j
                < self.population@.len() && i != j,
    {
        let pair = if choice >= 2 && self.n() >= 2 {
            self.pick_two(tournament_size, rng, PAIRINGS)
        } else {
            None
        };
        match pair {
            Some((one, two)) => Way::Crossover(one, two),
            None => {
                let winner = self.select_tournament_winner_i(tournament_size, rng);
                if choice == 1 {
                    Way::Mutate(winner)
                } else {
                    Way::Reproduce(winner)
                }
            },
        }
    }

    /// The next generation: as many trees as this one has, each bred from
    /// the winner of a tournament. A tree at a time, one of three ways is
    /// drawn by weight: the winner is taken over as it is, or mutated, or
    /// two different winners are crossed and both new trees taken, the
    /// second one only while there is room. Where a crossing is drawn and
    /// the population has one tree only, or no two different winners are
    /// found, one winner is taken over as it is.
    pub fn evolve<A: Arithmetic>(
        &self,
        tournament_size: usize,
        reproduce_weight: u32,
        mutate_weight: u32,
        crossover_weight: u32,
        rng: &mut rand::StdRng,
        arithmetic: &A,
    ) -> (next: Population<P>)
        requires
            self.generation < u32::MAX,
            tournament_size > 0,
            0 < reproduce_weight + mutate_weight + crossover_weight <= u32::MAX,
            self.scores@.len() == self.population@.len(),
        ensures
            next.generation == self.generation + 1,
            next.population@.len() == self.population@.len(),
            next.scores@.len() == 0,
            forall|k: int|
                0 <= k < next.population@.len() ==> bred(
                    arithmetic,
                    self.population@,
                    reproduce_weight,
                    mutate_weight,
                    crossover_weight,
                    #[trigger] next.population@[k],
                ),
            mutate_weight == 0 && crossover_weight == 0 ==> forall|k: int|
                0 <= k < next.population@.len() ==> copied(
                    self.population@,
                    #[trigger] next.population@[k],
                ),
    {
        let mut ret = Self::new(self.n(), self.generation + 1);
        let weights: [u32; 3] = [reproduce_weight, mutate_weight, crossover_weight];
        proof {
            reveal_with_fuel(weight_before, 4);
        }
        while ret.n() < self.n()
            invariant
                tournament_size > 0,
                self.scores@.len() == self.population@.len(),
                weights@ == seq![reproduce_weight, mutate_weight, crossover_weight],
                0 < total_weight(weights@) <= usize::MAX,
                ret.generation == self.generation + 1,
                ret.population@.len() <= self.population@.len(),
                ret.scores@.len() == 0,
                forall|k: int|
                    0 <= k < ret.population@.len() ==> bred(
                        arithmetic,
                        self.population@,
                        reproduce_weight,
                        mutate_weight,
                        crossover_weight,
                        #[trigger] ret.population@[k],
                    ),
                mutate_weight == 0 && crossover_weight == 0 ==> forall|k: int|
                    0 <= k < ret.population@.len() ==> copied(
                        self.population@,
                        #[trigger] ret.population@[k],
                    ),
            decreases self.population@.len() - ret.population@.len(),
        {
            let choice = pick(&weights, rng);
            let way = self.draw_way(choice, tournament_size, rng);
            let (first, second) = self.breed(way, self.n() - ret.n(), rng, arithmetic);
            proof {
                let parents = self.population@;
                assert(open_to(way, reproduce_weight, mutate_weight, crossover_weight));
                match way {
                    Way::Crossover(i, j) => {
                        let other = choose|other: P| #[trigger]
                            crossing(parents[i as int], parents[j as int], (first, other))
                                && second == (if self.population@.len() - ret.population@.len()
                                >= 2 {
                                Some(other)
                            } else {
                                None
                            });
                        assert(crossed_child(parents[i as int], parents[j as int], first, other));
                        assert(crossed_child(parents[i as int], parents[j as int], other, first));
                        assert(comes(arithmetic, parents, way, first));
                        assert(comes(arithmetic, parents, way, other));
                    },
                    Way::Reproduce(i) => {
                        assert(comes(arithmetic, parents, way, first));
                        assert(cloned(parents[i as int], first));
                    },
                    Way::Mutate(_) => {
                        assert(comes(arithmetic, parents, way, first));
                    },
                }
            }
            ret.add(first);
            match second {
                Some(second) => {
                    ret.add(second);
                },
                None => {},
            }
        }
        ret
    }
}

/// Place `i` is among the draws.
pub open spec fn reaches(draws: Seq<usize>, i: int) -> bool {
    exists|k: int| 0 <= k < draws.len() && #[trigger] draws[k] == i
}

/// Where every tree of the population is drawn, the winner of the tournament
/// is a best tree of the population: no score exceeds its own.
pub proof fn tournament_of_all_finds_best(scores: Seq<ScoreCard>, draws: Seq<usize>, winner: usize)
    requires
        wins(scores, draws, winner),
        forall|k: int| 0 <= k < draws.len() ==> #[trigger] draws[k] < scores.len(),
        forall|i: int| 0 <= i < scores.len() ==> #[trigger] reaches(draws, i),
    ensures
        winner < scores.len(),
        forall|i: int|
            0 <= i < scores.len() ==> !(#[trigger] scores[i]).total().exceeds(
                scores[winner as int].total(),
            ),
{
    let drawn = drawn_totals(scores, draws);
    let best = choose|k: int| #[trigger] first_best(drawn, k) && winner == draws[k];
    assert forall|i: int| 0 <= i < scores.len() implies !(#[trigger] scores[i]).total().exceeds(
        scores[winner as int].total(),
    ) by {
        assert(reaches(draws, i));
        let k = choose|k: int| 0 <= k < draws.len() && #[trigger] draws[k] == i;
        assert(!drawn[k].exceeds(drawn[best]));
    }
}

/// How many pairs of tournaments a crossing holds at most to find two
/// different winners.
pub const PAIRINGS: usize = 64;

/// A population of `n` random trees, as generation zero.
pub fn random_population<P: Copyable + Clone + Random>(n: usize, rng: &mut rand::StdRng) -> (population:
    Population<P>)
    ensures
        population.generation == 0,
        population.population@.len() == n,
        population.scores@.len() == 0,
        forall|k: int| 0 <= k < n ==> (#[trigger] population.population@[k]).fits(CEILING as nat),
        forall|k: int| 0 <= k < n ==> (#[trigger] population.population@[k]).height() <= CEILING + 2,
{
    let mut ret: Population<P> = Population::new(n, 0);
    let mut i: usize = 0;
    while i < n
        invariant
            i <= n,
            ret.generation == 0,
            ret.population@.len() == i,
            ret.scores@.len() == 0,
            forall|k: int| 0 <= k < i ==> (#[trigger] ret.population@[k]).fits(CEILING as nat),
            forall|k: int| 0 <= k < i ==> (#[trigger] ret.population@[k]).height() <= CEILING + 2,
        decreases n - i,
    {
        ret.add(P::random(rng, CEILING));
        i = i + 1;
    }
    ret
}

} // verus!
