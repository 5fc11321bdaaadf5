//! Choosing among alternatives by weight, and the source of chance.
use vstd::prelude::*;

verus! {

/// `rand::StdRng`, the source of chance. Nothing is known of its state: it is
/// only handed on to the draws.
#[verifier::external_type_specification]
#[verifier::external_body]
pub struct ExStdRng(rand::StdRng);

/// A uniform draw below a bound, by `rand::Rng::gen_range` from zero to the
/// bound. The outside function returns a value of the half-open range and
/// panics on an empty one, which the precondition leaves out.
#[verifier::external_body]
pub(crate) fn below(rng: &mut rand::StdRng, bound: usize) -> (draw: usize)
    requires
        bound > 0,
    ensures
        draw < bound,
{
    rand::Rng::gen_range(rng, 0, bound)
}

/// The sum of the first `n` weights.
pub open spec fn weight_before(weights: Seq<u32>, n: int) -> int
    decreases n,
{
    if n <= 0 {
        0
    } else {
        weight_before(weights, n - 1) + weights[n - 1]
    }
}

/// The sum of all weights.
pub open spec fn total_weight(weights: Seq<u32>) -> int {
    weight_before(weights, weights.len() as int)
}

/// Alternative `i` is the one whose share of the weight holds the draw: the
/// weights before it sum to at most `draw`, and with its own to more.
pub open spec fn picks(weights: Seq<u32>, draw: int, i: int) -> bool {
    0 <= i < weights.len() && weight_before(weights, i) <= draw < weight_before(weights, i + 1)
}

/// The sums of the weights never fall.
pub proof fn weight_before_grows(weights: Seq<u32>, m: int, n: int)
    requires
        0 <= m <= n,
    ensures
        0 <= weight_before(weights, m) <= weight_before(weights, n),
    decreases n,
{
    if m < n {
        weight_before_grows(weights, m, n - 1);
    } else if n > 0 {
        weight_before_grows(weights, m - 1, n - 1);
    }
}

/// A draw is held by one alternative only.
pub proof fn picks_one(weights: Seq<u32>, draw: int, i: int, j: int)
    requires
        picks(weights, draw, i),
        picks(weights, draw, j),
    ensures
        i == j,
{
    if i < j {
        weight_before_grows(weights, i + 1, j);
    } else if j < i {
        weight_before_grows(weights, j + 1, i);
    }
}

/// The sum of the weights, where a `usize` holds it.
pub fn sum_weights(weights: &[u32]) -> (sum: Option<usize>)
    ensures
        sum matches Some(s) ==> s == total_weight(weights@),
        sum is None ==> total_weight(weights@) > usize::MAX,
{
    let mut sum: usize = 0;
    let mut i: usize = 0;
    while i < weights.len()
        invariant
            i <= weights.len(),
            sum == weight_before(weights@, i as int),
        decreases weights.len() - i,
    {
        let weight = weights[i] as usize;
        if weight > usize::MAX - sum {
            proof {
                weight_before_grows(weights@, i + 1, weights@.len() as int);
            }
            return None;
        }
        sum = sum + weight;
        i = i + 1;
    }
    Some(sum)
}

/// The alternative that holds a draw from below the sum of the weights: the
/// first one at which the running sum of the weights goes beyond the draw.
pub fn pick_at(weights: &[u32], draw: usize) -> (i: usize)
    requires
        draw < total_weight(weights@),
    ensures
        picks(weights@, draw as int, i as int),
{
    let mut bound: usize = 0;
    let mut i: usize = 0;
    loop
        invariant
            i <= weights.len(),
            bound == weight_before(weights@, i as int),
            bound <= draw < total_weight(weights@),
        ensures
            picks(weights@, draw as int, i as int),
        decreases weights.len() - i,
    {
        let weight = weights[i] as usize;
        if weight > draw - bound {
            break ;
        }
        bound = bound + weight;
        i = i + 1;
    }
    i
}

/// Chooses one alternative at random, each with a chance in proportion to
/// its weight. An alternative of weight zero is never chosen.
pub fn pick(weights: &[u32], rng: &mut rand::StdRng) -> (i: usize)
    requires
        0 < total_weight(weights@) <= usize::MAX,
    ensures
        i < weights@.len(),
        weights@[i as int] > 0,
{
    let total = sum_weights(weights).unwrap();
    let draw = below(rng, total);
    pick_at(weights, draw)
}

} // verus!
