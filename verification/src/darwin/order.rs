//! The order of score cards: that of their totals.
use std::cmp::Ordering;
use vstd::prelude::*;
use vstd::std_specs::cmp::{PartialEqSpecImpl, PartialOrdSpecImpl};
use crate::darwin::evolve::ScoreCard;

verus! {

impl PartialEq for ScoreCard {
    fn eq(&self, other: &Self) -> (r: bool) {
        self.total_score().equals(other.total_score())
    }
}

impl PartialEqSpecImpl for ScoreCard {
    open spec fn obeys_eq_spec() -> bool {
        true
    }

    /// Two cards are equal where their totals are the same value; a card
    /// whose total is NaN equals none, not even itself.
    open spec fn eq_spec(&self, other: &Self) -> bool {
        self.total().same(other.total())
    }
}

impl PartialOrd for ScoreCard {
    fn partial_cmp(&self, other: &Self) -> (r: Option<Ordering>) {
        let a = self.total_score();
        let b = other.total_score();
        if a.lt(b) {
            Some(Ordering::Less)
        } else if a.equals(b) {
            Some(Ordering::Equal)
        } else if a.gt(b) {
            Some(Ordering::Greater)
        } else {
            None
        }
    }
}

impl PartialOrdSpecImpl for ScoreCard {
    open spec fn obeys_partial_cmp_spec() -> bool {
        true
    }

    /// Two cards compare as their totals; there is no order between two
    /// cards of which one has NaN as its total.
    open spec fn partial_cmp_spec(&self, other: &Self) -> Option<Ordering> {
        if self.total().less(other.total()) {
            Some(Ordering::Less)
        } else if self.total().same(other.total()) {
            Some(Ordering::Equal)
        } else if other.total().less(self.total()) {
            Some(Ordering::Greater)
        } else {
            None
        }
    }
}

} // verus!
