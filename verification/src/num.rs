//! Numbers: their order, and the arithmetic that the embedding program
//! supplies.
//!
//! The library holds a number as the bit pattern of an IEEE-754
//! single-precision value and never computes with floating point itself. The
//! order of two numbers is read off their bits. Sums, differences, products,
//! quotients and decimal notation come from an `Arithmetic`, which the program
//! that uses the library implements with the machine's floating point.
use vstd::prelude::*;
use crate::structure::Number;

verus! {

/// The four operations of the control language.
#[derive(Clone, Copy, Debug, PartialEq, Eq, Structural)]
pub enum Operator {
    Plus,
    Minus,
    Multiply,
    Divide,
}

/// Floating-point arithmetic on bit patterns, and the text of a number.
pub trait Arithmetic {
    /// `left operator right`. Nothing is asked of the result here: a quotient
    /// by zero is whatever the arithmetic makes of it.
    fn apply(&self, operator: Operator, left: Number, right: Number) -> Number;

    /// The number in decimal notation with four places after the point, as
    /// it is written in program text.
    fn decimal(&self, value: Number) -> String;

    /// The number in the shortest decimal notation that reads back as the
    /// same number, as it is shown to a reader.
    fn shortest(&self, value: Number) -> String;
}

/// `result` is what the arithmetic can give for `left operator right`.
pub open spec fn applies<A: Arithmetic>(
    arithmetic: &A,
    operator: Operator,
    left: Number,
    right: Number,
    result: Number,
) -> bool {
    call_ensures(A::apply, (arithmetic, operator, left, right), result)
}

/// The arithmetic gives one result only for an operation on two numbers.
pub open spec fn single_valued<A: Arithmetic>(arithmetic: &A) -> bool {
    forall|operator: Operator, left: Number, right: Number, one: Number, other: Number|
        #[trigger] applies(arithmetic, operator, left, right, one) && #[trigger] applies(
            arithmetic,
            operator,
            left,
            right,
            other,
        ) ==> one == other
}

/// `text` is what the arithmetic can give as the decimal notation of `value`.
pub open spec fn writes<A: Arithmetic>(arithmetic: &A, value: Number, text: String) -> bool {
    call_ensures(A::decimal, (arithmetic, value), text)
}

/// `text` is what the arithmetic can give as the shortest notation of
/// `value`.
pub open spec fn shows<A: Arithmetic>(arithmetic: &A, value: Number, text: String) -> bool {
    call_ensures(A::shortest, (arithmetic, value), text)
}

impl Number {
    /// The bits without the sign bit.
    pub open spec fn magnitude(self) -> int {
        if self.bits >= 0x8000_0000 {
            self.bits - 0x8000_0000
        } else {
            self.bits as int
        }
    }

    /// Not a number: the exponent is all ones and the fraction is not zero.
    pub open spec fn is_nan(self) -> bool {
        self.magnitude() > 0x7f80_0000
    }

    /// The place of a number that is not NaN on the number line: the
    /// magnitude, negated under the sign bit. Both zeros stand at 0.
    pub open spec fn ordinal(self) -> int {
        if self.bits >= 0x8000_0000 {
            -self.magnitude()
        } else {
            self.magnitude()
        }
    }

    /// `self < other`; false where either is NaN.
    pub open spec fn less(self, other: Number) -> bool {
        !self.is_nan() && !other.is_nan() && self.ordinal() < other.ordinal()
    }

    /// `self == other` as values: both zeros are the same, and NaN equals
    /// nothing.
    pub open spec fn same(self, other: Number) -> bool {
        !self.is_nan() && !other.is_nan() && self.ordinal() == other.ordinal()
    }

    /// `self` is better than `other` as a score: it is a number and `other`
    /// is NaN or less.
    pub open spec fn exceeds(self, other: Number) -> bool {
        !self.is_nan() && (other.is_nan() || other.less(self))
    }

    /// Zero, with the sign bit clear.
    pub fn zero() -> (n: Number)
        ensures
            n.bits == 0,
    {
        Number { bits: 0 }
    }

    fn key(self) -> (k: Option<i64>)
        ensures
            k is None <==> self.is_nan(),
            k matches Some(v) ==> v == self.ordinal(),
    {
        let negative = self.bits >= 0x8000_0000;
        let magnitude: u32 = if negative {
            self.bits - 0x8000_0000
        } else {
            self.bits
        };
        if magnitude > 0x7f80_0000 {
            None
        } else if negative {
            Some(-(magnitude as i64))
        } else {
            Some(magnitude as i64)
        }
    }

    /// Whether this is NaN.
    pub fn nan(self) -> (r: bool)
        ensures
            r == self.is_nan(),
    {
        self.key().is_none()
    }

    /// `self < other`.
    pub fn lt(self, other: Number) -> (r: bool)
        ensures
            r == self.less(other),
    {
        match (self.key(), other.key()) {
            (Some(a), Some(b)) => a < b,
            _ => false,
        }
    }

    /// `self <= other`.
    pub fn le(self, other: Number) -> (r: bool)
        ensures
            r == (self.less(other) || self.same(other)),
    {
        match (self.key(), other.key()) {
            (Some(a), Some(b)) => a <= b,
            _ => false,
        }
    }

    /// `self == other` as values.
    pub fn equals(self, other: Number) -> (r: bool)
        ensures
            r == self.same(other),
    {
        match (self.key(), other.key()) {
            (Some(a), Some(b)) => a == b,
            _ => false,
        }
    }

    /// `self >= other`.
    pub fn ge(self, other: Number) -> (r: bool)
        ensures
            r == (other.less(self) || self.same(other)),
    {
        other.le(self)
    }

    /// `self > other`.
    pub fn gt(self, other: Number) -> (r: bool)
        ensures
            r == other.less(self),
    {
        other.lt(self)
    }

    /// Whether this score is better than the other.
    pub fn better(self, other: Number) -> (r: bool)
        ensures
            r == self.exceeds(other),
    {
        match (self.key(), other.key()) {
            (Some(a), Some(b)) => a > b,
            (Some(_), None) => true,
            _ => false,
        }
    }
}

/// The product of a number with itself.
pub fn square<A: Arithmetic>(x: Number, arithmetic: &A) -> (r: Number)
    ensures
        applies(arithmetic, Operator::Multiply, x, x, r),
{
    arithmetic.apply(Operator::Multiply, x, x)
}

/// The value at `best` is the first of the greatest: none exceeds it, and it
/// exceeds every value before it.
pub open spec fn first_best(values: Seq<Number>, best: int) -> bool {
    &&& 0 <= best < values.len()
    &&& forall|j: int| 0 <= j < values.len() ==> !(#[trigger] values[j]).exceeds(values[best])
    &&& forall|j: int| 0 <= j < best ==> values[best].exceeds(#[trigger] values[j])
}

/// Where the greatest value stands, for an order in which NaN neither is
/// greater nor less than anything. Of equal values the first one counts. NaN
/// is the answer only where every value is NaN.
pub fn partial_max(values: &Vec<Number>) -> (best: Option<usize>)
    ensures
        best is None <==> values@.len() == 0,
        best matches Some(i) ==> first_best(values@, i as int),
{
    if values.len() == 0 {
        return None;
    }
    let mut best: usize = 0;
    let mut i: usize = 1;
    while i < values.len()
        invariant
            1 <= i <= values.len(),
            first_best(values@.take(i as int), best as int),
        decreases values.len() - i,
    {
        let ghost before = values@.take(i as int);
        let ghost now = values@.take(i + 1);
        if values[i].better(values[best]) {
            proof {
                assert forall|j: int| 0 <= j < now.len() implies !(#[trigger] now[j]).exceeds(
                    now[i as int],
                ) by {
                    if j < i {
                        assert(!before[j].exceeds(before[best as int]));
                    }
                }
                assert forall|j: int| 0 <= j < i implies now[i as int].exceeds(#[trigger] now[j]) by {
                    if j < best {
                        assert(before[best as int].exceeds(before[j]));
                    } else {
                        assert(!before[j].exceeds(before[best as int]));
                    }
                }
            }
            best = i;
        } else {
            proof {
                assert forall|j: int| 0 <= j < now.len() implies !(#[trigger] now[j]).exceeds(
                    now[best as int],
                ) by {
                    if j < i {
                        assert(!before[j].exceeds(before[best as int]));
                    }
                }
                assert forall|j: int| 0 <= j < best implies now[best as int].exceeds(
                    #[trigger] now[j],
                ) by {
                    assert(before[best as int].exceeds(before[j]));
                }
            }
        }
        i = i + 1;
    }
    assert(values@.take(i as int) =~= values@);
    Some(best)
}

/// There is one first of the greatest.
pub proof fn first_best_is_unique(values: Seq<Number>, a: int, b: int)
    requires
        first_best(values, a),
        first_best(values, b),
    ensures
        a == b,
{
    if a < b {
        assert(values[b].exceeds(values[a]));
        assert(!values[b].exceeds(values[a]));
    } else if b < a {
        assert(values[a].exceeds(values[b]));
        assert(!values[a].exceeds(values[b]));
    }
}

} // verus!
