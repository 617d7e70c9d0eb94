//! How two real quantities stand to each other.

use vstd::prelude::*;

verus! {

/// The outcome of comparing a quantity with a reference value.
///
/// `Unordered` is the outcome when either side is not a number, so every
/// strict test built on a `Relation` fails on such input.
#[derive(Clone, Copy, Debug, PartialEq, Eq, Structural)]
pub enum Relation {
    Below,
    Equal,
    Above,
    Unordered,
}

impl Relation {
    /// The relation of the negated quantity to zero, given that of the
    /// quantity itself.
    pub open spec fn negated(self) -> Relation {
        match self {
            Relation::Below => Relation::Above,
            Relation::Equal => Relation::Equal,
            Relation::Above => Relation::Below,
            Relation::Unordered => Relation::Unordered,
        }
    }

    /// Whether the quantity is strictly less than the reference.
    pub fn is_below(self) -> (b: bool)
        ensures
            b == (self == Relation::Below),
    {
        matches!(self, Relation::Below)
    }

    /// Whether the quantity is strictly greater than the reference.
    pub fn is_above(self) -> (b: bool)
        ensures
            b == (self == Relation::Above),
    {
        matches!(self, Relation::Above)
    }
}

} // verus!
