//! Whole numbers held to a range: font sizes and legend alignments.
use vstd::prelude::*;

use crate::text::{decimal, usize_to_decimal};

verus! {

/// The error of a value outside the range of a [`BoundedUsize`]: the value given and the
/// largest value accepted.
#[derive(Debug, Clone, Copy, PartialEq, Eq)]
pub struct BoundsError {
    pub value: usize,
    pub max: usize,
}

/// A `usize` in `0..=MAX`, with `DEF` as its default.
#[derive(Debug, Clone, Copy, PartialEq, Eq)]
pub struct BoundedUsize<const MAX: usize, const DEF: usize>(usize);

impl<const MAX: usize, const DEF: usize> View for BoundedUsize<MAX, DEF> {
    type V = nat;

    closed spec fn view(&self) -> nat {
        self.0 as nat
    }
}

impl<const MAX: usize, const DEF: usize> BoundedUsize<MAX, DEF> {
    #[verifier::type_invariant]
    spec fn in_range(self) -> bool {
        self.0 <= MAX
    }

    /// The value, if it lies in `0..=MAX`.
    pub fn new(value: usize) -> (r: Result<Self, BoundsError>)
        ensures
            r is Ok <==> value <= MAX,
            r is Ok ==> r->Ok_0@ == value,
            r is Err ==> r->Err_0 == (BoundsError { value, max: MAX }),
    {
        if value <= MAX {
            Ok(BoundedUsize(value))
        } else {
            Err(BoundsError { value, max: MAX })
        }
    }

    /// The value held.
    pub fn value(&self) -> (r: usize)
        ensures
            r == self@,
            r <= MAX,
    {
        proof {
            use_type_invariant(self);
        }
        self.0
    }

    /// The default, `DEF`.
    pub fn default_value() -> (r: Self)
        requires
            DEF <= MAX,
        ensures
            r@ == DEF,
    {
        BoundedUsize(DEF)
    }

    /// The value written in decimal.
    pub fn to_string(&self) -> (r: String)
        ensures
            r@ == decimal(self@),
    {
        usize_to_decimal(self.value())
    }
}

impl<const MAX: usize, const DEF: usize> Default for BoundedUsize<MAX, DEF> {
    /// `DEF`, or `MAX` where `DEF` lies above it.
    fn default() -> (r: Self)
        ensures
            r@ == (if DEF <= MAX { DEF } else { MAX }),
    {
        if DEF <= MAX {
            BoundedUsize(DEF)
        } else {
            BoundedUsize(MAX)
        }
    }
}

impl<const MAX: usize, const DEF: usize> From<BoundedUsize<MAX, DEF>> for usize {
    fn from(value: BoundedUsize<MAX, DEF>) -> (r: usize) {
        value.value()
    }
}

impl<const MAX: usize, const DEF: usize> vstd::std_specs::convert::FromSpecImpl<BoundedUsize<MAX, DEF>> for usize {
    open spec fn obeys_from_spec() -> bool {
        true
    }

    open spec fn from_spec(v: BoundedUsize<MAX, DEF>) -> usize {
        v@ as usize
    }
}

/// A font size, in KLE's units: `0..=9`, 3 by default.
pub type FontSize = BoundedUsize<9, 3>;

/// A legend alignment: `0..=7`, 4 by default.
pub type Alignment = BoundedUsize<7, 4>;

} // verus!
