//! Number of channels of a render type.

use vstd::prelude::*;

verus! {

/// Number of channels (dimensions) of a type: one for a scalar, up to four for a vector.
#[derive(Clone, Copy, Debug, Hash, PartialEq, Eq, Structural)]
pub enum TypeChan {
    One,
    Two,
    Three,
    Four,
}

impl TypeChan {
    /// The number of channels.
    pub open spec fn spec_count(self) -> u8 {
        match self {
            TypeChan::One => 1,
            TypeChan::Two => 2,
            TypeChan::Three => 3,
            TypeChan::Four => 4,
        }
    }

    /// The number of channels, from one to four.
    pub fn count(&self) -> (res: u8)
        ensures
            res == self.spec_count(),
            1 <= res <= 4,
    {
        match self {
            TypeChan::One => 1,
            TypeChan::Two => 2,
            TypeChan::Three => 3,
            TypeChan::Four => 4,
        }
    }

    /// The type channel with `n` channels, if `n` is between one and four.
    pub open spec fn spec_from_count(n: u8) -> Option<TypeChan> {
        if n == 1 {
            Some(TypeChan::One)
        } else if n == 2 {
            Some(TypeChan::Two)
        } else if n == 3 {
            Some(TypeChan::Three)
        } else if n == 4 {
            Some(TypeChan::Four)
        } else {
            None
        }
    }

    /// The type channel with `n` channels, if `n` is between one and four.
    pub fn from_count(n: u8) -> (res: Option<TypeChan>)
        ensures
            res == Self::spec_from_count(n),
    {
        if n == 1 {
            Some(TypeChan::One)
        } else if n == 2 {
            Some(TypeChan::Two)
        } else if n == 3 {
            Some(TypeChan::Three)
        } else if n == 4 {
            Some(TypeChan::Four)
        } else {
            None
        }
    }
}

/// A type channel is found back from its number of channels, and only numbers from one to four
/// are numbers of channels.
pub proof fn lemma_type_chan_count_round_trip(c: TypeChan, n: u8)
    ensures
        TypeChan::spec_from_count(c.spec_count()) == Some(c),
        TypeChan::spec_from_count(n) is Some <==> 1 <= n <= 4,
        TypeChan::spec_from_count(n) matches Some(d) ==> d.spec_count() == n,
{
}

} // verus!
