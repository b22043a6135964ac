//! Effects: transformations that chain, the output of one feeding the input of the next.

use vstd::prelude::*;

verus! {

/// A transformation from an input to an output.
pub trait Effect: Sized {
    type Input;
    type Output;

    /// Apply the effect.
    fn apply(&mut self, input: Self::Input) -> Self::Output;
}

/// Two effects in a row: the output of the front one feeds the back one.
pub struct Then<I0, I1> {
    front: I0,
    back: I1,
}

impl<I0, I1> Then<I0, I1> {
    /// The effect applied first.
    pub closed spec fn front(&self) -> I0 {
        self.front
    }

    /// The effect applied second.
    pub closed spec fn back(&self) -> I1 {
        self.back
    }
}

/// Chain `back` after `front`: the result applies `front`, then `back` to its output.
pub fn then<I0: Effect, I1: Effect<Input = I0::Output>>(front: I0, back: I1) -> (res: Then<I0, I1>)
    ensures
        res.front() == front,
        res.back() == back,
{
    Then { front, back }
}

impl<I0: Effect, I1: Effect<Input = I0::Output>> Effect for Then<I0, I1> {
    type Input = I0::Input;
    type Output = I1::Output;

    /// Apply the front effect to `input`, then the back one to what came out: each call is one
    /// that the effect's own `apply` allows, taking the effect from its state before to its state
    /// after.
    fn apply(&mut self, input: I0::Input) -> (res: I1::Output)
        ensures
            exists|f: &mut I0, b: &mut I1, mid: I0::Output|
                {
                    &&& *f == old(self).front() && *final(f) == final(self).front()
                    &&& call_ensures(I0::apply, (f, input), mid)
                    &&& *b == old(self).back() && *final(b) == final(self).back()
                    &&& call_ensures(I1::apply, (b, mid), res)
                },
    {
        let mid = self.front.apply(input);
        self.back.apply(mid)
    }
}

} // verus!
