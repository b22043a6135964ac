use std::marker::PhantomData;
use vstd::prelude::*;
use vstd::string::StringExecFns;

use crate::logger::{decimal, write_decimal};

verus! {

/// A typed identifier.
///
/// The type parameter only tags the identifier with the kind of object it designates; two
/// identifiers are equal exactly when their numeric values are.
#[derive(Debug, Hash)]
pub struct Id<'a, T> where T: 'a {
    /// The numeric value of the identifier.
    pub id: u32,
    /// Tags the identifier with the type of what it designates; it holds nothing.
    pub _t: PhantomData<&'a T>,
}

impl<'a, T> View for Id<'a, T> {
    type V = u32;

    /// The numeric value of the identifier.
    open spec fn view(&self) -> u32 {
        self.id
    }
}

impl<'a, T> Id<'a, T> {
    /// Create an identifier out of its numeric value.
    pub fn new(id: u32) -> (res: Self)
        ensures
            res@ == id,
            res.id == id,
    {
        Id { id: id, _t: PhantomData }
    }

    /// The identifier as it reads when debugging: `Id { id: n }`, `n` in decimal.
    pub fn debug_text(&self) -> (res: String)
        ensures
            res@ == "Id { id: "@ + decimal(self.id as nat) + " }"@,
    {
        proof {
            reveal_strlit("Id { id: ");
            reveal_strlit(" }");
        }
        let mut s = String::from_str("Id { id: ");
        write_decimal(&mut s, self.id as u64);
        s.append(" }");
        s
    }
}

impl<'a, T> Clone for Id<'a, T> {
    fn clone(&self) -> (res: Self)
        ensures
            res@ == self@,
            res.id == self.id,
    {
        Id::new(self.id)
    }
}

impl<'a, T> PartialEq for Id<'a, T> {
    fn eq(&self, other: &Self) -> (res: bool) {
        self.id == other.id
    }
}

impl<'a, T> vstd::std_specs::cmp::PartialEqSpecImpl for Id<'a, T> {
    open spec fn obeys_eq_spec() -> bool {
        true
    }

    open spec fn eq_spec(&self, other: &Self) -> bool {
        self@ == other@
    }
}

impl<'a, T> Eq for Id<'a, T> {}

impl<'a, T> From<u32> for Id<'a, T> {
    fn from(id: u32) -> (res: Self) {
        Id::new(id)
    }
}

impl<'a, T> vstd::std_specs::convert::FromSpecImpl<u32> for Id<'a, T> {
    open spec fn obeys_from_spec() -> bool {
        true
    }

    open spec fn from_spec(id: u32) -> Self {
        Id { id: id, _t: PhantomData }
    }
}

impl<'a, T> std::ops::Deref for Id<'a, T> {
    type Target = u32;

    fn deref(&self) -> (res: &u32)
        ensures
            *res == self@,
    {
        &self.id
    }
}

} // verus!
