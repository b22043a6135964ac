//! Objects: models placed in the world.

use vstd::prelude::*;

verus! {

/// Key of an object: the path of its manifest.
#[derive(Debug)]
pub struct ObjObjectKey(pub String);

impl View for ObjObjectKey {
    type V = Seq<char>;

    open spec fn view(&self) -> Seq<char> {
        self.0@
    }
}

impl Clone for ObjObjectKey {
    fn clone(&self) -> (res: Self)
        ensures
            res@ == self@,
    {
        ObjObjectKey(self.0.clone())
    }
}

impl PartialEq for ObjObjectKey {
    fn eq(&self, other: &Self) -> (res: bool) {
        self.0 == other.0
    }
}

impl vstd::std_specs::cmp::PartialEqSpecImpl for ObjObjectKey {
    open spec fn obeys_eq_spec() -> bool {
        true
    }

    open spec fn eq_spec(&self, other: &Self) -> bool {
        self@ == other@
    }
}

impl Eq for ObjObjectKey {}

} // verus!
