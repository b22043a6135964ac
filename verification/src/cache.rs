//! Caches of loaded resources, addressed by name and by typed identifier.
//!
//! A cache block holds the resources of one type, in the order in which they were loaded, and
//! the identifier under which each name was cached. The identifier of a resource is its position
//! among the loaded resources.

use vstd::prelude::*;
use vstd::string::StringExecFns;

use std::ops::Deref;

use crate::id::Id;

verus! {

/// A cache of the resources of type `T`.
pub struct CacheBlock<'a, T> where T: 'a {
    data: Vec<T>,
    ids: Vec<(String, Id<'a, T>)>,
}

/// What a cache block holds: its resources, in loading order, and the identifier of each cached
/// name.
pub struct CacheView<T> {
    pub data: Seq<T>,
    pub names: Map<Seq<char>, u32>,
}

/// The identifier of the cached name `name`, if it is cached.
pub open spec fn lookup_name(names: Seq<(Seq<char>, u32)>, name: Seq<char>) -> Option<u32>
    decreases names.len(),
{
    if names.len() == 0 {
        None
    } else if names[0].0 == name {
        Some(names[0].1)
    } else {
        lookup_name(names.drop_first(), name)
    }
}

/// The resource a name gives in a cache: the one its identifier designates.
pub open spec fn resolve<T>(c: CacheView<T>, name: Seq<char>) -> Option<T> {
    if c.names.contains_key(name) && (c.names[name] as int) < c.data.len() {
        Some(c.data[c.names[name] as int])
    } else {
        None
    }
}

/// The cache after the resource `r` is loaded under the name `name`: `r` is appended, and the
/// name gets the position of `r` as identifier.
pub open spec fn loaded<T>(c: CacheView<T>, name: Seq<char>, r: T) -> CacheView<T> {
    CacheView { data: c.data.push(r), names: c.names.insert(name, c.data.len() as u32) }
}

/// Every identifier of a cached name designates a loaded resource.
pub open spec fn ids_in_range<T>(c: CacheView<T>) -> bool {
    forall|n: Seq<char>| #[trigger] c.names.contains_key(n) ==> (c.names[n] as int) < c.data.len()
}

/// No name occurs twice among the pairs.
pub open spec fn distinct_names(pairs: Seq<(Seq<char>, u32)>) -> bool {
    forall|i: int, j: int| 0 <= i < j < pairs.len() ==> #[trigger] pairs[i].0 != #[trigger] pairs[j].0
}

proof fn lemma_lookup_found(pairs: Seq<(Seq<char>, u32)>, j: int)
    requires
        distinct_names(pairs),
        0 <= j < pairs.len(),
    ensures
        lookup_name(pairs, pairs[j].0) == Some(pairs[j].1),
    decreases j,
{
    if j > 0 {
        assert(pairs[0].0 != pairs[j].0);
        assert(pairs.drop_first()[j - 1] == pairs[j]);
        assert forall|a: int, b: int| 0 <= a < b < pairs.drop_first().len() implies #[trigger] pairs.drop_first()[a].0
            != #[trigger] pairs.drop_first()[b].0 by {
            assert(pairs[a + 1].0 != pairs[b + 1].0);
        }
        lemma_lookup_found(pairs.drop_first(), j - 1);
    }
}

proof fn lemma_lookup_absent(pairs: Seq<(Seq<char>, u32)>, n: Seq<char>)
    requires
        forall|j: int| 0 <= j < pairs.len() ==> #[trigger] pairs[j].0 != n,
    ensures
        lookup_name(pairs, n) is None,
    decreases pairs.len(),
{
    if pairs.len() > 0 {
        assert(pairs[0].0 != n);
        assert forall|j: int| 0 <= j < pairs.drop_first().len() implies #[trigger] pairs.drop_first()[j].0
            != n by {
            assert(pairs[j + 1].0 != n);
        }
        lemma_lookup_absent(pairs.drop_first(), n);
    }
}

proof fn lemma_lookup_some(pairs: Seq<(Seq<char>, u32)>, n: Seq<char>)
    requires
        lookup_name(pairs, n) is Some,
    ensures
        exists|j: int| 0 <= j < pairs.len() && pairs[j] == (n, lookup_name(pairs, n).unwrap()),
    decreases pairs.len(),
{
    if pairs[0].0 != n {
        lemma_lookup_some(pairs.drop_first(), n);
        let j = choose|j: int| 0 <= j < pairs.drop_first().len() && pairs.drop_first()[j] == (
            n,
            lookup_name(pairs, n).unwrap(),
        );
        assert(pairs[j + 1] == pairs.drop_first()[j]);
    } else {
        assert(pairs[0] == (n, lookup_name(pairs, n).unwrap()));
    }
}

impl<'a, T> CacheBlock<'a, T> {
    /// The pairs of cached names and identifiers.
    pub closed spec fn pairs(&self) -> Seq<(Seq<char>, u32)> {
        self.ids@.map_values(|p: (String, Id<'a, T>)| (p.0@, p.1@))
    }

    /// The contents of the cache.
    pub closed spec fn view(&self) -> CacheView<T> {
        CacheView {
            data: self.data@,
            names: Map::new(
                |n: Seq<char>| lookup_name(self.pairs(), n) is Some,
                |n: Seq<char>| lookup_name(self.pairs(), n).unwrap(),
            ),
        }
    }

    /// Names are cached at most once, and their identifiers designate loaded resources.
    pub closed spec fn wf(&self) -> bool {
        &&& distinct_names(self.pairs())
        &&& forall|i: int|
            0 <= i < self.pairs().len() ==> (#[trigger] self.pairs()[i].1 as int) < self.data@.len()
    }

    /// Create an empty cache.
    pub fn new() -> (res: Self)
        ensures
            res.wf(),
            res.view().data == Seq::<T>::empty(),
            res.view().names == Map::<Seq<char>, u32>::empty(),
    {
        let res = CacheBlock { data: Vec::new(), ids: Vec::new() };
        assert(res.view().names =~= Map::<Seq<char>, u32>::empty());
        res
    }

    /// Number of loaded resources.
    pub fn len(&self) -> (res: usize)
        ensures
            res == self.view().data.len(),
    {
        self.data.len()
    }

    /// The identifier under which `name` is cached, if it is (a cache hit).
    pub fn lookup(&self, name: &str) -> (res: Option<Id<'a, T>>)
        ensures
            match res {
                Some(id) => self.view().names.contains_key(name@) && id@ == self.view().names[name@],
                None => !self.view().names.contains_key(name@),
            },
    {
        let mut i: usize = 0;
        assert(self.pairs().skip(0) =~= self.pairs());
        while i < self.ids.len()
            invariant
                i <= self.ids@.len(),
                self.pairs().len() == self.ids@.len(),
                lookup_name(self.pairs(), name@) == lookup_name(self.pairs().skip(i as int), name@),
            decreases self.ids@.len() - i,
        {
            assert(self.pairs().skip(i as int)[0] == self.pairs()[i as int]);
            if self.ids[i].0 == String::from_str(name) {
                return Some(self.ids[i].1.clone());
            }
            assert(self.pairs().skip(i as int).drop_first() =~= self.pairs().skip(i + 1));
            i = i + 1;
        }
        None
    }

    /// Cache a freshly loaded resource under `name` and return its identifier, the position of
    /// the resource among the loaded ones. A name that was already cached is given the new
    /// identifier.
    ///
    /// Identifiers are 32-bit: the cache must hold fewer than 2^32 resources.
    pub fn insert(&mut self, name: &str, resource: T) -> (res: Id<'a, T>)
        requires
            old(self).wf(),
            old(self).view().data.len() < u32::MAX,
        ensures
            final(self).wf(),
            final(self).view() == loaded(old(self).view(), name@, resource),
            res@ == old(self).view().data.len(),
    {
        let ghost old_pairs = self.pairs();
        let index = self.data.len() as u32;
        self.data.push(resource);
        let ghost data_after = self.data@;
        assert(data_after == old(self).data@.push(resource));
        let mut i: usize = 0;
        let mut found = false;
        while i < self.ids.len()
            invariant
                i <= self.ids@.len(),
                self.data@ == data_after,
                data_after.len() == old(self).data@.len() + 1,
                index == old(self).data@.len(),
                self.pairs().len() == old_pairs.len(),
                forall|j: int| 0 <= j < i ==> #[trigger] self.pairs()[j].0 == old_pairs[j].0,
                forall|j: int| 0 <= j < i ==> #[trigger] self.pairs()[j].1 == if old_pairs[j].0 == name@ {
                    index
                } else {
                    old_pairs[j].1
                },
                forall|j: int| i <= j < self.pairs().len() ==> #[trigger] self.pairs()[j] == old_pairs[j],
                found <==> exists|j: int| 0 <= j < i && #[trigger] old_pairs[j].0 == name@,
            decreases self.ids@.len() - i,
        {
            let ghost before = self.pairs();
            assert(before[i as int] == (self.ids@[i as int].0@, self.ids@[i as int].1@));
            let same = self.ids[i].0 == String::from_str(name);
            assert(same == (old_pairs[i as int].0 == name@));
            if same {
                let entry = (String::from_str(name), Id::new(index));
                let ghost ids_before = self.ids@;
                self.ids.set(i, entry);
                assert(self.ids@ == ids_before.update(i as int, entry));
                assert(self.pairs() =~= before.update(i as int, (name@, index)));
                found = true;
            }
            i = i + 1;
        }
        if !found {
            let entry = (String::from_str(name), Id::new(index));
            let ghost before = self.pairs();
            assert forall|j: int| 0 <= j < before.len() implies before[j] == old_pairs[j] by {
                if old_pairs[j].0 == name@ {
                    assert(exists|j: int| 0 <= j < i && #[trigger] old_pairs[j].0 == name@);
                }
            }
            assert(before =~= old_pairs);
            let ghost ids_before = self.ids@;
            self.ids.push(entry);
            assert(self.ids@ == ids_before.push(entry));
            assert(self.pairs() =~= before.push((name@, index)));
        }
        proof {
            let new_pairs = self.pairs();
            assert(distinct_names(old_pairs));
            if found {
                assert(new_pairs.len() == old_pairs.len());
                assert forall|j: int| 0 <= j < new_pairs.len() implies #[trigger] new_pairs[j].0
                    == old_pairs[j].0 by {}
            } else {
                assert(new_pairs =~= old_pairs.push((name@, index)));
                assert forall|j: int| 0 <= j < old_pairs.len() implies #[trigger] old_pairs[j].0
                    != name@ by {}
            }
            assert(distinct_names(new_pairs)) by {
                assert forall|a: int, b: int| 0 <= a < b < new_pairs.len() implies #[trigger] new_pairs[a].0
                    != #[trigger] new_pairs[b].0 by {
                    if b < old_pairs.len() {
                        assert(old_pairs[a].0 != old_pairs[b].0);
                    }
                }
            }
            assert forall|n: Seq<char>| #[trigger] lookup_name(new_pairs, n) == if n == name@ {
                Some(index)
            } else {
                lookup_name(old_pairs, n)
            } by {
                if n == name@ {
                    let j = if found {
                        choose|j: int| 0 <= j < old_pairs.len() && old_pairs[j].0 == name@
                    } else {
                        old_pairs.len() as int
                    };
                    assert(new_pairs[j] == (name@, index));
                    lemma_lookup_found(new_pairs, j);
                } else {
                    match lookup_name(old_pairs, n) {
                        Some(v) => {
                            lemma_lookup_some(old_pairs, n);
                            let j = choose|j: int| 0 <= j < old_pairs.len() && old_pairs[j] == (n, v);
                            assert(new_pairs[j] == (n, v));
                            lemma_lookup_found(new_pairs, j);
                        },
                        None => {
                            assert forall|j: int| 0 <= j < new_pairs.len() implies #[trigger] new_pairs[j].0
                                != n by {
                                if j < old_pairs.len() {
                                    if old_pairs[j].0 == n {
                                        lemma_lookup_found(old_pairs, j);
                                    }
                                }
                            }
                            lemma_lookup_absent(new_pairs, n);
                        },
                    }
                }
            }
            assert(self.view().names =~= old(self).view().names.insert(name@, index));
            assert forall|i: int| 0 <= i < new_pairs.len() implies (#[trigger] new_pairs[i].1 as int)
                < self.data@.len() by {
                if i < old_pairs.len() {
                    assert((old(self).pairs()[i].1 as int) < old(self).data@.len());
                }
                if found {
                    assert(new_pairs[i].1 == if old_pairs[i].0 == name@ {
                        index
                    } else {
                        old_pairs[i].1
                    });
                } else if i < old_pairs.len() {
                    assert(new_pairs[i] == old_pairs[i]);
                } else {
                    assert(new_pairs[i] == (name@, index));
                }
            }
            assert(self.view().data =~= old(self).view().data.push(resource));
        }
        Id::new(index)
    }

    /// The resource an identifier designates, if any.
    pub fn get_by_id(&self, id: Id<'a, T>) -> (res: Option<&T>)
        ensures
            match res {
                Some(r) => (id@ as int) < self.view().data.len() && *r == self.view().data[id@ as int],
                None => (id@ as int) >= self.view().data.len(),
            },
    {
        let i = *id.deref() as usize;
        if i < self.data.len() {
            Some(&self.data[i])
        } else {
            None
        }
    }

    /// In a well-formed cache, every identifier of a cached name designates a loaded resource.
    pub proof fn lemma_ids_in_range(&self)
        requires
            self.wf(),
        ensures
            ids_in_range(self.view()),
    {
        assert forall|n: Seq<char>| #[trigger] self.view().names.contains_key(n) implies (
        self.view().names[n] as int) < self.view().data.len() by {
            lemma_lookup_some(self.pairs(), n);
            let j = choose|j: int|
                0 <= j < self.pairs().len() && self.pairs()[j] == (
                    n,
                    lookup_name(self.pairs(), n).unwrap(),
                );
            assert((self.pairs()[j].1 as int) < self.data@.len());
        }
    }
}

/// A resource loaded under a name is what the name gives afterwards, and loading it changes
/// what no other name gives.
pub proof fn lemma_loaded_then_resolved<T>(c: CacheView<T>, name: Seq<char>, r: T, other: Seq<char>)
    requires
        ids_in_range(c),
        c.data.len() < u32::MAX,
    ensures
        resolve(loaded(c, name, r), name) == Some(r),
        other != name ==> resolve(loaded(c, name, r), other) == resolve(c, other),
        ids_in_range(loaded(c, name, r)),
{
    let l = loaded(c, name, r);
    assert(l.names[name] == c.data.len() as u32);
    if other != name && c.names.contains_key(other) {
        assert(l.data[c.names[other] as int] == c.data[c.names[other] as int]);
    }
}

/// Access to cached resources of type `T`, by name and by identifier.
pub trait Get<T>: Sized {
    /// Identifiers of the resources.
    type Id;

    /// The identifier of the resource named `name`, loading it on a cache miss; none if it
    /// cannot be loaded.
    fn get_id(&mut self, name: &str) -> Option<Self::Id>;

    /// The resource an identifier designates.
    fn get_by_id(&self, id: Self::Id) -> Option<&T>;

    /// The resource named `name`, loading it on a cache miss: by default, what `get_by_id`
    /// gives of the identifier that `get_id` returned, and none where it returned none.
    fn get(&mut self, name: &str) -> (res: Option<&T>)
        default_ensures
            exists|c: &mut Self, id: Option<Self::Id>|
                {
                    &&& *c == *old(self) && *final(c) == *final(self)
                    &&& call_ensures(Self::get_id, (c, name), id)
                    &&& match id {
                        Some(i) => call_ensures(Self::get_by_id, (&*final(self), i), res),
                        None => res is None,
                    }
                },
    {
        match self.get_id(name) {
            Some(i) => self.get_by_id(i),
            None => None,
        }
    }
}

} // verus!
