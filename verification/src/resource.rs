//! Resources: shared handles on loaded values, loading errors and cache keys.

use std::cell::RefCell;
use std::path::{Path, PathBuf};
use std::rc::Rc;
use vstd::prelude::*;
use vstd::string::StringExecFns;

pub mod context;

verus! {

#[verifier::external_type_specification]
#[verifier::external_body]
pub struct ExPath(std::path::Path);

#[verifier::external_type_specification]
#[verifier::external_body]
pub struct ExPathBuf(std::path::PathBuf);

#[verifier::external_type_specification]
#[verifier::external_body]
#[verifier::reject_recursive_types(T)]
pub struct ExRefCell<T: ?Sized>(std::cell::RefCell<T>);

/// Calls `std::path::Path::join`: `rel` adjoined to `root`.
///
/// Nothing is claimed of the resulting path: its meaning is that of the platform's paths.
#[verifier::external_body]
pub(crate) fn join_path(root: &Path, rel: &str) -> (res: PathBuf) {
    root.join(rel)
}

/// The path that `std::path::PathBuf::from` makes of a string with the characters `s`.
pub uninterp spec fn path_of(s: Seq<char>) -> PathBuf;

/// Calls `std::path::PathBuf::from` on a string: the path made of its characters, the same path
/// for the same characters.
///
/// Nothing more is claimed of the path: its meaning is that of the platform's paths.
#[verifier::external_body]
pub(crate) fn path_of_string(s: String) -> (res: PathBuf)
    ensures
        res == path_of(s@),
{
    PathBuf::from(s)
}

/// Calls `std::string::String::push`: appends `c` to the end of `s`.
#[verifier::external_body]
pub(crate) fn push_char(s: &mut String, c: char)
    ensures
        final(s)@ == old(s)@.push(c),
{
    s.push(c)
}

/// Calls `std::cell::RefCell::new`.
///
/// Nothing is claimed of the cell: what it holds may change through any shared handle on it.
#[verifier::external_body]
fn new_cell<T>(value: T) -> (res: RefCell<T>) {
    RefCell::new(value)
}

/// Class of types that can be loaded.
pub trait Load: Sized {
    /// Arguments passed at loading.
    type Args: Clone;

    /// Name of the type, used as the directory of its resources.
    fn ty_str() -> &'static str;
}

/// Class of types that can be reloaded.
///
/// The idea is to simply recover the arguments used when loading.
pub trait Reload: Load {
    /// Provide the arguments to use to reload a resource.
    fn reload_args(&self) -> Self::Args;
}

/// Default implementation for types which are loaded without any arguments.
impl<T: Load<Args = ()>> Reload for T {
    fn reload_args(&self) -> (res: ()) {
    }
}

/// The key of the resource `key` of a type named `ty_str`: `ty_str/key`.
pub open spec fn resource_key_of(ty_str: Seq<char>, key: Seq<char>) -> Seq<char> {
    ty_str + "/"@ + key
}

/// The key under which a resource is cached, relative to the root of the resources.
pub fn resource_key(ty_str: &str, key: &str) -> (res: String)
    ensures
        res@ == resource_key_of(ty_str@, key@),
{
    let mut s = String::from_str(ty_str);
    s.append("/");
    s.append(key);
    s
}

/// The path of the resource `key` of type `T`, under the root of the resources.
pub fn resource_path<T: Load>(root: &Path, key: &str) -> PathBuf {
    let k = resource_key(T::ty_str(), key);
    join_path(root, k.as_str())
}

/// Calls `<std::path::PathBuf as Clone>::clone`: a copy of the same path.
#[verifier::external_body]
fn clone_path(p: &PathBuf) -> (res: PathBuf)
    ensures
        res == *p,
{
    p.clone()
}

/// Error that might occur while loading a resource.
#[derive(Debug, Eq, PartialEq)]
pub enum LoadError {
    /// The file was not found.
    FileNotFound(PathBuf),
    /// The file wasn’t correctly parsed.
    ParseFailed(String),
    /// The file wasn’t correctly converted, even though it might have been parsed.
    ConversionFailed(String),
}

/// Resources are wrapped in this type.
#[verifier::reject_recursive_types(T)]
pub struct Res<T>(Rc<RefCell<T>>);

impl<T> Res<T> {
    /// The shared cell of the resource.
    pub closed spec fn cell(&self) -> Rc<RefCell<T>> {
        self.0
    }

    /// Create a new resource.
    pub fn new(resource: T) -> (res: Self) {
        Res(Rc::new(new_cell(resource)))
    }

    /// Obtain a `Rc` on the wrapped resource.
    pub fn as_rc(&self) -> (res: &Rc<RefCell<T>>)
        ensures
            *res == self.cell(),
    {
        &self.0
    }
}

impl<T> Clone for Res<T> {
    /// Another handle on the same resource.
    fn clone(&self) -> (res: Self)
        ensures
            res.cell() == self.cell(),
    {
        Res(Rc::clone(&self.0))
    }
}

impl<T> std::ops::Deref for Res<T> {
    type Target = RefCell<T>;

    /// The cell of the resource.
    fn deref(&self) -> (res: &RefCell<T>)
        ensures
            *res == *self.cell(),
    {
        &*self.0
    }
}

impl<T> From<Rc<RefCell<T>>> for Res<T> {
    fn from(rc: Rc<RefCell<T>>) -> (res: Self) {
        Res(rc)
    }
}

impl<T> vstd::std_specs::convert::FromSpecImpl<Rc<RefCell<T>>> for Res<T> {
    open spec fn obeys_from_spec() -> bool {
        true
    }

    closed spec fn from_spec(rc: Rc<RefCell<T>>) -> Self {
        Res(rc)
    }
}

impl Clone for LoadError {
    fn clone(&self) -> (res: Self)
        ensures
            res == *self,
    {
        match self {
            LoadError::FileNotFound(p) => LoadError::FileNotFound(clone_path(p)),
            LoadError::ParseFailed(s) => LoadError::ParseFailed(s.clone()),
            LoadError::ConversionFailed(s) => LoadError::ConversionFailed(s.clone()),
        }
    }
}

/// Error that might happen when creating a resource cache.
#[derive(Debug, Eq, PartialEq)]
pub enum ResCacheError {
    /// The root path for the resources was not found.
    RootDoesDotExit(PathBuf),
}

impl Clone for ResCacheError {
    fn clone(&self) -> (res: Self)
        ensures
            res == *self,
    {
        match self {
            ResCacheError::RootDoesDotExit(p) => ResCacheError::RootDoesDotExit(clone_path(p)),
        }
    }
}

/// Time to await after a resource update to establish that it should be reloaded, in
/// milliseconds.
pub const UPDATE_AWAIT_TIME_MS: u64 = 1000;

/// Milliseconds from `since` to `now`; none, rather than a negative duration, if `now` comes
/// first.
pub open spec fn elapsed_ms(now: u64, since: u64) -> u64 {
    if now >= since {
        (now - since) as u64
    } else {
        0
    }
}

/// The times and reloads after one file event `(key, time)`: a watched resource is reloaded if
/// its last update is at least [`UPDATE_AWAIT_TIME_MS`] old, and its last update becomes the
/// event's time; an event on a resource that is not watched changes nothing.
pub open spec fn sync_event(times: Map<Seq<char>, u64>, key: Seq<char>, t: u64) -> (
    Map<Seq<char>, u64>,
    Seq<Seq<char>>,
) {
    if times.contains_key(key) {
        let reload = if elapsed_ms(t, times[key]) >= UPDATE_AWAIT_TIME_MS {
            seq![key]
        } else {
            Seq::empty()
        };
        (times.insert(key, t), reload)
    } else {
        (times, Seq::empty())
    }
}

/// The times and the resources to reload, in order, after a batch of file events.
pub open spec fn sync_events(times: Map<Seq<char>, u64>, events: Seq<(Seq<char>, u64)>) -> (
    Map<Seq<char>, u64>,
    Seq<Seq<char>>,
)
    decreases events.len(),
{
    if events.len() == 0 {
        (times, Seq::empty())
    } else {
        let (m, r) = sync_events(times, events.drop_last());
        let (m2, r2) = sync_event(m, events.last().0, events.last().1);
        (m2, r + r2)
    }
}

/// Whether no key occurs twice among the entries.
pub open spec fn distinct_keys(e: Seq<(Seq<char>, u64)>) -> bool {
    forall|i: int, j: int| 0 <= i < j < e.len() ==> #[trigger] e[i].0 != #[trigger] e[j].0
}

/// Whether `k` is the key of some entry.
pub open spec fn has_key(e: Seq<(Seq<char>, u64)>, k: Seq<char>) -> bool {
    exists|i: int| 0 <= i < e.len() && #[trigger] e[i].0 == k
}

/// The map from keys to times that entries with distinct keys stand for.
pub open spec fn times_of(e: Seq<(Seq<char>, u64)>) -> Map<Seq<char>, u64> {
    Map::new(
        |k: Seq<char>| has_key(e, k),
        |k: Seq<char>| e[choose|i: int| 0 <= i < e.len() && #[trigger] e[i].0 == k].1,
    )
}

proof fn lemma_times_at(e: Seq<(Seq<char>, u64)>, i: int)
    requires
        distinct_keys(e),
        0 <= i < e.len(),
    ensures
        times_of(e).contains_key(e[i].0),
        times_of(e)[e[i].0] == e[i].1,
{
    let k = e[i].0;
    assert(has_key(e, k));
    let j = choose|j: int| 0 <= j < e.len() && #[trigger] e[j].0 == k;
    assert(j == i);
}

proof fn lemma_times_set(e: Seq<(Seq<char>, u64)>, i: int, k: Seq<char>, t: u64)
    requires
        distinct_keys(e),
        0 <= i < e.len(),
        e[i].0 == k,
    ensures
        distinct_keys(e.update(i, (k, t))),
        times_of(e.update(i, (k, t))) == times_of(e).insert(k, t),
{
    let f = e.update(i, (k, t));
    assert(distinct_keys(f)) by {
        assert forall|a: int, b: int| 0 <= a < b < f.len() implies #[trigger] f[a].0 != #[trigger] f[b].0 by {
            assert(e[a].0 != e[b].0);
        }
    }
    assert forall|x: Seq<char>| has_key(f, x) == (has_key(e, x) || x == k) by {
        if has_key(f, x) {
            let j = choose|j: int| 0 <= j < f.len() && #[trigger] f[j].0 == x;
            assert(e[j].0 == x);
        }
        if has_key(e, x) {
            let j = choose|j: int| 0 <= j < e.len() && #[trigger] e[j].0 == x;
            assert(f[j].0 == x);
        }
        if x == k {
            assert(f[i].0 == x);
        }
    }
    assert forall|x: Seq<char>| #[trigger] times_of(f).contains_key(x) implies times_of(f)[x]
        == times_of(e).insert(k, t)[x] by {
        let j = choose|j: int| 0 <= j < f.len() && #[trigger] f[j].0 == x;
        lemma_times_at(f, j);
        if x != k {
            assert(j != i);
            lemma_times_at(e, j);
        } else {
            assert(j == i);
        }
    }
    assert(times_of(f) =~= times_of(e).insert(k, t));
}

proof fn lemma_times_push(e: Seq<(Seq<char>, u64)>, k: Seq<char>, t: u64)
    requires
        distinct_keys(e),
        !has_key(e, k),
    ensures
        distinct_keys(e.push((k, t))),
        times_of(e.push((k, t))) == times_of(e).insert(k, t),
{
    let f = e.push((k, t));
    assert(distinct_keys(f)) by {
        assert forall|a: int, b: int| 0 <= a < b < f.len() implies #[trigger] f[a].0 != #[trigger] f[b].0 by {
            if b == e.len() {
                assert(f[a].0 == e[a].0);
                if e[a].0 == k {
                    assert(has_key(e, k));
                }
            } else {
                assert(e[a].0 != e[b].0);
            }
        }
    }
    assert forall|x: Seq<char>| has_key(f, x) == (has_key(e, x) || x == k) by {
        if has_key(f, x) {
            let j = choose|j: int| 0 <= j < f.len() && #[trigger] f[j].0 == x;
            if j < e.len() {
                assert(e[j].0 == x);
            }
        }
        if has_key(e, x) {
            let j = choose|j: int| 0 <= j < e.len() && #[trigger] e[j].0 == x;
            assert(f[j].0 == x);
        }
        if x == k {
            assert(f[e.len() as int].0 == x);
        }
    }
    assert forall|x: Seq<char>| #[trigger] times_of(f).contains_key(x) implies times_of(f)[x]
        == times_of(e).insert(k, t)[x] by {
        let j = choose|j: int| 0 <= j < f.len() && #[trigger] f[j].0 == x;
        lemma_times_at(f, j);
        if j < e.len() {
            assert(f[j] == e[j]);
            lemma_times_at(e, j);
        }
    }
    assert(times_of(f) =~= times_of(e).insert(k, t));
}

/// The last update time of each watched resource, by key.
pub struct UpdateTimes {
    entries: Vec<(String, u64)>,
}

impl UpdateTimes {
    /// The keys and last update times of the watched resources.
    pub closed spec fn entries_view(&self) -> Seq<(Seq<char>, u64)> {
        self.entries@.map_values(|e: (String, u64)| (e.0@, e.1))
    }

    /// The last update time of each watched resource.
    pub closed spec fn view(&self) -> Map<Seq<char>, u64> {
        times_of(self.entries_view())
    }

    /// No key is watched twice.
    pub closed spec fn wf(&self) -> bool {
        distinct_keys(self.entries_view())
    }

    /// No resource is watched.
    pub fn new() -> (res: Self)
        ensures
            res.wf(),
            res.view() == Map::<Seq<char>, u64>::empty(),
    {
        let res = UpdateTimes { entries: Vec::new() };
        assert(res.view() =~= Map::<Seq<char>, u64>::empty());
        res
    }

    fn find(&self, key: &str) -> (res: Option<usize>)
        requires
            self.wf(),
        ensures
            match res {
                Some(i) => i < self.entries_view().len() && self.entries_view()[i as int].0 == key@,
                None => !has_key(self.entries_view(), key@),
            },
    {
        let mut i: usize = 0;
        while i < self.entries.len()
            invariant
                i <= self.entries@.len(),
                self.entries_view().len() == self.entries@.len(),
                forall|j: int| 0 <= j < i ==> #[trigger] self.entries_view()[j].0 != key@,
            decreases self.entries@.len() - i,
        {
            assert(self.entries_view()[i as int].0 == self.entries@[i as int].0@);
            if self.entries[i].0 == String::from_str(key) {
                return Some(i);
            }
            i = i + 1;
        }
        None
    }

    /// The last update time of a resource, if it is watched.
    pub fn last_update(&self, key: &str) -> (res: Option<u64>)
        requires
            self.wf(),
        ensures
            match res {
                Some(t) => self.view().contains_key(key@) && self.view()[key@] == t,
                None => !self.view().contains_key(key@),
            },
    {
        match self.find(key) {
            Some(i) => {
                proof {
                    lemma_times_at(self.entries_view(), i as int);
                }
                assert(self.entries_view()[i as int].1 == self.entries@[i as int].1);
                Some(self.entries[i].1)
            },
            None => None,
        }
    }

    /// Watch a resource, last updated at `now`.
    pub fn watch(&mut self, key: &str, now: u64)
        requires
            old(self).wf(),
        ensures
            final(self).wf(),
            final(self).view() == old(self).view().insert(key@, now),
    {
        let ghost before = self.entries_view();
        match self.find(key) {
            Some(i) => {
                let entry = (String::from_str(key), now);
                let ghost raw = self.entries@;
                self.entries.set(i, entry);
                assert(self.entries@ == raw.update(i as int, entry));
                assert(self.entries_view() =~= before.update(i as int, (key@, now)));
                proof {
                    lemma_times_set(before, i as int, key@, now);
                }
            },
            None => {
                let entry = (String::from_str(key), now);
                let ghost raw = self.entries@;
                self.entries.push(entry);
                assert(self.entries@ == raw.push(entry));
                assert(self.entries_view() =~= before.push((key@, now)));
                proof {
                    lemma_times_push(before, key@, now);
                }
            },
        }
    }

    /// Synchronize after a batch of file events, each a resource key and the time the file
    /// changed: return the resources to reload, in the order of the events. A watched resource
    /// is reloaded when its last update is at least [`UPDATE_AWAIT_TIME_MS`] old; either way its
    /// last update becomes the event's time. Events on resources that are not watched are
    /// ignored.
    pub fn sync(&mut self, dirty: &[(String, u64)]) -> (res: Vec<String>)
        requires
            old(self).wf(),
        ensures
            final(self).wf(),
            (final(self).view(), res@.map_values(|k: String| k@)) == sync_events(
                old(self).view(),
                dirty@.map_values(|e: (String, u64)| (e.0@, e.1)),
            ),
    {
        let ghost events = dirty@.map_values(|e: (String, u64)| (e.0@, e.1));
        let mut reloads: Vec<String> = Vec::new();
        let mut n: usize = 0;
        assert(events.take(0) =~= Seq::<(Seq<char>, u64)>::empty());
        assert(reloads@.map_values(|k: String| k@) =~= Seq::<Seq<char>>::empty());
        while n < dirty.len()
            invariant
                n <= dirty@.len(),
                events == dirty@.map_values(|e: (String, u64)| (e.0@, e.1)),
                self.wf(),
                (self.view(), reloads@.map_values(|k: String| k@)) == sync_events(
                    old(self).view(),
                    events.take(n as int),
                ),
            decreases dirty@.len() - n,
        {
            let key = dirty[n].0.as_str();
            let t = dirty[n].1;
            assert(events.take(n + 1).drop_last() =~= events.take(n as int));
            assert(events.take(n + 1).last() == (key@, t));
            let ghost before = reloads@.map_values(|k: String| k@);
            match self.last_update(key) {
                Some(last) => {
                    let elapsed = if t >= last {
                        t - last
                    } else {
                        0
                    };
                    if elapsed >= UPDATE_AWAIT_TIME_MS {
                        reloads.push(String::from_str(key));
                        assert(reloads@.map_values(|k: String| k@) =~= before + seq![key@]);
                    } else {
                        assert(before =~= before + Seq::<Seq<char>>::empty());
                    }
                    self.watch(key, t);
                },
                None => {
                    assert(before =~= before + Seq::<Seq<char>>::empty());
                },
            }
            n = n + 1;
        }
        assert(events.take(dirty@.len() as int) =~= events);
        reloads
    }
}

/// Synchronizing never starts or stops watching a resource, and reloads only watched resources.
pub proof fn lemma_sync_keeps_watched(times: Map<Seq<char>, u64>, events: Seq<(Seq<char>, u64)>)
    ensures
        sync_events(times, events).0.dom() == times.dom(),
        forall|i: int|
            0 <= i < sync_events(times, events).1.len() ==> times.contains_key(
                #[trigger] sync_events(times, events).1[i],
            ),
    decreases events.len(),
{
    if events.len() > 0 {
        lemma_sync_keeps_watched(times, events.drop_last());
        let (m, r) = sync_events(times, events.drop_last());
        let (k, t) = events.last();
        let (m2, r2) = sync_event(m, k, t);
        if m.contains_key(k) {
            assert(m2.dom() =~= m.dom());
        }
        assert forall|i: int| 0 <= i < (r + r2).len() implies times.contains_key(#[trigger] (r + r2)[i]) by {
            if i >= r.len() {
                assert(r2[i - r.len()] == k);
                assert(m.dom().contains(k));
            }
        }
    }
}

} // verus!
