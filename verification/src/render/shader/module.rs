//! Shader module.
//!
//! Shader functions and declarations can be grouped in so-called *modules*. Modules structure is
//! inherently tied to the filesystem's tree: the module `Foo.Bar` lives in `Foo/Bar.spsl`.
//!
//! Modules import other modules; [`Module::deps`] resolves the imports transitively, in an order
//! in which every module comes after the modules it imports, and refuses import cycles.

use std::path::PathBuf;
use vstd::prelude::*;
use vstd::std_specs::iter::IteratorSpec;
use vstd::string::StringExecFns;

use crate::render::shader::ast::{
    clone_string, clone_vec, Declaration, ExternalDeclaration, FunctionDefinition,
    SingleDeclaration, SpecDeclaration, SpecExternalDeclaration, SpecFunctionDefinition,
    SpecSingleDeclaration, SpecSingleDeclarationNoType, SpecStorageQualifier,
    SpecTypeQualifierSpec, StorageQualifier, SyntaxClone, TypeQualifier, TypeQualifierSpec,
    clone_opt_qualifier, opt_qualifier_view, ArrayedIdentifier, BasicType,
    FunctionParameterDeclaration, FullySpecifiedType, InitDeclaratorList, SpecArrayedIdentifier,
    SpecFullySpecifiedType, SpecFunctionParameterDeclaration, SpecInitDeclaratorList,
    SpecStructFieldSpecifier, SpecTypeSpecifier, SpecTypeSpecifierNonArray, StructFieldSpecifier,
    TypeSpecifier, TypeSpecifierNonArray, clone_array_spec, lemma_view_fields, SingleDeclarationNoType,
};
use crate::resource::{path_of, path_of_string, push_char};
use crate::render::shader::lang::syntax::{
    ImportList, Module as SyntaxModule, ModulePath, SpecImportList, SpecModule, single_ext_decl,
    single_to_external_declaration,
};

verus! {

/// Key of a module: its dotted path, as in `Foo.Bar`.
#[derive(Debug)]
pub struct ModuleKey(String);

impl View for ModuleKey {
    type V = Seq<char>;

    closed spec fn view(&self) -> Seq<char> {
        self.0@
    }
}

impl ModuleKey {
    /// Create a key from its dotted path.
    pub fn new(key: &str) -> (res: Self)
        ensures
            res@ == key@,
    {
        ModuleKey(String::from_str(key))
    }

    /// The dotted path of the key.
    pub fn as_str(&self) -> (res: &str)
        ensures
            res@ == self@,
    {
        self.0.as_str()
    }

    /// Where the module lives on disk, relative to the root of the modules: its dotted path
    /// with slashes for dots, and the `.spsl` extension.
    pub fn rel_path(&self) -> (res: String)
        ensures
            res@ == key_rel_path(self@),
    {
        let mut s = String::new();
        let ghost mut i: int = 0;
        let mut it = self.0.as_str().chars();
        let ghost chars = self@;
        proof {
            broadcast use vstd::string::axiom_spec_iter;
        }
        assert(it.remaining() == chars);
        loop
            invariant
                it.obeys_prophetic_iter_laws(),
                0 <= i <= chars.len(),
                it.remaining() == chars.skip(i),
                s@ == slashed(chars.take(i)),
            ensures
                i == chars.len(),
                s@ == slashed(chars.take(i)),
            decreases chars.len() - i,
        {
            let next = it.next();
            proof {
                broadcast use vstd::string::next_postcondition;
            }
            match next {
                Some(c) => {
                    assert(chars.skip(i).len() > 0);
                    assert(c == chars[i]);
                    assert(chars.take(i + 1).drop_last() =~= chars.take(i));
                    if c == '.' {
                        push_char(&mut s, '/');
                    } else {
                        push_char(&mut s, c);
                    }
                    assert(chars.skip(i).drop_first() =~= chars.skip(i + 1));
                    assert(s@ =~= slashed(chars.take(i + 1)));
                    proof {
                        i = i + 1;
                    }
                },
                None => {
                    assert(i == chars.len());
                    break;
                },
            }
        }
        assert(chars.take(i) =~= chars);
        s.append(".spsl");
        s
    }

    /// Where the module lives on disk, relative to the root of the modules.
    pub fn key_to_path(&self) -> (res: PathBuf)
        ensures
            res == path_of(key_rel_path(self@)),
    {
        path_of_string(self.rel_path())
    }
}

/// A string with every dot turned into a slash.
pub open spec fn slashed(s: Seq<char>) -> Seq<char> {
    s.map_values(|c: char| if c == '.' { '/' } else { c })
}

/// The path of a module, relative to the root of the modules, from its key.
pub open spec fn key_rel_path(key: Seq<char>) -> Seq<char> {
    slashed(key) + ".spsl"@
}

impl Clone for ModuleKey {
    fn clone(&self) -> (res: Self)
        ensures
            res@ == self@,
    {
        ModuleKey(clone_string(&self.0))
    }
}

impl PartialEq for ModuleKey {
    fn eq(&self, other: &Self) -> (res: bool) {
        self.0 == other.0
    }
}

impl vstd::std_specs::cmp::PartialEqSpecImpl for ModuleKey {
    open spec fn obeys_eq_spec() -> bool {
        true
    }

    open spec fn eq_spec(&self, other: &Self) -> bool {
        self@ == other@
    }
}

impl Eq for ModuleKey {}

/// The characters of a list of keys.
pub open spec fn keys_view(v: Seq<ModuleKey>) -> Seq<Seq<char>> {
    v.map_values(|k: ModuleKey| k@)
}

/// Shader module.
///
/// A shader module is a piece of GLSL code with optional import lists (dependencies).
#[derive(Debug, PartialEq)]
pub struct Module(pub SyntaxModule);

impl View for Module {
    type V = SpecModule;

    open spec fn view(&self) -> SpecModule {
        self.0@
    }
}

/// Class of errors that can happen in dependencies.
#[derive(Debug, PartialEq)]
pub enum DepsError {
    /// If a module's dependencies has any cycle, the dependencies are unusable and the cycle is
    /// returned: the module whose import closes it, then the module it imports.
    Cycle(ModuleKey, ModuleKey),
    /// A module could not be loaded.
    LoadError(ModuleKey),
}

pub enum SpecDepsError {
    Cycle(Seq<char>, Seq<char>),
    LoadError(Seq<char>),
}

impl View for DepsError {
    type V = SpecDepsError;

    open spec fn view(&self) -> SpecDepsError {
        match self {
            DepsError::Cycle(a, b) => SpecDepsError::Cycle(a@, b@),
            DepsError::LoadError(k) => SpecDepsError::LoadError(k@),
        }
    }
}

/// The modules available to a dependency search, each under its key.
///
/// A later insertion under the same key replaces an earlier one.
pub struct ModuleStore {
    entries: Vec<(ModuleKey, Module)>,
}

/// The contents of a store: pairs of key and module, the most recently inserted first.
pub type StoreView = Seq<(Seq<char>, SpecModule)>;

/// The module stored under `k`, if any.
pub open spec fn store_lookup(s: StoreView, k: Seq<char>) -> Option<SpecModule>
    decreases s.len(),
{
    if s.len() == 0 {
        None
    } else if s[0].0 == k {
        Some(s[0].1)
    } else {
        store_lookup(s.drop_first(), k)
    }
}

impl View for ModuleStore {
    type V = StoreView;

    closed spec fn view(&self) -> StoreView {
        self.entries@.map_values(|e: (ModuleKey, Module)| (e.0@, e.1@))
    }
}

impl ModuleStore {
    /// An empty store.
    pub fn new() -> (res: Self)
        ensures
            forall|k: Seq<char>| store_lookup(res@, k) is None,
    {
        let res = ModuleStore { entries: Vec::new() };
        assert(res@ =~= Seq::<(Seq<char>, SpecModule)>::empty());
        res
    }

    /// Store a module under a key.
    pub fn insert(&mut self, key: ModuleKey, module: Module)
        ensures
            final(self)@ == seq![(key@, module@)] + old(self)@,
            store_lookup(final(self)@, key@) == Some(module@),
            forall|k: Seq<char>|
                k != key@ ==> store_lookup(final(self)@, k) == store_lookup(old(self)@, k),
    {
        let ghost kv = key@;
        let ghost mv = module@;
        self.entries.insert(0, (key, module));
        assert(self@ =~= seq![(kv, mv)] + old(self)@);
        assert(self@.drop_first() =~= old(self)@);
    }

    /// Get the module stored under a key.
    pub fn get(&self, key: &ModuleKey) -> (res: Option<&Module>)
        ensures
            match res {
                Some(m) => store_lookup(self@, key@) == Some(m@),
                None => store_lookup(self@, key@) is None,
            },
    {
        let mut i: usize = 0;
        assert(self@.skip(0) =~= self@);
        while i < self.entries.len()
            invariant
                i <= self.entries@.len(),
                self@.len() == self.entries@.len(),
                store_lookup(self@, key@) == store_lookup(self@.skip(i as int), key@),
            decreases self.entries@.len() - i,
        {
            assert(self@.skip(i as int)[0] == self@[i as int]);
            if self.entries[i].0.0 == key.0 {
                return Some(&self.entries[i].1);
            }
            assert(self@.skip(i as int).drop_first() =~= self@.skip(i + 1));
            i = i + 1;
        }
        None
    }
}

/// The parts of a path, joined by a separator.
pub open spec fn join_with(parts: Seq<Seq<char>>, sep: Seq<char>) -> Seq<char>
    decreases parts.len(),
{
    if parts.len() == 0 {
        Seq::empty()
    } else if parts.len() == 1 {
        parts[0]
    } else {
        join_with(parts.drop_last(), sep) + sep + parts.last()
    }
}

/// Key of the module an import list reads from: its path, joined by dots.
pub open spec fn import_key(il: SpecImportList) -> Seq<char> {
    join_with(il.module, seq!['.'])
}

/// Keys of the modules a module imports, in order.
pub open spec fn import_keys(m: SpecModule) -> Seq<Seq<char>> {
    m.imports.map_values(|il: SpecImportList| import_key(il))
}

/// Key of the module at a module path.
pub fn module_path_key(p: &ModulePath) -> (res: ModuleKey)
    ensures
        res@ == join_with(p@, seq!['.']),
{
    let mut s = String::new();
    let mut i: usize = 0;
    proof {
        reveal_strlit(".");
    }
    while i < p.path.len()
        invariant
            i <= p.path@.len(),
            s@ == join_with(p@.take(i as int), seq!['.']),
            "."@ == seq!['.'],
        decreases p.path@.len() - i,
    {
        assert(p@.take(i + 1).drop_last() =~= p@.take(i as int));
        if i > 0 {
            s.append(".");
        }
        s.append(p.path[i].as_str());
        i = i + 1;
    }
    assert(p@.take(p.path@.len() as int) =~= p@);
    ModuleKey(s)
}

/// Number of store entries whose key is not among `parents`.
pub open spec fn unvisited(s: StoreView, parents: Seq<Seq<char>>) -> nat
    decreases s.len(),
{
    if s.len() == 0 {
        0
    } else {
        unvisited(s.drop_first(), parents) + if parents.contains(s[0].0) {
            0nat
        } else {
            1nat
        }
    }
}

/// Adding a stored key that is not yet among `parents` leaves fewer unvisited entries.
pub proof fn lemma_unvisited_decreases(s: StoreView, parents: Seq<Seq<char>>, m: Seq<char>)
    ensures
        unvisited(s, parents.push(m)) <= unvisited(s, parents),
        store_lookup(s, m) is Some && !parents.contains(m) ==> unvisited(s, parents.push(m))
            < unvisited(s, parents),
    decreases s.len(),
{
    if s.len() > 0 {
        lemma_unvisited_decreases(s.drop_first(), parents, m);
        assert(parents.push(m).contains(s[0].0) == (parents.contains(s[0].0) || s[0].0 == m)) by {
            if parents.contains(s[0].0) {
                let j = choose|j: int| 0 <= j < parents.len() && parents[j] == s[0].0;
                assert(parents.push(m)[j] == s[0].0);
            }
            if s[0].0 == m {
                assert(parents.push(m)[parents.len() as int] == m);
            }
        }
    }
}

/// The dependency search.
///
/// Visit the imports `imports` of a module, in order, with `parents` the modules on the path
/// from the root to that module, that module last, and `deps` the modules already fully
/// resolved: an import already resolved is skipped; an import that is one of its own ancestors
/// closes a cycle, reported as the importing module and the import; an import that is not in
/// the store cannot be loaded; any other import has its own imports resolved first, then is
/// appended to the resolved modules.
pub open spec fn dfs(
    s: StoreView,
    parents: Seq<Seq<char>>,
    deps: Seq<Seq<char>>,
    imports: Seq<Seq<char>>,
) -> Result<Seq<Seq<char>>, SpecDepsError>
    decreases unvisited(s, parents), imports.len(),
{
    if imports.len() == 0 {
        Ok(deps)
    } else {
        let m = imports[0];
        if deps.contains(m) {
            dfs(s, parents, deps, imports.drop_first())
        } else if parents.contains(m) {
            Err(SpecDepsError::Cycle(parents.last(), m))
        } else {
            match store_lookup(s, m) {
                None => Err(SpecDepsError::LoadError(m)),
                Some(md) => {
                    proof {
                        lemma_unvisited_decreases(s, parents, m);
                    }
                    match dfs(s, parents.push(m), deps, import_keys(md)) {
                        Err(e) => Err(e),
                        Ok(d2) => dfs(s, parents, d2.push(m), imports.drop_first()),
                    }
                }
            }
        }
    }
}

/// The dependencies of module `m`, stored under key `k`.
pub open spec fn module_deps(s: StoreView, m: SpecModule, k: Seq<char>) -> Result<
    Seq<Seq<char>>,
    SpecDepsError,
> {
    dfs(s, seq![k], Seq::empty(), import_keys(m))
}

fn contains_key(v: &Vec<ModuleKey>, k: &ModuleKey) -> (res: bool)
    ensures
        res == keys_view(v@).contains(k@),
{
    let mut i: usize = 0;
    while i < v.len()
        invariant
            i <= v@.len(),
            forall|j: int| 0 <= j < i ==> v@[j]@ != k@,
        decreases v@.len() - i,
    {
        if v[i].0 == k.0 {
            assert(keys_view(v@)[i as int] == k@);
            return true;
        }
        i = i + 1;
    }
    assert(!keys_view(v@).contains(k@)) by {
        if keys_view(v@).contains(k@) {
            let j = choose|j: int| 0 <= j < keys_view(v@).len() && keys_view(v@)[j] == k@;
            assert(v@[j]@ == k@);
        }
    }
    false
}

impl Module {
    /// Retrieve all the modules this module depends on, without duplicates.
    pub fn deps(&self, store: &ModuleStore, key: &ModuleKey) -> (res: Result<
        Vec<ModuleKey>,
        DepsError,
    >)
        ensures
            match res {
                Ok(v) => module_deps(store@, self@, key@) == Ok::<Seq<Seq<char>>, SpecDepsError>(
                    keys_view(v@),
                ),
                Err(e) => module_deps(store@, self@, key@) == Err::<Seq<Seq<char>>, SpecDepsError>(
                    e@,
                ),
            },
            res matches Ok(v) ==> well_ordered_deps(store@, self@, key@, keys_view(v@)),
            res matches Err(e) ==> reported_truly(store@, self@, key@, e@),
    {
        proof {
            lemma_deps_well_ordered(store@, self@, key@);
            lemma_deps_errors_reported_truly(store@, self@, key@);
        }
        let mut deps: Vec<ModuleKey> = Vec::new();
        let mut parents: Vec<ModuleKey> = Vec::new();
        assert(keys_view(parents@).push(key@) =~= seq![key@]);
        assert(keys_view(deps@) =~= Seq::<Seq<char>>::empty());
        match self.deps_no_cycle(store, key, &mut parents, &mut deps) {
            Ok(()) => Ok(deps),
            Err(e) => Err(e),
        }
    }

    fn deps_no_cycle(
        &self,
        store: &ModuleStore,
        key: &ModuleKey,
        parents: &mut Vec<ModuleKey>,
        deps: &mut Vec<ModuleKey>,
    ) -> (res: Result<(), DepsError>)
        ensures
            res is Ok ==> dfs(
                store@,
                keys_view(old(parents)@).push(key@),
                keys_view(old(deps)@),
                import_keys(self@),
            ) == Ok::<Seq<Seq<char>>, SpecDepsError>(keys_view(final(deps)@)),
            res is Ok ==> keys_view(final(parents)@) == keys_view(old(parents)@).push(key@),
            res matches Err(e) ==> dfs(
                store@,
                keys_view(old(parents)@).push(key@),
                keys_view(old(deps)@),
                import_keys(self@),
            ) == Err::<Seq<Seq<char>>, SpecDepsError>(e@),
        decreases unvisited(store@, keys_view(old(parents)@).push(key@)),
    {
        parents.push(key.clone());
        let ghost pv = keys_view(parents@);
        let ghost d0 = keys_view(deps@);
        let ghost imports = import_keys(self@);
        assert(pv =~= keys_view(old(parents)@).push(key@));
        assert(imports.skip(0) =~= imports);
        let mut i: usize = 0;
        while i < self.0.imports.len()
            invariant
                i <= self.0.imports@.len(),
                imports == import_keys(self@),
                imports.len() == self.0.imports@.len(),
                keys_view(parents@) == pv,
                pv == keys_view(old(parents)@).push(key@),
                d0 == keys_view(old(deps)@),
                dfs(store@, pv, d0, imports) == dfs(
                    store@,
                    pv,
                    keys_view(deps@),
                    imports.skip(i as int),
                ),
            decreases self.0.imports@.len() - i,
        {
            let module_key = module_path_key(&self.0.imports[i].module);
            assert(imports.skip(i as int)[0] == module_key@);
            assert(imports.skip(i as int).drop_first() =~= imports.skip(i + 1));
            // check whether it's already in the deps
            if contains_key(deps, &module_key) {
                i = i + 1;
                continue ;
            }
            // check whether the module was already visited

            if contains_key(parents, &module_key) {
                let importer = key.clone();
                assert(pv.last() == key@);
                return Err(DepsError::Cycle(importer, module_key));
            }
            // get the dependency module

            let module = match store.get(&module_key) {
                Some(m) => m,
                None => {
                    return Err(DepsError::LoadError(module_key));
                },
            };
            proof {
                lemma_unvisited_decreases(store@, pv, module_key@);
            }
            match module.deps_no_cycle(store, &module_key, parents, deps) {
                Ok(()) => {},
                Err(e) => {
                    return Err(e);
                },
            }
            let ghost before_push = keys_view(deps@);
            deps.push(module_key);
            assert(keys_view(deps@) =~= before_push.push(module_key@));
            let ghost before_pop = parents@;
            assert(keys_view(before_pop) == pv.push(module_key@));
            assert(before_pop.len() == keys_view(before_pop).len());
            let _ = parents.pop();
            assert(parents@ == before_pop.subrange(0, before_pop.len() - 1));
            assert forall|j: int| 0 <= j < pv.len() implies keys_view(parents@)[j] == pv[j] by {
                assert(keys_view(before_pop)[j] == pv.push(module_key@)[j]);
            }
            assert(keys_view(parents@) =~= pv);
            i = i + 1;
        }
        assert(imports.skip(i as int) =~= Seq::<Seq<char>>::empty());
        Ok(())
    }
}


/// What a successful search from `deps` with ancestors `parents` over `imports` guarantees of
/// its result `r`: `deps` is kept as a prefix; every module added after it is stored, is not an
/// ancestor, appears once, and comes after every module it imports; every import is in `r`.
pub open spec fn resolved(
    s: StoreView,
    parents: Seq<Seq<char>>,
    deps: Seq<Seq<char>>,
    imports: Seq<Seq<char>>,
    r: Seq<Seq<char>>,
) -> bool {
    &&& deps.len() <= r.len()
    &&& r.take(deps.len() as int) == deps
    &&& forall|j: int|
        #![trigger r[j]]
        deps.len() <= j < r.len() ==> {
            &&& !parents.contains(r[j])
            &&& store_lookup(s, r[j]) is Some
            &&& !r.take(j).contains(r[j])
        }
    &&& forall|x: Seq<char>| imports.contains(x) ==> r.contains(x)
    &&& forall|j: int, x: Seq<char>|
        #![trigger r[j], r.take(j).contains(x)]
        deps.len() <= j < r.len() && import_keys(store_lookup(s, r[j]).unwrap()).contains(x)
            ==> r.take(j).contains(x)
}

/// A successful search satisfies [`resolved`].
pub proof fn lemma_dfs_resolved(
    s: StoreView,
    parents: Seq<Seq<char>>,
    deps: Seq<Seq<char>>,
    imports: Seq<Seq<char>>,
)
    ensures
        dfs(s, parents, deps, imports) matches Ok(r) ==> resolved(s, parents, deps, imports, r),
    decreases unvisited(s, parents), imports.len(),
{
    if imports.len() == 0 {
        assert(deps.take(deps.len() as int) =~= deps);
    } else {
        let m = imports[0];
        let rest = imports.drop_first();
        if deps.contains(m) {
            lemma_dfs_resolved(s, parents, deps, rest);
            if let Ok(r) = dfs(s, parents, deps, rest) {
                assert forall|x: Seq<char>| imports.contains(x) implies r.contains(x) by {
                    let i = choose|i: int| 0 <= i < imports.len() && imports[i] == x;
                    if i == 0 {
                        let k = choose|k: int| 0 <= k < deps.len() && deps[k] == m;
                        assert(r.take(deps.len() as int)[k] == m);
                        assert(r[k] == m);
                    } else {
                        assert(rest[i - 1] == x);
                    }
                }
            }
        } else if parents.contains(m) {
        } else {
            match store_lookup(s, m) {
                None => {},
                Some(md) => {
                    lemma_unvisited_decreases(s, parents, m);
                    let pm = parents.push(m);
                    lemma_dfs_resolved(s, pm, deps, import_keys(md));
                    match dfs(s, pm, deps, import_keys(md)) {
                        Err(_) => {},
                        Ok(d2) => {
                            let e = d2.push(m);
                            lemma_dfs_resolved(s, parents, e, rest);
                            match dfs(s, parents, e, rest) {
                                Err(_) => {},
                                Ok(r) => {
                                    lemma_combine(s, parents, deps, imports, md, d2, r);
                                },
                            }
                        },
                    }
                },
            }
        }
    }
}

proof fn lemma_combine(
    s: StoreView,
    parents: Seq<Seq<char>>,
    deps: Seq<Seq<char>>,
    imports: Seq<Seq<char>>,
    md: SpecModule,
    d2: Seq<Seq<char>>,
    r: Seq<Seq<char>>,
)
    requires
        imports.len() > 0,
        !deps.contains(imports[0]),
        !parents.contains(imports[0]),
        store_lookup(s, imports[0]) == Some(md),
        resolved(s, parents.push(imports[0]), deps, import_keys(md), d2),
        resolved(s, parents, d2.push(imports[0]), imports.drop_first(), r),
    ensures
        resolved(s, parents, deps, imports, r),
{
    let m = imports[0];
    let rest = imports.drop_first();
    let pm = parents.push(m);
    let e = d2.push(m);
    let n = d2.len() as int;
    // prefixes
    assert(r.take(e.len() as int) == e);
    assert forall|j: int| 0 <= j <= n + 1 implies #[trigger] r.take(j) == e.take(j) by {
        assert(r.take(j) =~= r.take(e.len() as int).take(j));
    }
    assert forall|j: int| 0 <= j <= n implies #[trigger] e.take(j) == d2.take(j) by {
        assert(e.take(j) =~= d2.take(j));
    }
    assert(r.take(deps.len() as int) =~= d2.take(deps.len() as int));
    assert(r[n] == m) by {
        assert(r.take(e.len() as int)[n] == e[n]);
    }
    assert forall|j: int| 0 <= j < n implies #[trigger] r[j] == d2[j] by {
        assert(r.take(e.len() as int)[j] == e[j]);
    }
    // m is not among the modules resolved before it
    assert(!d2.contains(m)) by {
        if d2.contains(m) {
            let k = choose|k: int| 0 <= k < d2.len() && d2[k] == m;
            if k < deps.len() {
                assert(d2.take(deps.len() as int)[k] == m);
                assert(deps[k] == m);
            } else {
                assert(d2[k] == m);
                assert(pm[parents.len() as int] == m);
                assert(pm.contains(d2[k]));
            }
        }
    }
    assert forall|j: int| deps.len() <= j < r.len() implies {
        &&& !parents.contains(#[trigger] r[j])
        &&& store_lookup(s, r[j]) is Some
        &&& !r.take(j).contains(r[j])
    } by {
        if j < n {
            assert(r[j] == d2[j]);
            assert(r.take(j) == d2.take(j));
            if parents.contains(d2[j]) {
                let k = choose|k: int| 0 <= k < parents.len() && parents[k] == d2[j];
                assert(pm[k] == d2[j]);
            }
        } else if j == n {
            assert(r.take(j) == d2);
        } else {
        }
    }
    assert forall|x: Seq<char>| imports.contains(x) implies r.contains(x) by {
        let i = choose|i: int| 0 <= i < imports.len() && imports[i] == x;
        if i == 0 {
            assert(r[n] == x);
        } else {
            assert(rest[i - 1] == x);
        }
    }
    assert forall|j: int, x: Seq<char>|
        deps.len() <= j < r.len() && import_keys(store_lookup(s, r[j]).unwrap()).contains(x)
        implies #[trigger] r.take(j).contains(x) by {
        let _ = r[j];
        if j < n {
            assert(r[j] == d2[j]);
            assert(r.take(j) == d2.take(j));
            let _ = d2[j];
            assert(d2.take(j).contains(x));
        } else if j == n {
            assert(r.take(j) == d2);
            assert(d2.contains(x));
        } else {
            assert(r.take(j).contains(x));
        }
    }
}


/// Whether the module stored under `a` imports `b`.
pub open spec fn imports_of(s: StoreView, a: Seq<char>, b: Seq<char>) -> bool {
    import_keys(store_lookup(s, a).unwrap()).contains(b)
}

/// Every module of `r` from position `from` on is among `imports` or imported by a module that
/// comes after it in `r`.
pub open spec fn justified(s: StoreView, imports: Seq<Seq<char>>, r: Seq<Seq<char>>, from: int) -> bool {
    forall|j: int|
        #![trigger r[j]]
        from <= j < r.len() ==> imports.contains(r[j]) || exists|k: int|
            j < k < r.len() && #[trigger] imports_of(s, r[k], r[j])
}

/// The modules a search adds are all imported, by the modules searched or by modules it adds
/// later.
pub proof fn lemma_dfs_justified(
    s: StoreView,
    parents: Seq<Seq<char>>,
    deps: Seq<Seq<char>>,
    imports: Seq<Seq<char>>,
)
    ensures
        dfs(s, parents, deps, imports) matches Ok(r) ==> justified(s, imports, r, deps.len() as int),
    decreases unvisited(s, parents), imports.len(),
{
    if imports.len() > 0 {
        let m = imports[0];
        let rest = imports.drop_first();
        assert forall|x: Seq<char>| rest.contains(x) implies imports.contains(x) by {
            let i = choose|i: int| 0 <= i < rest.len() && rest[i] == x;
            assert(imports[i + 1] == x);
        }
        if deps.contains(m) {
            lemma_dfs_justified(s, parents, deps, rest);
        } else if parents.contains(m) {
        } else {
            match store_lookup(s, m) {
                None => {},
                Some(md) => {
                    lemma_unvisited_decreases(s, parents, m);
                    let pm = parents.push(m);
                    lemma_dfs_justified(s, pm, deps, import_keys(md));
                    lemma_dfs_resolved(s, pm, deps, import_keys(md));
                    match dfs(s, pm, deps, import_keys(md)) {
                        Err(_) => {},
                        Ok(d2) => {
                            let e = d2.push(m);
                            lemma_dfs_justified(s, parents, e, rest);
                            lemma_dfs_resolved(s, parents, e, rest);
                            match dfs(s, parents, e, rest) {
                                Err(_) => {},
                                Ok(r) => {
                                    let n = d2.len() as int;
                                    assert(r.take(e.len() as int) == e);
                                    assert forall|j: int| 0 <= j <= n implies #[trigger] r[j] == e[j] by {
                                        assert(r.take(e.len() as int)[j] == e[j]);
                                    }
                                    assert(imports.contains(m)) by {
                                        assert(imports[0] == m);
                                    }
                                    assert forall|j: int| #![trigger r[j]] deps.len() <= j < r.len() implies
                                        imports.contains(r[j]) || exists|k: int|
                                            j < k < r.len() && #[trigger] imports_of(s, r[k], r[j]) by {
                                        if j < n {
                                            assert(r[j] == d2[j]);
                                            if import_keys(md).contains(d2[j]) {
                                                assert(imports_of(s, r[n], r[j]));
                                            } else {
                                                let k = choose|k: int|
                                                    j < k < d2.len() && #[trigger] imports_of(s, d2[k], d2[j]);
                                                assert(r[k] == d2[k]);
                                                assert(imports_of(s, r[k], r[j]));
                                            }
                                        } else if j == n {
                                            assert(r[j] == m);
                                        } else {
                                            let _ = r[j];
                                        }
                                    }
                                },
                            }
                        },
                    }
                },
            }
        }
    }
}

/// The guarantees on the dependencies `r` of module `m`, stored under key `k`: no module appears
/// twice, `m` itself does not appear, every dependency is a stored module, every module `m`
/// imports is a dependency, every dependency comes after all the modules it imports, and every
/// dependency is imported by `m` or by a dependency that comes after it. Together, the
/// dependencies are exactly the modules that `m` imports, directly or not.
pub open spec fn well_ordered_deps(s: StoreView, m: SpecModule, k: Seq<char>, r: Seq<Seq<char>>) -> bool {
    &&& forall|i: int, j: int| 0 <= i < j < r.len() ==> r[i] != r[j]
    &&& !r.contains(k)
    &&& forall|i: int| 0 <= i < r.len() ==> store_lookup(s, #[trigger] r[i]) is Some
    &&& forall|x: Seq<char>| import_keys(m).contains(x) ==> r.contains(x)
    &&& forall|i: int, x: Seq<char>|
        #![trigger r[i], r.take(i).contains(x)]
        0 <= i < r.len() && import_keys(store_lookup(s, r[i]).unwrap()).contains(x)
            ==> r.take(i).contains(x)
    &&& justified(s, import_keys(m), r, 0)
}

/// The dependencies of a module come without duplicates, never include the module itself, are
/// all stored modules, include every module it imports, list every module after the modules it
/// imports, and hold only modules that it imports, directly or through other dependencies.
pub proof fn lemma_deps_well_ordered(s: StoreView, m: SpecModule, k: Seq<char>)
    ensures
        module_deps(s, m, k) matches Ok(r) ==> well_ordered_deps(s, m, k, r),
{
    let p = seq![k];
    let d = Seq::<Seq<char>>::empty();
    lemma_dfs_resolved(s, p, d, import_keys(m));
    lemma_dfs_justified(s, p, d, import_keys(m));
    if let Ok(r) = module_deps(s, m, k) {
        assert(resolved(s, p, d, import_keys(m), r));
        assert forall|i: int, j: int| 0 <= i < j < r.len() implies r[i] != r[j] by {
            assert(!r.take(j).contains(r[j]));
            assert(r.take(j)[i] == r[i]);
        }
        assert(!r.contains(k)) by {
            if r.contains(k) {
                let i = choose|i: int| 0 <= i < r.len() && r[i] == k;
                assert(!p.contains(r[i]));
                assert(p[0] == k);
            }
        }
        assert forall|i: int| 0 <= i < r.len() implies store_lookup(s, #[trigger] r[i]) is Some by {
            let _ = r[i];
        }
    }
}

/// The imports of the module under key `x`, in a search of the dependencies of module `m`
/// stored under key `k`: those of `m` for `k`, those of the stored module otherwise.
pub open spec fn imports_under(s: StoreView, m: SpecModule, k: Seq<char>, x: Seq<char>) -> Seq<
    Seq<char>,
> {
    if x == k {
        import_keys(m)
    } else {
        import_keys(store_lookup(s, x).unwrap())
    }
}

/// Each module of `p` imports the next one.
pub open spec fn import_chain(s: StoreView, m: SpecModule, k: Seq<char>, p: Seq<Seq<char>>) -> bool {
    forall|i: int| 0 <= i < p.len() - 1 ==> #[trigger] imports_under(s, m, k, p[i]).contains(p[i + 1])
}

/// The import of `b` by `a` closes a cycle: `a` imports `b`, and a chain of imports leads from
/// `b` back to `a`.
pub open spec fn closes_cycle(s: StoreView, m: SpecModule, k: Seq<char>, a: Seq<char>, b: Seq<char>) -> bool {
    &&& imports_under(s, m, k, a).contains(b)
    &&& exists|p: Seq<Seq<char>>| p.len() > 0 && p[0] == b && p.last() == a && import_chain(s, m, k, p)
}

/// Module `x` is imported, directly or not, by the module under key `k`: a chain of imports
/// from `k` ends with a module that imports `x`.
pub open spec fn reached_import(s: StoreView, m: SpecModule, k: Seq<char>, x: Seq<char>) -> bool {
    exists|p: Seq<Seq<char>>|
        p.len() > 0 && p[0] == k && import_chain(s, m, k, p) && imports_under(s, m, k, p.last()).contains(x)
}

/// What the errors of a search report: a cycle that its pair closes, or a module that is
/// imported, directly or not, and is missing from the store.
pub open spec fn reported_truly(s: StoreView, m: SpecModule, k: Seq<char>, e: SpecDepsError) -> bool {
    match e {
        SpecDepsError::Cycle(a, b) => closes_cycle(s, m, k, a, b),
        SpecDepsError::LoadError(x) => store_lookup(s, x) is None && reached_import(s, m, k, x),
    }
}

proof fn lemma_dfs_errors(
    s: StoreView,
    m: SpecModule,
    k: Seq<char>,
    parents: Seq<Seq<char>>,
    deps: Seq<Seq<char>>,
    imports: Seq<Seq<char>>,
)
    requires
        parents.len() > 0,
        parents[0] == k,
        import_chain(s, m, k, parents),
        forall|x: Seq<char>| imports.contains(x) ==> imports_under(s, m, k, parents.last()).contains(x),
    ensures
        dfs(s, parents, deps, imports) matches Err(e) ==> reported_truly(s, m, k, e),
    decreases unvisited(s, parents), imports.len(),
{
    if imports.len() > 0 {
        let x = imports[0];
        let rest = imports.drop_first();
        assert(imports.contains(x));
        assert forall|y: Seq<char>| rest.contains(y) implies imports.contains(y) by {
            let i = choose|i: int| 0 <= i < rest.len() && rest[i] == y;
            assert(imports[i + 1] == y);
        }
        if deps.contains(x) {
            lemma_dfs_errors(s, m, k, parents, deps, rest);
        } else if parents.contains(x) {
            let j = choose|j: int| 0 <= j < parents.len() && parents[j] == x;
            let p = parents.subrange(j, parents.len() as int);
            assert(import_chain(s, m, k, p)) by {
                assert forall|i: int| 0 <= i < p.len() - 1 implies #[trigger] imports_under(
                    s,
                    m,
                    k,
                    p[i],
                ).contains(p[i + 1]) by {
                    assert(p[i] == parents[j + i]);
                    assert(p[i + 1] == parents[j + i + 1]);
                }
            }
            assert(p[0] == x && p.last() == parents.last());
        } else {
            match store_lookup(s, x) {
                None => {
                    assert(parents.last() == parents[parents.len() - 1]);
                },
                Some(md) => {
                    lemma_unvisited_decreases(s, parents, x);
                    let pm = parents.push(x);
                    assert(x != k) by {
                        assert(parents.contains(k)) by {
                            assert(parents[0] == k);
                        }
                    }
                    assert(import_chain(s, m, k, pm)) by {
                        assert forall|i: int| 0 <= i < pm.len() - 1 implies #[trigger] imports_under(
                            s,
                            m,
                            k,
                            pm[i],
                        ).contains(pm[i + 1]) by {
                            if i < parents.len() - 1 {
                                assert(pm[i] == parents[i] && pm[i + 1] == parents[i + 1]);
                            } else {
                                assert(pm[i] == parents.last() && pm[i + 1] == x);
                            }
                        }
                    }
                    assert(pm.last() == x);
                    lemma_dfs_errors(s, m, k, pm, deps, import_keys(md));
                    match dfs(s, pm, deps, import_keys(md)) {
                        Err(_) => {},
                        Ok(d2) => {
                            lemma_dfs_errors(s, m, k, parents, d2.push(x), rest);
                        },
                    }
                },
            }
        }
    }
}

/// The errors of the dependency search are true: a reported cycle `(a, b)` is one that the
/// import of `b` by `a` closes, and a module that cannot be loaded is missing from the store and
/// imported, directly or not, by the module whose dependencies are searched.
pub proof fn lemma_deps_errors_reported_truly(s: StoreView, m: SpecModule, k: Seq<char>)
    ensures
        module_deps(s, m, k) matches Err(e) ==> reported_truly(s, m, k, e),
{
    let p = seq![k];
    assert(p.last() == k);
    assert(import_chain(s, m, k, p));
    lemma_dfs_errors(s, m, k, p, Seq::empty(), import_keys(m));
}

/// Module `x` is the module under key `k` or one that it imports, directly or not.
pub open spec fn reachable(s: StoreView, m: SpecModule, k: Seq<char>, x: Seq<char>) -> bool {
    x == k || reached_import(s, m, k, x)
}

/// What a module of the dependencies, or the module under `k` itself, imports is among the
/// dependencies; for a dependency, before it.
proof fn lemma_imports_in_deps(
    s: StoreView,
    m: SpecModule,
    k: Seq<char>,
    r: Seq<Seq<char>>,
    j: int,
    x: Seq<char>,
    y: Seq<char>,
)
    requires
        well_ordered_deps(s, m, k, r),
        x == k || (0 <= j < r.len() && r[j] == x),
        imports_under(s, m, k, x).contains(y),
    ensures
        r.contains(y),
        x != k ==> r.take(j).contains(y),
{
    if x != k {
        assert(import_keys(store_lookup(s, r[j]).unwrap()).contains(y));
        assert(r.take(j).contains(y));
        let i = choose|i: int| 0 <= i < r.take(j).len() && r.take(j)[i] == y;
        assert(r[i] == y);
    }
}

/// Every module of a chain of imports from `k` is `k` or a dependency.
proof fn lemma_chain_from_root(
    s: StoreView,
    m: SpecModule,
    k: Seq<char>,
    r: Seq<Seq<char>>,
    p: Seq<Seq<char>>,
    i: int,
)
    requires
        well_ordered_deps(s, m, k, r),
        p.len() > 0,
        p[0] == k,
        import_chain(s, m, k, p),
        0 <= i < p.len(),
    ensures
        p[i] == k || r.contains(p[i]),
    decreases i,
{
    if i > 0 {
        lemma_chain_from_root(s, m, k, r, p, i - 1);
        let h = i - 1;
        assert(imports_under(s, m, k, p[h]).contains(p[h + 1]));
        if p[i - 1] == k {
            lemma_imports_in_deps(s, m, k, r, 0, p[i - 1], p[i]);
        } else {
            let j = choose|j: int| 0 <= j < r.len() && r[j] == p[i - 1];
            lemma_imports_in_deps(s, m, k, r, j, p[i - 1], p[i]);
        }
    }
}

/// Along a chain of imports that starts at the dependency `r[j0]`, every module is a dependency
/// that comes no later than `r[j0]`.
proof fn lemma_chain_goes_back(
    s: StoreView,
    m: SpecModule,
    k: Seq<char>,
    r: Seq<Seq<char>>,
    q: Seq<Seq<char>>,
    j0: int,
    i: int,
)
    requires
        well_ordered_deps(s, m, k, r),
        import_chain(s, m, k, q),
        0 <= j0 < r.len(),
        q.len() > 0,
        r[j0] == q[0],
        0 <= i < q.len(),
    ensures
        exists|j: int| 0 <= j <= j0 && r[j] == q[i],
    decreases i,
{
    if i == 0 {
        assert(r[j0] == q[0]);
    } else {
        lemma_chain_goes_back(s, m, k, r, q, j0, i - 1);
        let j = choose|j: int| 0 <= j <= j0 && r[j] == q[i - 1];
        let h = i - 1;
        assert(imports_under(s, m, k, q[h]).contains(q[h + 1]));
        assert(q[i - 1] != k) by {
            if q[i - 1] == k {
                assert(r[j] == k);
                assert(r.contains(k));
            }
        }
        lemma_imports_in_deps(s, m, k, r, j, q[i - 1], q[i]);
        let j2 = choose|j2: int| 0 <= j2 < r.take(j).len() && r.take(j)[j2] == q[i];
        assert(r[j2] == q[i]);
    }
}

/// A search that succeeds meets no cycle: if a module reachable from `k` imports a module that
/// leads back to it through imports, the search of the dependencies fails.
pub proof fn lemma_deps_find_every_cycle(
    s: StoreView,
    m: SpecModule,
    k: Seq<char>,
    a: Seq<char>,
    b: Seq<char>,
)
    requires
        reachable(s, m, k, a),
        closes_cycle(s, m, k, a, b),
    ensures
        module_deps(s, m, k) is Err,
{
    lemma_deps_well_ordered(s, m, k);
    if let Ok(r) = module_deps(s, m, k) {
        assert(a == k || r.contains(a)) by {
            if a != k {
                let p = choose|p: Seq<Seq<char>>|
                    p.len() > 0 && p[0] == k && import_chain(s, m, k, p) && imports_under(
                        s,
                        m,
                        k,
                        p.last(),
                    ).contains(a);
                lemma_chain_from_root(s, m, k, r, p, p.len() - 1);
                if p.last() == k {
                    lemma_imports_in_deps(s, m, k, r, 0, p.last(), a);
                } else {
                    let j = choose|j: int| 0 <= j < r.len() && r[j] == p.last();
                    lemma_imports_in_deps(s, m, k, r, j, p.last(), a);
                }
            }
        }
        let ja: int = if a == k {
            0
        } else {
            choose|j: int| 0 <= j < r.len() && r[j] == a
        };
        lemma_imports_in_deps(s, m, k, r, ja, a, b);
        let jb = choose|j: int| 0 <= j < r.len() && r[j] == b;
        let q = choose|q: Seq<Seq<char>>|
            q.len() > 0 && q[0] == b && q.last() == a && import_chain(s, m, k, q);
        lemma_chain_goes_back(s, m, k, r, q, jb, q.len() - 1);
        let jl = choose|j: int| 0 <= j <= jb && r[j] == q[q.len() - 1];
        assert(a != k);
        assert(r[jl] == a);
        lemma_imports_in_deps(s, m, k, r, jl, a, b);
        let jc = choose|j: int| 0 <= j < r.take(jl).len() && r.take(jl)[j] == b;
        assert(r[jc] == r[jb]);
    }
}


/// The GLSL of the modules `keys`, in that order.
pub open spec fn gathered_glsl(s: StoreView, keys: Seq<Seq<char>>) -> Seq<SpecExternalDeclaration>
    decreases keys.len(),
{
    if keys.len() == 0 {
        Seq::empty()
    } else {
        gathered_glsl(s, keys.drop_last()) + store_lookup(s, keys.last()).unwrap().glsl
    }
}

/// Whether a qualifier holds the `uniform` storage qualifier.
pub open spec fn has_uniform(q: Seq<SpecTypeQualifierSpec>) -> bool {
    q.contains(SpecTypeQualifierSpec::Storage(SpecStorageQualifier::Uniform))
}

/// The uniforms a single external declaration declares: the head of a uniform declaration list,
/// then each further name of the list with the head's type and no initializer.
pub open spec fn decl_uniforms(e: SpecExternalDeclaration) -> Seq<SpecSingleDeclaration> {
    match e {
        SpecExternalDeclaration::Declaration(SpecDeclaration::InitDeclaratorList(i)) => {
            match i.head.ty.qualifier {
                Some(q) => if has_uniform(q) {
                    seq![i.head] + i.tail.map_values(
                        |n: SpecSingleDeclarationNoType|
                            SpecSingleDeclaration {
                                ty: i.head.ty,
                                name: Some(n.ident.ident),
                                array_specifier: n.ident.array_spec,
                                initializer: None,
                            },
                    )
                } else {
                    Seq::empty()
                },
                None => Seq::empty(),
            }
        },
        _ => Seq::empty(),
    }
}

/// All the uniforms declared in a GLSL body, in order.
pub open spec fn glsl_uniforms(glsl: Seq<SpecExternalDeclaration>) -> Seq<SpecSingleDeclaration>
    decreases glsl.len(),
{
    if glsl.len() == 0 {
        Seq::empty()
    } else {
        glsl_uniforms(glsl.drop_last()) + decl_uniforms(glsl.last())
    }
}

/// All the function definitions of a GLSL body, in order.
pub open spec fn glsl_functions(glsl: Seq<SpecExternalDeclaration>) -> Seq<SpecFunctionDefinition>
    decreases glsl.len(),
{
    if glsl.len() == 0 {
        Seq::empty()
    } else {
        glsl_functions(glsl.drop_last()) + match glsl.last() {
            SpecExternalDeclaration::FunctionDefinition(f) => seq![f],
            _ => Seq::empty(),
        }
    }
}
/// The uniforms of two GLSL bodies put together are those of the first, then those of the
/// second.
pub proof fn lemma_glsl_uniforms_append(a: Seq<SpecExternalDeclaration>, b: Seq<SpecExternalDeclaration>)
    ensures
        glsl_uniforms(a + b) == glsl_uniforms(a) + glsl_uniforms(b),
    decreases b.len(),
{
    if b.len() == 0 {
        assert(a + b =~= a);
        assert(glsl_uniforms(a) + glsl_uniforms(b) =~= glsl_uniforms(a));
    } else {
        assert((a + b).drop_last() =~= a + b.drop_last());
        assert((a + b).last() == b.last());
        lemma_glsl_uniforms_append(a, b.drop_last());
        assert(glsl_uniforms(a + b) =~= glsl_uniforms(a) + glsl_uniforms(b));
    }
}

/// A single declaration declares uniforms only if it is a declaration list whose head is
/// qualified `uniform`; it then declares one uniform per name of the list, in order: the head,
/// then each further name with the head's type, its own array specifier and no initializer.
pub proof fn lemma_glsl_uniforms_single(e: SpecExternalDeclaration)
    ensures
        ({
            let u = glsl_uniforms(seq![e]);
            match e {
                SpecExternalDeclaration::Declaration(SpecDeclaration::InitDeclaratorList(i)) => {
                    if i.head.ty.qualifier matches Some(q) && q.contains(
                        SpecTypeQualifierSpec::Storage(SpecStorageQualifier::Uniform),
                    ) {
                        &&& u.len() == i.tail.len() + 1
                        &&& u[0] == i.head
                        &&& forall|j: int|
                            0 <= j < i.tail.len() ==> #[trigger] u[j + 1] == (SpecSingleDeclaration {
                                ty: i.head.ty,
                                name: Some(i.tail[j].ident.ident),
                                array_specifier: i.tail[j].ident.array_spec,
                                initializer: None,
                            })
                    } else {
                        u.len() == 0
                    }
                },
                _ => u.len() == 0,
            }
        }),
{
    let s = seq![e];
    assert(s.drop_last() =~= Seq::<SpecExternalDeclaration>::empty());
    assert(s.last() == e);
    assert(glsl_uniforms(s.drop_last()) =~= Seq::<SpecSingleDeclaration>::empty());
    assert(glsl_uniforms(s) =~= decl_uniforms(e));
}

/// The function definitions of two GLSL bodies put together are those of the first, then
/// those of the second.
pub proof fn lemma_glsl_functions_append(a: Seq<SpecExternalDeclaration>, b: Seq<SpecExternalDeclaration>)
    ensures
        glsl_functions(a + b) == glsl_functions(a) + glsl_functions(b),
    decreases b.len(),
{
    if b.len() == 0 {
        assert(a + b =~= a);
        assert(glsl_functions(a) + glsl_functions(b) =~= glsl_functions(a));
    } else {
        assert((a + b).drop_last() =~= a + b.drop_last());
        assert((a + b).last() == b.last());
        lemma_glsl_functions_append(a, b.drop_last());
        assert(glsl_functions(a + b) =~= glsl_functions(a) + glsl_functions(b));
    }
}

/// A function definition alone gives itself as the only function; any other declaration gives
/// none.
pub proof fn lemma_glsl_functions_single(e: SpecExternalDeclaration)
    ensures
        e matches SpecExternalDeclaration::FunctionDefinition(f) ==> glsl_functions(seq![e]) == seq![f],
        !(e is FunctionDefinition) ==> glsl_functions(seq![e]).len() == 0,
{
    let s = seq![e];
    assert(s.drop_last() =~= Seq::<SpecExternalDeclaration>::empty());
    assert(s.last() == e);
    assert(glsl_functions(s.drop_last()) =~= Seq::<SpecFunctionDefinition>::empty());
    if let SpecExternalDeclaration::FunctionDefinition(f) = e {
        assert(glsl_functions(s) =~= seq![f]);
    }
}


fn qualifier_has_uniform(q: &TypeQualifier) -> (res: bool)
    ensures
        res == has_uniform(q@),
{
    let mut i: usize = 0;
    while i < q.qualifiers.len()
        invariant
            i <= q.qualifiers@.len(),
            forall|j: int|
                0 <= j < i ==> q.qualifiers@[j]@ != SpecTypeQualifierSpec::Storage(
                    SpecStorageQualifier::Uniform,
                ),
        decreases q.qualifiers@.len() - i,
    {
        if let TypeQualifierSpec::Storage(StorageQualifier::Uniform) = &q.qualifiers[i] {
            assert(q@[i as int] == SpecTypeQualifierSpec::Storage(SpecStorageQualifier::Uniform));
            return true;
        }
        i = i + 1;
    }
    assert(!has_uniform(q@)) by {
        if has_uniform(q@) {
            let j = choose|j: int|
                0 <= j < q@.len() && q@[j] == SpecTypeQualifierSpec::Storage(
                    SpecStorageQualifier::Uniform,
                );
            assert(q.qualifiers@[j]@ == q@[j]);
        }
    }
    false
}

fn append_views(glsl: &mut Vec<ExternalDeclaration>, other: &Vec<ExternalDeclaration>)
    ensures
        final(glsl)@.map_values(|e: ExternalDeclaration| e@) == old(glsl)@.map_values(
            |e: ExternalDeclaration| e@,
        ) + other@.map_values(|e: ExternalDeclaration| e@),
{
    let mut c = clone_vec(other);
    let ghost a = glsl@;
    let ghost b = c@;
    glsl.append(&mut c);
    assert(glsl@.map_values(|e: ExternalDeclaration| e@) =~= a.map_values(
        |e: ExternalDeclaration| e@,
    ) + b.map_values(|e: ExternalDeclaration| e@));
}

impl Module {
    /// Fold a module and its dependencies into a single module. The list of dependencies is also
    /// returned.
    ///
    /// The folded module has no imports; its GLSL is the GLSL of every dependency, in dependency
    /// order, followed by the module's own.
    pub fn gather(&self, store: &ModuleStore, k: &ModuleKey) -> (res: Result<
        (Module, Vec<ModuleKey>),
        DepsError,
    >)
        ensures
            match res {
                Ok((m, ds)) => {
                    &&& module_deps(store@, self@, k@) == Ok::<Seq<Seq<char>>, SpecDepsError>(
                        keys_view(ds@),
                    )
                    &&& m@.imports == Seq::<SpecImportList>::empty()
                    &&& m@.glsl == gathered_glsl(store@, keys_view(ds@)) + self@.glsl
                },
                Err(e) => module_deps(store@, self@, k@) == Err::<Seq<Seq<char>>, SpecDepsError>(
                    e@,
                ),
            },
    {
        let deps = match self.deps(store, k) {
            Ok(d) => d,
            Err(e) => {
                return Err(e);
            },
        };
        let ghost kv = keys_view(deps@);
        let mut glsl: Vec<ExternalDeclaration> = Vec::new();
        let mut i: usize = 0;
        assert(glsl@.map_values(|e: ExternalDeclaration| e@) =~= gathered_glsl(
            store@,
            kv.take(0),
        ));
        while i < deps.len()
            invariant
                i <= deps@.len(),
                kv == keys_view(deps@),
                well_ordered_deps(store@, self@, k@, kv),
                glsl@.map_values(|e: ExternalDeclaration| e@) == gathered_glsl(
                    store@,
                    kv.take(i as int),
                ),
            decreases deps@.len() - i,
        {
            assert(store_lookup(store@, kv[i as int]) is Some);
            let m = store.get(&deps[i]).unwrap();
            append_views(&mut glsl, &m.0.glsl);
            assert(kv.take(i + 1).drop_last() =~= kv.take(i as int));
            i = i + 1;
        }
        assert(kv.take(deps@.len() as int) =~= kv);
        append_views(&mut glsl, &self.0.glsl);
        let module = Module(SyntaxModule { imports: Vec::new(), glsl });
        assert(module@.imports =~= Seq::<SpecImportList>::empty());
        Ok((module, deps))
    }

    /// Get all the uniforms defined in a module.
    pub fn uniforms(&self) -> (res: Vec<SingleDeclaration>)
        ensures
            res@.map_values(|d: SingleDeclaration| d@) == glsl_uniforms(self@.glsl),
    {
        let mut uniforms: Vec<SingleDeclaration> = Vec::new();
        let ghost g = self@.glsl;
        let mut k: usize = 0;
        assert(g.take(0) =~= Seq::<SpecExternalDeclaration>::empty());
        while k < self.0.glsl.len()
            invariant
                k <= self.0.glsl@.len(),
                g == self@.glsl,
                uniforms@.map_values(|d: SingleDeclaration| d@) == glsl_uniforms(
                    g.take(k as int),
                ),
            decreases self.0.glsl@.len() - k,
        {
            let ghost before = uniforms@.map_values(|d: SingleDeclaration| d@);
            assert(g.take(k + 1).drop_last() =~= g.take(k as int));
            assert(g.take(k + 1).last() == self.0.glsl@[k as int]@);
            if let ExternalDeclaration::Declaration(Declaration::InitDeclaratorList(i)) =
                &self.0.glsl[k] {
                if let Some(q) = &i.head.ty.qualifier {
                    if qualifier_has_uniform(q) {
                        let ghost dv = decl_uniforms(self.0.glsl@[k as int]@);
                        assert(dv.len() == 1 + i.tail@.len());
                        assert(dv[0] == i.head@);
                        uniforms.push(i.head.clone_syntax());
                        assert(uniforms@.map_values(|d: SingleDeclaration| d@) =~= before
                            + dv.take(1));
                        // check whether we have more
                        let mut t: usize = 0;
                        while t < i.tail.len()
                            invariant
                                t <= i.tail@.len(),
                                dv.len() == 1 + i.tail@.len(),
                                forall|j: int|
                                    0 <= j < i.tail@.len() ==> #[trigger] dv[1 + j]
                                        == (SpecSingleDeclaration {
                                        ty: i.head.ty@,
                                        name: Some(i.tail@[j].ident.ident@),
                                        array_specifier: i.tail@[j].ident.array_spec,
                                        initializer: None,
                                    }),
                                uniforms@.map_values(|d: SingleDeclaration| d@) == before
                                    + dv.take(1 + t),
                            decreases i.tail@.len() - t,
                        {
                            let next = &i.tail[t];
                            let d = SingleDeclaration {
                                ty: i.head.ty.clone_syntax(),
                                name: Some(next.ident.ident.clone()),
                                array_specifier: match &next.ident.array_spec {
                                    Some(a) => Some(crate::render::shader::ast::clone_array_spec(a)),
                                    None => None,
                                },
                                initializer: None,
                            };
                            assert(dv[1 + t as int] == d@);
                            let ghost prev = uniforms@;
                            let ghost dview = d@;
                            uniforms.push(d);
                            assert(uniforms@.map_values(|d: SingleDeclaration| d@) =~= prev.map_values(
                                |d: SingleDeclaration| d@,
                            ).push(dview));
                            assert(dv.take(1 + t + 1) =~= dv.take(1 + t as int).push(dv[1 + t as int]));
                            assert(uniforms@.map_values(|d: SingleDeclaration| d@) =~= before
                                + dv.take(1 + t + 1));
                            t = t + 1;
                        }
                        assert(dv.take(1 + t as int) =~= dv);
                    }
                }
            }
            assert(uniforms@.map_values(|d: SingleDeclaration| d@) == glsl_uniforms(g.take(k + 1)));
            k = k + 1;
        }
        assert(g.take(self.0.glsl@.len() as int) =~= g);
        uniforms
    }

    /// Get all the functions.
    pub fn functions(&self) -> (res: Vec<FunctionDefinition>)
        ensures
            res@.map_values(|f: FunctionDefinition| f@) == glsl_functions(self@.glsl),
    {
        let mut fns: Vec<FunctionDefinition> = Vec::new();
        let ghost g = self@.glsl;
        let mut k: usize = 0;
        assert(g.take(0) =~= Seq::<SpecExternalDeclaration>::empty());
        while k < self.0.glsl.len()
            invariant
                k <= self.0.glsl@.len(),
                g == self@.glsl,
                fns@.map_values(|f: FunctionDefinition| f@) == glsl_functions(g.take(k as int)),
            decreases self.0.glsl@.len() - k,
        {
            let ghost before = fns@;
            assert(g.take(k + 1).drop_last() =~= g.take(k as int));
            assert(g.take(k + 1).last() == self.0.glsl@[k as int]@);
            if let ExternalDeclaration::FunctionDefinition(def) = &self.0.glsl[k] {
                fns.push(def.clone_syntax());
            }
            assert(fns@.map_values(|f: FunctionDefinition| f@) =~= glsl_functions(
                g.take(k + 1),
            ));
            k = k + 1;
        }
        assert(g.take(self.0.glsl@.len() as int) =~= g);
        fns
    }
}


/// Vertex shader I/O interface.
///
/// It contains the inputs and the outputs to the next stage.
#[derive(Debug, PartialEq)]
pub struct VertexShaderInterface {
    inputs: Vec<ExternalDeclaration>,
    outputs: Vec<ExternalDeclaration>,
}

pub struct SpecVertexShaderInterface {
    pub inputs: Seq<SpecExternalDeclaration>,
    pub outputs: Seq<SpecExternalDeclaration>,
}

impl View for VertexShaderInterface {
    type V = SpecVertexShaderInterface;

    closed spec fn view(&self) -> SpecVertexShaderInterface {
        SpecVertexShaderInterface {
            inputs: self.inputs@.map_values(|e: ExternalDeclaration| e@),
            outputs: self.outputs@.map_values(|e: ExternalDeclaration| e@),
        }
    }
}

impl VertexShaderInterface {
    /// The inputs of the vertex shader.
    pub fn inputs(&self) -> (res: &Vec<ExternalDeclaration>)
        ensures
            res@.map_values(|e: ExternalDeclaration| e@) == self@.inputs,
    {
        &self.inputs
    }

    /// The outputs of the vertex shader to the next stage.
    pub fn outputs(&self) -> (res: &Vec<ExternalDeclaration>)
        ensures
            res@.map_values(|e: ExternalDeclaration| e@) == self@.outputs,
    {
        &self.outputs
    }
}

/// Errors in the shape of a vertex shader.
#[derive(Debug, PartialEq)]
pub enum VertexShaderInterfaceError {
    UnnamedInput,
    OutputHasMainQualifier,
    OutputTypeMustBeAStruct(TypeSpecifier),
    WrongOutputFirstField(StructFieldSpecifier),
    OutputFieldCannotBeStruct(usize, TypeSpecifier),
    OutputFieldCannotHaveSeveralIdentifiers(usize, StructFieldSpecifier),
}

pub enum SpecVertexShaderInterfaceError {
    UnnamedInput,
    OutputHasMainQualifier,
    OutputTypeMustBeAStruct(SpecTypeSpecifier),
    WrongOutputFirstField(SpecStructFieldSpecifier),
    OutputFieldCannotBeStruct(int, SpecTypeSpecifier),
    OutputFieldCannotHaveSeveralIdentifiers(int, SpecStructFieldSpecifier),
}

impl View for VertexShaderInterfaceError {
    type V = SpecVertexShaderInterfaceError;

    open spec fn view(&self) -> SpecVertexShaderInterfaceError {
        match self {
            VertexShaderInterfaceError::UnnamedInput => SpecVertexShaderInterfaceError::UnnamedInput,
            VertexShaderInterfaceError::OutputHasMainQualifier =>
                SpecVertexShaderInterfaceError::OutputHasMainQualifier,
            VertexShaderInterfaceError::OutputTypeMustBeAStruct(t) =>
                SpecVertexShaderInterfaceError::OutputTypeMustBeAStruct(t@),
            VertexShaderInterfaceError::WrongOutputFirstField(f) =>
                SpecVertexShaderInterfaceError::WrongOutputFirstField(f@),
            VertexShaderInterfaceError::OutputFieldCannotBeStruct(i, t) =>
                SpecVertexShaderInterfaceError::OutputFieldCannotBeStruct(*i as int, t@),
            VertexShaderInterfaceError::OutputFieldCannotHaveSeveralIdentifiers(i, f) =>
                SpecVertexShaderInterfaceError::OutputFieldCannotHaveSeveralIdentifiers(
                    *i as int,
                    f@,
                ),
        }
    }
}

/// The input declaration of a vertex shader parameter; `None` for an unnamed parameter.
pub open spec fn param_input(p: SpecFunctionParameterDeclaration) -> Option<SpecExternalDeclaration> {
    match p {
        SpecFunctionParameterDeclaration::Named(q, d) => Some(
            single_ext_decl(
                SpecSingleDeclaration {
                    ty: SpecFullySpecifiedType { qualifier: q, ty: d.ty },
                    name: Some(d.ident.ident),
                    array_specifier: d.ident.array_spec,
                    initializer: None,
                },
            ),
        ),
        SpecFunctionParameterDeclaration::Unnamed(..) => None,
    }
}

/// The inputs of a vertex shader with parameters `params`.
pub open spec fn vertex_inputs(params: Seq<SpecFunctionParameterDeclaration>) -> Result<
    Seq<SpecExternalDeclaration>,
    SpecVertexShaderInterfaceError,
>
    decreases params.len(),
{
    if params.len() == 0 {
        Ok(Seq::empty())
    } else {
        match vertex_inputs(params.drop_last()) {
            Err(e) => Err(e),
            Ok(v) => match param_input(params.last()) {
                None => Err(SpecVertexShaderInterfaceError::UnnamedInput),
                Some(d) => Ok(v.push(d)),
            },
        }
    }
}

/// Whether a field is `vec4 gl_Position;`, with no qualifier.
pub open spec fn is_gl_position_field(f: SpecStructFieldSpecifier) -> bool {
    &&& f.qualifier is None
    &&& f.ty == (SpecTypeSpecifier {
        ty: SpecTypeSpecifierNonArray::Basic(BasicType::Vec4),
        array_specifier: None,
    })
    &&& f.identifiers == seq![
        (SpecArrayedIdentifier { ident: "gl_Position"@, array_spec: None }),
    ]
}

/// The output declaration of a struct field: its qualifier, type and first identifier.
pub open spec fn field_output(f: SpecStructFieldSpecifier) -> SpecExternalDeclaration {
    single_ext_decl(
        SpecSingleDeclaration {
            ty: SpecFullySpecifiedType { qualifier: f.qualifier, ty: f.ty },
            name: Some(f.identifiers[0].ident),
            array_specifier: f.identifiers[0].array_spec,
            initializer: None,
        },
    )
}

/// The outputs of the fields that follow `gl_Position`; errors give the index of the field in
/// that list.
pub open spec fn field_outputs(fields: Seq<SpecStructFieldSpecifier>) -> Result<
    Seq<SpecExternalDeclaration>,
    SpecVertexShaderInterfaceError,
>
    decreases fields.len(),
{
    if fields.len() == 0 {
        Ok(Seq::empty())
    } else {
        match field_outputs(fields.drop_last()) {
            Err(e) => Err(e),
            Ok(v) => {
                let i = fields.len() - 1;
                let f = fields.last();
                if f.ty.ty is Struct {
                    Err(SpecVertexShaderInterfaceError::OutputFieldCannotBeStruct(i, f.ty))
                } else if f.identifiers.len() > 1 {
                    Err(SpecVertexShaderInterfaceError::OutputFieldCannotHaveSeveralIdentifiers(i, f))
                } else {
                    Ok(v.push(field_output(f)))
                }
            },
        }
    }
}

/// The outputs of a vertex shader returning `fsty`.
pub open spec fn vertex_outputs(fsty: SpecFullySpecifiedType) -> Result<
    Seq<SpecExternalDeclaration>,
    SpecVertexShaderInterfaceError,
> {
    if fsty.qualifier is Some {
        Err(SpecVertexShaderInterfaceError::OutputHasMainQualifier)
    } else {
        match fsty.ty.ty {
            SpecTypeSpecifierNonArray::Struct(s) => if !is_gl_position_field(s.fields[0]) {
                Err(SpecVertexShaderInterfaceError::WrongOutputFirstField(s.fields[0]))
            } else {
                field_outputs(s.fields.skip(1))
            },
            _ => Err(SpecVertexShaderInterfaceError::OutputTypeMustBeAStruct(fsty.ty)),
        }
    }
}

/// Every field after `gl_Position` that the conversion reaches and takes as an output (no error
/// before it, not a struct) has at least one identifier.
pub open spec fn reached_fields_named(fields: Seq<SpecStructFieldSpecifier>) -> bool {
    forall|i: int|
        0 <= i < fields.len() && #[trigger] field_outputs(fields.take(i)) is Ok && !(
        fields[i].ty.ty is Struct) ==> fields[i].identifiers.len() > 0
}

/// Whether the outputs of a vertex shader returning `fsty` can be read: an unqualified struct
/// has a first field, and the fields read after a `gl_Position` first field are named.
pub open spec fn outputs_readable(fsty: SpecFullySpecifiedType) -> bool {
    fsty.qualifier is None ==> match fsty.ty.ty {
        SpecTypeSpecifierNonArray::Struct(s) => s.fields.len() > 0 && (is_gl_position_field(
            s.fields[0],
        ) ==> reached_fields_named(s.fields.skip(1))),
        _ => true,
    }
}

/// The vertex shader interface of a function: its inputs, then its outputs.
pub open spec fn vertex_interface(f: SpecFunctionDefinition) -> Result<
    SpecVertexShaderInterface,
    SpecVertexShaderInterfaceError,
> {
    match vertex_inputs(f.prototype.parameters) {
        Err(e) => Err(e),
        Ok(inputs) => match vertex_outputs(f.prototype.ty) {
            Err(e) => Err(e),
            Ok(outputs) => Ok(SpecVertexShaderInterface { inputs, outputs }),
        },
    }
}

/// Build the vertex shader interface from a function definition.
pub fn vertex_shader_interface(fun_def: &FunctionDefinition) -> (res: Result<
    VertexShaderInterface,
    VertexShaderInterfaceError,
>)
    requires
        vertex_inputs(fun_def@.prototype.parameters) is Ok ==> outputs_readable(
            fun_def@.prototype.ty,
        ),
    ensures
        match res {
            Ok(i) => vertex_interface(fun_def@) == Ok::<
                SpecVertexShaderInterface,
                SpecVertexShaderInterfaceError,
            >(i@),
            Err(e) => vertex_interface(fun_def@) == Err::<
                SpecVertexShaderInterface,
                SpecVertexShaderInterfaceError,
            >(e@),
        },
{
    let proto = &fun_def.prototype;
    let inputs = match vertex_shader_inputs(&proto.parameters) {
        Ok(i) => i,
        Err(e) => {
            return Err(e);
        },
    };
    let outputs = match vertex_shader_outputs(&proto.ty) {
        Ok(o) => o,
        Err(e) => {
            return Err(e);
        },
    };
    Ok(VertexShaderInterface { inputs, outputs })
}

/// The inputs of a vertex shader: one declaration per parameter.
pub fn vertex_shader_inputs(args: &Vec<FunctionParameterDeclaration>) -> (res: Result<
    Vec<ExternalDeclaration>,
    VertexShaderInterfaceError,
>)
    ensures
        match res {
            Ok(v) => vertex_inputs(args@.map_values(|p: FunctionParameterDeclaration| p@)) == Ok::<
                Seq<SpecExternalDeclaration>,
                SpecVertexShaderInterfaceError,
            >(v@.map_values(|e: ExternalDeclaration| e@)),
            Err(e) => vertex_inputs(args@.map_values(|p: FunctionParameterDeclaration| p@))
                == Err::<Seq<SpecExternalDeclaration>, SpecVertexShaderInterfaceError>(e@),
        },
{
    let ghost params = args@.map_values(|p: FunctionParameterDeclaration| p@);
    let mut inputs: Vec<ExternalDeclaration> = Vec::new();
    let mut k: usize = 0;
    assert(params.take(0) =~= Seq::<SpecFunctionParameterDeclaration>::empty());
    assert(inputs@.map_values(|e: ExternalDeclaration| e@) =~= Seq::<SpecExternalDeclaration>::empty());
    while k < args.len()
        invariant
            k <= args@.len(),
            params == args@.map_values(|p: FunctionParameterDeclaration| p@),
            vertex_inputs(params.take(k as int)) == Ok::<
                Seq<SpecExternalDeclaration>,
                SpecVertexShaderInterfaceError,
            >(inputs@.map_values(|e: ExternalDeclaration| e@)),
        decreases args@.len() - k,
    {
        assert(params.take(k + 1).drop_last() =~= params.take(k as int));
        assert(params.take(k + 1).last() == args@[k as int]@);
        match &args[k] {
            FunctionParameterDeclaration::Unnamed(..) => {
                proof {
                    lemma_vertex_inputs_error(params, k as int + 1);
                }
                return Err(VertexShaderInterfaceError::UnnamedInput);
            },
            FunctionParameterDeclaration::Named(ty_qual, decl) => {
                let qualifier = clone_opt_qualifier(ty_qual);
                let ty = decl.ty.clone_syntax();
                let name = Some(decl.ident.ident.clone());
                let array_spec = match &decl.ident.array_spec {
                    Some(a) => Some(clone_array_spec(a)),
                    None => None,
                };
                let sd = SingleDeclaration {
                    ty: FullySpecifiedType { qualifier, ty },
                    name,
                    array_specifier: array_spec,
                    initializer: None,
                };
                let ed = single_to_external_declaration(sd);
                let ghost prev = inputs@;
                let ghost edv = ed@;
                inputs.push(ed);
                assert(inputs@.map_values(|e: ExternalDeclaration| e@) =~= prev.map_values(
                    |e: ExternalDeclaration| e@,
                ).push(edv));
            },
        }
        k = k + 1;
    }
    assert(params.take(args@.len() as int) =~= params);
    Ok(inputs)
}

proof fn lemma_vertex_inputs_error(params: Seq<SpecFunctionParameterDeclaration>, n: int)
    requires
        0 <= n <= params.len(),
        vertex_inputs(params.take(n)) is Err,
    ensures
        vertex_inputs(params) == vertex_inputs(params.take(n)),
    decreases params.len() - n,
{
    if n < params.len() {
        assert(params.take(n + 1).drop_last() =~= params.take(n));
        lemma_vertex_inputs_error(params, n + 1);
    } else {
        assert(params.take(n) =~= params);
    }
}

proof fn lemma_field_outputs_error(fields: Seq<SpecStructFieldSpecifier>, n: int)
    requires
        0 <= n <= fields.len(),
        field_outputs(fields.take(n)) is Err,
    ensures
        field_outputs(fields) == field_outputs(fields.take(n)),
    decreases fields.len() - n,
{
    if n < fields.len() {
        assert(fields.take(n + 1).drop_last() =~= fields.take(n));
        lemma_field_outputs_error(fields, n + 1);
    } else {
        assert(fields.take(n) =~= fields);
    }
}

fn is_gl_position(f: &StructFieldSpecifier) -> (res: bool)
    ensures
        res == is_gl_position_field(f@),
{
    proof {
        reveal_strlit("gl_Position");
    }
    if f.qualifier.is_some() {
        return false;
    }
    let ty_ok = match &f.ty.ty {
        TypeSpecifierNonArray::Basic(BasicType::Vec4) => f.ty.array_specifier.is_none(),
        _ => false,
    };
    if !ty_ok {
        return false;
    }
    if f.identifiers.len() != 1 {
        assert(f@.identifiers.len() != 1);
        return false;
    }
    let id = &f.identifiers[0];
    let same = id.ident.0 == String::from_str("gl_Position") && id.array_spec.is_none();
    assert(same ==> f@.identifiers =~= seq![
        (SpecArrayedIdentifier { ident: "gl_Position"@, array_spec: None }),
    ]);
    assert(!same ==> f@.identifiers[0] != (SpecArrayedIdentifier {
        ident: "gl_Position"@,
        array_spec: None,
    }));
    same
}

/// The outputs of a vertex shader: its return type must be an unqualified struct whose first
/// field is `vec4 gl_Position`; every other field becomes an output.
pub fn vertex_shader_outputs(fsty: &FullySpecifiedType) -> (res: Result<
    Vec<ExternalDeclaration>,
    VertexShaderInterfaceError,
>)
    requires
        outputs_readable(fsty@),
    ensures
        match res {
            Ok(v) => vertex_outputs(fsty@) == Ok::<
                Seq<SpecExternalDeclaration>,
                SpecVertexShaderInterfaceError,
            >(v@.map_values(|e: ExternalDeclaration| e@)),
            Err(e) => vertex_outputs(fsty@) == Err::<
                Seq<SpecExternalDeclaration>,
                SpecVertexShaderInterfaceError,
            >(e@),
        },
{
    // we refuse that the output has a main qualifier
    if fsty.qualifier.is_some() {
        return Err(VertexShaderInterfaceError::OutputHasMainQualifier);
    }
    let ty = &fsty.ty;
    // we enforce that the output must be a struct that follows a certain pattern
    match &ty.ty {
        TypeSpecifierNonArray::Struct(s) => {
            proof {
                lemma_view_fields(s.fields@);
            }
            let ghost fv = s@.fields;
            assert(fv == s.fields@.map_values(|f: StructFieldSpecifier| f@));
            // the first field must be named "gl_Position", has type vec4 and no qualifier
            let first_field = &s.fields[0];
            if !is_gl_position(first_field) {
                return Err(VertexShaderInterfaceError::WrongOutputFirstField(first_field.clone_syntax()));
            }
            // then, for all other fields, we check that they are not composite type (i.e.
            // structs); if they are not, add them to the interface; otherwise, fail

            let ghost rest = fv.skip(1);
            let mut outputs: Vec<ExternalDeclaration> = Vec::new();
            let mut k: usize = 1;
            assert(rest.take(0) =~= Seq::<SpecStructFieldSpecifier>::empty());
            assert(outputs@.map_values(|e: ExternalDeclaration| e@) =~= Seq::<SpecExternalDeclaration>::empty());
            assert(vertex_outputs(fsty@) == field_outputs(rest));
            while k < s.fields.len()
                invariant
                    1 <= k <= s.fields@.len(),
                    vertex_outputs(fsty@) == field_outputs(rest),
                    fv == s.fields@.map_values(|f: StructFieldSpecifier| f@),
                    rest == fv.skip(1),
                    reached_fields_named(rest),
                    field_outputs(rest.take(k - 1)) == Ok::<
                        Seq<SpecExternalDeclaration>,
                        SpecVertexShaderInterfaceError,
                    >(outputs@.map_values(|e: ExternalDeclaration| e@)),
                decreases s.fields@.len() - k,
            {
                let i = k - 1;
                let field = &s.fields[k];
                assert(rest.take(k as int).drop_last() =~= rest.take(k - 1));
                assert(rest.take(k as int).last() == field@);
                assert(fv[k as int] == field@);
                assert(rest[k - 1] == field@);
                assert(field_outputs(rest.take(k as int)) == (if field@.ty.ty is Struct {
                    Err(SpecVertexShaderInterfaceError::OutputFieldCannotBeStruct(i as int, field@.ty))
                } else if field@.identifiers.len() > 1 {
                    Err(SpecVertexShaderInterfaceError::OutputFieldCannotHaveSeveralIdentifiers(
                        i as int,
                        field@,
                    ))
                } else {
                    Ok(outputs@.map_values(|e: ExternalDeclaration| e@).push(field_output(field@)))
                }));
                if let TypeSpecifierNonArray::Struct(_) = &field.ty.ty {
                    proof {
                        lemma_field_outputs_error(rest, k as int);
                    }
                    return Err(
                        VertexShaderInterfaceError::OutputFieldCannotBeStruct(i, field.ty.clone_syntax()),
                    );
                }
                assert(field@.identifiers.len() > 0);
                if field.identifiers.len() > 1 {
                    proof {
                        lemma_field_outputs_error(rest, k as int);
                    }
                    return Err(
                        VertexShaderInterfaceError::OutputFieldCannotHaveSeveralIdentifiers(
                            i,
                            field.clone_syntax(),
                        ),
                    );
                }
                let ed = vertex_shader_output_field_to_ext_decl(field);
                let ghost prev = outputs@;
                let ghost edv = ed@;
                outputs.push(ed);
                assert(outputs@.map_values(|e: ExternalDeclaration| e@) =~= prev.map_values(
                    |e: ExternalDeclaration| e@,
                ).push(edv));
                k = k + 1;
            }
            assert(rest.take(s.fields@.len() - 1) =~= rest);
            Ok(outputs)
        },
        _ => Err(VertexShaderInterfaceError::OutputTypeMustBeAStruct(ty.clone_syntax())),
    }
}

/// The output declaration of a struct field.
pub fn vertex_shader_output_field_to_ext_decl(field: &StructFieldSpecifier) -> (res: ExternalDeclaration)
    requires
        field@.identifiers.len() > 0,
    ensures
        res@ == field_output(field@),
{
    let fsty = FullySpecifiedType {
        qualifier: clone_opt_qualifier(&field.qualifier),
        ty: field.ty.clone_syntax(),
    };
    let first = &field.identifiers[0];
    assert(field@.identifiers[0] == first@);
    let decl = SingleDeclaration {
        ty: fsty,
        name: Some(first.ident.clone()),
        array_specifier: match &first.array_spec {
            Some(a) => Some(clone_array_spec(a)),
            None => None,
        },
        initializer: None,
    };
    single_to_external_declaration(decl)
}

} // verus!
