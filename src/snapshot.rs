//! The last good state of every module compiled so far: each module by name,
//! with the source information derived from it.
use vstd::prelude::*;
use vstd::utf8::encode_utf8;
use crate::line_numbers::LineNumbers;

verus! {

/// A compiled module: its name, the file it came from, its source text and
/// the compiled representation that editor features read.
#[derive(Debug)]
pub struct Module<A> {
    pub name: String,
    pub input_path: String,
    pub code: String,
    pub ast: A,
}

/// Where a module's source lies and how its offsets map to lines and columns.
#[derive(Debug)]
pub struct ModuleSourceInformation {
    /// The path to the source file from within the project root.
    pub path: String,
    /// Maps byte offsets to lines and columns, and back.
    pub line_numbers: LineNumbers,
}

/// The source information of a module, as a path and the indexed bytes.
pub open spec fn source_view_of<A>(m: Module<A>) -> (Seq<char>, Seq<u8>) {
    (m.input_path@, encode_utf8(m.code@))
}

/// `before` with each module of `ms` inserted by name, in order, so that a
/// later module replaces an earlier one of the same name.
pub open spec fn insert_modules<A>(before: Map<Seq<char>, Module<A>>, ms: Seq<Module<A>>) -> Map<
    Seq<char>,
    Module<A>,
>
    decreases ms.len(),
{
    if ms.len() == 0 {
        before
    } else {
        insert_modules(before, ms.drop_last()).insert(ms.last().name@, ms.last())
    }
}

/// `before` with the source information of each module of `ms` inserted by
/// name, in order.
pub open spec fn insert_sources<A>(
    before: Map<Seq<char>, (Seq<char>, Seq<u8>)>,
    ms: Seq<Module<A>>,
) -> Map<Seq<char>, (Seq<char>, Seq<u8>)>
    decreases ms.len(),
{
    if ms.len() == 0 {
        before
    } else {
        insert_sources(before, ms.drop_last()).insert(ms.last().name@, source_view_of(ms.last()))
    }
}

/// The file paths of `ms`, in order.
pub open spec fn paths_of<A>(ms: Seq<Module<A>>) -> Seq<Seq<char>> {
    ms.map_values(|m: Module<A>| m.input_path@)
}

/// The views of `v`'s strings, in order.
pub open spec fn string_views(v: Seq<String>) -> Seq<Seq<char>> {
    v.map_values(|s: String| s@)
}

/// The modules compiled so far, keyed by name, each with its source
/// information.
pub struct Snapshot<A> {
    modules: Vec<Module<A>>,
    sources: Vec<ModuleSourceInformation>,
    module_map: Ghost<Map<Seq<char>, Module<A>>>,
    source_map: Ghost<Map<Seq<char>, (Seq<char>, Seq<u8>)>>,
}

impl<A> Snapshot<A> {
    /// Names are unique, and the two maps hold exactly the recorded modules
    /// and their source information.
    pub closed spec fn well_formed(&self) -> bool {
        &&& self.modules@.len() == self.sources@.len()
        &&& forall|i: int, j: int|
            0 <= i < j < self.modules@.len() ==> #[trigger] self.modules@[i].name@
                != #[trigger] self.modules@[j].name@
        &&& forall|k: Seq<char>|
            #[trigger] self.module_map@.contains_key(k) <==> exists|i: int|
                0 <= i < self.modules@.len() && #[trigger] self.modules@[i].name@ == k
        &&& forall|k: Seq<char>|
            #[trigger] self.source_map@.contains_key(k) <==> self.module_map@.contains_key(k)
        &&& forall|i: int|
            0 <= i < self.modules@.len() ==> {
                let k = #[trigger] self.modules@[i].name@;
                &&& self.module_map@[k] == self.modules@[i]
                &&& self.source_map@[k] == (self.sources@[i].path@, self.sources@[i].line_numbers@)
            }
    }

    /// The modules, by name.
    pub closed spec fn modules(&self) -> Map<Seq<char>, Module<A>> {
        self.module_map@
    }

    /// The source information of each module, by name: its path and the
    /// bytes its index was built from.
    pub closed spec fn sources(&self) -> Map<Seq<char>, (Seq<char>, Seq<u8>)> {
        self.source_map@
    }

    /// An empty snapshot.
    pub fn new() -> (r: Self)
        ensures
            r.well_formed(),
            r.modules() == Map::<Seq<char>, Module<A>>::empty(),
            r.sources() == Map::<Seq<char>, (Seq<char>, Seq<u8>)>::empty(),
    {
        Snapshot {
            modules: Vec::new(),
            sources: Vec::new(),
            module_map: Ghost(Map::empty()),
            source_map: Ghost(Map::empty()),
        }
    }

    /// Inserts `module` and its source information under its name, replacing
    /// any module of that name.
    pub fn record(&mut self, module: Module<A>)
        requires
            old(self).well_formed(),
        ensures
            final(self).well_formed(),
            final(self).modules() == old(self).modules().insert(module.name@, module),
            final(self).sources() == old(self).sources().insert(
                module.name@,
                source_view_of(module),
            ),
    {
        let line_numbers = LineNumbers::new(module.code.as_str());
        let source = ModuleSourceInformation { path: module.input_path.clone(), line_numbers };
        let ghost key = module.name@;
        let ghost new_modules = self.module_map@.insert(key, module);
        let ghost new_sources = self.source_map@.insert(key, source_view_of(module));
        let ghost before = *self;
        let ghost entry = (source.path@, source.line_numbers@);
        match self.position(module.name.as_str()) {
            Some(i) => {
                self.modules.set(i, module);
                self.sources.set(i, source);
            },
            None => {
                self.modules.push(module);
                self.sources.push(source);
            },
        }
        self.module_map = Ghost(new_modules);
        self.source_map = Ghost(new_sources);
        proof {
            assert(entry == source_view_of(module));
            assert forall|a: int, b: int| 0 <= a < b < self.modules@.len() implies #[trigger] self.modules@[a].name@
                != #[trigger] self.modules@[b].name@ by {
                if a < before.modules@.len() && b < before.modules@.len() {
                    if self.modules@[a].name@ != before.modules@[a].name@ {
                        assert(before.modules@[b].name@ != before.modules@[a].name@);
                    }
                    if self.modules@[b].name@ != before.modules@[b].name@ {
                        assert(before.modules@[b].name@ != before.modules@[a].name@);
                    }
                } else {
                    assert(!before.module_map@.contains_key(key));
                    assert(before.modules@[a] == self.modules@[a]);
                }
            }
            assert forall|k: Seq<char>|
                #[trigger] self.module_map@.contains_key(k) <==> exists|i: int|
                    0 <= i < self.modules@.len() && #[trigger] self.modules@[i].name@ == k by {
                if k != key && before.module_map@.contains_key(k) {
                    let j = choose|j: int|
                        0 <= j < before.modules@.len() && #[trigger] before.modules@[j].name@ == k;
                    assert(self.modules@[j] == before.modules@[j]);
                }
                if k == key {
                    if before.module_map@.contains_key(k) {
                        let j = choose|j: int|
                            0 <= j < before.modules@.len() && #[trigger] before.modules@[j].name@ == k;
                        assert(self.modules@[j].name@ == k);
                    } else {
                        assert(self.modules@[before.modules@.len() as int].name@ == k);
                    }
                }
                if exists|i: int| 0 <= i < self.modules@.len() && #[trigger] self.modules@[i].name@ == k {
                    let j = choose|j: int| 0 <= j < self.modules@.len() && #[trigger] self.modules@[j].name@ == k;
                    if k != key {
                        assert(before.modules@[j] == self.modules@[j]);
                    }
                }
            }
            assert forall|i: int| 0 <= i < self.modules@.len() implies {
                let k = #[trigger] self.modules@[i].name@;
                &&& self.module_map@[k] == self.modules@[i]
                &&& self.source_map@[k] == (self.sources@[i].path@, self.sources@[i].line_numbers@)
            } by {
                if self.modules@[i].name@ != key {
                    assert(before.modules@[i] == self.modules@[i]);
                    assert(before.sources@[i] == self.sources@[i]);
                }
            }
        }
    }

    /// The module named `name`, if one was ever recorded.
    pub fn get_module(&self, name: &str) -> (r: Option<&Module<A>>)
        requires
            self.well_formed(),
        ensures
            match r {
                Some(m) => self.modules().contains_key(name@) && *m == self.modules()[name@],
                None => !self.modules().contains_key(name@),
            },
    {
        match self.position(name) {
            Some(i) => Some(&self.modules[i]),
            None => None,
        }
    }

    /// The source information of the module named `name`, if one was ever
    /// recorded.
    pub fn get_source(&self, name: &str) -> (r: Option<&ModuleSourceInformation>)
        requires
            self.well_formed(),
        ensures
            match r {
                Some(s) => self.sources().contains_key(name@) && self.sources()[name@] == (
                    s.path@,
                    s.line_numbers@,
                ),
                None => !self.sources().contains_key(name@),
            },
    {
        match self.position(name) {
            Some(i) => Some(&self.sources[i]),
            None => None,
        }
    }

    fn position(&self, name: &str) -> (r: Option<usize>)
        requires
            self.well_formed(),
        ensures
            match r {
                Some(i) => i < self.modules@.len() && self.modules@[i as int].name@ == name@,
                None => !self.modules().contains_key(name@),
            },
    {
        let wanted = name.to_owned();
        let mut i: usize = 0;
        while i < self.modules.len()
            invariant
                self.well_formed(),
                wanted@ == name@,
                i <= self.modules@.len(),
                forall|j: int| 0 <= j < i ==> self.modules@[j].name@ != name@,
            decreases self.modules@.len() - i,
        {
            if self.modules[i].name == wanted {
                return Some(i);
            }
            i = i + 1;
        }
        None
    }

    /// Records each module of `ms` in order, a later one replacing an earlier
    /// one of the same name, and returns their file paths in that order.
    pub fn record_all(&mut self, ms: Vec<Module<A>>) -> (r: Vec<String>)
        requires
            old(self).well_formed(),
        ensures
            final(self).well_formed(),
            final(self).modules() == insert_modules(old(self).modules(), ms@),
            final(self).sources() == insert_sources(old(self).sources(), ms@),
            string_views(r@) == paths_of(ms@),
    {
        let ghost all = ms@;
        let mut paths: Vec<String> = Vec::new();
        for m in it: ms
            invariant
                all == it.seq(),
                self.well_formed(),
                self.modules() == insert_modules(old(self).modules(), all.take(it.index() as int)),
                self.sources() == insert_sources(old(self).sources(), all.take(it.index() as int)),
                string_views(paths@) == paths_of(all.take(it.index() as int)),
        {
            let ghost done = all.take(it.index() as int);
            assert(all.take(it.index() + 1).drop_last() == done);
            let ghost before_paths = paths@;
            assert(m == all[it.index() as int]);
            assert(it.index() < all.len());
            assert(string_views(before_paths).len() == before_paths.len());
            assert(before_paths.len() == it.index());
            paths.push(m.input_path.clone());
            assert(paths@ == before_paths.push(m.input_path));
            self.record(m);
            assert(string_views(paths@) =~= paths_of(all.take(it.index() + 1))) by {
                assert forall|k: int| 0 <= k < paths@.len() implies string_views(paths@)[k] == paths_of(all.take(it.index() + 1))[k] by {
                    if k < before_paths.len() {
                        assert(string_views(before_paths)[k] == paths_of(done)[k]);
                    }
                }
            }
        }
        assert(all.take(all.len() as int) == all);
        paths
    }
}

/// After a successful compile recorded `ms` over a snapshot holding `modules`
/// and `sources`, the name `k` is held exactly when it was held before or some
/// module of `ms` bears it. Where one does, the entry is the last module of
/// `ms` with that name and its source information; where none does, the
/// entry of before is kept.
pub proof fn lemma_compile_supersedes<A>(
    modules: Map<Seq<char>, Module<A>>,
    sources: Map<Seq<char>, (Seq<char>, Seq<u8>)>,
    ms: Seq<Module<A>>,
    k: Seq<char>,
)
    ensures
        insert_modules(modules, ms).contains_key(k) <==> (modules.contains_key(k) || exists|j: int|
            0 <= j < ms.len() && #[trigger] ms[j].name@ == k),
        insert_sources(sources, ms).contains_key(k) <==> (sources.contains_key(k) || exists|j: int|
            0 <= j < ms.len() && #[trigger] ms[j].name@ == k),
        forall|i: int|
            0 <= i < ms.len() && #[trigger] ms[i].name@ == k && (forall|j: int|
                i < j < ms.len() ==> #[trigger] ms[j].name@ != k) ==> {
                &&& insert_modules(modules, ms)[k] == ms[i]
                &&& insert_sources(sources, ms)[k] == source_view_of(ms[i])
            },
        (forall|j: int| 0 <= j < ms.len() ==> #[trigger] ms[j].name@ != k) ==> {
            &&& insert_modules(modules, ms)[k] == modules[k]
            &&& insert_sources(sources, ms)[k] == sources[k]
        },
    decreases ms.len(),
{
    if ms.len() > 0 {
        let rest = ms.drop_last();
        lemma_compile_supersedes(modules, sources, rest, k);
        let n = ms.len() - 1;
        if exists|j: int| 0 <= j < rest.len() && #[trigger] rest[j].name@ == k {
            let j = choose|j: int| 0 <= j < rest.len() && #[trigger] rest[j].name@ == k;
            assert(ms[j].name@ == k);
        }
        if exists|j: int| 0 <= j < ms.len() && #[trigger] ms[j].name@ == k {
            let j = choose|j: int| 0 <= j < ms.len() && #[trigger] ms[j].name@ == k;
            if j < n {
                assert(rest[j].name@ == k);
            }
        }
        assert forall|i: int|
            0 <= i < ms.len() && #[trigger] ms[i].name@ == k && (forall|j: int|
                i < j < ms.len() ==> #[trigger] ms[j].name@ != k) implies {
                &&& insert_modules(modules, ms)[k] == ms[i]
                &&& insert_sources(sources, ms)[k] == source_view_of(ms[i])
            } by {
            if i < n {
                assert(ms[n].name@ != k);
                assert(rest[i].name@ == k);
                assert forall|j: int| i < j < rest.len() implies #[trigger] rest[j].name@ != k by {
                    assert(ms[j].name@ != k);
                }
            }
        }
        if forall|j: int| 0 <= j < ms.len() ==> #[trigger] ms[j].name@ != k {
            assert(ms[n].name@ != k);
            assert forall|j: int| 0 <= j < rest.len() implies #[trigger] rest[j].name@ != k by {
                assert(ms[j].name@ != k);
            }
        }
    }
}

} // verus!
