//! Dependency specifications and dependency sets.
//!
//! A dependency set maps package names (unique keys) to dependency
//! specifications. Lookup by name is the primary operation; insertion
//! replaces an existing entry for the same name in place.

use vstd::prelude::*;

verus! {

/// A declared dependency specification: either a binary version constraint
/// or a reference to a source tree (a path, a git reference, or an archive
/// url).
#[derive(Debug, PartialEq, Eq)]
pub enum DepSpec {
    /// A binary dependency with a version constraint; the unconstrained
    /// constraint is written `*`.
    Binary { constraint: String },
    /// A dependency on a source tree at a path.
    SourcePath { path: String },
    /// A dependency on a source tree at a git reference.
    SourceGit { reference: String },
    /// A dependency on a source archive at a url.
    SourceUrl { url: String },
}

pub enum DepSpecV {
    Binary { constraint: Seq<char> },
    SourcePath { path: Seq<char> },
    SourceGit { reference: Seq<char> },
    SourceUrl { url: Seq<char> },
}

impl View for DepSpec {
    type V = DepSpecV;

    open spec fn view(&self) -> DepSpecV {
        match self {
            DepSpec::Binary { constraint } => DepSpecV::Binary { constraint: constraint@ },
            DepSpec::SourcePath { path } => DepSpecV::SourcePath { path: path@ },
            DepSpec::SourceGit { reference } => DepSpecV::SourceGit { reference: reference@ },
            DepSpec::SourceUrl { url } => DepSpecV::SourceUrl { url: url@ },
        }
    }
}

impl Clone for DepSpec {
    fn clone(&self) -> (r: Self)
        ensures
            r == *self,
    {
        match self {
            DepSpec::Binary { constraint } => DepSpec::Binary { constraint: constraint.clone() },
            DepSpec::SourcePath { path } => DepSpec::SourcePath { path: path.clone() },
            DepSpec::SourceGit { reference } => DepSpec::SourceGit {
                reference: reference.clone(),
            },
            DepSpec::SourceUrl { url } => DepSpec::SourceUrl { url: url.clone() },
        }
    }
}

/// The unconstrained binary specification in spec form.
pub open spec fn unconstrained_spec() -> DepSpecV {
    DepSpecV::Binary { constraint: "*"@ }
}

impl DepSpec {
    /// The default, unconstrained binary specification.
    pub fn unconstrained() -> (r: Self)
        ensures
            r@ == unconstrained_spec(),
    {
        DepSpec::Binary { constraint: String::from_str("*") }
    }
}

/// One named entry of a dependency set.
#[derive(Debug, PartialEq, Eq)]
pub struct DepEntry {
    pub name: String,
    pub spec: DepSpec,
}

pub struct DepEntryV {
    pub name: Seq<char>,
    pub spec: DepSpecV,
}

impl View for DepEntry {
    type V = DepEntryV;

    open spec fn view(&self) -> DepEntryV {
        DepEntryV { name: self.name@, spec: self.spec@ }
    }
}

impl Clone for DepEntry {
    fn clone(&self) -> (r: Self)
        ensures
            r == *self,
    {
        DepEntry { name: self.name.clone(), spec: self.spec.clone() }
    }
}

/// True when some entry carries the given name.
pub open spec fn contains_name(s: Seq<DepEntryV>, name: Seq<char>) -> bool {
    exists|i: int| 0 <= i < s.len() && s[i].name == name
}

/// The index of the first entry carrying the given name (meaningful only
/// when the name is contained).
pub open spec fn first_index(s: Seq<DepEntryV>, name: Seq<char>) -> int
    decreases s.len(),
{
    if s.len() == 0 {
        0
    } else if s[0].name == name {
        0
    } else {
        1 + first_index(s.drop_first(), name)
    }
}

/// The specification looked up by name, if any.
pub open spec fn spec_get(s: Seq<DepEntryV>, name: Seq<char>) -> Option<DepSpecV> {
    if contains_name(s, name) {
        Some(s[first_index(s, name)].spec)
    } else {
        None
    }
}

/// Insert-or-replace: an existing entry for the name is replaced in place,
/// otherwise the entry is appended.
pub open spec fn spec_upsert(s: Seq<DepEntryV>, e: DepEntryV) -> Seq<DepEntryV> {
    if contains_name(s, e.name) {
        s.update(first_index(s, e.name), e)
    } else {
        s.push(e)
    }
}

/// Well-formedness of a dependency set: names are unique keys.
pub open spec fn unique_names(s: Seq<DepEntryV>) -> bool {
    forall|i: int, j: int| 0 <= i < j < s.len() ==> s[i].name != s[j].name
}

/// `first_index` finds the first occurrence: the index is in range, carries
/// the name, and nothing before it does.
pub proof fn lemma_first_index(s: Seq<DepEntryV>, name: Seq<char>)
    requires
        contains_name(s, name),
    ensures
        0 <= first_index(s, name) < s.len(),
        s[first_index(s, name)].name == name,
        forall|j: int| 0 <= j < first_index(s, name) ==> s[j].name != name,
    decreases s.len(),
{
    if s[0].name == name {
    } else {
        let i = choose|i: int| 0 <= i < s.len() && s[i].name == name;
        assert(s.drop_first()[i - 1].name == name);
        lemma_first_index(s.drop_first(), name);
        let fi = first_index(s.drop_first(), name);
        assert(s[1 + fi] == s.drop_first()[fi]);
        assert forall|j: int| 0 <= j < 1 + fi implies s[j].name != name by {
            if j > 0 {
                assert(s.drop_first()[j - 1].name != name);
                assert(s[j] == s.drop_first()[j - 1]);
            }
        }
    }
}

/// An index that carries the name and is preceded by no occurrence of it is
/// the first index.
pub proof fn lemma_first_index_of(s: Seq<DepEntryV>, name: Seq<char>, i: int)
    requires
        0 <= i < s.len(),
        s[i].name == name,
        forall|j: int| 0 <= j < i ==> s[j].name != name,
    ensures
        contains_name(s, name),
        first_index(s, name) == i,
    decreases s.len(),
{
    assert(contains_name(s, name));
    if s[0].name == name {
        assert(i == 0);
    } else {
        assert(s.drop_first()[i - 1].name == name);
        assert forall|j: int| 0 <= j < i - 1 implies s.drop_first()[j].name != name by {
            assert(s.drop_first()[j] == s[j + 1]);
        }
        lemma_first_index_of(s.drop_first(), name, i - 1);
    }
}

/// What `spec_upsert` does to lookups: the upserted name maps to the new
/// specification, every other name is untouched, and unique names are
/// preserved.
pub proof fn lemma_upsert(s: Seq<DepEntryV>, e: DepEntryV)
    ensures
        contains_name(spec_upsert(s, e), e.name),
        spec_get(spec_upsert(s, e), e.name) == Some(e.spec),
        forall|n: Seq<char>|
            n != e.name ==> contains_name(#[trigger] spec_upsert(s, e), n) == contains_name(s, n),
        forall|n: Seq<char>|
            n != e.name ==> spec_get(#[trigger] spec_upsert(s, e), n) == spec_get(s, n),
        unique_names(s) ==> unique_names(spec_upsert(s, e)),
        spec_upsert(s, e).len() == if contains_name(s, e.name) {
            s.len() as int
        } else {
            s.len() + 1 as int
        },
{
    let r = spec_upsert(s, e);
    if contains_name(s, e.name) {
        let fi = first_index(s, e.name);
        lemma_first_index(s, e.name);
        assert(r == s.update(fi, e));
        lemma_first_index_of(r, e.name, fi);
        assert(spec_get(r, e.name) == Some(e.spec));
        assert forall|n: Seq<char>| n != e.name implies contains_name(#[trigger] spec_upsert(s, e), n)
            == contains_name(s, n) && spec_get(spec_upsert(s, e), n) == spec_get(s, n) by {
            lemma_upsert_other_update(s, e, fi, n);
        }
        if unique_names(s) {
            assert forall|i: int, j: int| 0 <= i < j < r.len() implies r[i].name != r[j].name by {
                if i != fi && j != fi {
                    assert(r[i] == s[i] && r[j] == s[j]);
                } else if i == fi {
                    assert(r[j] == s[j]);
                    assert(s[fi].name == e.name);
                } else {
                    assert(r[i] == s[i]);
                    assert(s[fi].name == e.name);
                }
            }
        }
    } else {
        assert(r == s.push(e));
        assert(r[s.len() as int] == e);
        assert forall|j: int| 0 <= j < s.len() implies r[j].name != e.name by {
            assert(r[j] == s[j]);
        }
        lemma_first_index_of(r, e.name, s.len() as int);
        assert(spec_get(r, e.name) == Some(e.spec));
        assert forall|n: Seq<char>| n != e.name implies contains_name(#[trigger] spec_upsert(s, e), n)
            == contains_name(s, n) && spec_get(spec_upsert(s, e), n) == spec_get(s, n) by {
            assert forall|i: int| 0 <= i < s.len() implies r[i] == s[i] by {}
            if contains_name(s, n) {
                let w = choose|i: int| 0 <= i < s.len() && s[i].name == n;
                assert(r[w].name == n);
                lemma_first_index(s, n);
                let fi = first_index(s, n);
                lemma_first_index_of(r, n, fi);
            } else {
                if contains_name(r, n) {
                    let w = choose|i: int| 0 <= i < r.len() && r[i].name == n;
                    assert(w == s.len());
                    assert(false);
                }
            }
        }
        if unique_names(s) {
            assert forall|i: int, j: int| 0 <= i < j < r.len() implies r[i].name != r[j].name by {
                if j < s.len() {
                    assert(r[i] == s[i] && r[j] == s[j]);
                } else {
                    assert(r[i] == s[i]);
                    assert(r[j] == e);
                    assert(!contains_name(s, e.name));
                }
            }
        }
    }
}

proof fn lemma_upsert_other_update(s: Seq<DepEntryV>, e: DepEntryV, fi: int, n: Seq<char>)
    requires
        contains_name(s, e.name),
        fi == first_index(s, e.name),
        n != e.name,
    ensures
        contains_name(s.update(fi, e), n) == contains_name(s, n),
        spec_get(s.update(fi, e), n) == spec_get(s, n),
{
    let r = s.update(fi, e);
    lemma_first_index(s, e.name);
    assert(s[fi].name == e.name);
    if contains_name(s, n) {
        lemma_first_index(s, n);
        let i = first_index(s, n);
        assert(i != fi);
        assert(r[i] == s[i]);
        assert forall|j: int| 0 <= j < i implies r[j].name != n by {
            if j != fi {
                assert(r[j] == s[j]);
            } else {
                assert(r[j] == e);
            }
        }
        lemma_first_index_of(r, n, i);
    } else {
        if contains_name(r, n) {
            let w = choose|i: int| 0 <= i < r.len() && r[i].name == n;
            if w == fi {
                assert(r[w] == e);
            } else {
                assert(r[w] == s[w]);
            }
            assert(false);
        }
    }
}

/// A set of dependencies keyed by package name.
#[derive(Debug, PartialEq, Eq)]
pub struct DepSet {
    entries: Vec<DepEntry>,
}

impl View for DepSet {
    type V = Seq<DepEntryV>;

    closed spec fn view(&self) -> Seq<DepEntryV> {
        Seq::new(self.entries@.len(), |i: int| self.entries@[i]@)
    }
}

impl Clone for DepSet {
    fn clone(&self) -> (r: Self)
        ensures
            r@ == self@,
    {
        let mut entries: Vec<DepEntry> = Vec::new();
        let mut i: usize = 0;
        while i < self.entries.len()
            invariant
                i <= self.entries.len(),
                entries@.len() == i,
                forall|j: int| 0 <= j < i ==> entries@[j] == self.entries@[j],
            decreases self.entries@.len() - i,
        {
            entries.push(self.entries[i].clone());
            i += 1;
        }
        let r = DepSet { entries };
        proof {
            assert(r@ =~= self@);
        }
        r
    }
}

impl DepSet {
    /// The empty dependency set.
    pub fn new() -> (r: Self)
        ensures
            r@ == Seq::<DepEntryV>::empty(),
            unique_names(r@),
    {
        let r = DepSet { entries: Vec::new() };
        proof {
            assert(r@ =~= Seq::<DepEntryV>::empty());
        }
        r
    }

    pub fn len(&self) -> (r: usize)
        ensures
            r == self@.len(),
    {
        self.entries.len()
    }

    /// The entry at an index; entries keep insertion order.
    pub fn entry(&self, i: usize) -> (r: &DepEntry)
        requires
            i < self@.len(),
        ensures
            r@ == self@[i as int],
    {
        &self.entries[i]
    }

    /// True when the set holds an entry for the name.
    pub fn contains_key(&self, name: &String) -> (r: bool)
        ensures
            r == contains_name(self@, name@),
    {
        let n = self.entries.len();
        let mut i: usize = 0;
        while i < n
            invariant
                n == self@.len(),
                i <= n,
                forall|j: int| 0 <= j < i ==> self@[j].name != name@,
            decreases n - i,
        {
            if self.entries[i].name.eq(name) {
                assert(self@[i as int].name == name@);
                return true;
            }
            i += 1;
        }
        false
    }

    /// Looks up the specification declared for the name.
    pub fn get(&self, name: &String) -> (r: Option<&DepSpec>)
        ensures
            match r {
                Some(d) => spec_get(self@, name@) == Some(d@),
                None => spec_get(self@, name@) is None,
            },
    {
        let n = self.entries.len();
        let mut i: usize = 0;
        while i < n
            invariant
                n == self@.len(),
                i <= n,
                forall|j: int| 0 <= j < i ==> self@[j].name != name@,
            decreases n - i,
        {
            if self.entries[i].name.eq(name) {
                proof {
                    lemma_first_index_of(self@, name@, i as int);
                }
                return Some(&self.entries[i].spec);
            }
            i += 1;
        }
        None
    }

    /// Inserts a specification for the name, replacing an existing entry for
    /// the same name in place.
    pub fn insert(&mut self, name: String, spec: DepSpec)
        ensures
            final(self)@ == spec_upsert(old(self)@, DepEntryV { name: name@, spec: spec@ }),
    {
        let entry = DepEntry { name, spec };
        let ghost e = entry@;
        let ghost gentry = entry;
        let n = self.entries.len();
        let mut i: usize = 0;
        while i < n
            invariant
                n == self@.len(),
                i <= n,
                forall|j: int| 0 <= j < i ==> self@[j].name != e.name,
                *self == *old(self),
                entry == gentry,
                e == gentry@,
                e == (DepEntryV { name: name@, spec: spec@ }),
            decreases n - i,
        {
            if self.entries[i].name.eq(&entry.name) {
                proof {
                    lemma_first_index_of(self@, e.name, i as int);
                }
                self.entries.remove(i);
                self.entries.insert(i, entry);
                proof {
                    let oe = old(self).entries@;
                    oe.remove_ensures(i as int);
                    oe.remove(i as int).insert_ensures(i as int, gentry);
                    vstd::seq_lib::lemma_update_is_remove_insert(oe, i as int, gentry);
                    assert(self.entries@ == oe.remove(i as int).insert(i as int, gentry));
                    assert(self.entries@ =~= oe.update(i as int, gentry));
                    assert(self@ =~= old(self)@.update(i as int, e));
                }
                return ;
            }
            i += 1;
        }
        self.entries.push(entry);
        proof {
            assert(!contains_name(old(self)@, e.name));
            assert(self@ =~= old(self)@.push(e));
        }
    }
}

} // verus!
