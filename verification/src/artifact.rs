//! The temporary recipe artifact: a scoped, rendered recipe file with
//! conditional release.
//!
//! The artifact owns exactly one file for the lifetime of one resolve or
//! build operation. The file exists for the whole operation; it is removed
//! only when the operation succeeds, and deliberately left behind when it
//! fails, because the rendered recipe is the primary debugging aid after a
//! failed build. Release is therefore an explicit step on the success path,
//! not an unconditional destructor.
//!
//! The working directory is modeled by a file store that the surrounding
//! program mirrors onto the real filesystem action by action.

use vstd::prelude::*;

verus! {

/// One file of the store: its path and its rendered content.
pub struct StoredFile {
    pub path: String,
    pub content: String,
}

pub struct StoredFileV {
    pub path: Seq<char>,
    pub content: Seq<char>,
}

impl View for StoredFile {
    type V = StoredFileV;

    open spec fn view(&self) -> StoredFileV {
        StoredFileV { path: self.path@, content: self.content@ }
    }
}

/// True when the store holds a file at the path.
pub open spec fn store_contains(s: Seq<StoredFileV>, path: Seq<char>) -> bool {
    exists|i: int| 0 <= i < s.len() && s[i].path == path
}

/// True when the store holds exactly this file.
pub open spec fn store_has_file(s: Seq<StoredFileV>, f: StoredFileV) -> bool {
    exists|i: int| 0 <= i < s.len() && s[i] == f
}

/// Paths are unique keys of the store.
pub open spec fn store_wf(s: Seq<StoredFileV>) -> bool {
    forall|i: int, j: int| 0 <= i < j < s.len() ==> s[i].path != s[j].path
}

/// The files of one working directory.
pub struct FileStore {
    files: Vec<StoredFile>,
}

impl View for FileStore {
    type V = Seq<StoredFileV>;

    closed spec fn view(&self) -> Seq<StoredFileV> {
        Seq::new(self.files@.len(), |i: int| self.files@[i]@)
    }
}

impl FileStore {
    /// An empty working directory.
    pub fn new() -> (r: Self)
        ensures
            r@ == Seq::<StoredFileV>::empty(),
            store_wf(r@),
    {
        let r = FileStore { files: Vec::new() };
        proof {
            assert(r@ =~= Seq::<StoredFileV>::empty());
        }
        r
    }

    /// True when a file exists at the path.
    pub fn contains_path(&self, path: &String) -> (r: bool)
        ensures
            r == store_contains(self@, path@),
    {
        let n = self.files.len();
        let mut i: usize = 0;
        while i < n
            invariant
                n == self@.len(),
                i <= n,
                forall|j: int| 0 <= j < i ==> self@[j].path != path@,
            decreases n - i,
        {
            if self.files[i].path.eq(path) {
                assert(self@[i as int].path == path@);
                return true;
            }
            i += 1;
        }
        false
    }

    /// Writes a new file. The path must be fresh, which keeps paths unique.
    pub fn write(&mut self, path: String, content: String)
        requires
            !store_contains(old(self)@, path@),
        ensures
            final(self)@ == old(self)@.push(StoredFileV { path: path@, content: content@ }),
            store_wf(old(self)@) ==> store_wf(final(self)@),
    {
        self.files.push(StoredFile { path, content });
        proof {
            let f = StoredFileV { path: path@, content: content@ };
            assert(self@ =~= old(self)@.push(f));
            if store_wf(old(self)@) {
                assert forall|i: int, j: int| 0 <= i < j < self@.len() implies self@[i].path
                    != self@[j].path by {
                    if j == self@.len() - 1 {
                        assert(self@[i] == old(self)@[i]);
                        assert(!store_contains(old(self)@, path@));
                    }
                }
            }
        }
    }

    /// Removes the file at the path. Every other file stays exactly as it
    /// was.
    pub fn remove(&mut self, path: &String)
        requires
            store_wf(old(self)@),
            store_contains(old(self)@, path@),
        ensures
            store_wf(final(self)@),
            !store_contains(final(self)@, path@),
            final(self)@.len() == old(self)@.len() - 1,
            forall|f: StoredFileV|
                f.path != path@ ==> #[trigger] store_has_file(final(self)@, f) == store_has_file(
                    old(self)@,
                    f,
                ),
    {
        let n = self.files.len();
        let mut i: usize = 0;
        while i < n
            invariant
                n == self@.len(),
                i <= n,
                forall|j: int| 0 <= j < i ==> self@[j].path != path@,
                *self == *old(self),
                store_wf(old(self)@),
                store_contains(old(self)@, path@),
            decreases n - i,
        {
            if self.files[i].path.eq(path) {
                self.files.remove(i);
                proof {
                    let pre = old(self)@;
                    let prem = pre.remove(i as int);
                    pre.remove_ensures(i as int);
                    assert(self@ =~= prem);
                    assert forall|j: int, k: int| 0 <= j < k < self@.len() implies self@[j].path
                        != self@[k].path by {
                        let pj: int = if j < i { j } else { j + 1 };
                        let pk: int = if k < i { k } else { k + 1 };
                        assert(prem[j] == pre[pj]);
                        assert(prem[k] == pre[pk]);
                    }
                    assert forall|j: int| 0 <= j < self@.len() implies self@[j].path != path@ by {
                        let pj: int = if j < i { j } else { j + 1 };
                        assert(prem[j] == pre[pj]);
                        assert(pre[i as int].path == path@);
                    }
                    assert forall|f: StoredFileV| f.path != path@ implies #[trigger] store_has_file(
                        self@,
                        f,
                    ) == store_has_file(pre, f) by {
                        if store_has_file(self@, f) {
                            let w = choose|w: int| 0 <= w < self@.len() && self@[w] == f;
                            let pw: int = if w < i { w } else { w + 1 };
                            assert(prem[w] == pre[pw]);
                            assert(pre[pw] == f);
                        }
                        if store_has_file(pre, f) {
                            let w = choose|w: int| 0 <= w < pre.len() && pre[w] == f;
                            assert(pre[i as int].path == path@);
                            assert(w != i);
                            let nw: int = if w < i { w } else { w - 1 };
                            assert(prem[nw] == pre[w]);
                            assert(self@[nw] == f);
                        }
                    }
                }
                return ;
            }
            i += 1;
        }
        proof {
            assert(false);
        }
    }
}

/// The file name under which the recipe is rendered inside the working
/// directory.
pub open spec fn artifact_path_spec(work_directory: Seq<char>) -> Seq<char> {
    work_directory + "/recipe.yaml"@
}

/// A live temporary recipe artifact: it owns the rendered recipe file at
/// its path until it is completed.
pub struct TempArtifact {
    path: String,
}

impl View for TempArtifact {
    type V = Seq<char>;

    closed spec fn view(&self) -> Seq<char> {
        self.path@
    }
}

impl TempArtifact {
    /// Serializes a rendered recipe into the working directory and takes
    /// ownership of the file.
    pub fn acquire(store: &mut FileStore, work_directory: &String, rendered: String) -> (a:
        TempArtifact)
        requires
            !store_contains(old(store)@, artifact_path_spec(work_directory@)),
        ensures
            a@ == artifact_path_spec(work_directory@),
            final(store)@ == old(store)@.push(StoredFileV { path: a@, content: rendered@ }),
            store_contains(final(store)@, a@),
            store_wf(old(store)@) ==> store_wf(final(store)@),
    {
        let mut path = work_directory.clone();
        path.append("/recipe.yaml");
        let a = TempArtifact { path: path.clone() };
        store.write(path, rendered);
        proof {
            assert(store@[store@.len() - 1].path == a@);
        }
        a
    }

    /// The path of the rendered recipe file; on a failed operation this is
    /// what remains for diagnosis.
    pub fn path(&self) -> (r: &String)
        ensures
            r@ == self@,
    {
        &self.path
    }

    /// Completes the wrapped operation: on success the file is removed
    /// before the result is handed back, on failure it is deliberately left
    /// on disk and its path is returned for postmortem inspection. The
    /// artifact is consumed either way.
    pub fn complete(self, store: &mut FileStore, succeeded: bool) -> (kept: Option<String>)
        requires
            store_wf(old(store)@),
            store_contains(old(store)@, self@),
        ensures
            store_wf(final(store)@),
            succeeded ==> {
                &&& !store_contains(final(store)@, self@)
                &&& kept is None
                &&& final(store)@.len() == old(store)@.len() - 1
                &&& forall|f: StoredFileV|
                    f.path != self@ ==> #[trigger] store_has_file(final(store)@, f)
                        == store_has_file(old(store)@, f)
            },
            !succeeded ==> {
                &&& *final(store) == *old(store)
                &&& store_contains(final(store)@, self@)
                &&& kept is Some
                &&& kept->0@ == self@
            },
    {
        if succeeded {
            store.remove(&self.path);
            None
        } else {
            Some(self.path)
        }
    }
}

} // verus!
