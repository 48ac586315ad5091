//! Match-requirement extraction: converts a dependency set into the named
//! match requirements the external resolver understands.
//!
//! A dependency that refers to a source tree is unsupported: it fails the
//! conversion with a descriptive error, except that a reference to the
//! project's own root directory is silently dropped when ignoring self is
//! requested (it would be a self-referential build dependency).

use vstd::prelude::*;

use crate::deps::{DepEntryV, DepSet, DepSpec, DepSpecV};
use crate::error::{BackendError, BackendErrorV};
use vstd::string::StrSliceExecFns;

verus! {

/// A resolved, named match requirement: a package name paired with its
/// version constraint; immutable once created.
#[derive(Debug, PartialEq, Eq)]
pub struct MatchRequirement {
    pub name: String,
    pub constraint: String,
}

pub struct MatchRequirementV {
    pub name: Seq<char>,
    pub constraint: Seq<char>,
}

impl View for MatchRequirement {
    type V = MatchRequirementV;

    open spec fn view(&self) -> MatchRequirementV {
        MatchRequirementV { name: self.name@, constraint: self.constraint@ }
    }
}

impl Clone for MatchRequirement {
    fn clone(&self) -> (r: Self)
        ensures
            r == *self,
    {
        MatchRequirement { name: self.name.clone(), constraint: self.constraint.clone() }
    }
}

/// The view of a requirement vector.
pub open spec fn reqs_view(v: Seq<MatchRequirement>) -> Seq<MatchRequirementV> {
    Seq::new(v.len(), |i: int| v[i]@)
}

/// True when a source path refers to the project's own root directory:
/// either literally the root directory, or the relative current-directory
/// path.
pub open spec fn is_self_path(path: Seq<char>, root: Seq<char>) -> bool {
    path == "."@ || path == root
}

/// What extraction produces for a dependency set, entry by entry: binary
/// specifications become named requirements in order; a source path that
/// refers to the root is dropped when ignoring self is requested; any other
/// source reference fails with the recursive-dependency error naming the
/// offending entry.
pub open spec fn extract_from(
    s: Seq<DepEntryV>,
    root: Seq<char>,
    ignore_self: bool,
) -> Result<Seq<MatchRequirementV>, BackendErrorV>
    decreases s.len(),
{
    if s.len() == 0 {
        Ok(Seq::<MatchRequirementV>::empty())
    } else {
        let e = s[0];
        match e.spec {
            DepSpecV::Binary { constraint } => match extract_from(
                s.drop_first(),
                root,
                ignore_self,
            ) {
                Ok(rest) => Ok(
                    seq![MatchRequirementV { name: e.name, constraint }] + rest,
                ),
                Err(err) => Err(err),
            },
            DepSpecV::SourcePath { path } => {
                if ignore_self && is_self_path(path, root) {
                    extract_from(s.drop_first(), root, ignore_self)
                } else {
                    Err(BackendErrorV::RecursiveSourceDependency(e.name))
                }
            },
            _ => Err(BackendErrorV::RecursiveSourceDependency(e.name)),
        }
    }
}

/// Extracts match requirements from dependency sets against one channel
/// configuration's root directory.
pub struct MatchspecExtractor {
    root_dir: String,
    ignore_self: bool,
}

pub struct MatchspecExtractorV {
    pub root_dir: Seq<char>,
    pub ignore_self: bool,
}

impl View for MatchspecExtractor {
    type V = MatchspecExtractorV;

    closed spec fn view(&self) -> MatchspecExtractorV {
        MatchspecExtractorV { root_dir: self.root_dir@, ignore_self: self.ignore_self }
    }
}

impl MatchspecExtractor {
    /// A new extractor for the configuration's root directory; self
    /// references are not ignored until requested.
    pub fn new(root_dir: String) -> (r: Self)
        ensures
            r@.root_dir == root_dir@,
            r@.ignore_self == false,
    {
        MatchspecExtractor { root_dir, ignore_self: false }
    }

    /// If `ignore_self` is true, extraction will silently skip dependencies
    /// that point to the root directory itself.
    pub fn with_ignore_self(self, ignore_self: bool) -> (r: Self)
        ensures
            r@.root_dir == self@.root_dir,
            r@.ignore_self == ignore_self,
    {
        MatchspecExtractor { ignore_self, ..self }
    }

    /// Extracts match requirements from the given set of dependencies.
    pub fn extract(&self, dependencies: &DepSet) -> (r: Result<
        Vec<MatchRequirement>,
        BackendError,
    >)
        ensures
            match r {
                Ok(v) => extract_from(dependencies@, self@.root_dir, self@.ignore_self) == Ok::<
                    Seq<MatchRequirementV>,
                    BackendErrorV,
                >(reqs_view(v@)),
                Err(e) => extract_from(dependencies@, self@.root_dir, self@.ignore_self) == Err::<
                    Seq<MatchRequirementV>,
                    BackendErrorV,
                >(e@),
            },
    {
        let ghost deps = dependencies@;
        let ghost root = self@.root_dir;
        let ghost ig = self@.ignore_self;
        let mut specs: Vec<MatchRequirement> = Vec::new();
        let n = dependencies.len();
        let mut i: usize = 0;
        proof {
            assert(deps.skip(0) =~= deps);
            assert(reqs_view(specs@) =~= Seq::<MatchRequirementV>::empty());
        }
        while i < n
            invariant
                n == deps.len(),
                i <= n,
                deps == dependencies@,
                root == self@.root_dir,
                ig == self@.ignore_self,
                extract_from(deps, root, ig) == match extract_from(deps.skip(i as int), root, ig) {
                    Ok(rest) => Ok::<Seq<MatchRequirementV>, BackendErrorV>(
                        reqs_view(specs@) + rest,
                    ),
                    Err(err) => Err::<Seq<MatchRequirementV>, BackendErrorV>(err),
                },
            decreases n - i,
        {
            let ghost tail = deps.skip(i as int);
            let ghost pre = specs@;
            proof {
                assert(tail[0] == deps[i as int]);
                assert(tail.drop_first() =~= deps.skip(i + 1));
            }
            let entry = dependencies.entry(i);
            match &entry.spec {
                DepSpec::Binary { constraint } => {
                    specs.push(
                        MatchRequirement {
                            name: entry.name.clone(),
                            constraint: constraint.clone(),
                        },
                    );
                    proof {
                        let m = MatchRequirementV { name: entry.name@, constraint: constraint@ };
                        assert(tail[0].spec == (DepSpecV::Binary { constraint: constraint@ }));
                        if extract_from(deps.skip(i + 1), root, ig) is Ok {
                            let rest = extract_from(deps.skip(i + 1), root, ig)->Ok_0;
                            assert(reqs_view(pre) + (seq![m] + rest) =~= reqs_view(specs@) + rest);
                        }
                    }
                },
                DepSpec::SourcePath { path } => {
                    let dot = path.as_str().unicode_len() == 1 && path.as_str().get_char(0) == '.';
                    let is_self = dot || path.eq(&self.root_dir);
                    proof {
                        reveal_strlit(".");
                        if path@ == "."@ {
                            assert(path@.len() == 1 && path@[0] == '.');
                        }
                        if path@.len() == 1 && path@[0] == '.' {
                            assert(path@ =~= "."@);
                        }
                        assert(is_self == is_self_path(path@, root));
                        assert(tail[0].spec == (DepSpecV::SourcePath { path: path@ }));
                    }
                    if !(self.ignore_self && is_self) {
                        return Err(BackendError::RecursiveSourceDependency(entry.name.clone()));
                    }
                },
                DepSpec::SourceGit { reference: _ } => {
                    return Err(BackendError::RecursiveSourceDependency(entry.name.clone()));
                },
                DepSpec::SourceUrl { url: _ } => {
                    return Err(BackendError::RecursiveSourceDependency(entry.name.clone()));
                },
            }
            i += 1;
        }
        proof {
            assert(deps.skip(n as int) =~= Seq::<DepEntryV>::empty());
            assert(reqs_view(specs@) + Seq::<MatchRequirementV>::empty() =~= reqs_view(specs@));
        }
        Ok(specs)
    }
}

/// The two branches of self-reference handling: a dependency on the
/// project's own source tree is dropped silently exactly when ignoring self
/// is requested, and fails with the recursive-dependency error naming the
/// entry otherwise.
pub proof fn lemma_self_dependency_branches(
    e: DepEntryV,
    rest: Seq<DepEntryV>,
    root: Seq<char>,
    path: Seq<char>,
)
    requires
        e.spec == (DepSpecV::SourcePath { path }),
        is_self_path(path, root),
    ensures
        extract_from(seq![e] + rest, root, true) == extract_from(rest, root, true),
        extract_from(seq![e] + rest, root, false) == Err::<Seq<MatchRequirementV>, BackendErrorV>(
            BackendErrorV::RecursiveSourceDependency(e.name),
        ),
{
    let s = seq![e] + rest;
    assert(s[0] == e);
    assert(s.drop_first() =~= rest);
}

} // verus!
