//! The project manifest model: the fields of the manifest that the backend
//! consumes, and the per-phase, per-platform dependency selection.
//!
//! The manifest file format itself is parsed outside the library; the
//! backend consumes it as a structured value: project name and version
//! (both optional), declared channels, supported target platforms, and
//! dependency declarations partitioned by phase, with optional
//! platform-specific overlays.

use vstd::prelude::*;

use crate::SpecType;
use crate::deps::{DepEntryV, DepSet, lemma_upsert, spec_upsert, unique_names};
use crate::platform::Platform;
use vstd::string::StrSliceExecFns;

verus! {

/// The dependencies a manifest declares for the three phases.
#[derive(Debug)]
pub struct PhaseDeps {
    pub build: DepSet,
    pub host: DepSet,
    pub run: DepSet,
}

pub struct PhaseDepsV {
    pub build: Seq<DepEntryV>,
    pub host: Seq<DepEntryV>,
    pub run: Seq<DepEntryV>,
}

impl View for PhaseDeps {
    type V = PhaseDepsV;

    open spec fn view(&self) -> PhaseDepsV {
        PhaseDepsV { build: self.build@, host: self.host@, run: self.run@ }
    }
}

/// The dependency set a phase selects.
pub open spec fn phase_of(p: PhaseDepsV, ph: SpecType) -> Seq<DepEntryV> {
    match ph {
        SpecType::Build => p.build,
        SpecType::Host => p.host,
        SpecType::Run => p.run,
    }
}

impl PhaseDeps {
    /// No dependencies in any phase.
    pub fn new() -> (r: Self)
        ensures
            r@.build == Seq::<DepEntryV>::empty(),
            r@.host == Seq::<DepEntryV>::empty(),
            r@.run == Seq::<DepEntryV>::empty(),
    {
        PhaseDeps { build: DepSet::new(), host: DepSet::new(), run: DepSet::new() }
    }

    /// The set declared for one phase.
    pub fn phase(&self, ph: SpecType) -> (r: &DepSet)
        ensures
            r@ == phase_of(self@, ph),
    {
        match ph {
            SpecType::Build => &self.build,
            SpecType::Host => &self.host,
            SpecType::Run => &self.run,
        }
    }
}

/// Dependencies declared only for one target platform.
#[derive(Debug)]
pub struct TargetDeps {
    pub platform: Platform,
    pub deps: PhaseDeps,
}

pub struct TargetDepsV {
    pub platform: Platform,
    pub deps: PhaseDepsV,
}

impl View for TargetDeps {
    type V = TargetDepsV;

    open spec fn view(&self) -> TargetDepsV {
        TargetDepsV { platform: self.platform, deps: self.deps@ }
    }
}

/// The manifest fields the backend consumes. The manifest is immutable and
/// loaded once per backend instance.
#[derive(Debug)]
pub struct Manifest {
    /// The project name; required for recipe construction but optional in
    /// the manifest itself.
    pub name: Option<String>,
    /// The project version; optional, recipes fall back to a fixed sentinel.
    pub version: Option<String>,
    /// The channels declared by the project, either full urls or plain
    /// channel names resolved against a channel alias.
    pub channels: Vec<String>,
    /// The target platforms the project supports.
    pub platforms: Vec<Platform>,
    /// The root directory that contains the manifest.
    pub root_dir: String,
    /// Dependencies declared for every platform.
    pub base: PhaseDeps,
    /// Platform-specific dependency overlays.
    pub targets: Vec<TargetDeps>,
}

pub struct ManifestV {
    pub name: Option<Seq<char>>,
    pub version: Option<Seq<char>>,
    pub channels: Seq<Seq<char>>,
    pub platforms: Seq<Platform>,
    pub root_dir: Seq<char>,
    pub base: PhaseDepsV,
    pub targets: Seq<TargetDepsV>,
}

impl View for Manifest {
    type V = ManifestV;

    open spec fn view(&self) -> ManifestV {
        ManifestV {
            name: match self.name {
                Some(n) => Some(n@),
                None => None,
            },
            version: match self.version {
                Some(v) => Some(v@),
                None => None,
            },
            channels: Seq::new(self.channels@.len(), |i: int| self.channels@[i]@),
            platforms: self.platforms@,
            root_dir: self.root_dir@,
            base: self.base@,
            targets: Seq::new(self.targets@.len(), |i: int| self.targets@[i]@),
        }
    }
}

/// Overlaying one dependency set onto another: every overlay entry is
/// upserted in order.
pub open spec fn merge(base: Seq<DepEntryV>, overlay: Seq<DepEntryV>) -> Seq<DepEntryV>
    decreases overlay.len(),
{
    if overlay.len() == 0 {
        base
    } else {
        merge(spec_upsert(base, overlay[0]), overlay.drop_first())
    }
}

/// Folds the phase sets of every overlay that matches the platform, in
/// declaration order, onto the accumulator.
pub open spec fn merge_targets(
    acc: Seq<DepEntryV>,
    targets: Seq<TargetDepsV>,
    ph: SpecType,
    platform: Platform,
) -> Seq<DepEntryV>
    decreases targets.len(),
{
    if targets.len() == 0 {
        acc
    } else if targets[0].platform == platform {
        merge_targets(
            merge(acc, phase_of(targets[0].deps, ph)),
            targets.drop_first(),
            ph,
            platform,
        )
    } else {
        merge_targets(acc, targets.drop_first(), ph, platform)
    }
}

/// The dependencies of a manifest for one phase: the base declarations,
/// overlaid with the declarations of every target that matches the platform.
/// With no platform given only the base declarations apply.
pub open spec fn deps_for(m: ManifestV, ph: SpecType, platform: Option<Platform>) -> Seq<
    DepEntryV,
> {
    match platform {
        None => phase_of(m.base, ph),
        Some(p) => merge_targets(phase_of(m.base, ph), m.targets, ph, p),
    }
}

/// A manifest is well formed when every declared dependency set keys its
/// entries by unique names.
pub open spec fn manifest_wf(m: ManifestV) -> bool {
    &&& phases_wf(m.base)
    &&& forall|i: int| 0 <= i < m.targets.len() ==> phases_wf(#[trigger] m.targets[i].deps)
}

pub open spec fn phases_wf(p: PhaseDepsV) -> bool {
    unique_names(p.build) && unique_names(p.host) && unique_names(p.run)
}

/// Overlaying preserves unique names.
pub proof fn lemma_merge_unique(base: Seq<DepEntryV>, overlay: Seq<DepEntryV>)
    requires
        unique_names(base),
    ensures
        unique_names(merge(base, overlay)),
    decreases overlay.len(),
{
    if overlay.len() > 0 {
        lemma_upsert(base, overlay[0]);
        lemma_merge_unique(spec_upsert(base, overlay[0]), overlay.drop_first());
    }
}

proof fn lemma_merge_targets_unique(
    acc: Seq<DepEntryV>,
    targets: Seq<TargetDepsV>,
    ph: SpecType,
    platform: Platform,
)
    requires
        unique_names(acc),
    ensures
        unique_names(merge_targets(acc, targets, ph, platform)),
    decreases targets.len(),
{
    if targets.len() > 0 {
        if targets[0].platform == platform {
            lemma_merge_unique(acc, phase_of(targets[0].deps, ph));
            lemma_merge_targets_unique(
                merge(acc, phase_of(targets[0].deps, ph)),
                targets.drop_first(),
                ph,
                platform,
            );
        } else {
            lemma_merge_targets_unique(acc, targets.drop_first(), ph, platform);
        }
    }
}

/// Names stay unique keys through dependency selection: the sets the
/// classifier produces from a well-formed manifest key their entries by
/// unique names.
pub proof fn lemma_deps_for_unique(m: ManifestV, ph: SpecType, platform: Option<Platform>)
    requires
        manifest_wf(m),
    ensures
        unique_names(deps_for(m, ph, platform)),
{
    match platform {
        None => {
        },
        Some(p) => {
            lemma_merge_targets_unique(phase_of(m.base, ph), m.targets, ph, p);
        },
    }
}

/// Overlays every entry of `overlay` onto `acc`, in order.
pub fn merge_into(acc: &mut DepSet, overlay: &DepSet)
    ensures
        final(acc)@ == merge(old(acc)@, overlay@),
{
    let n = overlay.len();
    let mut i: usize = 0;
    proof {
        assert(overlay@.skip(0) =~= overlay@);
    }
    while i < n
        invariant
            n == overlay@.len(),
            i <= n,
            merge(old(acc)@, overlay@) == merge(acc@, overlay@.skip(i as int)),
        decreases n - i,
    {
        let ghost pre = acc@;
        let ent = overlay.entry(i);
        acc.insert(ent.name.clone(), ent.spec.clone());
        proof {
            let tail = overlay@.skip(i as int);
            assert(tail[0] == overlay@[i as int]);
            assert(tail.drop_first() =~= overlay@.skip(i + 1));
            assert(merge(pre, tail) == merge(spec_upsert(pre, tail[0]), tail.drop_first()));
        }
        i += 1;
    }
    proof {
        assert(overlay@.skip(n as int) =~= Seq::<DepEntryV>::empty());
    }
}

/// The sentinel version used when the manifest declares none.
pub open spec fn default_version_spec() -> Seq<char> {
    "0.1.0"@
}

/// True when `p` is a prefix of `s`.
pub open spec fn has_prefix_spec(s: Seq<char>, p: Seq<char>) -> bool {
    s.len() >= p.len() && s.subrange(0, p.len() as int) == p
}

/// True when a declared channel is already a full url rather than a plain
/// channel name.
pub open spec fn is_channel_url(c: Seq<char>) -> bool {
    has_prefix_spec(c, "https://"@) || has_prefix_spec(c, "http://"@) || has_prefix_spec(
        c,
        "file://"@,
    )
}

/// A declared channel resolved against the channel alias: a full url is kept
/// as it is, a plain channel name is appended to the alias.
pub open spec fn resolve_channel_spec(alias: Seq<char>, c: Seq<char>) -> Seq<char> {
    if is_channel_url(c) {
        c
    } else {
        alias + "/"@ + c
    }
}

/// The channels of a manifest, each resolved against the alias.
pub open spec fn resolved_channels_spec(m: ManifestV, alias: Seq<char>) -> Seq<Seq<char>> {
    Seq::new(m.channels.len(), |i: int| resolve_channel_spec(alias, m.channels[i]))
}

/// True when `p` is a prefix of `s`, compared character by character.
fn has_prefix(s: &str, p: &str) -> (r: bool)
    ensures
        r == has_prefix_spec(s@, p@),
{
    let sl = s.unicode_len();
    let pl = p.unicode_len();
    if sl < pl {
        return false;
    }
    let mut i: usize = 0;
    while i < pl
        invariant
            i <= pl,
            pl == p@.len(),
            sl == s@.len(),
            pl <= sl,
            forall|j: int| 0 <= j < i ==> s@[j] == p@[j],
        decreases pl - i,
    {
        if s.get_char(i) != p.get_char(i) {
            proof {
                assert(s@.subrange(0, pl as int)[i as int] != p@[i as int]);
            }
            return false;
        }
        i += 1;
    }
    proof {
        assert(s@.subrange(0, pl as int) =~= p@);
    }
    true
}

/// Resolves one declared channel against the channel alias.
pub fn resolve_channel(alias: &String, channel: &String) -> (r: String)
    ensures
        r@ == resolve_channel_spec(alias@, channel@),
{
    let c = channel.as_str();
    if has_prefix(c, "https://") || has_prefix(c, "http://") || has_prefix(c, "file://") {
        channel.clone()
    } else {
        let mut r = alias.clone();
        r.append("/");
        r.append(c);
        r
    }
}

impl Manifest {
    /// The dependencies of one phase, merged for the given target platform.
    pub fn dependencies(&self, ph: SpecType, platform: Option<Platform>) -> (r: DepSet)
        ensures
            r@ == deps_for(self@, ph, platform),
    {
        let mut acc = self.base.phase(ph).clone();
        match platform {
            None => acc,
            Some(p) => {
                let n = self.targets.len();
                let mut i: usize = 0;
                proof {
                    assert(self@.targets.skip(0) =~= self@.targets);
                }
                while i < n
                    invariant
                        n == self@.targets.len(),
                        i <= n,
                        merge_targets(phase_of(self@.base, ph), self@.targets, ph, p)
                            == merge_targets(acc@, self@.targets.skip(i as int), ph, p),
                    decreases n - i,
                {
                    let ghost pre = acc@;
                    let ghost tail = self@.targets.skip(i as int);
                    proof {
                        assert(tail[0] == self@.targets[i as int]);
                        assert(tail.drop_first() =~= self@.targets.skip(i + 1));
                    }
                    if self.targets[i].platform == p {
                        merge_into(&mut acc, self.targets[i].deps.phase(ph));
                        proof {
                            assert(merge_targets(pre, tail, ph, p) == merge_targets(
                                merge(pre, phase_of(tail[0].deps, ph)),
                                tail.drop_first(),
                                ph,
                                p,
                            ));
                        }
                    } else {
                        proof {
                            assert(merge_targets(pre, tail, ph, p) == merge_targets(
                                pre,
                                tail.drop_first(),
                                ph,
                                p,
                            ));
                        }
                    }
                    i += 1;
                }
                proof {
                    assert(self@.targets.skip(n as int) =~= Seq::<TargetDepsV>::empty());
                }
                acc
            },
        }
    }

    /// True when the manifest declares the platform as supported.
    pub fn supports_target_platform(&self, platform: Platform) -> (r: bool)
        ensures
            r == self@.platforms.contains(platform),
    {
        let n = self.platforms.len();
        let mut i: usize = 0;
        while i < n
            invariant
                n == self@.platforms.len(),
                i <= n,
                forall|j: int| 0 <= j < i ==> self@.platforms[j] != platform,
            decreases n - i,
        {
            if self.platforms[i] == platform {
                return true;
            }
            i += 1;
        }
        false
    }

    /// The version declared in the manifest, if any.
    pub fn version(&self) -> (r: Option<&String>)
        ensures
            match r {
                Some(v) => self@.version == Some(v@),
                None => self@.version is None,
            },
    {
        self.version.as_ref()
    }

    /// The declared version, or the sentinel default when the manifest
    /// declares none.
    pub fn version_or_default(&self) -> (r: String)
        ensures
            r@ == match self@.version {
                Some(v) => v,
                None => default_version_spec(),
            },
    {
        match &self.version {
            Some(v) => v.clone(),
            None => String::from_str("0.1.0"),
        }
    }

    /// The root directory that contains the manifest.
    pub fn manifest_root(&self) -> (r: &String)
        ensures
            r@ == self@.root_dir,
    {
        &self.root_dir
    }

    /// The channels declared in the manifest's project section, each
    /// resolved against the channel alias.
    pub fn resolved_project_channels(&self, channel_alias: &String) -> (r: Vec<String>)
        ensures
            r.deep_view() == resolved_channels_spec(self@, channel_alias@),
    {
        let mut urls: Vec<String> = Vec::new();
        let n = self.channels.len();
        let mut i: usize = 0;
        while i < n
            invariant
                n == self.channels@.len(),
                n == self@.channels.len(),
                urls@.len() == i,
                i <= n,
                forall|j: int|
                    0 <= j < i ==> urls@[j]@ == resolve_channel_spec(
                        channel_alias@,
                        self@.channels[j],
                    ),
            decreases n - i,
        {
            urls.push(resolve_channel(channel_alias, &self.channels[i]));
            i += 1;
        }
        proof {
            assert(urls.deep_view() =~= resolved_channels_spec(self@, channel_alias@));
        }
        urls
    }
}

} // verus!
