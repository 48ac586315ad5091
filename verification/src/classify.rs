//! The dependency classifier: groups a manifest's declared dependencies by
//! phase for a target platform, and applies the ecosystem's implicit
//! host-tool defaulting rule.

use vstd::prelude::*;

use crate::SpecType;
use crate::deps::{
    DepEntryV, DepSet, DepSpec, contains_name, lemma_upsert, spec_get, spec_upsert,
    unconstrained_spec, unique_names,
};
use crate::manifest::{Manifest, ManifestV, PhaseDeps, PhaseDepsV, deps_for};
use crate::platform::Platform;

verus! {

/// The three dependency sets classification produces for one platform.
pub open spec fn classify_spec(m: ManifestV, platform: Option<Platform>) -> PhaseDepsV {
    PhaseDepsV {
        build: deps_for(m, SpecType::Build, platform),
        host: deps_for(m, SpecType::Host, platform),
        run: deps_for(m, SpecType::Run, platform),
    }
}

/// Groups the manifest's declared dependencies into the build, host and run
/// sets that apply to the given target platform.
pub fn classify(m: &Manifest, platform: Option<Platform>) -> (r: PhaseDeps)
    ensures
        r@ == classify_spec(m@, platform),
{
    PhaseDeps {
        build: m.dependencies(SpecType::Build, platform),
        host: m.dependencies(SpecType::Host, platform),
        run: m.dependencies(SpecType::Run, platform),
    }
}

/// Classification is a pure function of the manifest and the platform:
/// running the classifier twice on the same manifest and platform yields
/// identical build, host and run sets.
pub proof fn lemma_classification_deterministic(
    m: ManifestV,
    platform: Option<Platform>,
    r1: PhaseDepsV,
    r2: PhaseDepsV,
)
    requires
        r1 == classify_spec(m, platform),
        r2 == classify_spec(m, platform),
    ensures
        r1.build == r2.build,
        r1.host == r2.host,
        r1.run == r2.run,
{
}

/// The default entry inserted for an implicit host tool that is declared
/// nowhere: the tool's name with the unconstrained specification.
pub open spec fn default_host_entry(name: Seq<char>) -> DepEntryV {
    DepEntryV { name, spec: unconstrained_spec() }
}

/// The implicit host-tool defaulting rule, applied tool by tool: a tool
/// already present in host is left alone; a tool declared in run is copied
/// into host with the run specification; otherwise the unconstrained default
/// entry is inserted.
pub open spec fn add_tools(
    host: Seq<DepEntryV>,
    run: Seq<DepEntryV>,
    tools: Seq<Seq<char>>,
) -> Seq<DepEntryV>
    decreases tools.len(),
{
    if tools.len() == 0 {
        host
    } else {
        let t = tools[0];
        let host1 = if contains_name(host, t) {
            host
        } else if contains_name(run, t) {
            spec_upsert(host, DepEntryV { name: t, spec: spec_get(run, t)->0 })
        } else {
            spec_upsert(host, default_host_entry(t))
        };
        add_tools(host1, run, tools.drop_first())
    }
}

/// Ensures the required implicit tools are present in the host set,
/// copying a run declaration when one exists so that host and run versions
/// stay consistent.
pub fn add_host_tools(host: &mut DepSet, run: &DepSet, tools: &Vec<String>)
    ensures
        final(host)@ == add_tools(old(host)@, run@, tools.deep_view()),
{
    let ghost toolsv = tools.deep_view();
    let n = tools.len();
    let mut i: usize = 0;
    proof {
        assert(toolsv.skip(0) =~= toolsv);
    }
    while i < n
        invariant
            n == toolsv.len(),
            n == tools@.len(),
            i <= n,
            toolsv == tools.deep_view(),
            add_tools(old(host)@, run@, toolsv) == add_tools(host@, run@, toolsv.skip(i as int)),
        decreases n - i,
    {
        let ghost pre = host@;
        let ghost tail = toolsv.skip(i as int);
        proof {
            assert(tail[0] == toolsv[i as int]);
            assert(toolsv[i as int] == tools@[i as int]@);
            assert(tail.drop_first() =~= toolsv.skip(i + 1));
        }
        let tool = &tools[i];
        if !host.contains_key(tool) {
            match run.get(tool) {
                Some(spec) => {
                    let copied = spec.clone();
                    host.insert(tool.clone(), copied);
                },
                None => {
                    host.insert(tool.clone(), DepSpec::unconstrained());
                },
            }
        }
        i += 1;
    }
    proof {
        assert(toolsv.skip(n as int) =~= Seq::<Seq<char>>::empty());
    }
}

/// The full effect of the defaulting rule on lookups: a required tool that
/// was missing from host is afterwards found with the run specification if
/// run declares it and with the unconstrained default otherwise; every other
/// lookup is untouched.
pub proof fn lemma_add_tools_lookup(
    host: Seq<DepEntryV>,
    run: Seq<DepEntryV>,
    tools: Seq<Seq<char>>,
    t: Seq<char>,
)
    ensures
        spec_get(add_tools(host, run, tools), t) == if tools.contains(t) && !contains_name(
            host,
            t,
        ) {
            if contains_name(run, t) {
                spec_get(run, t)
            } else {
                Some(unconstrained_spec())
            }
        } else {
            spec_get(host, t)
        },
        contains_name(add_tools(host, run, tools), t) == (tools.contains(t) || contains_name(
            host,
            t,
        )),
    decreases tools.len(),
{
    lemma_get_contains(host, t);
    lemma_get_contains(run, t);
    if tools.len() == 0 {
        assert(!tools.contains(t));
    } else {
        let t0 = tools[0];
        let host1 = if contains_name(host, t0) {
            host
        } else if contains_name(run, t0) {
            spec_upsert(host, DepEntryV { name: t0, spec: spec_get(run, t0)->0 })
        } else {
            spec_upsert(host, default_host_entry(t0))
        };
        if !contains_name(host, t0) {
            if contains_name(run, t0) {
                lemma_upsert(host, DepEntryV { name: t0, spec: spec_get(run, t0)->0 });
            } else {
                lemma_upsert(host, default_host_entry(t0));
            }
        }
        lemma_add_tools_lookup(host1, run, tools.drop_first(), t);
        lemma_get_contains(host1, t);
        assert(tools.contains(t) == (t == t0 || tools.drop_first().contains(t))) by {
            if tools.contains(t) {
                let w = choose|i: int| 0 <= i < tools.len() && tools[i] == t;
                if w > 0 {
                    assert(tools.drop_first()[w - 1] == t);
                }
            }
            if tools.drop_first().contains(t) {
                let w = choose|i: int|
                    0 <= i < tools.drop_first().len() && tools.drop_first()[i] == t;
                assert(tools[w + 1] == t);
            }
        }
    }
}

/// A lookup succeeds exactly when the name is contained.
proof fn lemma_get_contains(s: Seq<DepEntryV>, t: Seq<char>)
    ensures
        spec_get(s, t) is Some <==> contains_name(s, t),
{
}

/// Implicit host tool defaulting, stated for one required tool: after the
/// rule runs, the tool is present in host; if it was missing and run
/// declared it, host carries the run specification; if it was declared
/// nowhere, host carries the unconstrained default; if host already had it,
/// its entry is unchanged.
pub proof fn lemma_host_tool_defaulting(
    host: Seq<DepEntryV>,
    run: Seq<DepEntryV>,
    tools: Seq<Seq<char>>,
    t: Seq<char>,
)
    requires
        tools.contains(t),
    ensures
        contains_name(add_tools(host, run, tools), t),
        !contains_name(host, t) && contains_name(run, t) ==> spec_get(add_tools(host, run, tools), t)
            == spec_get(run, t),
        !contains_name(host, t) && !contains_name(run, t) ==> spec_get(
            add_tools(host, run, tools),
            t,
        ) == Some(unconstrained_spec()),
        contains_name(host, t) ==> spec_get(add_tools(host, run, tools), t) == spec_get(host, t),
{
    lemma_add_tools_lookup(host, run, tools, t);
}

/// Dependencies that are not required tools are untouched by the defaulting
/// rule.
pub proof fn lemma_host_tools_untouched(
    host: Seq<DepEntryV>,
    run: Seq<DepEntryV>,
    tools: Seq<Seq<char>>,
    t: Seq<char>,
)
    requires
        !tools.contains(t),
    ensures
        spec_get(add_tools(host, run, tools), t) == spec_get(host, t),
        contains_name(add_tools(host, run, tools), t) == contains_name(host, t),
{
    lemma_add_tools_lookup(host, run, tools, t);
}

/// The defaulting rule keeps names unique keys.
pub proof fn lemma_add_tools_unique(
    host: Seq<DepEntryV>,
    run: Seq<DepEntryV>,
    tools: Seq<Seq<char>>,
)
    requires
        unique_names(host),
    ensures
        unique_names(add_tools(host, run, tools)),
    decreases tools.len(),
{
    if tools.len() > 0 {
        let t = tools[0];
        if !contains_name(host, t) {
            if contains_name(run, t) {
                lemma_upsert(host, DepEntryV { name: t, spec: spec_get(run, t)->0 });
                lemma_add_tools_unique(
                    spec_upsert(host, DepEntryV { name: t, spec: spec_get(run, t)->0 }),
                    run,
                    tools.drop_first(),
                );
            } else {
                lemma_upsert(host, default_host_entry(t));
                lemma_add_tools_unique(
                    spec_upsert(host, default_host_entry(t)),
                    run,
                    tools.drop_first(),
                );
            }
        } else {
            lemma_add_tools_unique(host, run, tools.drop_first());
        }
    }
}

} // verus!
