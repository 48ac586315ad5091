use pixi_build_backend::SpecType;
use pixi_build_backend::classify::{add_host_tools, classify};
use pixi_build_backend::deps::{DepSet, DepSpec};
use pixi_build_backend::error::BackendError;
use pixi_build_backend::extract::{MatchRequirement, MatchspecExtractor};
use pixi_build_backend::manifest::{Manifest, PhaseDeps};
use pixi_build_backend::platform::Platform;

fn set_of(entries: Vec<(&str, DepSpec)>) -> DepSet {
    let mut s = DepSet::new();
    for (name, spec) in entries {
        s.insert(name.to_string(), spec);
    }
    s
}

fn binary(constraint: &str) -> DepSpec {
    DepSpec::Binary { constraint: constraint.to_string() }
}

#[test]
fn dep_set_insert_and_get() {
    let mut s = DepSet::new();
    assert_eq!(s.len(), 0);
    s.insert("numpy".to_string(), binary(">=1.0"));
    s.insert("scipy".to_string(), binary("*"));
    assert!(s.contains_key(&"numpy".to_string()));
    assert!(!s.contains_key(&"pandas".to_string()));
    assert_eq!(s.get(&"numpy".to_string()), Some(&binary(">=1.0")));
    // inserting an existing name replaces the entry in place.
    s.insert("numpy".to_string(), binary(">=2.0"));
    assert_eq!(s.len(), 2);
    assert_eq!(s.get(&"numpy".to_string()), Some(&binary(">=2.0")));
    assert_eq!(s.entry(0).name, "numpy");
}

#[test]
fn extract_binary_dependencies_in_order() {
    let s = set_of(vec![("numpy", binary(">=1.0")), ("scipy", binary("*"))]);
    let extractor = MatchspecExtractor::new("/proj".to_string());
    let reqs = extractor.extract(&s).unwrap();
    assert_eq!(
        reqs,
        vec![
            MatchRequirement { name: "numpy".to_string(), constraint: ">=1.0".to_string() },
            MatchRequirement { name: "scipy".to_string(), constraint: "*".to_string() },
        ]
    );
}

#[test]
fn self_path_dropped_when_ignoring_self() {
    let s = set_of(vec![
        ("me", DepSpec::SourcePath { path: "/proj".to_string() }),
        ("numpy", binary(">=1.0")),
    ]);
    let extractor = MatchspecExtractor::new("/proj".to_string()).with_ignore_self(true);
    let reqs = extractor.extract(&s).unwrap();
    assert_eq!(
        reqs,
        vec![MatchRequirement { name: "numpy".to_string(), constraint: ">=1.0".to_string() }]
    );
}

#[test]
fn self_path_fails_without_ignore_self() {
    let s = set_of(vec![
        ("me", DepSpec::SourcePath { path: "/proj".to_string() }),
        ("numpy", binary(">=1.0")),
    ]);
    let extractor = MatchspecExtractor::new("/proj".to_string());
    let err = extractor.extract(&s).unwrap_err();
    assert_eq!(err, BackendError::RecursiveSourceDependency("me".to_string()));
}

#[test]
fn dot_path_counts_as_self() {
    let s = set_of(vec![("me", DepSpec::SourcePath { path: ".".to_string() })]);
    let extractor = MatchspecExtractor::new("/proj".to_string()).with_ignore_self(true);
    assert_eq!(extractor.extract(&s).unwrap(), vec![]);
}

#[test]
fn foreign_source_path_fails_even_when_ignoring_self() {
    let s = set_of(vec![("other", DepSpec::SourcePath { path: "/elsewhere".to_string() })]);
    let extractor = MatchspecExtractor::new("/proj".to_string()).with_ignore_self(true);
    let err = extractor.extract(&s).unwrap_err();
    assert_eq!(err, BackendError::RecursiveSourceDependency("other".to_string()));
}

#[test]
fn git_source_fails() {
    let s = set_of(vec![("gitdep", DepSpec::SourceGit { reference: "main".to_string() })]);
    let extractor = MatchspecExtractor::new("/proj".to_string()).with_ignore_self(true);
    let err = extractor.extract(&s).unwrap_err();
    assert_eq!(err, BackendError::RecursiveSourceDependency("gitdep".to_string()));
}

#[test]
fn classification_is_idempotent() {
    let manifest = Manifest {
        name: Some("demo".to_string()),
        version: None,
        channels: vec![],
        platforms: vec![Platform::Linux64],
        root_dir: "/proj".to_string(),
        base: PhaseDeps {
            build: set_of(vec![("cmake", binary(">=3.20"))]),
            host: set_of(vec![("zlib", binary("*"))]),
            run: set_of(vec![("numpy", binary(">=1.0"))]),
        },
        targets: vec![],
    };
    let first = classify(&manifest, Some(Platform::Linux64));
    let second = classify(&manifest, Some(Platform::Linux64));
    assert_eq!(first.build, second.build);
    assert_eq!(first.host, second.host);
    assert_eq!(first.run, second.run);
}

#[test]
fn classification_groups_by_phase() {
    let manifest = Manifest {
        name: Some("demo".to_string()),
        version: None,
        channels: vec![],
        platforms: vec![Platform::Linux64],
        root_dir: "/proj".to_string(),
        base: PhaseDeps {
            build: set_of(vec![("cmake", binary(">=3.20"))]),
            host: set_of(vec![("zlib", binary("*"))]),
            run: set_of(vec![("numpy", binary(">=1.0"))]),
        },
        targets: vec![],
    };
    let sets = classify(&manifest, None);
    assert!(sets.build.contains_key(&"cmake".to_string()));
    assert!(sets.host.contains_key(&"zlib".to_string()));
    assert!(sets.run.contains_key(&"numpy".to_string()));
    assert!(!sets.run.contains_key(&"cmake".to_string()));
}

#[test]
fn host_tool_copied_from_run() {
    let mut host = DepSet::new();
    let run = set_of(vec![("python", binary(">=3.12"))]);
    add_host_tools(&mut host, &run, &vec!["pip".to_string(), "python".to_string()]);
    // python was declared in run: the same specification is copied to host.
    assert_eq!(host.get(&"python".to_string()), Some(&binary(">=3.12")));
    // pip was declared nowhere: host gets the unconstrained default entry.
    assert_eq!(host.get(&"pip".to_string()), Some(&binary("*")));
}

#[test]
fn host_tool_already_present_is_kept() {
    let mut host = set_of(vec![("python", binary("==3.11"))]);
    let run = set_of(vec![("python", binary(">=3.12"))]);
    add_host_tools(&mut host, &run, &vec!["python".to_string()]);
    assert_eq!(host.get(&"python".to_string()), Some(&binary("==3.11")));
    assert_eq!(host.len(), 1);
}

#[test]
fn phase_selector_returns_declared_set() {
    let phases = PhaseDeps {
        build: set_of(vec![("cmake", binary("*"))]),
        host: DepSet::new(),
        run: DepSet::new(),
    };
    assert!(phases.phase(SpecType::Build).contains_key(&"cmake".to_string()));
    assert!(!phases.phase(SpecType::Run).contains_key(&"cmake".to_string()));
}
