use pixi_build_backend::deps::{DepSet, DepSpec};
use pixi_build_backend::error::BackendError;
use pixi_build_backend::manifest::{Manifest, PhaseDeps, TargetDeps};
use pixi_build_backend::platform::Platform;
use pixi_build_backend::recipe::{EcosystemPolicy, NoArchKind, SourceLocation, build_recipe};

fn empty_phases() -> PhaseDeps {
    PhaseDeps { build: DepSet::new(), host: DepSet::new(), run: DepSet::new() }
}

fn manifest(name: Option<&str>, version: Option<&str>) -> Manifest {
    Manifest {
        name: name.map(|s| s.to_string()),
        version: version.map(|s| s.to_string()),
        channels: vec!["conda-forge".to_string()],
        platforms: vec![Platform::Linux64],
        root_dir: "/proj".to_string(),
        base: empty_phases(),
        targets: vec![],
    }
}

#[test]
fn missing_name_fails_python() {
    let m = manifest(None, Some("1.0"));
    let r = build_recipe(EcosystemPolicy::Python, &m, Platform::Linux64, Platform::Linux64);
    assert_eq!(r.unwrap_err(), BackendError::MissingProjectName);
}

#[test]
fn missing_name_fails_cmake() {
    let m = manifest(None, None);
    let r = build_recipe(EcosystemPolicy::CMake, &m, Platform::Linux64, Platform::Linux64);
    assert_eq!(r.unwrap_err(), BackendError::MissingProjectName);
}

#[test]
fn invalid_name_fails() {
    let m = manifest(Some("bad name"), None);
    let r = build_recipe(EcosystemPolicy::Python, &m, Platform::Linux64, Platform::Linux64);
    assert_eq!(r.unwrap_err(), BackendError::InvalidPackageName("bad name".to_string()));
}

#[test]
fn non_ascii_name_fails() {
    let m = manifest(Some("caf\u{e9}"), None);
    let r = build_recipe(EcosystemPolicy::Python, &m, Platform::Linux64, Platform::Linux64);
    assert_eq!(r.unwrap_err(), BackendError::InvalidPackageName("caf\u{e9}".to_string()));
}

#[test]
fn name_with_allowed_punctuation_is_kept() {
    let m = manifest(Some("My_Pkg.2"), None);
    let r = build_recipe(EcosystemPolicy::Python, &m, Platform::Linux64, Platform::Linux64)
        .unwrap();
    assert_eq!(r.package.name, "my_pkg.2");
}

#[test]
fn name_is_normalized_to_lowercase() {
    let m = manifest(Some("NumPy-Demo"), Some("1.2".into()));
    let r = build_recipe(EcosystemPolicy::Python, &m, Platform::Linux64, Platform::Linux64)
        .unwrap();
    assert_eq!(r.package.name, "numpy-demo");
}

#[test]
fn version_defaults_python_sentinel() {
    let m = manifest(Some("demo"), None);
    let r = build_recipe(EcosystemPolicy::Python, &m, Platform::Linux64, Platform::Linux64)
        .unwrap();
    assert_eq!(r.package.version, "0dev0");
}

#[test]
fn version_defaults_cmake_sentinel() {
    let m = manifest(Some("demo"), None);
    let r = build_recipe(EcosystemPolicy::CMake, &m, Platform::Linux64, Platform::Linux64)
        .unwrap();
    assert_eq!(r.package.version, "0.1.0");
}

#[test]
fn version_default_is_stable_across_calls() {
    let m = manifest(Some("demo"), None);
    let r1 = build_recipe(EcosystemPolicy::Python, &m, Platform::Linux64, Platform::Linux64)
        .unwrap();
    let r2 = build_recipe(EcosystemPolicy::Python, &m, Platform::Linux64, Platform::Linux64)
        .unwrap();
    assert_eq!(r1, r2);
    assert_eq!(r1.package.version, "0dev0");
}

#[test]
fn declared_version_is_kept() {
    let m = manifest(Some("demo"), Some("2.7.1"));
    let r = build_recipe(EcosystemPolicy::Python, &m, Platform::Linux64, Platform::Linux64)
        .unwrap();
    assert_eq!(r.package.version, "2.7.1");
}

#[test]
fn python_recipe_shape() {
    let m = manifest(Some("demo"), None);
    let r = build_recipe(EcosystemPolicy::Python, &m, Platform::Linux64, Platform::Linux64)
        .unwrap();
    assert_eq!(r.schema_version, 1);
    assert_eq!(r.build.number, 0);
    assert_eq!(r.build.noarch, NoArchKind::Python);
    assert_eq!(r.source, vec![SourceLocation::Path { path: "/proj".to_string() }]);
    assert_eq!(r.about.license, None);
    // pip is the canonical installer when no installer is declared anywhere.
    assert_eq!(
        r.build.script,
        vec!["python -m pip install --ignore-installed --no-deps --no-build-isolation . -vv"
            .to_string()]
    );
    // implicit host tools: the installer package and the interpreter.
    let host: Vec<(String, String)> =
        r.requirements.host.iter().map(|q| (q.name.clone(), q.constraint.clone())).collect();
    assert_eq!(
        host,
        vec![("pip".to_string(), "*".to_string()), ("python".to_string(), "*".to_string())]
    );
}

#[test]
fn cmake_recipe_shape() {
    let m = manifest(Some("demo"), None);
    let r = build_recipe(EcosystemPolicy::CMake, &m, Platform::Linux64, Platform::Linux64)
        .unwrap();
    assert_eq!(r.build.noarch, NoArchKind::ArchSpecific);
    assert_eq!(r.source, vec![]);
    assert_eq!(
        r.build.script,
        vec![
            "cmake -GNinja -DCMAKE_BUILD_TYPE=Release -DCMAKE_INSTALL_PREFIX=$PREFIX /proj"
                .to_string(),
            "cmake --build . --target install".to_string(),
        ]
    );
    // implicit host tools of the native policy.
    let host: Vec<String> = r.requirements.host.iter().map(|q| q.name.clone()).collect();
    assert_eq!(host, vec!["cmake".to_string(), "ninja".to_string()]);
    // the C++ compiler for the host platform is appended to build.
    let build: Vec<String> = r.requirements.build.iter().map(|q| q.name.clone()).collect();
    assert_eq!(build, vec!["gxx_linux-64".to_string()]);
}

#[test]
fn cmake_windows_compiler_and_script() {
    let m = manifest(Some("demo"), None);
    let r = build_recipe(EcosystemPolicy::CMake, &m, Platform::Win64, Platform::Win64).unwrap();
    let build: Vec<String> = r.requirements.build.iter().map(|q| q.name.clone()).collect();
    assert_eq!(build, vec!["vs2017_win-64".to_string()]);
    assert_eq!(
        r.build.script[0],
        "cmake -GNinja -DCMAKE_BUILD_TYPE=Release -DCMAKE_INSTALL_PREFIX=%LIBRARY_PREFIX% /proj"
    );
}

#[test]
fn uv_installer_selected_when_declared() {
    let mut m = manifest(Some("demo"), None);
    m.base.run.insert("uv".to_string(), DepSpec::Binary { constraint: ">=0.4".to_string() });
    let r = build_recipe(EcosystemPolicy::Python, &m, Platform::Linux64, Platform::Linux64)
        .unwrap();
    assert_eq!(
        r.build.script[0],
        "uv pip install --ignore-installed --no-deps --no-build-isolation . -vv"
    );
    // the uv declaration in run is copied into host with the same constraint.
    let host: Vec<(String, String)> =
        r.requirements.host.iter().map(|q| (q.name.clone(), q.constraint.clone())).collect();
    assert!(host.contains(&("uv".to_string(), ">=0.4".to_string())));
    assert!(host.contains(&("python".to_string(), "*".to_string())));
}

#[test]
fn windows_python_script_has_error_check() {
    let m = manifest(Some("demo"), None);
    let r = build_recipe(EcosystemPolicy::Python, &m, Platform::Linux64, Platform::Win64).unwrap();
    assert_eq!(r.build.script.len(), 2);
    assert_eq!(r.build.script[1], "if errorlevel 1 exit 1");
}

#[test]
fn platform_specific_dependency_applies_only_there() {
    let mut m = manifest(Some("demo"), None);
    let mut win_run = DepSet::new();
    win_run.insert("winpkg".to_string(), DepSpec::Binary { constraint: "*".to_string() });
    m.platforms = vec![Platform::Linux64, Platform::Win64];
    m.targets = vec![TargetDeps {
        platform: Platform::Win64,
        deps: PhaseDeps { build: DepSet::new(), host: DepSet::new(), run: win_run },
    }];
    let on_win =
        build_recipe(EcosystemPolicy::CMake, &m, Platform::Win64, Platform::Linux64).unwrap();
    let on_linux =
        build_recipe(EcosystemPolicy::CMake, &m, Platform::Linux64, Platform::Linux64).unwrap();
    let win_names: Vec<String> = on_win.requirements.run.iter().map(|q| q.name.clone()).collect();
    let linux_names: Vec<String> =
        on_linux.requirements.run.iter().map(|q| q.name.clone()).collect();
    assert!(win_names.contains(&"winpkg".to_string()));
    assert!(!linux_names.contains(&"winpkg".to_string()));
}

#[test]
fn recursive_source_dependency_fails_recipe() {
    let mut m = manifest(Some("demo"), None);
    m.base.run.insert(
        "other".to_string(),
        DepSpec::SourcePath { path: "/elsewhere".to_string() },
    );
    let r = build_recipe(EcosystemPolicy::Python, &m, Platform::Linux64, Platform::Linux64);
    assert_eq!(r.unwrap_err(), BackendError::RecursiveSourceDependency("other".to_string()));
}

#[test]
fn self_source_dependency_is_dropped_in_recipe() {
    let mut m = manifest(Some("demo"), None);
    m.base.run.insert("demo".to_string(), DepSpec::SourcePath { path: "/proj".to_string() });
    let r = build_recipe(EcosystemPolicy::Python, &m, Platform::Linux64, Platform::Linux64)
        .unwrap();
    let run_names: Vec<String> = r.requirements.run.iter().map(|q| q.name.clone()).collect();
    assert!(!run_names.contains(&"demo".to_string()));
}
