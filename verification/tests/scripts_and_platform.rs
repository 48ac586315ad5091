use pixi_build_backend::cmake;
use pixi_build_backend::error::{BackendError, SERVER_ERROR_CODE, convert_error};
use pixi_build_backend::manifest::{Manifest, PhaseDeps, resolve_channel};
use pixi_build_backend::deps::DepSet;
use pixi_build_backend::platform::{Language, Platform, default_compiler};
use pixi_build_backend::python;

#[test]
fn installer_package_name() {
    assert_eq!(python::build_script::Installer::Uv.package_name(), "uv");
    assert_eq!(python::build_script::Installer::Pip.package_name(), "pip");
    assert_eq!(python::build_script::Installer::default(), python::build_script::Installer::Pip);
}

#[test]
fn python_render_pip_unix() {
    let context = python::build_script::BuildScriptContext {
        installer: python::build_script::Installer::Pip,
        build_platform: python::build_script::BuildPlatform::Unix,
    };
    assert_eq!(
        context.render(),
        vec!["python -m pip install --ignore-installed --no-deps --no-build-isolation . -vv"
            .to_string()]
    );
}

#[test]
fn python_render_uv_windows() {
    let context = python::build_script::BuildScriptContext {
        installer: python::build_script::Installer::Uv,
        build_platform: python::build_script::BuildPlatform::Windows,
    };
    assert_eq!(
        context.render(),
        vec![
            "uv pip install --ignore-installed --no-deps --no-build-isolation . -vv".to_string(),
            "if errorlevel 1 exit 1".to_string(),
        ]
    );
}

#[test]
fn cmake_render_unix() {
    let context = cmake::build_script::BuildScriptContext {
        build_platform: cmake::build_script::BuildPlatform::Unix,
        source_dir: "/src/demo".to_string(),
    };
    assert_eq!(
        context.render(),
        vec![
            "cmake -GNinja -DCMAKE_BUILD_TYPE=Release -DCMAKE_INSTALL_PREFIX=$PREFIX /src/demo"
                .to_string(),
            "cmake --build . --target install".to_string(),
        ]
    );
}

#[test]
fn default_compiler_table() {
    let gxx = default_compiler(Platform::Linux64, &Language::Cxx);
    assert_eq!(gxx, Some("gxx".to_string()));
    assert_eq!(default_compiler(Platform::Linux64, &Language::C), Some("gcc".to_string()));
    assert_eq!(default_compiler(Platform::Win64, &Language::C), Some("vs2017".to_string()));
    assert_eq!(default_compiler(Platform::Win64, &Language::Cxx), Some("vs2017".to_string()));
    assert_eq!(default_compiler(Platform::Osx64, &Language::C), Some("clang".to_string()));
    assert_eq!(default_compiler(Platform::OsxArm64, &Language::Cxx), Some("clangxx".to_string()));
    assert_eq!(
        default_compiler(Platform::EmscriptenWasm32, &Language::Cxx),
        Some("emscripten".to_string())
    );
    // fortran is platform-agnostic, any other language passes through.
    assert_eq!(default_compiler(Platform::Win64, &Language::Fortran), Some("gfortran".to_string()));
    assert_eq!(
        default_compiler(Platform::Linux64, &Language::Other("rust".to_string())),
        Some("rust".to_string())
    );
}

#[test]
fn platform_names_and_classes() {
    assert_eq!(Platform::Linux64.as_str(), "linux-64");
    assert_eq!(Platform::NoArch.as_str(), "noarch");
    assert!(Platform::Win64.is_windows());
    assert!(!Platform::Win64.is_osx());
    assert!(Platform::OsxArm64.is_osx());
    assert!(!Platform::Linux64.is_windows());
}

#[test]
fn compiler_packages_suffix_platform() {
    let reqs = cmake::compiler_packages(Platform::OsxArm64);
    assert_eq!(reqs.len(), 1);
    assert_eq!(reqs[0].name, "clangxx_osx-arm64");
    assert_eq!(reqs[0].constraint, "*");
}

#[test]
fn input_globs_contents() {
    let py = python::input_globs();
    assert_eq!(py.len(), 24);
    assert_eq!(py[0], "**/*.py");
    assert!(py.contains(&"pyproject.toml".to_string()));
    let cm = cmake::input_globs();
    assert_eq!(
        cm,
        vec![
            "**/*.{c,cc,cxx,cpp,h,hpp,hxx}".to_string(),
            "**/*.{cmake,cmake.in}".to_string(),
            "**/CMakeFiles.txt".to_string(),
        ]
    );
}

#[test]
fn channel_resolution() {
    let alias = "https://conda.anaconda.org".to_string();
    assert_eq!(
        resolve_channel(&alias, &"conda-forge".to_string()),
        "https://conda.anaconda.org/conda-forge"
    );
    assert_eq!(
        resolve_channel(&alias, &"https://prefix.dev/my-channel".to_string()),
        "https://prefix.dev/my-channel"
    );
}

#[test]
fn resolved_project_channels_resolve_each() {
    let manifest = Manifest {
        name: Some("demo".to_string()),
        version: None,
        channels: vec!["conda-forge".to_string(), "file:///local/channel".to_string()],
        platforms: vec![Platform::Linux64],
        root_dir: "/proj".to_string(),
        base: PhaseDeps { build: DepSet::new(), host: DepSet::new(), run: DepSet::new() },
        targets: vec![],
    };
    let urls = manifest.resolved_project_channels(&"https://conda.anaconda.org".to_string());
    assert_eq!(
        urls,
        vec![
            "https://conda.anaconda.org/conda-forge".to_string(),
            "file:///local/channel".to_string(),
        ]
    );
}

#[test]
fn version_or_default_uses_sentinel() {
    let mut manifest = Manifest {
        name: Some("demo".to_string()),
        version: None,
        channels: vec![],
        platforms: vec![],
        root_dir: "/proj".to_string(),
        base: PhaseDeps { build: DepSet::new(), host: DepSet::new(), run: DepSet::new() },
        targets: vec![],
    };
    assert_eq!(manifest.version_or_default(), "0.1.0");
    assert!(manifest.version().is_none());
    manifest.version = Some("3.4".to_string());
    assert_eq!(manifest.version_or_default(), "3.4");
}

#[test]
fn error_messages_and_codes() {
    let err = BackendError::UnsupportedTargetPlatform(Platform::Win64);
    let obj = convert_error(&err);
    assert_eq!(obj.code, SERVER_ERROR_CODE);
    assert_eq!(obj.message, "the project does not support the target platform (win-64)");
    let named = BackendError::RecursiveSourceDependency("numpy".to_string());
    assert_eq!(
        convert_error(&named).message,
        "recursive source dependencies are not yet supported (numpy)"
    );
}
