use pixi_build_backend::backend::{
    Backend, BackendFactory, ChannelConfiguration, CondaMetadataParams, FrontendCapabilities,
    build_conda_finish, get_conda_metadata_finish,
};
use pixi_build_backend::deps::{DepSet, DepSpec};
use pixi_build_backend::error::BackendError;
use pixi_build_backend::manifest::{Manifest, PhaseDeps};
use pixi_build_backend::platform::Platform;
use pixi_build_backend::recipe::{EcosystemPolicy, NoArchKind};

fn demo_manifest() -> Manifest {
    let mut run = DepSet::new();
    run.insert("numpy".to_string(), DepSpec::Binary { constraint: ">=1.0".to_string() });
    Manifest {
        name: Some("demo".to_string()),
        version: None,
        channels: vec!["conda-forge".to_string()],
        platforms: vec![Platform::Linux64],
        root_dir: "/proj".to_string(),
        base: PhaseDeps { build: DepSet::new(), host: DepSet::new(), run },
        targets: vec![],
    }
}

fn metadata_params() -> CondaMetadataParams {
    CondaMetadataParams {
        build_platform: None,
        host_platform: None,
        channel_base_urls: None,
        channel_configuration: ChannelConfiguration {
            base_url: "https://conda.anaconda.org".to_string(),
        },
        work_directory: "/work".to_string(),
    }
}

#[test]
fn metadata_end_to_end_scenario() {
    // manifest with name "demo", no version, one run dependency "numpy>=1.0",
    // no host or build dependencies.
    let backend = Backend {
        policy: EcosystemPolicy::Python,
        manifest: demo_manifest(),
        cache_dir: None,
    };
    let prepared = backend
        .get_conda_metadata_prepare(metadata_params(), 1_700_000_000_000, Platform::Linux64)
        .unwrap();

    // the recipe carries the sentinel version and the implicit host pair.
    assert_eq!(prepared.recipe.package.name, "demo");
    assert_eq!(prepared.recipe.package.version, "0dev0");
    let host: Vec<(String, String)> = prepared
        .recipe
        .requirements
        .host
        .iter()
        .map(|q| (q.name.clone(), q.constraint.clone()))
        .collect();
    assert_eq!(
        host,
        vec![("pip".to_string(), "*".to_string()), ("python".to_string(), "*".to_string())]
    );
    let run: Vec<(String, String)> = prepared
        .recipe
        .requirements
        .run
        .iter()
        .map(|q| (q.name.clone(), q.constraint.clone()))
        .collect();
    assert_eq!(run, vec![("numpy".to_string(), ">=1.0".to_string())]);
    assert_eq!(prepared.config.target_platform, Platform::NoArch);
    assert_eq!(
        prepared.config.channels,
        vec!["https://conda.anaconda.org/conda-forge".to_string()]
    );
    assert_eq!(prepared.config.work_directory, "/work");
    assert_eq!(prepared.config.timestamp, 1_700_000_000_000);
    assert!(!prepared.config.store_recipe);

    // the external resolver finalizes the run dependencies; exactly one
    // package record is returned.
    let result = get_conda_metadata_finish(
        &prepared,
        "pyhabc123_0".to_string(),
        vec!["numpy >=1.0".to_string()],
        vec![],
    );
    assert_eq!(result.packages.len(), 1);
    let record = &result.packages[0];
    assert_eq!(record.name, "demo");
    assert_eq!(record.version, "0dev0");
    assert_eq!(record.build, "pyhabc123_0");
    assert_eq!(record.build_number, 0);
    assert_eq!(record.subdir, Platform::NoArch);
    assert_eq!(record.depends, vec!["numpy >=1.0".to_string()]);
    assert_eq!(record.constraints, Vec::<String>::new());
    assert_eq!(record.license, None);
    assert_eq!(record.noarch, NoArchKind::Python);
    assert!(result.input_globs.is_none());
}

#[test]
fn explicit_channels_override_manifest() {
    let backend = Backend {
        policy: EcosystemPolicy::Python,
        manifest: demo_manifest(),
        cache_dir: None,
    };
    let mut params = metadata_params();
    params.channel_base_urls = Some(vec!["https://prefix.dev/custom".to_string()]);
    let prepared = backend.get_conda_metadata_prepare(params, 0, Platform::Linux64).unwrap();
    assert_eq!(prepared.config.channels, vec!["https://prefix.dev/custom".to_string()]);
}

#[test]
fn unsupported_platform_rejected_for_cmake() {
    let backend = Backend {
        policy: EcosystemPolicy::CMake,
        manifest: demo_manifest(),
        cache_dir: None,
    };
    let mut params = metadata_params();
    params.host_platform = Some(pixi_build_backend::backend::PlatformAndVirtualPackages {
        platform: Platform::Win64,
        virtual_packages: None,
    });
    let err = backend.get_conda_metadata_prepare(params, 0, Platform::Linux64).unwrap_err();
    assert_eq!(err, BackendError::UnsupportedTargetPlatform(Platform::Win64));
}

#[test]
fn build_finish_reports_archive_and_globs() {
    let backend = Backend {
        policy: EcosystemPolicy::CMake,
        manifest: demo_manifest(),
        cache_dir: None,
    };
    let params = pixi_build_backend::backend::CondaBuildParams {
        host_platform: None,
        build_platform_virtual_packages: None,
        channel_base_urls: None,
        channel_configuration: ChannelConfiguration {
            base_url: "https://conda.anaconda.org".to_string(),
        },
        outputs: None,
        work_directory: "/work".to_string(),
    };
    let prepared = backend.build_conda_prepare(params, 0, Platform::Linux64).unwrap();
    assert_eq!(prepared.config.target_platform, Platform::Linux64);
    let result = build_conda_finish(
        EcosystemPolicy::CMake,
        &prepared,
        "/out/demo-0.1.0.conda".to_string(),
        "habc123_0".to_string(),
    );
    assert_eq!(result.packages.len(), 1);
    let package = &result.packages[0];
    assert_eq!(package.output_file, "/out/demo-0.1.0.conda");
    assert_eq!(package.name, "demo");
    assert_eq!(package.version, "0.1.0");
    assert_eq!(package.build, "habc123_0");
    assert_eq!(package.subdir, "linux-64");
    assert_eq!(package.input_globs.len(), 3);
}

#[test]
fn factory_reports_capabilities() {
    let factory = BackendFactory { policy: EcosystemPolicy::Python };
    let (backend, result) = factory.initialize(Ok(demo_manifest()), None).unwrap();
    assert_eq!(result.capabilities.provides_conda_metadata, Some(true));
    assert_eq!(result.capabilities.provides_conda_build, Some(true));
    let caps = backend.capabilites(&FrontendCapabilities {});
    assert_eq!(caps.provides_conda_metadata, Some(true));
    assert_eq!(backend.manifest_root(), "/proj");
}
