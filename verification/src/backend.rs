//! The backend: the protocol implementor that combines the recipe builder
//! with the external resolve and execute operations.
//!
//! The external operations (dependency resolution and package execution)
//! are asynchronous outside work; the backend therefore exposes each
//! protocol operation in two verified halves. The prepare half turns the
//! request parameters into the recipe and the build configuration; the
//! caller then runs the external operation on them and hands its outcome to
//! the finish half, which assembles the protocol result for every possible
//! outcome value.

use vstd::prelude::*;

use crate::error::{BackendError, BackendErrorV};
use crate::manifest::{Manifest, resolved_channels_spec};
use crate::platform::Platform;
use crate::recipe::{
    EcosystemPolicy, NoArchKind, Recipe, RecipeV, build_recipe, build_recipe_spec,
};
use crate::{cmake, python};

verus! {

/// The capabilities the frontend reports in an initialize request.
pub struct FrontendCapabilities {}

/// The capabilities a backend reports back: which procedures it supports.
#[derive(Debug)]
pub struct BackendCapabilities {
    pub provides_conda_metadata: Option<bool>,
    pub provides_conda_build: Option<bool>,
}

/// The parameters of an initialize request.
pub struct InitializeParams {
    pub manifest_path: String,
    pub capabilities: FrontendCapabilities,
    pub cache_directory: Option<String>,
}

/// The result of a successful initialize request.
#[derive(Debug)]
pub struct InitializeResult {
    pub capabilities: BackendCapabilities,
}

/// The channel alias configuration of a request.
pub struct ChannelConfiguration {
    pub base_url: String,
}

/// A platform together with the virtual packages present on it.
pub struct PlatformAndVirtualPackages {
    pub platform: Platform,
    pub virtual_packages: Option<Vec<String>>,
}

/// The parameters of a metadata request.
pub struct CondaMetadataParams {
    pub build_platform: Option<PlatformAndVirtualPackages>,
    pub host_platform: Option<PlatformAndVirtualPackages>,
    pub channel_base_urls: Option<Vec<String>>,
    pub channel_configuration: ChannelConfiguration,
    pub work_directory: String,
}

/// The parameters of a build request.
pub struct CondaBuildParams {
    pub host_platform: Option<PlatformAndVirtualPackages>,
    pub build_platform_virtual_packages: Option<Vec<String>>,
    pub channel_base_urls: Option<Vec<String>>,
    pub channel_configuration: ChannelConfiguration,
    pub outputs: Option<Vec<String>>,
    pub work_directory: String,
}

/// One package-metadata record of a metadata result.
pub struct CondaPackageMetadata {
    pub name: String,
    pub version: String,
    pub build: String,
    pub build_number: u64,
    pub subdir: Platform,
    pub depends: Vec<String>,
    pub constraints: Vec<String>,
    pub license: Option<String>,
    pub license_family: Option<String>,
    pub noarch: NoArchKind,
}

/// The result of a metadata request.
pub struct CondaMetadataResult {
    pub packages: Vec<CondaPackageMetadata>,
    pub input_globs: Option<Vec<String>>,
}

/// One built package of a build result.
pub struct CondaBuiltPackage {
    pub output_file: String,
    pub input_globs: Vec<String>,
    pub name: String,
    pub version: String,
    pub build: String,
    pub subdir: String,
}

/// The result of a build request.
pub struct CondaBuildResult {
    pub packages: Vec<CondaBuiltPackage>,
}

/// Everything the execution engine needs beyond the recipe itself.
#[derive(Debug)]
pub struct BuildConfigSummary {
    pub target_platform: Platform,
    pub host_platform: Platform,
    pub build_platform: Platform,
    pub channels: Vec<String>,
    pub work_directory: String,
    /// When the request was made, in milliseconds; supplied by the caller,
    /// since the clock is outside the library.
    pub timestamp: u64,
    pub store_recipe: bool,
    pub force_colors: bool,
}

/// A recipe paired with its build configuration, ready to be handed to the
/// external resolve or execute operation.
#[derive(Debug)]
pub struct PreparedBuild {
    pub recipe: Recipe,
    pub config: BuildConfigSummary,
}

/// An ecosystem-specific backend: the policy, the manifest it was
/// initialized with (owned exclusively, loaded once), and the optional
/// cache directory.
#[derive(Debug)]
pub struct Backend {
    pub policy: EcosystemPolicy,
    pub manifest: Manifest,
    pub cache_dir: Option<String>,
}

/// The one-shot constructor that turns an initialize request into a live
/// backend.
pub struct BackendFactory {
    pub policy: EcosystemPolicy,
}

impl BackendFactory {
    /// Constructs the backend from the manifest the caller loaded for the
    /// initialize request (or from the load failure). Fails exactly when
    /// the manifest could not be loaded or names no project.
    pub fn initialize(&self, loaded: Result<Manifest, String>, cache_directory: Option<String>)
        -> (r: Result<(Backend, InitializeResult), BackendError>)
        ensures
            match r {
                Ok(p) => {
                    &&& loaded is Ok
                    &&& loaded->Ok_0@.name is Some
                    &&& p.0.policy == self.policy
                    &&& p.0.manifest == loaded->Ok_0
                    &&& p.0.cache_dir == cache_directory
                    &&& p.1.capabilities.provides_conda_metadata == Some(true)
                    &&& p.1.capabilities.provides_conda_build == Some(true)
                },
                Err(e) => match loaded {
                    Err(message) => e@ == BackendErrorV::InvalidManifest(message@),
                    Ok(m) => m@.name is None && e@ == BackendErrorV::MissingProjectName,
                },
            },
    {
        let manifest = match loaded {
            Ok(m) => m,
            Err(message) => {
                return Err(BackendError::InvalidManifest(message));
            },
        };
        if manifest.name.is_none() {
            return Err(BackendError::MissingProjectName);
        }
        let backend = Backend { policy: self.policy, manifest, cache_dir: cache_directory };
        let capabilities = backend.capabilites(&FrontendCapabilities {  });
        let result = InitializeResult { capabilities };
        Ok((backend, result))
    }
}

impl Backend {
    /// The capabilities of this backend based on the capabilities of the
    /// frontend: both protocol operations are supported.
    pub fn capabilites(&self, _frontend_capabilities: &FrontendCapabilities) -> (r:
        BackendCapabilities)
        ensures
            r.provides_conda_metadata == Some(true),
            r.provides_conda_build == Some(true),
    {
        BackendCapabilities {
            provides_conda_metadata: Some(true),
            provides_conda_build: Some(true),
        }
    }

    /// The root directory of the project.
    pub fn manifest_root(&self) -> (r: &String)
        ensures
            r@ == self.manifest@.root_dir,
    {
        self.manifest.manifest_root()
    }
}

/// The host platform of a request: the requested one, or the current
/// platform when the request names none.
pub open spec fn request_host_platform(host: Option<Platform>, current: Platform) -> Platform {
    match host {
        Some(p) => p,
        None => current,
    }
}

/// The channels of a request: the explicitly given urls, or the manifest's
/// resolved channels.
pub open spec fn request_channels_spec(
    m: crate::manifest::ManifestV,
    channel_base_urls: Option<Vec<String>>,
    base_url: Seq<char>,
) -> Seq<Seq<char>> {
    match channel_base_urls {
        Some(urls) => urls.deep_view(),
        None => resolved_channels_spec(m, base_url),
    }
}

/// The target platform of the produced package: platform-independent for
/// the Python-style policy, the host platform for the CMake-style policy.
pub open spec fn request_target_platform(policy: EcosystemPolicy, host: Platform) -> Platform {
    match policy {
        EcosystemPolicy::Python => Platform::NoArch,
        EcosystemPolicy::CMake => host,
    }
}

/// Exactly when, and with which error, preparing a request fails: a host
/// platform the manifest does not support is a configuration error for the
/// platform-dependent policy, and recipe construction failures are passed
/// through.
pub open spec fn prepare_err_spec(
    backend: Backend,
    host_platform: Option<Platform>,
    current: Platform,
) -> Option<BackendErrorV> {
    let host = request_host_platform(host_platform, current);
    if backend.policy == EcosystemPolicy::CMake && !backend.manifest@.platforms.contains(host) {
        Some(BackendErrorV::UnsupportedTargetPlatform(host))
    } else {
        match build_recipe_spec(backend.policy, backend.manifest@, host, current) {
            Err(e) => Some(e),
            Ok(recipe) => None,
        }
    }
}

/// What a successfully prepared request holds: the recipe constructed from
/// the manifest, and the build configuration with the platform triple, the
/// requested channels and the working directory.
pub open spec fn prepared_ok(
    p: PreparedBuild,
    backend: Backend,
    channel_base_urls: Option<Vec<String>>,
    base_url: Seq<char>,
    host_platform: Option<Platform>,
    build_platform: Option<Platform>,
    work_directory: Seq<char>,
    timestamp: u64,
    current: Platform,
) -> bool {
    let host = request_host_platform(host_platform, current);
    &&& build_recipe_spec(backend.policy, backend.manifest@, host, current) == Ok::<
        RecipeV,
        BackendErrorV,
    >(p.recipe@)
    &&& p.config.target_platform == request_target_platform(backend.policy, host)
    &&& p.config.host_platform == host
    &&& p.config.build_platform == request_host_platform(build_platform, current)
    &&& p.config.channels.deep_view() == request_channels_spec(
        backend.manifest@,
        channel_base_urls,
        base_url,
    )
    &&& p.config.work_directory@ == work_directory
    &&& p.config.timestamp == timestamp
    &&& p.config.store_recipe == false
    &&& p.config.force_colors == true
}

/// A backend over a nameless manifest can prepare nothing: both protocol
/// operations fail before any recipe or artifact exists.
pub proof fn lemma_missing_name_prepares_nothing(
    backend: Backend,
    host_platform: Option<Platform>,
    current: Platform,
)
    requires
        backend.manifest@.name is None,
    ensures
        prepare_err_spec(backend, host_platform, current) is Some,
{
    let host = request_host_platform(host_platform, current);
    if !(backend.policy == EcosystemPolicy::CMake && !backend.manifest@.platforms.contains(host)) {
        crate::recipe::lemma_missing_name_fails(backend.policy, backend.manifest@, host, current);
    }
}

impl Backend {
    /// The shared prepare half of both protocol operations: computes or
    /// re-derives the recipe and pairs it with the build configuration the
    /// external resolve and execute operations need. The current platform is
    /// handed in by the caller.
    pub fn prepare(
        &self,
        channel_base_urls: Option<Vec<String>>,
        base_url: &String,
        host_platform: Option<Platform>,
        build_platform: Option<Platform>,
        work_directory: String,
        timestamp: u64,
        current: Platform,
    ) -> (r: Result<PreparedBuild, BackendError>)
        ensures
            match r {
                Ok(p) => prepare_err_spec(*self, host_platform, current) is None && prepared_ok(
                    p,
                    *self,
                    channel_base_urls,
                    base_url@,
                    host_platform,
                    build_platform,
                    work_directory@,
                    timestamp,
                    current,
                ),
                Err(e) => prepare_err_spec(*self, host_platform, current) == Some(e@),
            },
    {
        let host = match host_platform {
            Some(p) => p,
            None => current,
        };
        if matches!(self.policy, EcosystemPolicy::CMake) && !self.manifest.supports_target_platform(
            host,
        ) {
            return Err(BackendError::UnsupportedTargetPlatform(host));
        }
        let recipe = match build_recipe(self.policy, &self.manifest, host, current) {
            Ok(recipe) => recipe,
            Err(e) => {
                return Err(e);
            },
        };
        let channels = match channel_base_urls {
            Some(urls) => urls,
            None => self.manifest.resolved_project_channels(base_url),
        };
        let target_platform = match self.policy {
            EcosystemPolicy::Python => Platform::NoArch,
            EcosystemPolicy::CMake => host,
        };
        let build = match build_platform {
            Some(p) => p,
            None => current,
        };
        Ok(
            PreparedBuild {
                recipe,
                config: BuildConfigSummary {
                    target_platform,
                    host_platform: host,
                    build_platform: build,
                    channels,
                    work_directory,
                    timestamp,
                    store_recipe: false,
                    force_colors: true,
                },
            },
        )
    }

    /// The prepare half of a metadata request.
    pub fn get_conda_metadata_prepare(
        &self,
        params: CondaMetadataParams,
        timestamp: u64,
        current: Platform,
    ) -> (r: Result<PreparedBuild, BackendError>)
        ensures
            match r {
                Ok(p) => prepare_err_spec(
                    *self,
                    match params.host_platform {
                        Some(hp) => Some(hp.platform),
                        None => None,
                    },
                    current,
                ) is None && prepared_ok(
                    p,
                    *self,
                    params.channel_base_urls,
                    params.channel_configuration.base_url@,
                    match params.host_platform {
                        Some(hp) => Some(hp.platform),
                        None => None,
                    },
                    match params.build_platform {
                        Some(bp) => Some(bp.platform),
                        None => None,
                    },
                    params.work_directory@,
                    timestamp,
                    current,
                ),
                Err(e) => prepare_err_spec(
                    *self,
                    match params.host_platform {
                        Some(hp) => Some(hp.platform),
                        None => None,
                    },
                    current,
                ) == Some(e@),
            },
    {
        let host_platform = match &params.host_platform {
            Some(hp) => Some(hp.platform),
            None => None,
        };
        let build_platform = match &params.build_platform {
            Some(bp) => Some(bp.platform),
            None => None,
        };
        self.prepare(
            params.channel_base_urls,
            &params.channel_configuration.base_url,
            host_platform,
            build_platform,
            params.work_directory,
            timestamp,
            current,
        )
    }

    /// The prepare half of a build request.
    pub fn build_conda_prepare(
        &self,
        params: CondaBuildParams,
        timestamp: u64,
        current: Platform,
    ) -> (r: Result<PreparedBuild, BackendError>)
        ensures
            match r {
                Ok(p) => prepare_err_spec(
                    *self,
                    match params.host_platform {
                        Some(hp) => Some(hp.platform),
                        None => None,
                    },
                    current,
                ) is None && prepared_ok(
                    p,
                    *self,
                    params.channel_base_urls,
                    params.channel_configuration.base_url@,
                    match params.host_platform {
                        Some(hp) => Some(hp.platform),
                        None => None,
                    },
                    None,
                    params.work_directory@,
                    timestamp,
                    current,
                ),
                Err(e) => prepare_err_spec(
                    *self,
                    match params.host_platform {
                        Some(hp) => Some(hp.platform),
                        None => None,
                    },
                    current,
                ) == Some(e@),
            },
    {
        let host_platform = match &params.host_platform {
            Some(hp) => Some(hp.platform),
            None => None,
        };
        self.prepare(
            params.channel_base_urls,
            &params.channel_configuration.base_url,
            host_platform,
            None,
            params.work_directory,
            timestamp,
            current,
        )
    }
}

/// The finish half of a metadata request: one package-metadata record per
/// produced output, assembled from the recipe, the build configuration and
/// the dependency lists the external resolver finalized. No package
/// artifact is persisted.
pub fn get_conda_metadata_finish(
    prepared: &PreparedBuild,
    build_string: String,
    depends: Vec<String>,
    constraints: Vec<String>,
) -> (r: CondaMetadataResult)
    ensures
        r.packages@.len() == 1,
        r.packages@[0].name@ == prepared.recipe@.package.name,
        r.packages@[0].version@ == prepared.recipe@.package.version,
        r.packages@[0].build == build_string,
        r.packages@[0].build_number == prepared.recipe.build.number,
        r.packages@[0].subdir == prepared.config.target_platform,
        r.packages@[0].depends == depends,
        r.packages@[0].constraints == constraints,
        r.packages@[0].license == prepared.recipe.about.license,
        r.packages@[0].license_family == prepared.recipe.about.license_family,
        r.packages@[0].noarch == prepared.recipe.build.noarch,
        r.input_globs is None,
{
    let package = CondaPackageMetadata {
        name: prepared.recipe.package.name.clone(),
        version: prepared.recipe.package.version.clone(),
        build: build_string,
        build_number: prepared.recipe.build.number,
        subdir: prepared.config.target_platform,
        depends,
        constraints,
        license: match &prepared.recipe.about.license {
            Some(l) => Some(l.clone()),
            None => None,
        },
        license_family: match &prepared.recipe.about.license_family {
            Some(l) => Some(l.clone()),
            None => None,
        },
        noarch: prepared.recipe.build.noarch,
    };
    let mut packages: Vec<CondaPackageMetadata> = Vec::new();
    packages.push(package);
    CondaMetadataResult { packages, input_globs: None }
}

/// The finish half of a build request: per produced archive, the output
/// path, the policy's cache-invalidation globs, and the identifying
/// metadata.
pub fn build_conda_finish(
    policy: EcosystemPolicy,
    prepared: &PreparedBuild,
    output_file: String,
    build_string: String,
) -> (r: CondaBuildResult)
    ensures
        r.packages@.len() == 1,
        r.packages@[0].output_file == output_file,
        r.packages@[0].input_globs.deep_view() == match policy {
            EcosystemPolicy::Python => python::python_input_globs_spec(),
            EcosystemPolicy::CMake => cmake::cmake_input_globs_spec(),
        },
        r.packages@[0].name@ == prepared.recipe@.package.name,
        r.packages@[0].version@ == prepared.recipe@.package.version,
        r.packages@[0].build == build_string,
        r.packages@[0].subdir@ == prepared.config.target_platform.as_str_spec(),
{
    let globs = match policy {
        EcosystemPolicy::Python => python::input_globs(),
        EcosystemPolicy::CMake => cmake::input_globs(),
    };
    let package = CondaBuiltPackage {
        output_file,
        input_globs: globs,
        name: prepared.recipe.package.name.clone(),
        version: prepared.recipe.package.version.clone(),
        build: build_string,
        subdir: String::from_str(prepared.config.target_platform.as_str()),
    };
    let mut packages: Vec<CondaBuiltPackage> = Vec::new();
    packages.push(package);
    CondaBuildResult { packages }
}

} // verus!
