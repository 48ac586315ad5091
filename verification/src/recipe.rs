//! The recipe builder: assembles a complete, self-contained build recipe
//! from a manifest plus classified dependencies, under one of the ecosystem
//! policies.

use vstd::prelude::*;

use crate::classify::{add_tools, classify_spec, add_host_tools, classify};
use crate::cmake;
use crate::error::{BackendError, BackendErrorV};
use crate::extract::{
    MatchRequirement, MatchRequirementV, MatchspecExtractor, extract_from, reqs_view,
};
use crate::manifest::{Manifest, ManifestV, default_version_spec};
use crate::names::{ascii_lower, normalize_package_name, valid_package_name};
use crate::platform::Platform;
use crate::python;
use crate::python::build_script::{Installer, installer_package_name_spec};

verus! {

/// The ecosystem a backend translates for; each policy fixes the implicit
/// host tools, the compiler inference, the build script template and the
/// recipe defaults.
#[derive(Clone, Copy, PartialEq, Eq, Structural, Debug)]
pub enum EcosystemPolicy {
    Python,
    CMake,
}

/// The noarch classification of a recipe.
#[derive(Clone, Copy, PartialEq, Eq, Structural, Debug)]
pub enum NoArchKind {
    ArchSpecific,
    Python,
}

/// Where the sources of a package come from: a closed variant set.
#[derive(Debug, PartialEq, Eq)]
pub enum SourceLocation {
    Path { path: String },
    Git { reference: String },
    Url { url: String },
}

pub enum SourceLocationV {
    Path { path: Seq<char> },
    Git { reference: Seq<char> },
    Url { url: Seq<char> },
}

impl View for SourceLocation {
    type V = SourceLocationV;

    open spec fn view(&self) -> SourceLocationV {
        match self {
            SourceLocation::Path { path } => SourceLocationV::Path { path: path@ },
            SourceLocation::Git { reference } => SourceLocationV::Git { reference: reference@ },
            SourceLocation::Url { url } => SourceLocationV::Url { url: url@ },
        }
    }
}

/// The package identity of a recipe: the normalized package name and the
/// version.
#[derive(Debug, PartialEq, Eq)]
pub struct Package {
    pub name: String,
    pub version: String,
}

pub struct PackageV {
    pub name: Seq<char>,
    pub version: Seq<char>,
}

impl View for Package {
    type V = PackageV;

    open spec fn view(&self) -> PackageV {
        PackageV { name: self.name@, version: self.version@ }
    }
}

/// The build section of a recipe: the build number, the generated build
/// script, and the noarch classification.
#[derive(Debug, PartialEq, Eq)]
pub struct Build {
    pub number: u64,
    pub script: Vec<String>,
    pub noarch: NoArchKind,
}

pub struct BuildV {
    pub number: u64,
    pub script: Seq<Seq<char>>,
    pub noarch: NoArchKind,
}

impl View for Build {
    type V = BuildV;

    open spec fn view(&self) -> BuildV {
        BuildV { number: self.number, script: self.script.deep_view(), noarch: self.noarch }
    }
}

/// The three requirement lists of a recipe.
#[derive(Debug, PartialEq, Eq)]
pub struct Requirements {
    pub build: Vec<MatchRequirement>,
    pub host: Vec<MatchRequirement>,
    pub run: Vec<MatchRequirement>,
}

pub struct RequirementsV {
    pub build: Seq<MatchRequirementV>,
    pub host: Seq<MatchRequirementV>,
    pub run: Seq<MatchRequirementV>,
}

impl View for Requirements {
    type V = RequirementsV;

    open spec fn view(&self) -> RequirementsV {
        RequirementsV {
            build: reqs_view(self.build@),
            host: reqs_view(self.host@),
            run: reqs_view(self.run@),
        }
    }
}

/// The license metadata of a recipe.
#[derive(Debug, PartialEq, Eq)]
pub struct About {
    pub license: Option<String>,
    pub license_family: Option<String>,
}

pub struct AboutV {
    pub license: Option<Seq<char>>,
    pub license_family: Option<Seq<char>>,
}

impl View for About {
    type V = AboutV;

    open spec fn view(&self) -> AboutV {
        AboutV {
            license: match self.license {
                Some(l) => Some(l@),
                None => None,
            },
            license_family: match self.license_family {
                Some(l) => Some(l@),
                None => None,
            },
        }
    }
}

/// The canonical, engine-agnostic build description. Constructed fresh per
/// request and never mutated after construction.
#[derive(Debug, PartialEq, Eq)]
pub struct Recipe {
    pub schema_version: u64,
    pub package: Package,
    pub source: Vec<SourceLocation>,
    pub build: Build,
    pub requirements: Requirements,
    pub about: About,
}

pub struct RecipeV {
    pub schema_version: u64,
    pub package: PackageV,
    pub source: Seq<SourceLocationV>,
    pub build: BuildV,
    pub requirements: RequirementsV,
    pub about: AboutV,
}

impl View for Recipe {
    type V = RecipeV;

    open spec fn view(&self) -> RecipeV {
        RecipeV {
            schema_version: self.schema_version,
            package: self.package@,
            source: Seq::new(self.source@.len(), |i: int| self.source@[i]@),
            build: self.build@,
            requirements: self.requirements@,
            about: self.about@,
        }
    }
}

/// The platform the classifier filters for under each policy: the
/// Python-style policy classifies the platform-independent declarations, the
/// CMake-style policy those of the host platform.
pub open spec fn classification_platform(policy: EcosystemPolicy, host_platform: Platform) -> Option<
    Platform,
> {
    match policy {
        EcosystemPolicy::Python => None,
        EcosystemPolicy::CMake => Some(host_platform),
    }
}

/// The implicit tools each policy requires in the host set.
pub open spec fn host_tools_spec(policy: EcosystemPolicy, installer: Option<Installer>) -> Seq<
    Seq<char>,
> {
    match policy {
        EcosystemPolicy::Python => seq![installer_package_name_spec(installer->0), "python"@],
        EcosystemPolicy::CMake => seq!["cmake"@, "ninja"@],
    }
}

/// The requirement lists a manifest yields under a policy for one host
/// platform: classification, installer selection, implicit host-tool
/// defaulting, match-requirement extraction (ignoring self references), and,
/// for compiled ecosystems, the appended compiler requirements.
pub open spec fn requirements_spec(
    policy: EcosystemPolicy,
    m: ManifestV,
    host_platform: Platform,
) -> Result<(RequirementsV, Option<Installer>), BackendErrorV> {
    let sets = classify_spec(m, classification_platform(policy, host_platform));
    let installer = match policy {
        EcosystemPolicy::Python => Some(
            python::select_installer_spec(sets.build, sets.host, sets.run),
        ),
        EcosystemPolicy::CMake => None,
    };
    let host2 = add_tools(sets.host, sets.run, host_tools_spec(policy, installer));
    let root = m.root_dir;
    match extract_from(sets.build, root, true) {
        Err(e) => Err(e),
        Ok(b) => match extract_from(host2, root, true) {
            Err(e) => Err(e),
            Ok(h) => match extract_from(sets.run, root, true) {
                Err(e) => Err(e),
                Ok(r) => {
                    let b2 = match policy {
                        EcosystemPolicy::Python => b,
                        EcosystemPolicy::CMake => b + cmake::compiler_requirements_spec(
                            host_platform,
                            cmake::languages_spec(),
                        ),
                    };
                    Ok((RequirementsV { build: b2, host: h, run: r }, installer))
                },
            },
        },
    }
}

/// Computes the requirement lists of the recipe, together with the chosen
/// installer where the policy has one.
pub fn requirements(policy: EcosystemPolicy, manifest: &Manifest, host_platform: Platform) -> (r:
    Result<(Requirements, Option<Installer>), BackendError>)
    ensures
        match r {
            Ok(p) => requirements_spec(policy, manifest@, host_platform) == Ok::<
                (RequirementsV, Option<Installer>),
                BackendErrorV,
            >((p.0@, p.1)),
            Err(e) => requirements_spec(policy, manifest@, host_platform) == Err::<
                (RequirementsV, Option<Installer>),
                BackendErrorV,
            >(e@),
        },
{
    let platform_arg = match policy {
        EcosystemPolicy::Python => None,
        EcosystemPolicy::CMake => Some(host_platform),
    };
    let sets = classify(manifest, platform_arg);
    let build = sets.build;
    let mut host = sets.host;
    let run = sets.run;
    let mut tools: Vec<String> = Vec::new();
    let installer_opt: Option<Installer> = match policy {
        EcosystemPolicy::Python => {
            let inst = python::select_installer(&build, &host, &run);
            tools.push(String::from_str(inst.package_name()));
            tools.push(String::from_str("python"));
            Some(inst)
        },
        EcosystemPolicy::CMake => {
            tools.push(String::from_str("cmake"));
            tools.push(String::from_str("ninja"));
            None
        },
    };
    proof {
        assert(tools.deep_view() =~= host_tools_spec(policy, installer_opt));
    }
    add_host_tools(&mut host, &run, &tools);
    let extractor = MatchspecExtractor::new(manifest.manifest_root().clone()).with_ignore_self(
        true,
    );
    let mut breqs = match extractor.extract(&build) {
        Ok(v) => v,
        Err(e) => {
            return Err(e);
        },
    };
    let hreqs = match extractor.extract(&host) {
        Ok(v) => v,
        Err(e) => {
            return Err(e);
        },
    };
    let rreqs = match extractor.extract(&run) {
        Ok(v) => v,
        Err(e) => {
            return Err(e);
        },
    };
    if matches!(policy, EcosystemPolicy::CMake) {
        let ghost pre = breqs@;
        let mut compilers = cmake::compiler_packages(host_platform);
        breqs.append(&mut compilers);
        proof {
            assert(reqs_view(breqs@) =~= reqs_view(pre) + cmake::compiler_requirements_spec(
                host_platform,
                cmake::languages_spec(),
            ));
        }
    }
    Ok((Requirements { build: breqs, host: hreqs, run: rreqs }, installer_opt))
}

/// The version a recipe carries: the declared version, or the policy's
/// fixed sentinel when the manifest declares none, so that versionless
/// projects remain buildable.
pub open spec fn recipe_version_spec(policy: EcosystemPolicy, version: Option<Seq<char>>) -> Seq<
    char,
> {
    match version {
        Some(v) => v,
        None => match policy {
            EcosystemPolicy::Python => "0dev0"@,
            EcosystemPolicy::CMake => default_version_spec(),
        },
    }
}

/// The source locations a recipe carries: the Python-style policy points at
/// the project root, the CMake-style policy reaches the sources through the
/// build script instead.
pub open spec fn recipe_source_spec(policy: EcosystemPolicy, root_dir: Seq<char>) -> Seq<
    SourceLocationV,
> {
    match policy {
        EcosystemPolicy::Python => seq![SourceLocationV::Path { path: root_dir }],
        EcosystemPolicy::CMake => Seq::<SourceLocationV>::empty(),
    }
}

/// The noarch classification each policy defaults to.
pub open spec fn recipe_noarch_spec(policy: EcosystemPolicy) -> NoArchKind {
    match policy {
        EcosystemPolicy::Python => NoArchKind::Python,
        EcosystemPolicy::CMake => NoArchKind::ArchSpecific,
    }
}

/// The operating-system class of a platform, for the Python-style build
/// script.
pub open spec fn python_platform_class(p: Platform) -> python::build_script::BuildPlatform {
    if p.is_windows_spec() {
        python::build_script::BuildPlatform::Windows
    } else {
        python::build_script::BuildPlatform::Unix
    }
}

/// The operating-system class of a platform, for the CMake-style build
/// script.
pub open spec fn cmake_platform_class(p: Platform) -> cmake::build_script::BuildPlatform {
    if p.is_windows_spec() {
        cmake::build_script::BuildPlatform::Windows
    } else {
        cmake::build_script::BuildPlatform::Unix
    }
}

/// The build script of the recipe, from the policy's fixed template.
pub open spec fn recipe_script_spec(
    policy: EcosystemPolicy,
    installer: Option<Installer>,
    build_platform: Platform,
    root_dir: Seq<char>,
) -> Seq<Seq<char>> {
    match policy {
        EcosystemPolicy::Python => python::build_script::python_build_script_spec(
            installer->0,
            python_platform_class(build_platform),
        ),
        EcosystemPolicy::CMake => cmake::build_script::cmake_build_script_spec(
            cmake_platform_class(build_platform),
            root_dir,
        ),
    }
}

/// What recipe construction yields for a manifest: the name must be present
/// and a valid package name (it is carried normalized), the version falls
/// back to the policy's sentinel, the build script comes from the policy's
/// template, the build number and license metadata default, and the
/// requirement lists come from classification and extraction. Failures are
/// exact: a missing name, an invalid name, or an unsupported source
/// dependency.
pub open spec fn build_recipe_spec(
    policy: EcosystemPolicy,
    m: ManifestV,
    host_platform: Platform,
    build_platform: Platform,
) -> Result<RecipeV, BackendErrorV> {
    match m.name {
        None => Err(BackendErrorV::MissingProjectName),
        Some(raw) => {
            if !valid_package_name(raw) {
                Err(BackendErrorV::InvalidPackageName(raw))
            } else {
                match requirements_spec(policy, m, host_platform) {
                    Err(e) => Err(e),
                    Ok(p) => Ok(
                        RecipeV {
                            schema_version: 1,
                            package: PackageV {
                                name: ascii_lower(raw),
                                version: recipe_version_spec(policy, m.version),
                            },
                            source: recipe_source_spec(policy, m.root_dir),
                            build: BuildV {
                                number: 0,
                                script: recipe_script_spec(
                                    policy,
                                    p.1,
                                    build_platform,
                                    m.root_dir,
                                ),
                                noarch: recipe_noarch_spec(policy),
                            },
                            requirements: p.0,
                            about: AboutV { license: None, license_family: None },
                        },
                    ),
                }
            }
        },
    }
}

/// Constructs a recipe from the manifest under the given policy, for the
/// given host and build platforms.
pub fn build_recipe(
    policy: EcosystemPolicy,
    manifest: &Manifest,
    host_platform: Platform,
    build_platform: Platform,
) -> (r: Result<Recipe, BackendError>)
    ensures
        match r {
            Ok(recipe) => build_recipe_spec(policy, manifest@, host_platform, build_platform)
                == Ok::<RecipeV, BackendErrorV>(recipe@),
            Err(e) => build_recipe_spec(policy, manifest@, host_platform, build_platform) == Err::<
                RecipeV,
                BackendErrorV,
            >(e@),
        },
{
    let raw = match &manifest.name {
        None => {
            return Err(BackendError::MissingProjectName);
        },
        Some(n) => n,
    };
    let name = match normalize_package_name(raw) {
        None => {
            return Err(BackendError::InvalidPackageName(raw.clone()));
        },
        Some(n) => n,
    };
    let (reqs, installer) = match requirements(policy, manifest, host_platform) {
        Ok(p) => p,
        Err(e) => {
            return Err(e);
        },
    };
    let version = match &manifest.version {
        Some(v) => v.clone(),
        None => match policy {
            EcosystemPolicy::Python => String::from_str("0dev0"),
            EcosystemPolicy::CMake => String::from_str("0.1.0"),
        },
    };
    let mut source: Vec<SourceLocation> = Vec::new();
    if matches!(policy, EcosystemPolicy::Python) {
        source.push(SourceLocation::Path { path: manifest.root_dir.clone() });
    }
    let script = match policy {
        EcosystemPolicy::Python => {
            let context = python::build_script::BuildScriptContext {
                installer: match installer {
                    Some(i) => i,
                    None => Installer::Pip,
                },
                build_platform: if build_platform.is_windows() {
                    python::build_script::BuildPlatform::Windows
                } else {
                    python::build_script::BuildPlatform::Unix
                },
            };
            context.render()
        },
        EcosystemPolicy::CMake => {
            let context = cmake::build_script::BuildScriptContext {
                build_platform: if build_platform.is_windows() {
                    cmake::build_script::BuildPlatform::Windows
                } else {
                    cmake::build_script::BuildPlatform::Unix
                },
                source_dir: manifest.root_dir.clone(),
            };
            context.render()
        },
    };
    let recipe = Recipe {
        schema_version: 1,
        package: Package { name, version },
        source,
        build: Build { number: 0, script, noarch: match policy {
            EcosystemPolicy::Python => NoArchKind::Python,
            EcosystemPolicy::CMake => NoArchKind::ArchSpecific,
        } },
        requirements: reqs,
        about: About { license: None, license_family: None },
    };
    proof {
        assert(recipe@.source =~= recipe_source_spec(policy, manifest@.root_dir));
    }
    Ok(recipe)
}

/// For every manifest missing a project name, recipe construction fails
/// with the configuration error, under every policy and platform pair: no
/// recipe is produced.
pub proof fn lemma_missing_name_fails(
    policy: EcosystemPolicy,
    m: ManifestV,
    host_platform: Platform,
    build_platform: Platform,
)
    requires
        m.name is None,
    ensures
        build_recipe_spec(policy, m, host_platform, build_platform) == Err::<
            RecipeV,
            BackendErrorV,
        >(BackendErrorV::MissingProjectName),
{
}

/// For every manifest with no declared version, the produced recipe carries
/// the policy's fixed sentinel version, and construction is stable: two
/// recipes built from the same inputs are identical.
pub proof fn lemma_default_version_stable(
    policy: EcosystemPolicy,
    m: ManifestV,
    host_platform: Platform,
    build_platform: Platform,
    r1: RecipeV,
    r2: RecipeV,
)
    requires
        m.version is None,
        build_recipe_spec(policy, m, host_platform, build_platform) == Ok::<
            RecipeV,
            BackendErrorV,
        >(r1),
        build_recipe_spec(policy, m, host_platform, build_platform) == Ok::<
            RecipeV,
            BackendErrorV,
        >(r2),
    ensures
        r1.package.version == match policy {
            EcosystemPolicy::Python => "0dev0"@,
            EcosystemPolicy::CMake => default_version_spec(),
        },
        r1 == r2,
{
}

} // verus!
