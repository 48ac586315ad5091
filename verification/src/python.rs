//! The Python-style ecosystem policy: installer selection and the build
//! input globs of a Python package.

pub mod build_script;

use vstd::prelude::*;

use crate::deps::{DepEntryV, DepSet, contains_name};
use crate::python::build_script::Installer;

verus! {

/// Installer-variant selection: the alternative installer is chosen when
/// its package name is declared anywhere in the build, host or run sets,
/// and the canonical choice is used otherwise.
pub open spec fn select_installer_spec(
    build: Seq<DepEntryV>,
    host: Seq<DepEntryV>,
    run: Seq<DepEntryV>,
) -> Installer {
    if contains_name(host, "uv"@) || contains_name(run, "uv"@) || contains_name(build, "uv"@) {
        Installer::Uv
    } else {
        Installer::Pip
    }
}

/// Chooses the installer the build script will invoke, by presence of the
/// alternative installer's name in any dependency set.
pub fn select_installer(build: &DepSet, host: &DepSet, run: &DepSet) -> (r: Installer)
    ensures
        r == select_installer_spec(build@, host@, run@),
{
    let uv = String::from_str("uv");
    if host.contains_key(&uv) || run.contains_key(&uv) || build.contains_key(&uv) {
        Installer::Uv
    } else {
        Installer::Pip
    }
}

/// The filesystem glob patterns whose changes invalidate a cached build of
/// a Python package.
pub open spec fn python_input_globs_spec() -> Seq<Seq<char>> {
    seq![
        "**/*.py"@,
        "**/*.pyx"@,
        "**/*.c"@,
        "**/*.cpp"@,
        "**/*.sh"@,
        "**/*.json"@,
        "**/*.yaml"@,
        "**/*.yml"@,
        "**/*.txt"@,
        "setup.py"@,
        "setup.cfg"@,
        "pyproject.toml"@,
        "requirements*.txt"@,
        "Pipfile"@,
        "Pipfile.lock"@,
        "poetry.lock"@,
        "tox.ini"@,
        "Makefile"@,
        "MANIFEST.in"@,
        "tests/**/*.py"@,
        "docs/**/*.rst"@,
        "docs/**/*.md"@,
        "VERSION"@,
        "version.py"@,
    ]
}

/// The build input globs for a Python package: source files, common data
/// files, project configuration, build configuration and versioning files.
pub fn input_globs() -> (r: Vec<String>)
    ensures
        r.deep_view() == python_input_globs_spec(),
{
    let mut globs: Vec<String> = Vec::new();
    globs.push(String::from_str("**/*.py"));
    globs.push(String::from_str("**/*.pyx"));
    globs.push(String::from_str("**/*.c"));
    globs.push(String::from_str("**/*.cpp"));
    globs.push(String::from_str("**/*.sh"));
    globs.push(String::from_str("**/*.json"));
    globs.push(String::from_str("**/*.yaml"));
    globs.push(String::from_str("**/*.yml"));
    globs.push(String::from_str("**/*.txt"));
    globs.push(String::from_str("setup.py"));
    globs.push(String::from_str("setup.cfg"));
    globs.push(String::from_str("pyproject.toml"));
    globs.push(String::from_str("requirements*.txt"));
    globs.push(String::from_str("Pipfile"));
    globs.push(String::from_str("Pipfile.lock"));
    globs.push(String::from_str("poetry.lock"));
    globs.push(String::from_str("tox.ini"));
    globs.push(String::from_str("Makefile"));
    globs.push(String::from_str("MANIFEST.in"));
    globs.push(String::from_str("tests/**/*.py"));
    globs.push(String::from_str("docs/**/*.rst"));
    globs.push(String::from_str("docs/**/*.md"));
    globs.push(String::from_str("VERSION"));
    globs.push(String::from_str("version.py"));
    proof {
        assert(globs.deep_view() =~= python_input_globs_spec());
    }
    globs
}

} // verus!
