//! The CMake-style ecosystem policy: the declared source languages, their
//! compiler requirements, and the build input globs of a native package.

pub mod build_script;

use vstd::prelude::*;

use crate::extract::{MatchRequirement, MatchRequirementV};
use crate::platform::{Language, LanguageV, Platform, default_compiler, default_compiler_spec};

verus! {

/// The languages a CMake project declares; these define which compilers are
/// required to build the project.
pub open spec fn languages_spec() -> Seq<LanguageV> {
    seq![LanguageV::Cxx]
}

/// The languages used in the CMake project.
pub fn languages() -> (r: Vec<Language>)
    ensures
        Seq::new(r@.len(), |i: int| r@[i]@) == languages_spec(),
{
    let mut r: Vec<Language> = Vec::new();
    r.push(Language::Cxx);
    proof {
        assert(Seq::new(r@.len(), |i: int| r@[i]@) =~= languages_spec());
    }
    r
}

/// The compiler requirement for one language on one platform: the default
/// compiler's package name suffixed with the target platform, unconstrained.
pub open spec fn compiler_requirements_spec(platform: Platform, langs: Seq<LanguageV>) -> Seq<
    MatchRequirementV,
>
    decreases langs.len(),
{
    if langs.len() == 0 {
        Seq::<MatchRequirementV>::empty()
    } else {
        let rest = compiler_requirements_spec(platform, langs.drop_first());
        match default_compiler_spec(platform, langs[0]) {
            Some(name) => seq![
                MatchRequirementV {
                    name: name + "_"@ + platform.as_str_spec(),
                    constraint: "*"@,
                },
            ] + rest,
            None => rest,
        }
    }
}

/// The match requirements for the compiler packages that must be included
/// in the build section of the recipe.
pub fn compiler_packages(target_platform: Platform) -> (r: Vec<MatchRequirement>)
    ensures
        Seq::new(r@.len(), |i: int| r@[i]@) == compiler_requirements_spec(
            target_platform,
            languages_spec(),
        ),
{
    let langs = languages();
    let ghost langsv = Seq::new(langs@.len(), |i: int| langs@[i]@);
    let mut compilers: Vec<MatchRequirement> = Vec::new();
    let n = langs.len();
    let mut i: usize = 0;
    proof {
        assert(langsv.skip(0) =~= langsv);
        assert(Seq::new(compilers@.len(), |k: int| compilers@[k]@)
            =~= Seq::<MatchRequirementV>::empty());
    }
    while i < n
        invariant
            n == langs@.len(),
            n == langsv.len(),
            i <= n,
            langsv == Seq::new(langs@.len(), |k: int| langs@[k]@),
            compiler_requirements_spec(target_platform, langsv) == Seq::new(
                compilers@.len(),
                |k: int| compilers@[k]@,
            ) + compiler_requirements_spec(target_platform, langsv.skip(i as int)),
        decreases n - i,
    {
        let ghost tail = langsv.skip(i as int);
        let ghost pre = Seq::new(compilers@.len(), |k: int| compilers@[k]@);
        proof {
            assert(tail[0] == langsv[i as int]);
            assert(tail.drop_first() =~= langsv.skip(i + 1));
        }
        match default_compiler(target_platform, &langs[i]) {
            Some(name) => {
                let mut package = name;
                package.append("_");
                package.append(target_platform.as_str());
                compilers.push(
                    MatchRequirement { name: package, constraint: String::from_str("*") },
                );
                proof {
                    let cur = Seq::new(compilers@.len(), |k: int| compilers@[k]@);
                    let m = compilers@[compilers@.len() - 1]@;
                    assert(cur =~= pre.push(m));
                    assert(pre + compiler_requirements_spec(target_platform, tail) =~= cur
                        + compiler_requirements_spec(target_platform, tail.drop_first()));
                }
            },
            None => {
            },
        }
        i += 1;
    }
    proof {
        assert(langsv.skip(n as int) =~= Seq::<LanguageV>::empty());
        assert(Seq::new(compilers@.len(), |k: int| compilers@[k]@)
            + compiler_requirements_spec(target_platform, langsv.skip(n as int)) =~= Seq::new(
            compilers@.len(),
            |k: int| compilers@[k]@,
        ));
    }
    compilers
}

/// The filesystem glob patterns whose changes invalidate a cached build of
/// a native package: source files and the CMake build configuration.
pub open spec fn cmake_input_globs_spec() -> Seq<Seq<char>> {
    seq!["**/*.{c,cc,cxx,cpp,h,hpp,hxx}"@, "**/*.{cmake,cmake.in}"@, "**/CMakeFiles.txt"@]
}

/// The build input globs for a CMake package.
pub fn input_globs() -> (r: Vec<String>)
    ensures
        r.deep_view() == cmake_input_globs_spec(),
{
    let mut globs: Vec<String> = Vec::new();
    globs.push(String::from_str("**/*.{c,cc,cxx,cpp,h,hpp,hxx}"));
    globs.push(String::from_str("**/*.{cmake,cmake.in}"));
    globs.push(String::from_str("**/CMakeFiles.txt"));
    proof {
        assert(globs.deep_view() =~= cmake_input_globs_spec());
    }
    globs
}

} // verus!
