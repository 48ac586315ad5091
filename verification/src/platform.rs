//! Target platforms and the platform-specific default compiler table.

use vstd::prelude::*;

verus! {

/// A build/host/target platform, a closed set of the platforms the backend
/// can produce packages for. `NoArch` is the platform-independent
/// classification.
#[derive(Clone, Copy, PartialEq, Eq, Structural, Debug)]
pub enum Platform {
    NoArch,
    Linux64,
    LinuxAarch64,
    Osx64,
    OsxArm64,
    Win64,
    WinArm64,
    EmscriptenWasm32,
}

impl Platform {
    /// True for the Windows platforms.
    pub open spec fn is_windows_spec(self) -> bool {
        self == Platform::Win64 || self == Platform::WinArm64
    }

    /// True for the macOS platforms.
    pub open spec fn is_osx_spec(self) -> bool {
        self == Platform::Osx64 || self == Platform::OsxArm64
    }

    /// The canonical subdirectory name of this platform.
    pub open spec fn as_str_spec(self) -> Seq<char> {
        match self {
            Platform::NoArch => "noarch"@,
            Platform::Linux64 => "linux-64"@,
            Platform::LinuxAarch64 => "linux-aarch64"@,
            Platform::Osx64 => "osx-64"@,
            Platform::OsxArm64 => "osx-arm64"@,
            Platform::Win64 => "win-64"@,
            Platform::WinArm64 => "win-arm64"@,
            Platform::EmscriptenWasm32 => "emscripten-wasm32"@,
        }
    }

    pub fn is_windows(&self) -> (r: bool)
        ensures
            r == self.is_windows_spec(),
    {
        matches!(self, Platform::Win64 | Platform::WinArm64)
    }

    pub fn is_osx(&self) -> (r: bool)
        ensures
            r == self.is_osx_spec(),
    {
        matches!(self, Platform::Osx64 | Platform::OsxArm64)
    }

    /// The canonical subdirectory name of this platform.
    pub fn as_str(&self) -> (r: &'static str)
        ensures
            r@ == self.as_str_spec(),
    {
        match self {
            Platform::NoArch => "noarch",
            Platform::Linux64 => "linux-64",
            Platform::LinuxAarch64 => "linux-aarch64",
            Platform::Osx64 => "osx-64",
            Platform::OsxArm64 => "osx-arm64",
            Platform::Win64 => "win-64",
            Platform::WinArm64 => "win-arm64",
            Platform::EmscriptenWasm32 => "emscripten-wasm32",
        }
    }
}

/// A source language a compiled project declares; each language determines a
/// default compiler package per platform.
pub enum Language {
    C,
    Cxx,
    Fortran,
    /// Any other declared language; its compiler package carries the
    /// language's own name.
    Other(String),
}

pub enum LanguageV {
    C,
    Cxx,
    Fortran,
    Other(Seq<char>),
}

impl View for Language {
    type V = LanguageV;

    open spec fn view(&self) -> LanguageV {
        match self {
            Language::C => LanguageV::C,
            Language::Cxx => LanguageV::Cxx,
            Language::Fortran => LanguageV::Fortran,
            Language::Other(name) => LanguageV::Other(name@),
        }
    }
}

/// The static platform-to-default-compiler table: Fortran is
/// platform-agnostic, C and C++ map to the platform's toolchain, and any
/// other language passes its own name through.
pub open spec fn default_compiler_spec(platform: Platform, language: LanguageV) -> Option<
    Seq<char>,
> {
    match language {
        LanguageV::Fortran => Some("gfortran"@),
        LanguageV::Other(name) => Some(name),
        LanguageV::C => Some(
            if platform.is_windows_spec() {
                "vs2017"@
            } else if platform.is_osx_spec() {
                "clang"@
            } else if platform == Platform::EmscriptenWasm32 {
                "emscripten"@
            } else {
                "gcc"@
            },
        ),
        LanguageV::Cxx => Some(
            if platform.is_windows_spec() {
                "vs2017"@
            } else if platform.is_osx_spec() {
                "clangxx"@
            } else if platform == Platform::EmscriptenWasm32 {
                "emscripten"@
            } else {
                "gxx"@
            },
        ),
    }
}

/// Looks up the default compiler package for a declared language on the
/// given platform.
pub fn default_compiler(platform: Platform, language: &Language) -> (r: Option<String>)
    ensures
        match r {
            Some(name) => default_compiler_spec(platform, language@) == Some(name@),
            None => default_compiler_spec(platform, language@) is None,
        },
{
    match language {
        Language::Fortran => Some(String::from_str("gfortran")),
        Language::Other(name) => Some(name.clone()),
        Language::C => Some(
            if platform.is_windows() {
                String::from_str("vs2017")
            } else if platform.is_osx() {
                String::from_str("clang")
            } else if matches!(platform, Platform::EmscriptenWasm32) {
                String::from_str("emscripten")
            } else {
                String::from_str("gcc")
            },
        ),
        Language::Cxx => Some(
            if platform.is_windows() {
                String::from_str("vs2017")
            } else if platform.is_osx() {
                String::from_str("clangxx")
            } else if matches!(platform, Platform::EmscriptenWasm32) {
                String::from_str("emscripten")
            } else {
                String::from_str("gxx")
            },
        ),
    }
}

} // verus!
