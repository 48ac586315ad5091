//! The build script for CMake-style projects: a fixed template
//! parameterized by the host operating-system class and the source
//! directory.

use vstd::prelude::*;

verus! {

/// The operating-system class the build script runs on.
#[derive(Clone, Copy, PartialEq, Eq, Structural, Debug)]
pub enum BuildPlatform {
    Windows,
    Unix,
}

/// The install prefix variable of the operating-system class.
pub open spec fn install_prefix_spec(p: BuildPlatform) -> Seq<char> {
    match p {
        BuildPlatform::Windows => "%LIBRARY_PREFIX%"@,
        BuildPlatform::Unix => "$PREFIX"@,
    }
}

/// The fixed build-script template: configure the source directory with the
/// platform's install prefix, then build and install.
pub open spec fn cmake_build_script_spec(p: BuildPlatform, source_dir: Seq<char>) -> Seq<
    Seq<char>,
> {
    seq![
        "cmake -GNinja -DCMAKE_BUILD_TYPE=Release -DCMAKE_INSTALL_PREFIX="@
            + install_prefix_spec(p) + " "@ + source_dir,
        "cmake --build . --target install"@,
    ]
}

/// The parameters of the build-script template.
pub struct BuildScriptContext {
    pub build_platform: BuildPlatform,
    pub source_dir: String,
}

impl BuildScriptContext {
    /// Renders the build script as the ordered command sequence the
    /// execution engine runs.
    pub fn render(&self) -> (r: Vec<String>)
        ensures
            r.deep_view() == cmake_build_script_spec(self.build_platform, self.source_dir@),
    {
        let mut configure = String::from_str(
            "cmake -GNinja -DCMAKE_BUILD_TYPE=Release -DCMAKE_INSTALL_PREFIX=",
        );
        match self.build_platform {
            BuildPlatform::Windows => configure.append("%LIBRARY_PREFIX%"),
            BuildPlatform::Unix => configure.append("$PREFIX"),
        }
        configure.append(" ");
        configure.append(self.source_dir.as_str());
        let mut commands: Vec<String> = Vec::new();
        commands.push(configure);
        commands.push(String::from_str("cmake --build . --target install"));
        proof {
            assert(commands.deep_view() =~= cmake_build_script_spec(
                self.build_platform,
                self.source_dir@,
            ));
        }
        commands
    }
}

} // verus!
