//! The build script for Python-style projects: a fixed template
//! parameterized by the installer choice and the host operating-system
//! class.

use vstd::prelude::*;

verus! {

/// The installer tool the generated build script invokes.
#[derive(Clone, Copy, PartialEq, Eq, Structural, Debug)]
pub enum Installer {
    Uv,
    Pip,
}

impl Default for Installer {
    /// The canonical installer choice when no installer is declared
    /// anywhere.
    fn default() -> (r: Self)
        ensures
            r == Installer::Pip,
    {
        Installer::Pip
    }
}

/// The package name of an installer.
pub open spec fn installer_package_name_spec(i: Installer) -> Seq<char> {
    match i {
        Installer::Uv => "uv"@,
        Installer::Pip => "pip"@,
    }
}

impl Installer {
    /// The package that provides this installer.
    pub fn package_name(&self) -> (r: &'static str)
        ensures
            r@ == installer_package_name_spec(*self),
    {
        match self {
            Installer::Uv => "uv",
            Installer::Pip => "pip",
        }
    }
}

/// The operating-system class the build script runs on.
#[derive(Clone, Copy, PartialEq, Eq, Structural, Debug)]
pub enum BuildPlatform {
    Windows,
    Unix,
}

/// The command that invokes the chosen installer.
pub open spec fn installer_command_spec(i: Installer) -> Seq<char> {
    match i {
        Installer::Uv => "uv pip"@,
        Installer::Pip => "python -m pip"@,
    }
}

/// The fixed build-script template: one install command built from the
/// installer choice, followed on Windows by the explicit error check the
/// shell there needs.
pub open spec fn python_build_script_spec(i: Installer, p: BuildPlatform) -> Seq<Seq<char>> {
    let line = installer_command_spec(i)
        + " install --ignore-installed --no-deps --no-build-isolation . -vv"@;
    match p {
        BuildPlatform::Windows => seq![line, "if errorlevel 1 exit 1"@],
        BuildPlatform::Unix => seq![line],
    }
}

/// The parameters of the build-script template.
pub struct BuildScriptContext {
    pub installer: Installer,
    pub build_platform: BuildPlatform,
}

impl BuildScriptContext {
    /// Renders the build script as the ordered command sequence the
    /// execution engine runs.
    pub fn render(&self) -> (r: Vec<String>)
        ensures
            r.deep_view() == python_build_script_spec(self.installer, self.build_platform),
    {
        let mut line = match self.installer {
            Installer::Uv => String::from_str("uv pip"),
            Installer::Pip => String::from_str("python -m pip"),
        };
        line.append(" install --ignore-installed --no-deps --no-build-isolation . -vv");
        let mut commands: Vec<String> = Vec::new();
        commands.push(line);
        match self.build_platform {
            BuildPlatform::Windows => {
                commands.push(String::from_str("if errorlevel 1 exit 1"));
                proof {
                    assert(commands.deep_view() =~= python_build_script_spec(
                        self.installer,
                        self.build_platform,
                    ));
                }
            },
            BuildPlatform::Unix => {
                proof {
                    assert(commands.deep_view() =~= python_build_script_spec(
                        self.installer,
                        self.build_platform,
                    ));
                }
            },
        }
        commands
    }
}

} // verus!
