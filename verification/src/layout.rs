//! Where a virtual environment keeps its executables, by platform convention.

use vstd::prelude::*;
use vstd::string::*;

verus! {

/// The directory convention that a virtual environment follows.
#[derive(Clone, Copy, Debug, PartialEq, Eq, Structural)]
pub enum Platform {
    /// Executables live under `bin/`.
    Posix,
    /// Executables live under `Scripts/`.
    Windows,
}

/// How the host was built, which decides where scripts are looked up.
#[derive(Clone, Copy, Debug, PartialEq, Eq, Structural)]
pub enum BuildMode {
    /// Scripts are taken from the source tree.
    Development,
    /// Scripts are taken from beside the packaged program.
    Packaged,
}

impl Platform {
    /// Name of the directory, inside the environment, that holds executables.
    pub open spec fn spec_bin_dir(self) -> Seq<char> {
        match self {
            Platform::Posix => "bin"@,
            Platform::Windows => "Scripts"@,
        }
    }

    /// File name of the package installer.
    pub open spec fn spec_installer_name(self) -> Seq<char> {
        match self {
            Platform::Posix => "pip"@,
            Platform::Windows => "pip.exe"@,
        }
    }

    /// The directory name as text.
    pub fn bin_dir(self) -> (dir: &'static str)
        ensures
            dir@ == self.spec_bin_dir(),
    {
        match self {
            Platform::Posix => "bin",
            Platform::Windows => "Scripts",
        }
    }

    /// The installer's file name as text.
    pub fn installer_name(self) -> (name: &'static str)
        ensures
            name@ == self.spec_installer_name(),
    {
        match self {
            Platform::Posix => "pip",
            Platform::Windows => "pip.exe",
        }
    }
}

/// The directory of executables of the environment at `root`, with a
/// trailing separator: `{root}/{bin_dir}/`.
pub open spec fn executables_prefix(root: Seq<char>, platform: Platform) -> Seq<char> {
    root + "/"@ + platform.spec_bin_dir() + "/"@
}

/// Path of the executable `name` of the environment at `root`:
/// `{root}/{bin_dir}/{name}`.
pub open spec fn executable_path(root: Seq<char>, platform: Platform, name: Seq<char>) -> Seq<
    char,
> {
    executables_prefix(root, platform) + name
}

/// Composes the path of an executable of the environment. Pure string work:
/// nothing is looked up on disk.
pub fn join_executable(root: &str, platform: Platform, name: &str) -> (path: String)
    ensures
        path@ == executable_path(root@, platform, name@),
{
    let mut path = String::from_str(root);
    path.append("/");
    path.append(platform.bin_dir());
    path.append("/");
    path.append(name);
    path
}

/// The directory in which scripts run, relative to the host's own.
pub open spec fn spec_scripts_dir(mode: BuildMode) -> Seq<char> {
    match mode {
        BuildMode::Development => "./src/scripts"@,
        BuildMode::Packaged => "./scripts"@,
    }
}

/// The scripts directory as text.
pub fn scripts_dir(mode: BuildMode) -> (dir: &'static str)
    ensures
        dir@ == spec_scripts_dir(mode),
{
    match mode {
        BuildMode::Development => "./src/scripts",
        BuildMode::Packaged => "./scripts",
    }
}

} // verus!
