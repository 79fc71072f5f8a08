//! What to launch: the launcher script of the platform, run from the
//! configured server directory.

use vstd::prelude::*;

verus! {

/// The family of operating system the service runs on.
#[derive(Debug, Clone, Copy, PartialEq, Eq, Structural)]
pub enum Platform {
    Posix,
    Windows,
}

/// The file name of the launcher script on `platform`.
pub open spec fn launcher_script(platform: Platform) -> Seq<char> {
    match platform {
        Platform::Posix => "start-server.sh"@,
        Platform::Windows => "start-server.bat"@,
    }
}

/// A launch that the service has allowed: run `script`, a file of
/// `working_dir`, with `working_dir` as the working directory and all
/// three standard streams piped.
#[derive(Debug, Clone, PartialEq, Eq)]
pub struct LaunchPlan {
    pub working_dir: String,
    pub script: String,
}

impl Platform {
    pub fn script_name(self) -> (name: &'static str)
        ensures
            name@ == launcher_script(self),
    {
        match self {
            Platform::Posix => "start-server.sh",
            Platform::Windows => "start-server.bat",
        }
    }
}

} // verus!
