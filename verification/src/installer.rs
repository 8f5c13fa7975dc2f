//! What is to be installed, and where.

use vstd::prelude::*;
use crate::version::{LoaderVersion, MinecraftVersion};

verus! {

/// The progress of an installation that has not begun, in thousandths.
pub const PROGRESS_NONE: u16 = 0;

/// The progress of an installation that has ended, in thousandths.
pub const PROGRESS_DONE: u16 = 1000;

/// The two kinds of installation.
#[derive(Clone, Copy, Debug, PartialEq, Eq, Structural)]
pub enum Installation {
    Client,
    Server,
}

impl Default for Installation {
    fn default() -> (res: Self)
        ensures
            res == Installation::Client,
    {
        Installation::Client
    }
}

/// A client installation: the loader's files under the launcher's directory
/// and, if asked for, a launcher profile.
#[derive(Debug)]
pub struct ClientInstallation {
    pub minecraft_version: MinecraftVersion,
    pub loader_version: LoaderVersion,
    pub install_location: String,
    pub generate_profile: bool,
}

/// A server installation: the loader's launcher in a directory of its own and,
/// if asked for, the vanilla server and a launch script beside it.
#[derive(Debug)]
pub struct ServerInstallation {
    pub minecraft_version: MinecraftVersion,
    pub loader_version: LoaderVersion,
    pub install_location: String,
    pub download_jar: bool,
    pub generate_script: bool,
}

/// Why an installation cannot be planned.
#[derive(Debug)]
pub enum PlanError {
    /// The vanilla server is asked for and its source is not known.
    MissingServerJarSource,
    /// A library's name is not made of group, artifact and version.
    InvalidLibraryName(String),
}

/// One installation of either kind.
#[derive(Debug)]
pub enum InstallTarget {
    Client(ClientInstallation),
    Server(ServerInstallation),
}

impl InstallTarget {
    /// The kind of the installation.
    pub fn kind(&self) -> (res: Installation)
        ensures
            res == match self {
                InstallTarget::Client(_) => Installation::Client,
                InstallTarget::Server(_) => Installation::Server,
            },
    {
        match self {
            InstallTarget::Client(_) => Installation::Client,
            InstallTarget::Server(_) => Installation::Server,
        }
    }
}

} // verus!
