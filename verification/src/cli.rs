//! What the command line asks for, and the versions it resolves to.

use vstd::prelude::*;
use vstd::std_specs::cmp::PartialEqSpecImpl;
use vstd::std_specs::convert::FromSpecImpl;
use crate::installer::{ClientInstallation, InstallTarget, ServerInstallation};
use crate::select::{is_failure_of, select, selection, SelectError, VersionSelection};
use crate::version::{LoaderVersion, MinecraftVersion};

verus! {

/// The lower-case form of a text, as `str::to_lowercase` gives it.
pub uninterp spec fn lowercase(text: Seq<char>) -> Seq<char>;

/// Calls `str::to_lowercase` of the standard library. The result is the
/// lower-case form of the argument under Unicode's rules, which depends on the
/// argument alone; the contract gives it its name and says no more of it.
#[verifier::external_body]
fn to_lowercase(text: &String) -> (res: String)
    ensures
        res@ == lowercase(text@),
{
    text.to_lowercase()
}

/// The Minecraft version that the command line names.
#[derive(Debug)]
pub enum MCVersionCLI {
    Stable,
    Snapshot,
    Custom(String),
}

/// The Quilt Loader version that the command line names.
#[derive(Debug)]
pub enum LoaderVersionCLI {
    Stable,
    Beta,
    Custom(String),
}

impl MCVersionCLI {
    /// What an argument stands for, given its lower-case form: one of the two
    /// keywords, in any case, or else a version identifier, kept as written.
    pub open spec fn spec_classify(input: String, lowered: Seq<char>) -> MCVersionCLI {
        if lowered == "stable"@ {
            MCVersionCLI::Stable
        } else if lowered == "snapshot"@ {
            MCVersionCLI::Snapshot
        } else {
            MCVersionCLI::Custom(input)
        }
    }

    /// What the command line asks for: the stable version where it names
    /// none, else what the argument stands for.
    pub open spec fn of_argument(argument: Option<String>) -> MCVersionCLI {
        match argument {
            Some(input) => MCVersionCLI::spec_classify(input, lowercase(input@)),
            None => MCVersionCLI::Stable,
        }
    }

    pub fn classify(input: String, lowered: &String) -> (res: MCVersionCLI)
        ensures
            res == Self::spec_classify(input, lowered@),
    {
        if *lowered == String::from_str("stable") {
            MCVersionCLI::Stable
        } else if *lowered == String::from_str("snapshot") {
            MCVersionCLI::Snapshot
        } else {
            MCVersionCLI::Custom(input)
        }
    }

    /// The selection policy that the argument asks for.
    pub open spec fn spec_policy(self) -> VersionSelection {
        match self {
            MCVersionCLI::Stable => VersionSelection::Stable,
            MCVersionCLI::Snapshot => VersionSelection::PreRelease,
            MCVersionCLI::Custom(id) => VersionSelection::Explicit(id),
        }
    }

    pub fn policy(self) -> (res: VersionSelection)
        ensures
            res == self.spec_policy(),
    {
        match self {
            MCVersionCLI::Stable => VersionSelection::Stable,
            MCVersionCLI::Snapshot => VersionSelection::PreRelease,
            MCVersionCLI::Custom(id) => VersionSelection::Explicit(id),
        }
    }
}

impl From<Option<String>> for MCVersionCLI {
    fn from(s: Option<String>) -> (res: Self) {
        match s {
            Some(input) => {
                let lowered = to_lowercase(&input);
                MCVersionCLI::classify(input, &lowered)
            },
            None => MCVersionCLI::Stable,
        }
    }
}

impl FromSpecImpl<Option<String>> for MCVersionCLI {
    open spec fn obeys_from_spec() -> bool {
        true
    }

    open spec fn from_spec(s: Option<String>) -> Self {
        MCVersionCLI::of_argument(s)
    }
}

impl Clone for MCVersionCLI {
    fn clone(&self) -> (res: Self)
        ensures
            res == *self,
    {
        match self {
            MCVersionCLI::Stable => MCVersionCLI::Stable,
            MCVersionCLI::Snapshot => MCVersionCLI::Snapshot,
            MCVersionCLI::Custom(id) => MCVersionCLI::Custom(id.clone()),
        }
    }
}

impl PartialEq for MCVersionCLI {
    fn eq(&self, other: &Self) -> (res: bool) {
        match (self, other) {
            (MCVersionCLI::Stable, MCVersionCLI::Stable) => true,
            (MCVersionCLI::Snapshot, MCVersionCLI::Snapshot) => true,
            (MCVersionCLI::Custom(a), MCVersionCLI::Custom(b)) => *a == *b,
            _ => false,
        }
    }
}

impl PartialEqSpecImpl for MCVersionCLI {
    open spec fn obeys_eq_spec() -> bool {
        true
    }

    open spec fn eq_spec(&self, other: &Self) -> bool {
        match (self, other) {
            (MCVersionCLI::Stable, MCVersionCLI::Stable) => true,
            (MCVersionCLI::Snapshot, MCVersionCLI::Snapshot) => true,
            (MCVersionCLI::Custom(a), MCVersionCLI::Custom(b)) => a@ == b@,
            _ => false,
        }
    }
}

impl Eq for MCVersionCLI {

}

impl LoaderVersionCLI {
    /// What an argument stands for, given its lower-case form: one of the two
    /// keywords, in any case, or else a version identifier, kept as written.
    pub open spec fn spec_classify(input: String, lowered: Seq<char>) -> LoaderVersionCLI {
        if lowered == "stable"@ {
            LoaderVersionCLI::Stable
        } else if lowered == "beta"@ {
            LoaderVersionCLI::Beta
        } else {
            LoaderVersionCLI::Custom(input)
        }
    }

    /// What the command line asks for: the stable version where it names
    /// none, else what the argument stands for.
    pub open spec fn of_argument(argument: Option<String>) -> LoaderVersionCLI {
        match argument {
            Some(input) => LoaderVersionCLI::spec_classify(input, lowercase(input@)),
            None => LoaderVersionCLI::Stable,
        }
    }

    pub fn classify(input: String, lowered: &String) -> (res: LoaderVersionCLI)
        ensures
            res == Self::spec_classify(input, lowered@),
    {
        if *lowered == String::from_str("stable") {
            LoaderVersionCLI::Stable
        } else if *lowered == String::from_str("beta") {
            LoaderVersionCLI::Beta
        } else {
            LoaderVersionCLI::Custom(input)
        }
    }

    /// The selection policy that the argument asks for.
    pub open spec fn spec_policy(self) -> VersionSelection {
        match self {
            LoaderVersionCLI::Stable => VersionSelection::Stable,
            LoaderVersionCLI::Beta => VersionSelection::PreRelease,
            LoaderVersionCLI::Custom(id) => VersionSelection::Explicit(id),
        }
    }

    pub fn policy(self) -> (res: VersionSelection)
        ensures
            res == self.spec_policy(),
    {
        match self {
            LoaderVersionCLI::Stable => VersionSelection::Stable,
            LoaderVersionCLI::Beta => VersionSelection::PreRelease,
            LoaderVersionCLI::Custom(id) => VersionSelection::Explicit(id),
        }
    }
}

impl From<Option<String>> for LoaderVersionCLI {
    fn from(s: Option<String>) -> (res: Self) {
        match s {
            Some(input) => {
                let lowered = to_lowercase(&input);
                LoaderVersionCLI::classify(input, &lowered)
            },
            None => LoaderVersionCLI::Stable,
        }
    }
}

impl FromSpecImpl<Option<String>> for LoaderVersionCLI {
    open spec fn obeys_from_spec() -> bool {
        true
    }

    open spec fn from_spec(s: Option<String>) -> Self {
        LoaderVersionCLI::of_argument(s)
    }
}

impl Clone for LoaderVersionCLI {
    fn clone(&self) -> (res: Self)
        ensures
            res == *self,
    {
        match self {
            LoaderVersionCLI::Stable => LoaderVersionCLI::Stable,
            LoaderVersionCLI::Beta => LoaderVersionCLI::Beta,
            LoaderVersionCLI::Custom(id) => LoaderVersionCLI::Custom(id.clone()),
        }
    }
}

impl PartialEq for LoaderVersionCLI {
    fn eq(&self, other: &Self) -> (res: bool) {
        match (self, other) {
            (LoaderVersionCLI::Stable, LoaderVersionCLI::Stable) => true,
            (LoaderVersionCLI::Beta, LoaderVersionCLI::Beta) => true,
            (LoaderVersionCLI::Custom(a), LoaderVersionCLI::Custom(b)) => *a == *b,
            _ => false,
        }
    }
}

impl PartialEqSpecImpl for LoaderVersionCLI {
    open spec fn obeys_eq_spec() -> bool {
        true
    }

    open spec fn eq_spec(&self, other: &Self) -> bool {
        match (self, other) {
            (LoaderVersionCLI::Stable, LoaderVersionCLI::Stable) => true,
            (LoaderVersionCLI::Beta, LoaderVersionCLI::Beta) => true,
            (LoaderVersionCLI::Custom(a), LoaderVersionCLI::Custom(b)) => a@ == b@,
            _ => false,
        }
    }
}

impl Eq for LoaderVersionCLI {

}

/// The arguments of the command line.
#[derive(Debug)]
pub struct Args {
    pub subcommand: Option<Subcommands>,
    pub minecraft_version: Option<String>,
    pub loader_version: Option<String>,
}

/// The installation that the command line asks for.
#[derive(Debug)]
#[allow(inconsistent_fields)]
pub enum Subcommands {
    Client { profile: bool, install_dir: Option<String> },
    Server { create_scripts: bool, download_server: bool, install_dir: String },
}

/// Why the versions that the command line names were not resolved.
#[derive(Debug)]
pub enum VersionError {
    /// No Minecraft version answers.
    Minecraft(SelectError),
    /// No Quilt Loader version answers.
    Loader(SelectError),
}

impl VersionError {
    /// The text of the failure. A version that was asked for by its
    /// identifier and not found is named in it.
    pub open spec fn text(&self) -> Seq<char> {
        match self {
            VersionError::Minecraft(SelectError::NotFound { requested }) => {
                "Could not find Minecraft version "@ + requested@
            },
            VersionError::Minecraft(SelectError::NoStable) => {
                "Could not find a stable Minecraft version"@
            },
            VersionError::Minecraft(SelectError::NoPreRelease) => {
                "Could not find a Minecraft snapshot"@
            },
            VersionError::Loader(SelectError::NotFound { requested }) => {
                "Could not find Quilt Loader version "@ + requested@
            },
            VersionError::Loader(SelectError::NoStable) => {
                "Could not find a stable Quilt Loader version"@
            },
            VersionError::Loader(SelectError::NoPreRelease) => {
                "Could not find a Quilt Loader beta"@
            },
        }
    }

    /// The failure as text.
    pub fn to_string(&self) -> (res: String)
        ensures
            res@ == self.text(),
    {
        match self {
            VersionError::Minecraft(SelectError::NotFound { requested }) => {
                String::from_str("Could not find Minecraft version ").concat(requested.as_str())
            },
            VersionError::Minecraft(SelectError::NoStable) => {
                String::from_str("Could not find a stable Minecraft version")
            },
            VersionError::Minecraft(SelectError::NoPreRelease) => {
                String::from_str("Could not find a Minecraft snapshot")
            },
            VersionError::Loader(SelectError::NotFound { requested }) => {
                String::from_str("Could not find Quilt Loader version ").concat(requested.as_str())
            },
            VersionError::Loader(SelectError::NoStable) => {
                String::from_str("Could not find a stable Quilt Loader version")
            },
            VersionError::Loader(SelectError::NoPreRelease) => {
                String::from_str("Could not find a Quilt Loader beta")
            },
        }
    }
}

/// Resolves the two versions that the command line names against the two
/// catalogs. Each is the selection under its policy; where the Minecraft
/// version is not found, that is the failure, whatever the loader's catalog
/// holds.
pub fn get_versions(
    minecraft_versions: &Vec<MinecraftVersion>,
    loader_versions: &Vec<LoaderVersion>,
    minecraft_version: MCVersionCLI,
    loader_version: LoaderVersionCLI,
) -> (res: Result<(MinecraftVersion, LoaderVersion), VersionError>)
    ensures
        match res {
            Ok((minecraft, loader)) => {
                &&& selection(minecraft_versions@, &minecraft_version.spec_policy()) matches Some(i)
                    && minecraft == minecraft_versions@[i]
                &&& selection(loader_versions@, &loader_version.spec_policy()) matches Some(j)
                    && loader == loader_versions@[j]
            },
            Err(VersionError::Minecraft(error)) => {
                &&& selection(minecraft_versions@, &minecraft_version.spec_policy()) is None
                &&& is_failure_of(&error, &minecraft_version.spec_policy())
            },
            Err(VersionError::Loader(error)) => {
                &&& selection(minecraft_versions@, &minecraft_version.spec_policy()) is Some
                &&& selection(loader_versions@, &loader_version.spec_policy()) is None
                &&& is_failure_of(&error, &loader_version.spec_policy())
            },
        },
{
    let minecraft_policy = minecraft_version.policy();
    let loader_policy = loader_version.policy();
    let minecraft = match select(minecraft_versions, &minecraft_policy) {
        Ok(entry) => entry.clone(),
        Err(error) => {
            return Err(VersionError::Minecraft(error));
        },
    };
    let loader = match select(loader_versions, &loader_policy) {
        Ok(entry) => entry.clone(),
        Err(error) => {
            return Err(VersionError::Loader(error));
        },
    };
    Ok((minecraft, loader))
}

/// The installation that a subcommand asks for, once the versions are known.
/// A client without a directory of its own goes to the launcher's.
pub open spec fn spec_target(
    subcommand: Subcommands,
    minecraft_version: MinecraftVersion,
    loader_version: LoaderVersion,
    default_client_directory: String,
) -> InstallTarget {
    match subcommand {
        Subcommands::Client { profile, install_dir } => InstallTarget::Client(
            ClientInstallation {
                minecraft_version,
                loader_version,
                install_location: match install_dir {
                    Some(directory) => directory,
                    None => default_client_directory,
                },
                generate_profile: profile,
            },
        ),
        Subcommands::Server { create_scripts, download_server, install_dir } => {
            InstallTarget::Server(
                ServerInstallation {
                    minecraft_version,
                    loader_version,
                    install_location: install_dir,
                    download_jar: download_server,
                    generate_script: create_scripts,
                },
            )
        },
    }
}

/// The installation that a subcommand asks for, once the versions are known.
pub fn target(
    subcommand: Subcommands,
    minecraft_version: MinecraftVersion,
    loader_version: LoaderVersion,
    default_client_directory: String,
) -> (res: InstallTarget)
    ensures
        res == spec_target(subcommand, minecraft_version, loader_version, default_client_directory),
{
    match subcommand {
        Subcommands::Client { profile, install_dir } => InstallTarget::Client(
            ClientInstallation {
                minecraft_version,
                loader_version,
                install_location: match install_dir {
                    Some(directory) => directory,
                    None => default_client_directory,
                },
                generate_profile: profile,
            },
        ),
        Subcommands::Server { create_scripts, download_server, install_dir } => {
            InstallTarget::Server(
                ServerInstallation {
                    minecraft_version,
                    loader_version,
                    install_location: install_dir,
                    download_jar: download_server,
                    generate_script: create_scripts,
                },
            )
        },
    }
}

/// Turns the command line into the installation to run: resolves the two
/// versions that it names, a version left out being the stable one, and
/// builds the target of the subcommand with them.
pub fn cli(
    args: Args,
    minecraft_versions: &Vec<MinecraftVersion>,
    loader_versions: &Vec<LoaderVersion>,
    default_client_directory: String,
) -> (res: Result<InstallTarget, VersionError>)
    requires
        args.subcommand is Some,
    ensures
        ({
            let minecraft_policy = MCVersionCLI::of_argument(args.minecraft_version).spec_policy();
            let loader_policy = LoaderVersionCLI::of_argument(args.loader_version).spec_policy();
            match res {
                Ok(installation) => {
                    &&& selection(minecraft_versions@, &minecraft_policy) matches Some(i)
                    &&& selection(loader_versions@, &loader_policy) matches Some(j)
                    &&& installation == spec_target(
                        args.subcommand->Some_0,
                        minecraft_versions@[i],
                        loader_versions@[j],
                        default_client_directory,
                    )
                },
                Err(VersionError::Minecraft(error)) => {
                    &&& selection(minecraft_versions@, &minecraft_policy) is None
                    &&& is_failure_of(&error, &minecraft_policy)
                },
                Err(VersionError::Loader(error)) => {
                    &&& selection(minecraft_versions@, &minecraft_policy) is Some
                    &&& selection(loader_versions@, &loader_policy) is None
                    &&& is_failure_of(&error, &loader_policy)
                },
            }
        }),
{
    let minecraft_choice = MCVersionCLI::from(args.minecraft_version);
    let loader_choice = LoaderVersionCLI::from(args.loader_version);
    let subcommand = args.subcommand.unwrap();
    match get_versions(minecraft_versions, loader_versions, minecraft_choice, loader_choice) {
        Ok((minecraft, loader)) => Ok(
            target(subcommand, minecraft, loader, default_client_directory),
        ),
        Err(error) => Err(error),
    }
}

} // verus!
