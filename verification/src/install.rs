//! The one entry point of the installer: from a target to the plan of its
//! installation, and from a failure to the words that report it.

use vstd::prelude::*;
use crate::client::{client_plan, first_invalid, is_client_plan, ClientSources};
use crate::fetch::{Artifact, FetchError};
use crate::installer::{InstallTarget, PlanError};
use crate::profile::{client_entry, is_client_entry, StoreEntry};
use crate::server::{server_plan, HostFamily, ServerPlan, ServerSources};
use crate::version::{decimal, push_decimal};

verus! {

/// Where the files of an installation come from.
#[derive(Debug)]
pub enum InstallSources {
    Client(ClientSources),
    Server(ServerSources),
}

/// Everything an installation does: the artifacts to fetch, and what is
/// written once they are there.
#[derive(Debug)]
pub enum InstallPlan {
    /// A client: artifacts below the launcher's directory, and the entry to
    /// write into the launcher's profile store, if a profile is asked for.
    Client { artifacts: Vec<Artifact>, profile: Option<StoreEntry> },
    /// A server: the files of its directory.
    Server(ServerPlan),
}

/// Why an installation failed, and at which stage.
#[derive(Debug)]
pub enum InstallError {
    /// The sources given are those of the other kind of installation.
    WrongSources,
    /// The installation could not be planned.
    Plan(PlanError),
    /// The artifact for this path could not be fetched.
    Fetch { path: String, error: FetchError },
    /// The file at this path could not be read or written.
    Filesystem { path: String, cause: String },
}

impl InstallPlan {
    /// How many artifacts the plan fetches.
    pub open spec fn artifact_count(&self) -> nat {
        match self {
            InstallPlan::Client { artifacts, profile } => artifacts@.len(),
            InstallPlan::Server(plan) => plan.artifacts@.len(),
        }
    }
}

/// Plans the installation of `target`, client or server.
///
/// Fails where the sources are not of the target's kind, and where the
/// client or the server cannot be planned. A client's plan then holds the
/// client's artifacts and, exactly where a profile is asked for, the entry
/// of the installation; a server's plan is that of the target on `host`.
pub fn install(target: &InstallTarget, sources: InstallSources, host: HostFamily) -> (res: Result<
    InstallPlan,
    InstallError,
>)
    ensures
        match (target, sources) {
            (InstallTarget::Client(client), InstallSources::Client(from)) => {
                match first_invalid(from.libraries@) {
                    Some(i) => res matches Err(
                        InstallError::Plan(PlanError::InvalidLibraryName(name)),
                    ) && name == from.libraries@[i].name,
                    None => {
                        &&& res matches Ok(InstallPlan::Client { artifacts, profile })
                        &&& is_client_plan(artifacts@, client, &from)
                        &&& profile is Some <==> client.generate_profile
                        &&& profile matches Some(entry) ==> is_client_entry(entry, client)
                    },
                }
            },
            (InstallTarget::Server(server), InstallSources::Server(from)) => {
                if server.download_jar && from.server_jar is None {
                    res matches Err(InstallError::Plan(PlanError::MissingServerJarSource))
                } else {
                    res matches Ok(InstallPlan::Server(plan)) && plan.is_plan_of(
                        server,
                        from,
                        host,
                    )
                }
            },
            _ => res matches Err(InstallError::WrongSources),
        },
{
    match target {
        InstallTarget::Client(client) => match sources {
            InstallSources::Client(from) => match client_plan(client, &from) {
                Ok(artifacts) => {
                    let profile = if client.generate_profile {
                        Some(client_entry(client))
                    } else {
                        None
                    };
                    Ok(InstallPlan::Client { artifacts, profile })
                },
                Err(error) => Err(InstallError::Plan(error)),
            },
            InstallSources::Server(_) => Err(InstallError::WrongSources),
        },
        InstallTarget::Server(server) => match sources {
            InstallSources::Server(from) => match server_plan(server, from, host) {
                Ok(plan) => Ok(InstallPlan::Server(plan)),
                Err(error) => Err(InstallError::Plan(error)),
            },
            InstallSources::Client(_) => Err(InstallError::WrongSources),
        },
    }
}

impl FetchError {
    /// The text of the failure.
    pub open spec fn text(&self) -> Seq<char> {
        match self {
            FetchError::Integrity { expected, actual } => "checksum mismatch: expected "@
                + expected@ + ", found "@ + actual@,
            FetchError::Status(status) => "the server answered with status "@ + decimal(
                *status as nat,
            ),
            FetchError::Network => "the server could not be reached"@,
            FetchError::Cancelled => "the installation was cancelled"@,
        }
    }

    /// The failure as text.
    pub fn to_string(&self) -> (res: String)
        ensures
            res@ == self.text(),
    {
        match self {
            FetchError::Integrity { expected, actual } => {
                let mut text = String::from_str("checksum mismatch: expected ");
                text.append(expected.as_str());
                text.append(", found ");
                text.append(actual.as_str());
                text
            },
            FetchError::Status(status) => {
                let mut text = String::from_str("the server answered with status ");
                push_decimal(&mut text, *status as u64);
                text
            },
            FetchError::Network => String::from_str("the server could not be reached"),
            FetchError::Cancelled => String::from_str("the installation was cancelled"),
        }
    }
}

impl InstallError {
    /// The text of the failure: the stage, the artifact or file that it
    /// concerns, and the cause.
    pub open spec fn text(&self) -> Seq<char> {
        match self {
            InstallError::WrongSources => {
                "the sources do not belong to this kind of installation"@
            },
            InstallError::Plan(PlanError::MissingServerJarSource) => {
                "the source of the server jar is not known"@
            },
            InstallError::Plan(PlanError::InvalidLibraryName(name)) => {
                "not the name of a library: "@ + name@
            },
            InstallError::Fetch { path, error } => "could not fetch "@ + path@ + ": "@
                + error.text(),
            InstallError::Filesystem { path, cause } => "could not write "@ + path@ + ": "@
                + cause@,
        }
    }

    /// The failure as text.
    pub fn to_string(&self) -> (res: String)
        ensures
            res@ == self.text(),
    {
        match self {
            InstallError::WrongSources => String::from_str(
                "the sources do not belong to this kind of installation",
            ),
            InstallError::Plan(PlanError::MissingServerJarSource) => String::from_str(
                "the source of the server jar is not known",
            ),
            InstallError::Plan(PlanError::InvalidLibraryName(name)) => String::from_str(
                "not the name of a library: ",
            ).concat(name.as_str()),
            InstallError::Fetch { path, error } => {
                let mut text = String::from_str("could not fetch ");
                text.append(path.as_str());
                text.append(": ");
                text.append(error.to_string().as_str());
                text
            },
            InstallError::Filesystem { path, cause } => {
                let mut text = String::from_str("could not write ");
                text.append(path.as_str());
                text.append(": ");
                text.append(cause.as_str());
                text
            },
        }
    }
}

} // verus!
