//! What a server installation consists of.
//!
//! A server's directory holds the loader's launcher, the vanilla server
//! where it is asked for, and a launch script where that is asked for: three
//! plain files at most, side by side. The plan names them; nothing else in
//! the directory belongs to the installer.

use vstd::prelude::*;
use crate::fetch::{brings, Artifact, Source};
use crate::installer::{PlanError, ServerInstallation};

verus! {

/// The two families of operating system that a launch script is written for.
#[derive(Clone, Copy, Debug, PartialEq, Eq, Structural)]
pub enum HostFamily {
    Unix,
    Windows,
}

/// A launch script: a file in the server's directory that starts the server.
#[derive(Debug)]
pub struct LaunchScript {
    pub file_name: String,
    pub contents: String,
    /// Whether the file is to be marked executable.
    pub executable: bool,
}

/// The files of a server installation, each named relative to the server's
/// directory.
#[derive(Debug)]
pub struct ServerPlan {
    pub artifacts: Vec<Artifact>,
    pub script: Option<LaunchScript>,
}

/// The file name of the loader's launcher.
pub open spec fn launcher_name() -> Seq<char> {
    "quilt-server-launch.jar"@
}

/// The file name of the vanilla server.
pub open spec fn server_jar_name() -> Seq<char> {
    "server.jar"@
}

/// The file name of the launch script.
pub open spec fn script_name(host: HostFamily) -> Seq<char> {
    match host {
        HostFamily::Unix => "start.sh"@,
        HostFamily::Windows => "start.bat"@,
    }
}

/// The text of the launch script: it starts the launcher that stands beside
/// it. A shell script begins with the interpreter's line; a batch script
/// keeps its window open at the end.
pub open spec fn script_contents(host: HostFamily) -> Seq<char> {
    match host {
        HostFamily::Unix => "#!/bin/sh\njava -jar "@ + launcher_name() + " nogui\n"@,
        HostFamily::Windows => "java -jar "@ + launcher_name() + " nogui\r\npause\r\n"@,
    }
}

/// The launch script for a family of operating system. A shell script is
/// marked executable, a batch script needs no mark.
pub fn launch_script(host: HostFamily) -> (res: LaunchScript)
    ensures
        res.file_name@ == script_name(host),
        res.contents@ == script_contents(host),
        res.executable == (host == HostFamily::Unix),
{
    match host {
        HostFamily::Unix => {
            let mut contents = String::from_str("#!/bin/sh\njava -jar ");
            contents.append("quilt-server-launch.jar");
            contents.append(" nogui\n");
            LaunchScript { file_name: String::from_str("start.sh"), contents, executable: true }
        },
        HostFamily::Windows => {
            let mut contents = String::from_str("java -jar ");
            contents.append("quilt-server-launch.jar");
            contents.append(" nogui\r\npause\r\n");
            LaunchScript { file_name: String::from_str("start.bat"), contents, executable: false }
        },
    }
}

/// Where the files of a server installation come from.
#[derive(Debug)]
pub struct ServerSources {
    pub launcher: Source,
    /// The vanilla server of the installation's Minecraft version, where it
    /// was looked up.
    pub server_jar: Option<Source>,
}

/// The names of the files of a server installation: the launcher, then the
/// vanilla server if it is asked for, then the launch script if that is.
pub open spec fn planned_names(target: &ServerInstallation, host: HostFamily) -> Seq<Seq<char>> {
    seq![launcher_name()] + (if target.download_jar {
        seq![server_jar_name()]
    } else {
        Seq::<Seq<char>>::empty()
    }) + (if target.generate_script {
        seq![script_name(host)]
    } else {
        Seq::<Seq<char>>::empty()
    })
}

impl ServerPlan {
    /// The names of the files that the plan writes, artifacts first.
    pub open spec fn names(&self) -> Seq<Seq<char>> {
        self.artifacts@.map_values(|artifact: Artifact| artifact.destination_path@) + (
        match self.script {
            Some(script) => seq![script.file_name@],
            None => Seq::<Seq<char>>::empty(),
        })
    }

    /// Whether the plan is that of `target`: the launcher in any case, the
    /// vanilla server exactly where it is asked for, each from its source;
    /// and the host's launch script exactly where that is asked for.
    pub open spec fn is_plan_of(
        &self,
        target: &ServerInstallation,
        sources: ServerSources,
        host: HostFamily,
    ) -> bool {
        &&& self.artifacts@.len() == if target.download_jar {
            2int
        } else {
            1int
        }
        &&& brings(self.artifacts@[0], sources.launcher, launcher_name())
        &&& target.download_jar ==> sources.server_jar is Some && brings(
            self.artifacts@[1],
            sources.server_jar->Some_0,
            server_jar_name(),
        )
        &&& self.script is Some <==> target.generate_script
        &&& self.script matches Some(script) ==> {
            &&& script.file_name@ == script_name(host)
            &&& script.contents@ == script_contents(host)
            &&& script.executable == (host == HostFamily::Unix)
        }
    }
}

/// Plans a server installation.
///
/// Fails exactly where the vanilla server is asked for and its source is
/// not given. Otherwise the plan is that of the target, and it names the
/// files of `planned_names`, in that order.
pub fn server_plan(target: &ServerInstallation, sources: ServerSources, host: HostFamily) -> (res:
    Result<ServerPlan, PlanError>)
    ensures
        res is Err <==> target.download_jar && sources.server_jar is None,
        res matches Err(error) ==> error is MissingServerJarSource,
        res matches Ok(plan) ==> plan.is_plan_of(target, sources, host) && plan.names()
            == planned_names(target, host),
{
    let ServerSources { launcher, server_jar } = sources;
    let mut artifacts: Vec<Artifact> = Vec::new();
    artifacts.push(Artifact::new(launcher, String::from_str("quilt-server-launch.jar")));
    if target.download_jar {
        match server_jar {
            Some(source) => {
                artifacts.push(Artifact::new(source, String::from_str("server.jar")));
            },
            None => {
                return Err(PlanError::MissingServerJarSource);
            },
        }
    }
    let script = if target.generate_script {
        Some(launch_script(host))
    } else {
        None
    };
    let plan = ServerPlan { artifacts, script };
    assert(plan.names() =~= planned_names(target, host));
    Ok(plan)
}

/// The three file names of a server installation differ from one another,
/// whatever the host: no file of a plan overwrites another.
pub proof fn lemma_names_differ(host: HostFamily)
    ensures
        launcher_name() != server_jar_name(),
        launcher_name() != script_name(host),
        server_jar_name() != script_name(host),
{
    reveal_strlit("quilt-server-launch.jar");
    reveal_strlit("server.jar");
    reveal_strlit("start.sh");
    reveal_strlit("start.bat");
    assert(launcher_name().len() == 23);
    assert(server_jar_name().len() == 10);
    assert(script_name(host).len() == 8 || script_name(host).len() == 9);
}

/// A server installation without the vanilla server and with a launch
/// script consists of exactly two files: the loader's launcher and the
/// script. They are two different files, and neither is the vanilla server.
pub proof fn law_bare_server_has_two_files(target: &ServerInstallation, host: HostFamily)
    requires
        !target.download_jar,
        target.generate_script,
    ensures
        planned_names(target, host) == seq![launcher_name(), script_name(host)],
        launcher_name() != script_name(host),
        !planned_names(target, host).contains(server_jar_name()),
{
    lemma_names_differ(host);
    let names = planned_names(target, host);
    assert(names =~= seq![launcher_name(), script_name(host)]);
    if names.contains(server_jar_name()) {
        let i = choose|i: int| 0 <= i < names.len() && names[i] == server_jar_name();
        assert(i == 0 || i == 1);
    }
}

} // verus!
