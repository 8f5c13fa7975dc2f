use quilt_installer::fetch::Source;
use quilt_installer::installer::{PlanError, ServerInstallation};
use quilt_installer::server::{launch_script, server_plan, HostFamily, ServerSources};
use quilt_installer::version::{LoaderVersion, MinecraftVersion};

fn server(download_jar: bool, generate_script: bool) -> ServerInstallation {
    ServerInstallation {
        minecraft_version: MinecraftVersion {
            version: "1.20.4".to_string(),
            stable: true,
            release_time: 0,
        },
        loader_version: LoaderVersion {
            major: 0,
            minor: 24,
            patch: 1,
            pre: String::new(),
            build: String::new(),
            maven: String::new(),
        },
        install_location: "/srv/mc".to_string(),
        download_jar,
        generate_script,
    }
}

fn sources(with_server_jar: bool) -> ServerSources {
    ServerSources {
        launcher: Source {
            url: "https://example.org/launcher.jar".to_string(),
            checksum: Some("abc".to_string()),
        },
        server_jar: if with_server_jar {
            Some(Source { url: "https://example.org/server.jar".to_string(), checksum: None })
        } else {
            None
        },
    }
}

fn names(plan: &quilt_installer::server::ServerPlan) -> Vec<String> {
    let mut names: Vec<String> =
        plan.artifacts.iter().map(|artifact| artifact.destination_path.clone()).collect();
    if let Some(script) = &plan.script {
        names.push(script.file_name.clone());
    }
    names
}

#[test]
fn bare_server_with_script_has_two_files() {
    let plan = server_plan(&server(false, true), sources(false), HostFamily::Unix).unwrap();
    assert_eq!(names(&plan), vec!["quilt-server-launch.jar".to_string(), "start.sh".to_string()]);
    assert_eq!(plan.artifacts.len(), 1);
    assert!(!names(&plan).contains(&"server.jar".to_string()));
    let plan = server_plan(&server(false, true), sources(true), HostFamily::Windows).unwrap();
    assert_eq!(names(&plan), vec!["quilt-server-launch.jar".to_string(), "start.bat".to_string()]);
}

#[test]
fn full_server_has_three_files() {
    let plan = server_plan(&server(true, true), sources(true), HostFamily::Unix).unwrap();
    assert_eq!(
        names(&plan),
        vec!["quilt-server-launch.jar".to_string(), "server.jar".to_string(), "start.sh".to_string()]
    );
    assert_eq!(plan.artifacts[0].source_url, "https://example.org/launcher.jar");
    assert_eq!(plan.artifacts[0].expected_checksum, Some("abc".to_string()));
    assert_eq!(plan.artifacts[1].source_url, "https://example.org/server.jar");
    assert_eq!(plan.artifacts[1].expected_checksum, None);
}

#[test]
fn launcher_alone_is_always_fetched() {
    let plan = server_plan(&server(false, false), sources(false), HostFamily::Unix).unwrap();
    assert_eq!(names(&plan), vec!["quilt-server-launch.jar".to_string()]);
    assert!(plan.script.is_none());
}

#[test]
fn server_jar_without_source_cannot_be_planned() {
    let error = server_plan(&server(true, true), sources(false), HostFamily::Unix).unwrap_err();
    assert!(matches!(error, PlanError::MissingServerJarSource));
}

#[test]
fn planning_twice_gives_the_same_files() {
    let first = server_plan(&server(true, true), sources(true), HostFamily::Unix).unwrap();
    let second = server_plan(&server(true, true), sources(true), HostFamily::Unix).unwrap();
    assert_eq!(names(&first), names(&second));
    assert_eq!(
        first.script.as_ref().unwrap().contents,
        second.script.as_ref().unwrap().contents
    );
}

#[test]
fn shell_script_is_executable_and_starts_the_launcher() {
    let script = launch_script(HostFamily::Unix);
    assert_eq!(script.file_name, "start.sh");
    assert_eq!(script.contents, "#!/bin/sh\njava -jar quilt-server-launch.jar nogui\n");
    assert!(script.executable);
}

#[test]
fn batch_script_needs_no_mark_and_starts_the_launcher() {
    let script = launch_script(HostFamily::Windows);
    assert_eq!(script.file_name, "start.bat");
    assert_eq!(script.contents, "java -jar quilt-server-launch.jar nogui\r\npause\r\n");
    assert!(!script.executable);
}
