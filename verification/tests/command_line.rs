use quilt_installer::cli::{
    cli, get_versions, target, Args, LoaderVersionCLI, MCVersionCLI, Subcommands, VersionError,
};
use quilt_installer::installer::{InstallTarget, Installation};
use quilt_installer::select::{SelectError, VersionSelection};
use quilt_installer::version::{LoaderVersion, MinecraftVersion};

fn minecraft(version: &str, stable: bool) -> MinecraftVersion {
    MinecraftVersion { version: version.to_string(), stable, release_time: 0 }
}

fn loader(major: u64, minor: u64, patch: u64, pre: &str) -> LoaderVersion {
    LoaderVersion {
        major,
        minor,
        patch,
        pre: pre.to_string(),
        build: String::new(),
        maven: String::new(),
    }
}

fn minecraft_catalog() -> Vec<MinecraftVersion> {
    vec![minecraft("24w10a", false), minecraft("1.20.4", true), minecraft("1.20.3", true)]
}

fn loader_catalog() -> Vec<LoaderVersion> {
    vec![loader(0, 25, 0, "beta.2"), loader(0, 24, 1, ""), loader(0, 24, 0, "")]
}

#[test]
fn missing_argument_means_stable() {
    assert!(MCVersionCLI::from(None) == MCVersionCLI::Stable);
    assert!(LoaderVersionCLI::from(None) == LoaderVersionCLI::Stable);
}

#[test]
fn keywords_are_read_in_any_case() {
    assert!(MCVersionCLI::from(Some("stable".to_string())) == MCVersionCLI::Stable);
    assert!(MCVersionCLI::from(Some("STABLE".to_string())) == MCVersionCLI::Stable);
    assert!(MCVersionCLI::from(Some("SnapShot".to_string())) == MCVersionCLI::Snapshot);
    assert!(LoaderVersionCLI::from(Some("Stable".to_string())) == LoaderVersionCLI::Stable);
    assert!(LoaderVersionCLI::from(Some("BETA".to_string())) == LoaderVersionCLI::Beta);
}

#[test]
fn other_arguments_are_kept_as_written() {
    assert!(
        MCVersionCLI::from(Some("1.20.4-RC1".to_string()))
            == MCVersionCLI::Custom("1.20.4-RC1".to_string())
    );
    assert!(MCVersionCLI::from(Some("beta".to_string())) == MCVersionCLI::Custom("beta".to_string()));
    assert!(
        LoaderVersionCLI::from(Some("snapshot".to_string()))
            == LoaderVersionCLI::Custom("snapshot".to_string())
    );
    assert!(
        LoaderVersionCLI::from(Some("0.24.1-Beta".to_string()))
            != LoaderVersionCLI::Custom("0.24.1-beta".to_string())
    );
}

#[test]
fn classify_goes_by_the_lowered_text() {
    let kept = MCVersionCLI::classify("Snapshot".to_string(), &"snapshot".to_string());
    assert!(kept == MCVersionCLI::Snapshot);
    let custom = MCVersionCLI::classify("x".to_string(), &"Snapshot".to_string());
    assert!(custom == MCVersionCLI::Custom("x".to_string()));
    let beta = LoaderVersionCLI::classify("Beta".to_string(), &"beta".to_string());
    assert!(beta == LoaderVersionCLI::Beta);
}

#[test]
fn choices_map_to_policies() {
    assert!(matches!(MCVersionCLI::Stable.policy(), VersionSelection::Stable));
    assert!(matches!(MCVersionCLI::Snapshot.policy(), VersionSelection::PreRelease));
    assert!(matches!(LoaderVersionCLI::Beta.policy(), VersionSelection::PreRelease));
    match LoaderVersionCLI::Custom("0.24.0".to_string()).policy() {
        VersionSelection::Explicit(id) => assert_eq!(id, "0.24.0"),
        _ => panic!("a custom version is an explicit selection"),
    }
}

#[test]
fn clones_are_equal() {
    let choice = MCVersionCLI::Custom("1.19".to_string());
    assert!(choice.clone() == choice);
    assert!(LoaderVersionCLI::Beta.clone() == LoaderVersionCLI::Beta);
}

#[test]
fn versions_resolve_against_both_catalogs() {
    let (minecraft, loader) = get_versions(
        &minecraft_catalog(),
        &loader_catalog(),
        MCVersionCLI::Stable,
        LoaderVersionCLI::Beta,
    )
    .unwrap();
    assert_eq!(minecraft.version, "1.20.4");
    assert_eq!(loader.to_string(), "0.25.0-beta.2");

    let (minecraft, loader) = get_versions(
        &minecraft_catalog(),
        &loader_catalog(),
        MCVersionCLI::Snapshot,
        LoaderVersionCLI::Custom("0.24.0".to_string()),
    )
    .unwrap();
    assert_eq!(minecraft.version, "24w10a");
    assert_eq!(loader.to_string(), "0.24.0");
}

#[test]
fn unknown_minecraft_version_is_named() {
    let error = get_versions(
        &minecraft_catalog(),
        &loader_catalog(),
        MCVersionCLI::Custom("1.7.10".to_string()),
        LoaderVersionCLI::Custom("9.9.9".to_string()),
    )
    .unwrap_err();
    assert!(matches!(&error, VersionError::Minecraft(SelectError::NotFound { requested }) if requested == "1.7.10"));
    assert_eq!(error.to_string(), "Could not find Minecraft version 1.7.10");
}

#[test]
fn unknown_loader_version_is_named() {
    let error = get_versions(
        &minecraft_catalog(),
        &loader_catalog(),
        MCVersionCLI::Stable,
        LoaderVersionCLI::Custom("9.9.9".to_string()),
    )
    .unwrap_err();
    assert!(matches!(&error, VersionError::Loader(SelectError::NotFound { requested }) if requested == "9.9.9"));
    assert_eq!(error.to_string(), "Could not find Quilt Loader version 9.9.9");
}

#[test]
fn missing_stable_version_is_reported() {
    let snapshots = vec![minecraft("24w10a", false)];
    let error =
        get_versions(&snapshots, &loader_catalog(), MCVersionCLI::Stable, LoaderVersionCLI::Stable)
            .unwrap_err();
    assert!(matches!(error, VersionError::Minecraft(SelectError::NoStable)));
    assert_eq!(error.to_string(), "Could not find a stable Minecraft version");
    let stable_only = vec![loader(1, 0, 0, "")];
    let error =
        get_versions(&minecraft_catalog(), &stable_only, MCVersionCLI::Stable, LoaderVersionCLI::Beta)
            .unwrap_err();
    assert!(matches!(error, VersionError::Loader(SelectError::NoPreRelease)));
    assert_eq!(error.to_string(), "Could not find a Quilt Loader beta");
}

#[test]
fn client_target_defaults_to_the_launcher_directory() {
    let built = target(
        Subcommands::Client { profile: true, install_dir: None },
        minecraft("1.20.4", true),
        loader(0, 24, 1, ""),
        "/home/user/.minecraft".to_string(),
    );
    match built {
        InstallTarget::Client(client) => {
            assert_eq!(client.install_location, "/home/user/.minecraft");
            assert!(client.generate_profile);
            assert_eq!(client.minecraft_version.version, "1.20.4");
        }
        InstallTarget::Server(_) => panic!("a client was asked for"),
    }
}

#[test]
fn command_line_resolves_to_a_client_installation() {
    let args = Args {
        subcommand: Some(Subcommands::Client {
            profile: false,
            install_dir: Some("/games/mc".to_string()),
        }),
        minecraft_version: Some("Snapshot".to_string()),
        loader_version: None,
    };
    let built = cli(args, &minecraft_catalog(), &loader_catalog(), "/unused".to_string()).unwrap();
    assert!(built.kind() == Installation::Client);
    match built {
        InstallTarget::Client(client) => {
            assert_eq!(client.install_location, "/games/mc");
            assert!(!client.generate_profile);
            assert_eq!(client.minecraft_version.version, "24w10a");
            assert_eq!(client.loader_version.to_string(), "0.24.1");
        }
        InstallTarget::Server(_) => panic!("a client was asked for"),
    }
}

#[test]
fn command_line_resolves_to_a_server_installation() {
    let args = Args {
        subcommand: Some(Subcommands::Server {
            create_scripts: true,
            download_server: false,
            install_dir: "/srv/mc".to_string(),
        }),
        minecraft_version: Some("1.20.3".to_string()),
        loader_version: Some("beta".to_string()),
    };
    let built = cli(args, &minecraft_catalog(), &loader_catalog(), "/unused".to_string()).unwrap();
    match built {
        InstallTarget::Server(server) => {
            assert_eq!(server.install_location, "/srv/mc");
            assert!(server.generate_script);
            assert!(!server.download_jar);
            assert_eq!(server.minecraft_version.version, "1.20.3");
            assert_eq!(server.loader_version.to_string(), "0.25.0-beta.2");
        }
        InstallTarget::Client(_) => panic!("a server was asked for"),
    }
}

#[test]
fn command_line_reports_an_unknown_version() {
    let args = Args {
        subcommand: Some(Subcommands::Client { profile: true, install_dir: None }),
        minecraft_version: Some("b1.7.3".to_string()),
        loader_version: None,
    };
    let error = cli(args, &minecraft_catalog(), &loader_catalog(), "/d".to_string()).unwrap_err();
    assert_eq!(error.to_string(), "Could not find Minecraft version b1.7.3");
}
