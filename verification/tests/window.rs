use quilt_installer::gui::{
    base_directory_variable, dialog_start, first_shown_index, get_default_client_directory,
    shown_versions, Effect, Failure, HostPlatform, Interaction, Message, State,
};
use quilt_installer::installer::{Installation, PROGRESS_DONE, PROGRESS_NONE};
use quilt_installer::version::{LoaderVersion, MinecraftVersion};

fn minecraft(version: &str, stable: bool) -> MinecraftVersion {
    MinecraftVersion { version: version.to_string(), stable, release_time: 0 }
}

fn loader(major: u64, minor: u64, patch: u64, pre: &str) -> LoaderVersion {
    LoaderVersion {
        major,
        minor,
        patch,
        pre: pre.to_string(),
        build: String::new(),
        maven: String::new(),
    }
}

fn minecraft_catalog() -> Vec<MinecraftVersion> {
    vec![minecraft("24w10a", false), minecraft("1.20.4", true), minecraft("1.20.3", true)]
}

fn loader_catalog() -> Vec<LoaderVersion> {
    vec![loader(0, 25, 0, "beta.2"), loader(0, 24, 1, ""), loader(0, 24, 0, "")]
}

fn opened() -> State {
    State::new("/home/user/.minecraft".to_string(), "/srv".to_string()).0
}

fn loaded() -> State {
    let mut state = opened();
    state.update(Message::SetMcVersions(Ok(minecraft_catalog())));
    state.update(Message::SetLoaderVersions(Ok(loader_catalog())));
    state
}

#[test]
fn window_opens_with_defaults_and_fetches_versions() {
    let (state, effect) = State::new("/home/user/.minecraft".to_string(), "/srv".to_string());
    assert!(matches!(effect, Effect::FetchVersions));
    assert!(state.minecraft_versions.is_empty());
    assert!(state.loader_versions.is_empty());
    assert!(state.selected_minecraft_version.is_none());
    assert!(state.selected_loader_version.is_none());
    assert!(!state.show_snapshots);
    assert!(!state.show_betas);
    assert!(state.installation_type == Installation::Client);
    assert_eq!(state.client_location, "/home/user/.minecraft");
    assert_eq!(state.server_location, "/srv");
    assert!(state.generate_profile);
    assert!(state.download_server_jar);
    assert!(state.generate_launch_script);
    assert!(!state.is_installing);
    assert_eq!(state.progress, PROGRESS_NONE);
    assert!(state.can_install());
    assert_eq!(state.title(), "Quilt Installer");
}

#[test]
fn fetched_versions_select_the_first_stable_one() {
    let state = loaded();
    assert_eq!(state.minecraft_versions.len(), 3);
    assert_eq!(state.selected_minecraft_version.as_ref().unwrap().version, "1.20.4");
    assert_eq!(state.selected_loader_version.as_ref().unwrap().to_string(), "0.24.1");
}

#[test]
fn fetched_versions_keep_an_earlier_selection() {
    let mut state = opened();
    state.update(Message::Interaction(Interaction::SelectMcVersion(minecraft("1.20.3", true))));
    let effect = state.update(Message::SetMcVersions(Ok(minecraft_catalog())));
    assert!(matches!(effect, Effect::Idle));
    assert_eq!(state.selected_minecraft_version.as_ref().unwrap().version, "1.20.3");
}

#[test]
fn failed_fetch_is_reported_and_changes_nothing() {
    let mut state = loaded();
    let effect = state.update(Message::SetLoaderVersions(Err("offline".to_string())));
    match effect {
        Effect::Send(Message::Error(Failure::Reported(text))) => assert_eq!(text, "offline"),
        _ => panic!("the failure was not passed on"),
    }
    assert_eq!(state.loader_versions.len(), 3);
    let effect = state.update(Message::Error(Failure::Reported("offline".to_string())));
    match effect {
        Effect::Report(failure) => assert_eq!(failure.to_string(), "offline"),
        _ => panic!("the failure was not reported"),
    }
}

#[test]
fn showing_snapshots_selects_the_first_entry() {
    let mut state = loaded();
    let effect = state.update(Message::Interaction(Interaction::SetShowSnapshots(true)));
    assert!(matches!(effect, Effect::Idle));
    assert!(state.show_snapshots);
    assert_eq!(state.selected_minecraft_version.as_ref().unwrap().version, "24w10a");
    state.update(Message::Interaction(Interaction::SetShowSnapshots(false)));
    assert!(!state.show_snapshots);
    assert_eq!(state.selected_minecraft_version.as_ref().unwrap().version, "1.20.4");
}

#[test]
fn showing_betas_selects_the_first_entry() {
    let mut state = loaded();
    state.update(Message::Interaction(Interaction::SetShowBetas(true)));
    assert!(state.show_betas);
    assert_eq!(state.selected_loader_version.as_ref().unwrap().to_string(), "0.25.0-beta.2");
    state.update(Message::Interaction(Interaction::SetShowBetas(false)));
    assert_eq!(state.selected_loader_version.as_ref().unwrap().to_string(), "0.24.1");
}

#[test]
fn hiding_snapshots_without_stable_versions_clears_the_selection() {
    let mut state = opened();
    state.update(Message::SetMcVersions(Ok(vec![minecraft("24w10a", false)])));
    assert!(state.selected_minecraft_version.is_none());
    state.update(Message::Interaction(Interaction::SetShowSnapshots(true)));
    assert!(state.selected_minecraft_version.is_some());
    state.update(Message::Interaction(Interaction::SetShowSnapshots(false)));
    assert!(state.selected_minecraft_version.is_none());
}

#[test]
fn pickers_show_stable_versions_unless_asked_for_all() {
    let mut state = loaded();
    let shown: Vec<String> =
        state.shown_minecraft_versions().iter().map(|v| v.version.clone()).collect();
    assert_eq!(shown, vec!["1.20.4".to_string(), "1.20.3".to_string()]);
    assert_eq!(state.shown_loader_versions().len(), 2);
    state.update(Message::Interaction(Interaction::SetShowSnapshots(true)));
    state.update(Message::Interaction(Interaction::SetShowBetas(true)));
    assert_eq!(state.shown_minecraft_versions().len(), 3);
    let shown: Vec<String> = state.shown_loader_versions().iter().map(|v| v.to_string()).collect();
    assert_eq!(shown, vec!["0.25.0-beta.2".to_string(), "0.24.1".to_string(), "0.24.0".to_string()]);
}

#[test]
fn shown_versions_and_first_shown_agree() {
    let catalog = minecraft_catalog();
    assert_eq!(first_shown_index(&catalog, false), Some(1));
    assert_eq!(first_shown_index(&catalog, true), Some(0));
    assert_eq!(shown_versions(&catalog, false)[0].version, "1.20.4");
    assert_eq!(shown_versions(&catalog, true)[0].version, "24w10a");
    let none: Vec<MinecraftVersion> = Vec::new();
    assert_eq!(first_shown_index(&none, true), None);
    assert_eq!(first_shown_index(&none, false), None);
    assert!(shown_versions(&none, true).is_empty());
}

#[test]
fn options_follow_the_interactions() {
    let mut state = loaded();
    state.update(Message::Interaction(Interaction::SelectInstallation(Installation::Server)));
    assert!(state.installation_type == Installation::Server);
    state.update(Message::Interaction(Interaction::GenerateLaunchScript(false)));
    assert!(!state.generate_launch_script);
    state.update(Message::Interaction(Interaction::GenerateProfile(false)));
    assert!(!state.generate_profile);
    state.update(Message::Interaction(Interaction::DownloadServerJar(false)));
    assert!(!state.download_server_jar);
    state.update(Message::Interaction(Interaction::ChangeClientLocation("/a".to_string())));
    assert_eq!(state.client_location, "/a");
    state.update(Message::Interaction(Interaction::ChangeServerLocation("/b".to_string())));
    assert_eq!(state.server_location, "/b");
    state.update(Message::Interaction(Interaction::SelectLoaderVersion(loader(0, 24, 0, ""))));
    assert_eq!(state.selected_loader_version.as_ref().unwrap().to_string(), "0.24.0");
}

#[test]
fn buttons_send_their_messages() {
    let mut state = loaded();
    assert!(matches!(
        state.update(Message::Interaction(Interaction::Install)),
        Effect::Send(Message::Install)
    ));
    assert!(!state.is_installing);
    assert!(matches!(
        state.update(Message::Interaction(Interaction::BrowseClientLocation)),
        Effect::Send(Message::BrowseClientLocation)
    ));
    assert!(matches!(
        state.update(Message::Interaction(Interaction::BrowseServerLocation)),
        Effect::Send(Message::BrowseServerLocation)
    ));
}

#[test]
fn browsing_asks_for_a_directory() {
    let mut state = loaded();
    match state.update(Message::BrowseClientLocation) {
        Effect::ChooseClientLocation { probe, preferred } => {
            assert_eq!(probe, "/home/user/.minecraft");
            assert_eq!(preferred, "/home/user/.minecraft");
        }
        _ => panic!("no dialog for the client"),
    }
    match state.update(Message::BrowseServerLocation) {
        Effect::ChooseServerLocation { probe, preferred } => {
            assert_eq!(probe, "/home/user/.minecraft");
            assert_eq!(preferred, "/srv");
        }
        _ => panic!("no dialog for the server"),
    }
}

#[test]
fn chosen_directory_is_taken_over() {
    let mut state = loaded();
    state.update(Message::ClientLocationChosen(Ok(Some("/picked".to_string()))));
    assert_eq!(state.client_location, "/picked");
    state.update(Message::ClientLocationChosen(Ok(None)));
    assert_eq!(state.client_location, "/picked");
    state.update(Message::ServerLocationChosen(Ok(Some("/server".to_string()))));
    assert_eq!(state.server_location, "/server");
    let effect = state.update(Message::ServerLocationChosen(Err("no display".to_string())));
    assert!(matches!(effect, Effect::Send(Message::Error(Failure::Reported(_)))));
    assert_eq!(state.server_location, "/server");
}

#[test]
fn dialog_opens_in_the_preferred_directory_if_it_exists() {
    assert_eq!(
        dialog_start(true, "/a".to_string(), Some("/cwd".to_string())),
        Some("/a".to_string())
    );
    assert_eq!(
        dialog_start(false, "/a".to_string(), Some("/cwd".to_string())),
        Some("/cwd".to_string())
    );
    assert_eq!(dialog_start(false, "/a".to_string(), None), None);
}

#[test]
fn install_starts_the_client_installation() {
    let mut state = loaded();
    let effect = state.update(Message::Install);
    assert!(state.is_installing);
    assert!(!state.can_install());
    assert_eq!(state.progress, PROGRESS_NONE);
    match effect {
        Effect::InstallClient(client) => {
            assert_eq!(client.minecraft_version.version, "1.20.4");
            assert_eq!(client.loader_version.to_string(), "0.24.1");
            assert_eq!(client.install_location, "/home/user/.minecraft");
            assert!(client.generate_profile);
        }
        _ => panic!("no client installation"),
    }
    let effect = state.update(Message::DoneInstalling(Ok(())));
    assert!(matches!(effect, Effect::Idle));
    assert!(!state.is_installing);
    assert_eq!(state.progress, PROGRESS_DONE);
}

#[test]
fn install_starts_the_server_installation() {
    let mut state = loaded();
    state.update(Message::Interaction(Interaction::SelectInstallation(Installation::Server)));
    state.update(Message::Interaction(Interaction::DownloadServerJar(false)));
    match state.update(Message::Install) {
        Effect::InstallServer(server) => {
            assert_eq!(server.install_location, "/srv");
            assert!(!server.download_jar);
            assert!(server.generate_script);
        }
        _ => panic!("no server installation"),
    }
}

#[test]
fn install_without_versions_is_a_failure() {
    let mut state = opened();
    match state.update(Message::Install) {
        Effect::Send(Message::Error(failure)) => {
            assert!(matches!(failure, Failure::NoMinecraftVersion));
            assert_eq!(failure.to_string(), "No Minecraft version selected!");
        }
        _ => panic!("an installation without a Minecraft version"),
    }
    assert!(state.is_installing);
    state.update(Message::Interaction(Interaction::SelectMcVersion(minecraft("1.20.4", true))));
    match state.update(Message::Install) {
        Effect::Send(Message::Error(failure)) => {
            assert_eq!(failure.to_string(), "No Loader version selected!");
        }
        _ => panic!("an installation without a loader version"),
    }
}

#[test]
fn failed_installation_is_reported() {
    let mut state = loaded();
    state.update(Message::Install);
    let effect = state.update(Message::DoneInstalling(Err("disk full".to_string())));
    assert!(!state.is_installing);
    assert_eq!(state.progress, PROGRESS_DONE);
    match effect {
        Effect::Send(Message::Error(Failure::Reported(text))) => assert_eq!(text, "disk full"),
        _ => panic!("the failure was not passed on"),
    }
}

#[test]
fn launcher_directory_depends_on_the_platform() {
    assert_eq!(base_directory_variable(HostPlatform::Windows), "APPDATA");
    assert_eq!(base_directory_variable(HostPlatform::MacOs), "HOME");
    assert_eq!(base_directory_variable(HostPlatform::Linux), "HOME");
    assert_eq!(
        get_default_client_directory(HostPlatform::Windows, "C:\\Users\\u\\AppData".to_string()),
        vec!["C:\\Users\\u\\AppData".to_string(), ".minecraft".to_string()]
    );
    assert_eq!(
        get_default_client_directory(HostPlatform::MacOs, "/Users/u".to_string()),
        vec![
            "/Users/u".to_string(),
            "Library".to_string(),
            "Application Support".to_string(),
            "minecraft".to_string()
        ]
    );
    assert_eq!(
        get_default_client_directory(HostPlatform::Linux, "/home/u".to_string()),
        vec!["/home/u".to_string(), ".minecraft".to_string()]
    );
}
