//! The installer window as a state machine.
//!
//! The window's state changes only in `State::update`, which takes one
//! message and answers with the effect that the program around it must carry
//! out: open a dialog, start an installation, report an error. What an effect
//! brings back comes in as the next message.

use vstd::prelude::*;
use crate::installer::{
    ClientInstallation, Installation, ServerInstallation, PROGRESS_DONE, PROGRESS_NONE,
};
use crate::select::{select_index, selection, VersionSelection, Versioned};
use crate::version::{LoaderVersion, MinecraftVersion};

verus! {

/// The operating systems that the launcher's directory is known for.
#[derive(Clone, Copy, Debug, PartialEq, Eq, Structural)]
pub enum HostPlatform {
    Windows,
    MacOs,
    Linux,
}

/// The name of the environment variable that holds the directory under which
/// the launcher keeps its own: the application data on Windows, the home
/// directory elsewhere.
pub fn base_directory_variable(platform: HostPlatform) -> (res: &'static str)
    ensures
        res@ == if platform == HostPlatform::Windows {
            "APPDATA"@
        } else {
            "HOME"@
        },
{
    match platform {
        HostPlatform::Windows => "APPDATA",
        HostPlatform::MacOs => "HOME",
        HostPlatform::Linux => "HOME",
    }
}

/// The launcher's directory on a platform, as the names to walk from `base`.
pub open spec fn default_client_directory(platform: HostPlatform, base: Seq<char>) -> Seq<
    Seq<char>,
> {
    match platform {
        HostPlatform::Windows => seq![base, ".minecraft"@],
        HostPlatform::MacOs => seq![base, "Library"@, "Application Support"@, "minecraft"@],
        HostPlatform::Linux => seq![base, ".minecraft"@],
    }
}

/// The launcher's directory on `platform`, given the value of the variable
/// that `base_directory_variable` names: the path's components, first to last.
pub fn get_default_client_directory(platform: HostPlatform, base: String) -> (res: Vec<String>)
    ensures
        res.deep_view() == default_client_directory(platform, base@),
{
    let mut path: Vec<String> = Vec::new();
    path.push(base);
    match platform {
        HostPlatform::Windows => {
            path.push(String::from_str(".minecraft"));
        },
        HostPlatform::MacOs => {
            path.push(String::from_str("Library"));
            path.push(String::from_str("Application Support"));
            path.push(String::from_str("minecraft"));
        },
        HostPlatform::Linux => {
            path.push(String::from_str(".minecraft"));
        },
    }
    assert(path.deep_view() =~= default_client_directory(platform, base@));
    path
}

/// The directory in which a dialog opens: the preferred one where the probed
/// directory exists, else the working directory, if that is known.
pub fn dialog_start(probe_is_dir: bool, preferred: String, working_dir: Option<String>) -> (res:
    Option<String>)
    ensures
        res == if probe_is_dir {
            Some(preferred)
        } else {
            working_dir
        },
{
    if probe_is_dir {
        Some(preferred)
    } else {
        working_dir
    }
}

/// The place of the first entry that a version picker shows: the first of all
/// where pre-releases are shown, else the first stable release.
pub open spec fn first_shown<V: Versioned>(catalog: Seq<V>, show_all: bool) -> Option<int> {
    if show_all {
        if catalog.len() > 0 {
            Some(0)
        } else {
            None
        }
    } else {
        selection(catalog, &VersionSelection::Stable)
    }
}

/// The first entry that a version picker shows.
pub open spec fn first_shown_entry<V: Versioned>(catalog: Seq<V>, show_all: bool) -> Option<V> {
    match first_shown(catalog, show_all) {
        Some(i) => Some(catalog[i]),
        None => None,
    }
}

/// The place of the first entry that a version picker shows.
pub fn first_shown_index<V: Versioned>(catalog: &Vec<V>, show_all: bool) -> (res: Option<usize>)
    ensures
        first_shown(catalog@, show_all) == match res {
            Some(i) => Some(i as int),
            None => None,
        },
        res matches Some(i) ==> i < catalog.len(),
{
    if show_all {
        if catalog.len() > 0 {
            Some(0)
        } else {
            None
        }
    } else {
        select_index(catalog, &VersionSelection::Stable)
    }
}

/// Whether a version picker shows an entry: every entry where pre-releases
/// are shown, else the stable releases alone.
pub open spec fn is_shown<V: Versioned>(show_all: bool) -> spec_fn(V) -> bool {
    |entry: V| show_all || entry.stable()
}

/// The entries that a version picker shows, in catalog order.
pub fn shown_versions<'a, V: Versioned>(catalog: &'a Vec<V>, show_all: bool) -> (res: Vec<&'a V>)
    ensures
        res@.map_values(|entry: &V| *entry) == catalog@.filter(is_shown::<V>(show_all)),
{
    let mut shown: Vec<&'a V> = Vec::new();
    let mut i: usize = 0;
    assert(catalog@.take(0).filter(is_shown::<V>(show_all)) =~= Seq::<V>::empty()) by {
        reveal(Seq::filter);
    }
    assert(shown@.map_values(|entry: &V| *entry) =~= Seq::<V>::empty());
    while i < catalog.len()
        invariant
            i <= catalog.len(),
            shown@.map_values(|entry: &V| *entry) == catalog@.take(i as int).filter(
                is_shown::<V>(show_all),
            ),
        decreases catalog.len() - i,
    {
        let entry = &catalog[i];
        let ghost before = shown@;
        let keep = show_all || entry.check_stable();
        if keep {
            shown.push(entry);
        }
        proof {
            reveal(Seq::filter);
            assert(catalog@.take(i + 1).drop_last() =~= catalog@.take(i as int));
            assert(catalog@.take(i + 1).last() == catalog@[i as int]);
            assert(keep == is_shown::<V>(show_all)(catalog@[i as int]));
            if keep {
                assert(shown@.map_values(|entry: &V| *entry) =~= before.map_values(
                    |entry: &V| *entry,
                ).push(catalog@[i as int]));
            }
        }
        i += 1;
    }
    assert(catalog@.take(i as int) =~= catalog@);
    shown
}

/// Why the window reports a failure.
#[derive(Debug)]
pub enum Failure {
    /// An installation was asked for with no Minecraft version selected.
    NoMinecraftVersion,
    /// An installation was asked for with no Quilt Loader version selected.
    NoLoaderVersion,
    /// Something outside the window failed, with this message.
    Reported(String),
}

impl Failure {
    /// The text of the failure.
    pub open spec fn text(&self) -> Seq<char> {
        match self {
            Failure::NoMinecraftVersion => "No Minecraft version selected!"@,
            Failure::NoLoaderVersion => "No Loader version selected!"@,
            Failure::Reported(message) => message@,
        }
    }

    /// The failure as text.
    pub fn to_string(&self) -> (res: String)
        ensures
            res@ == self.text(),
    {
        match self {
            Failure::NoMinecraftVersion => String::from_str("No Minecraft version selected!"),
            Failure::NoLoaderVersion => String::from_str("No Loader version selected!"),
            Failure::Reported(message) => message.clone(),
        }
    }
}

/// What the user does in the window.
#[derive(Clone, Debug)]
pub enum Interaction {
    ChangeClientLocation(String),
    BrowseClientLocation,
    Install,
    SelectInstallation(Installation),
    SelectLoaderVersion(LoaderVersion),
    SelectMcVersion(MinecraftVersion),
    SetShowSnapshots(bool),
    SetShowBetas(bool),
    GenerateLaunchScript(bool),
    GenerateProfile(bool),
    ChangeServerLocation(String),
    BrowseServerLocation,
    DownloadServerJar(bool),
}

/// What the window is told.
#[derive(Debug)]
pub enum Message {
    Interaction(Interaction),
    Install,
    BrowseClientLocation,
    BrowseServerLocation,
    /// What the dialog for the client's directory ended with: a directory,
    /// nothing where the user closed it, or the dialog's failure.
    ClientLocationChosen(Result<Option<String>, String>),
    /// The same for the server's directory.
    ServerLocationChosen(Result<Option<String>, String>),
    SetMcVersions(Result<Vec<MinecraftVersion>, String>),
    SetLoaderVersions(Result<Vec<LoaderVersion>, String>),
    DoneInstalling(Result<(), String>),
    Error(Failure),
}

/// What the program around the window is to do after a message.
#[derive(Debug)]
pub enum Effect {
    /// Nothing.
    Idle,
    /// Hand this message to the window next.
    Send(Message),
    /// Fetch both version catalogs, and hand each in when it is there.
    FetchVersions,
    /// Ask the user for the client's directory. The dialog opens as
    /// `dialog_start` says, with `probe` the directory to test.
    ChooseClientLocation { probe: String, preferred: String },
    /// Ask the user for the server's directory, in the same way.
    ChooseServerLocation { probe: String, preferred: String },
    /// Run this client installation, and hand in how it ended.
    InstallClient(ClientInstallation),
    /// Run this server installation, and hand in how it ended.
    InstallServer(ServerInstallation),
    /// Print this failure.
    Report(Failure),
}

/// Everything the window shows.
#[derive(Debug)]
pub struct State {
    pub minecraft_versions: Vec<MinecraftVersion>,
    pub selected_minecraft_version: Option<MinecraftVersion>,
    pub show_snapshots: bool,
    pub loader_versions: Vec<LoaderVersion>,
    pub selected_loader_version: Option<LoaderVersion>,
    pub show_betas: bool,
    pub installation_type: Installation,
    pub client_location: String,
    pub generate_profile: bool,
    pub server_location: String,
    pub download_server_jar: bool,
    pub generate_launch_script: bool,
    pub is_installing: bool,
    /// The progress of the installation, in thousandths.
    pub progress: u16,
}

impl State {
    /// The window as it opens: nothing fetched or selected yet, the client
    /// chosen, every option set, and both catalogs to be fetched.
    pub fn new(client_location: String, server_location: String) -> (res: (State, Effect))
        ensures
            res.1 == Effect::FetchVersions,
            res.0.minecraft_versions@.len() == 0,
            res.0.loader_versions@.len() == 0,
            res.0.selected_minecraft_version is None,
            res.0.selected_loader_version is None,
            !res.0.show_snapshots,
            !res.0.show_betas,
            res.0.installation_type == Installation::Client,
            res.0.client_location == client_location,
            res.0.server_location == server_location,
            res.0.generate_profile,
            res.0.download_server_jar,
            res.0.generate_launch_script,
            !res.0.is_installing,
            res.0.progress == PROGRESS_NONE,
    {
        (
            State {
                minecraft_versions: Vec::new(),
                selected_minecraft_version: None,
                show_snapshots: false,
                loader_versions: Vec::new(),
                selected_loader_version: None,
                show_betas: false,
                installation_type: Installation::Client,
                client_location,
                generate_profile: true,
                server_location,
                download_server_jar: true,
                generate_launch_script: true,
                is_installing: false,
                progress: PROGRESS_NONE,
            },
            Effect::FetchVersions,
        )
    }

    /// The window's title.
    pub fn title(&self) -> (res: String)
        ensures
            res@ == "Quilt Installer"@,
    {
        String::from_str("Quilt Installer")
    }

    /// Whether the "Install" button can be pressed: no installation is running.
    pub fn can_install(&self) -> (res: bool)
        ensures
            res == !self.is_installing,
    {
        !self.is_installing
    }

    /// The Minecraft versions that the picker shows.
    pub fn shown_minecraft_versions(&self) -> (res: Vec<&MinecraftVersion>)
        ensures
            res@.map_values(|entry: &MinecraftVersion| *entry) == self.minecraft_versions@.filter(
                is_shown::<MinecraftVersion>(self.show_snapshots),
            ),
    {
        shown_versions(&self.minecraft_versions, self.show_snapshots)
    }

    /// The Quilt Loader versions that the picker shows.
    pub fn shown_loader_versions(&self) -> (res: Vec<&LoaderVersion>)
        ensures
            res@.map_values(|entry: &LoaderVersion| *entry) == self.loader_versions@.filter(
                is_shown::<LoaderVersion>(self.show_betas),
            ),
    {
        shown_versions(&self.loader_versions, self.show_betas)
    }

    fn start_installation(&self) -> (res: Effect)
        ensures
            res == self.installation_effect(),
    {
        match (&self.selected_minecraft_version, &self.selected_loader_version) {
            (None, _) => Effect::Send(Message::Error(Failure::NoMinecraftVersion)),
            (Some(_), None) => Effect::Send(Message::Error(Failure::NoLoaderVersion)),
            (Some(minecraft_version), Some(loader_version)) => match self.installation_type {
                Installation::Client => Effect::InstallClient(
                    ClientInstallation {
                        minecraft_version: minecraft_version.clone(),
                        loader_version: loader_version.clone(),
                        install_location: self.client_location.clone(),
                        generate_profile: self.generate_profile,
                    },
                ),
                Installation::Server => Effect::InstallServer(
                    ServerInstallation {
                        minecraft_version: minecraft_version.clone(),
                        loader_version: loader_version.clone(),
                        install_location: self.server_location.clone(),
                        download_jar: self.download_server_jar,
                        generate_script: self.generate_launch_script,
                    },
                ),
            },
        }
    }

    fn first_minecraft_version(&self, show_all: bool) -> (res: Option<MinecraftVersion>)
        ensures
            res == first_shown_entry(self.minecraft_versions@, show_all),
    {
        match first_shown_index(&self.minecraft_versions, show_all) {
            Some(i) => Some(self.minecraft_versions[i].clone()),
            None => None,
        }
    }

    fn first_loader_version(&self, show_all: bool) -> (res: Option<LoaderVersion>)
        ensures
            res == first_shown_entry(self.loader_versions@, show_all),
    {
        match first_shown_index(&self.loader_versions, show_all) {
            Some(i) => Some(self.loader_versions[i].clone()),
            None => None,
        }
    }

    /// Takes one message: the state becomes `after`, and the result is
    /// `effect_of`, both of the state as it was.
    pub fn update(&mut self, message: Message) -> (res: Effect)
        ensures
            *final(self) == old(self).after(message),
            res == old(self).effect_of(message),
            old(self).wf() ==> final(self).wf(),
    {
        match message {
            Message::Interaction(interaction) => match interaction {
                Interaction::ChangeClientLocation(location) => {
                    self.client_location = location;
                    Effect::Idle
                },
                Interaction::BrowseClientLocation => Effect::Send(Message::BrowseClientLocation),
                Interaction::Install => Effect::Send(Message::Install),
                Interaction::SelectInstallation(kind) => {
                    self.installation_type = kind;
                    Effect::Idle
                },
                Interaction::SelectLoaderVersion(version) => {
                    self.selected_loader_version = Some(version);
                    Effect::Idle
                },
                Interaction::SelectMcVersion(version) => {
                    self.selected_minecraft_version = Some(version);
                    Effect::Idle
                },
                Interaction::SetShowSnapshots(enable) => {
                    self.show_snapshots = enable;
                    self.selected_minecraft_version = self.first_minecraft_version(enable);
                    Effect::Idle
                },
                Interaction::SetShowBetas(enable) => {
                    self.show_betas = enable;
                    self.selected_loader_version = self.first_loader_version(enable);
                    Effect::Idle
                },
                Interaction::GenerateLaunchScript(value) => {
                    self.generate_launch_script = value;
                    Effect::Idle
                },
                Interaction::GenerateProfile(value) => {
                    self.generate_profile = value;
                    Effect::Idle
                },
                Interaction::ChangeServerLocation(location) => {
                    self.server_location = location;
                    Effect::Idle
                },
                Interaction::BrowseServerLocation => Effect::Send(Message::BrowseServerLocation),
                Interaction::DownloadServerJar(value) => {
                    self.download_server_jar = value;
                    Effect::Idle
                },
            },
            Message::SetMcVersions(result) => match result {
                Ok(versions) => {
                    self.minecraft_versions = versions;
                    if self.selected_minecraft_version.is_none() {
                        self.selected_minecraft_version = self.first_minecraft_version(false);
                    }
                    Effect::Idle
                },
                Err(error) => Effect::Send(Message::Error(Failure::Reported(error))),
            },
            Message::SetLoaderVersions(result) => match result {
                Ok(versions) => {
                    self.loader_versions = versions;
                    if self.selected_loader_version.is_none() {
                        self.selected_loader_version = self.first_loader_version(false);
                    }
                    Effect::Idle
                },
                Err(error) => Effect::Send(Message::Error(Failure::Reported(error))),
            },
            Message::BrowseClientLocation => Effect::ChooseClientLocation {
                probe: self.client_location.clone(),
                preferred: self.client_location.clone(),
            },
            Message::BrowseServerLocation => Effect::ChooseServerLocation {
                probe: self.client_location.clone(),
                preferred: self.server_location.clone(),
            },
            Message::ClientLocationChosen(result) => match result {
                Ok(Some(path)) => {
                    self.client_location = path;
                    Effect::Idle
                },
                Ok(None) => Effect::Idle,
                Err(error) => Effect::Send(Message::Error(Failure::Reported(error))),
            },
            Message::ServerLocationChosen(result) => match result {
                Ok(Some(path)) => {
                    self.server_location = path;
                    Effect::Idle
                },
                Ok(None) => Effect::Idle,
                Err(error) => Effect::Send(Message::Error(Failure::Reported(error))),
            },
            Message::Install => {
                self.is_installing = true;
                self.progress = PROGRESS_NONE;
                self.start_installation()
            },
            Message::DoneInstalling(result) => {
                self.is_installing = false;
                self.progress = PROGRESS_DONE;
                match result {
                    Ok(_) => Effect::Idle,
                    Err(error) => Effect::Send(Message::Error(Failure::Reported(error))),
                }
            },
            Message::Error(failure) => Effect::Report(failure),
        }
    }

    /// Whether the progress is within its range.
    pub open spec fn wf(&self) -> bool {
        self.progress <= PROGRESS_DONE
    }

    /// The installation that the window asks for when the user presses
    /// "Install": that of the selected kind, with the selected versions; or
    /// the report of the version that is not selected, Minecraft's first.
    pub open spec fn installation_effect(self) -> Effect {
        match (self.selected_minecraft_version, self.selected_loader_version) {
            (None, _) => Effect::Send(Message::Error(Failure::NoMinecraftVersion)),
            (Some(_), None) => Effect::Send(Message::Error(Failure::NoLoaderVersion)),
            (Some(minecraft_version), Some(loader_version)) => match self.installation_type {
                Installation::Client => Effect::InstallClient(
                    ClientInstallation {
                        minecraft_version,
                        loader_version,
                        install_location: self.client_location,
                        generate_profile: self.generate_profile,
                    },
                ),
                Installation::Server => Effect::InstallServer(
                    ServerInstallation {
                        minecraft_version,
                        loader_version,
                        install_location: self.server_location,
                        download_jar: self.download_server_jar,
                        generate_script: self.generate_launch_script,
                    },
                ),
            },
        }
    }

    /// The state after a message.
    pub open spec fn after(self, message: Message) -> State {
        match message {
            Message::Interaction(interaction) => match interaction {
                Interaction::ChangeClientLocation(location) => State {
                    client_location: location,
                    ..self
                },
                Interaction::SelectInstallation(kind) => State { installation_type: kind, ..self },
                Interaction::SelectLoaderVersion(version) => State {
                    selected_loader_version: Some(version),
                    ..self
                },
                Interaction::SelectMcVersion(version) => State {
                    selected_minecraft_version: Some(version),
                    ..self
                },
                Interaction::SetShowSnapshots(enable) => State {
                    show_snapshots: enable,
                    selected_minecraft_version: first_shown_entry(self.minecraft_versions@, enable),
                    ..self
                },
                Interaction::SetShowBetas(enable) => State {
                    show_betas: enable,
                    selected_loader_version: first_shown_entry(self.loader_versions@, enable),
                    ..self
                },
                Interaction::GenerateLaunchScript(value) => State {
                    generate_launch_script: value,
                    ..self
                },
                Interaction::GenerateProfile(value) => State { generate_profile: value, ..self },
                Interaction::ChangeServerLocation(location) => State {
                    server_location: location,
                    ..self
                },
                Interaction::DownloadServerJar(value) => State {
                    download_server_jar: value,
                    ..self
                },
                Interaction::BrowseClientLocation => self,
                Interaction::BrowseServerLocation => self,
                Interaction::Install => self,
            },
            Message::SetMcVersions(Ok(versions)) => State {
                minecraft_versions: versions,
                selected_minecraft_version: if self.selected_minecraft_version is None {
                    first_shown_entry(versions@, false)
                } else {
                    self.selected_minecraft_version
                },
                ..self
            },
            Message::SetLoaderVersions(Ok(versions)) => State {
                loader_versions: versions,
                selected_loader_version: if self.selected_loader_version is None {
                    first_shown_entry(versions@, false)
                } else {
                    self.selected_loader_version
                },
                ..self
            },
            Message::ClientLocationChosen(Ok(Some(path))) => State {
                client_location: path,
                ..self
            },
            Message::ServerLocationChosen(Ok(Some(path))) => State {
                server_location: path,
                ..self
            },
            Message::Install => State { is_installing: true, progress: PROGRESS_NONE, ..self },
            Message::DoneInstalling(_) => State {
                is_installing: false,
                progress: PROGRESS_DONE,
                ..self
            },
            _ => self,
        }
    }

    /// What is to be done after a message, the state being `self` when the
    /// message comes in. Both directory dialogs probe the client's
    /// directory; each prefers the directory it asks for.
    pub open spec fn effect_of(self, message: Message) -> Effect {
        match message {
            Message::Interaction(Interaction::BrowseClientLocation) => Effect::Send(
                Message::BrowseClientLocation,
            ),
            Message::Interaction(Interaction::BrowseServerLocation) => Effect::Send(
                Message::BrowseServerLocation,
            ),
            Message::Interaction(Interaction::Install) => Effect::Send(Message::Install),
            Message::Interaction(_) => Effect::Idle,
            Message::SetMcVersions(Err(error)) => Effect::Send(
                Message::Error(Failure::Reported(error)),
            ),
            Message::SetLoaderVersions(Err(error)) => Effect::Send(
                Message::Error(Failure::Reported(error)),
            ),
            Message::ClientLocationChosen(Err(error)) => Effect::Send(
                Message::Error(Failure::Reported(error)),
            ),
            Message::ServerLocationChosen(Err(error)) => Effect::Send(
                Message::Error(Failure::Reported(error)),
            ),
            Message::DoneInstalling(Err(error)) => Effect::Send(
                Message::Error(Failure::Reported(error)),
            ),
            Message::BrowseClientLocation => Effect::ChooseClientLocation {
                probe: self.client_location,
                preferred: self.client_location,
            },
            Message::BrowseServerLocation => Effect::ChooseServerLocation {
                probe: self.client_location,
                preferred: self.server_location,
            },
            Message::Install => self.installation_effect(),
            Message::Error(failure) => Effect::Report(failure),
            _ => Effect::Idle,
        }
    }
}

} // verus!
