//! The requests the resolver makes of the host, and the host's replies.

use vstd::prelude::*;
use crate::cleanup::{entry_models, ListedEntry, ListedEntryModel};
use crate::command::{Command, CommandModel, CommandSettings, CommandSettingsModel};
use crate::platform::{Architecture, Os};
use crate::release::{Release, ReleaseModel};
use crate::text::{opt_text, texts, unit_outcome};

verus! {

/// What the host shows of an installation in progress.
#[derive(Clone, Copy, Debug, PartialEq, Eq, Structural)]
pub enum InstallationStatus {
    CheckingForUpdate,
    Downloading,
}

/// What the resolver asks of the host next, or how the request ended.
#[derive(Debug, PartialEq, Eq)]
pub enum Action {
    /// Report the operating system and the architecture.
    CurrentPlatform,
    /// Read the settings of the language server of this name.
    LspSettings { server: String },
    /// Look the executable up on the search path.
    Which { name: String },
    /// Say whether a regular file lies at this path.
    IsFile { path: String },
    /// Show this status.
    ReportStatus(InstallationStatus),
    /// Fetch the latest release of this repository.
    LatestRelease { repo: String, require_assets: bool, pre_release: bool },
    /// Create this directory and its parents; it may exist already.
    CreateDirAll { path: String },
    /// Download the zip archive at `url` and unpack it at `path`.
    DownloadZip { url: String, path: String },
    /// Mark this file executable.
    MakeExecutable { path: String },
    /// List the children of this directory. A failure does not matter.
    ListDir { path: String },
    /// Remove these directories with all they hold; failures do not matter.
    RemoveDirs { paths: Vec<String> },
    /// The request succeeded: spawn this command.
    Launch(Command),
    /// The request failed, for this reason.
    Fail(String),
}

pub enum ActionModel {
    CurrentPlatform,
    LspSettings { server: Seq<char> },
    Which { name: Seq<char> },
    IsFile { path: Seq<char> },
    ReportStatus(InstallationStatus),
    LatestRelease { repo: Seq<char>, require_assets: bool, pre_release: bool },
    CreateDirAll { path: Seq<char> },
    DownloadZip { url: Seq<char>, path: Seq<char> },
    MakeExecutable { path: Seq<char> },
    ListDir { path: Seq<char> },
    RemoveDirs { paths: Seq<Seq<char>> },
    Launch(CommandModel),
    Fail(Seq<char>),
}

impl View for Action {
    type V = ActionModel;

    open spec fn view(&self) -> ActionModel {
        match self {
            Action::CurrentPlatform => ActionModel::CurrentPlatform,
            Action::LspSettings { server } => ActionModel::LspSettings { server: server@ },
            Action::Which { name } => ActionModel::Which { name: name@ },
            Action::IsFile { path } => ActionModel::IsFile { path: path@ },
            Action::ReportStatus(status) => ActionModel::ReportStatus(*status),
            Action::LatestRelease { repo, require_assets, pre_release } => {
                ActionModel::LatestRelease {
                    repo: repo@,
                    require_assets: *require_assets,
                    pre_release: *pre_release,
                }
            },
            Action::CreateDirAll { path } => ActionModel::CreateDirAll { path: path@ },
            Action::DownloadZip { url, path } => ActionModel::DownloadZip {
                url: url@,
                path: path@,
            },
            Action::MakeExecutable { path } => ActionModel::MakeExecutable { path: path@ },
            Action::ListDir { path } => ActionModel::ListDir { path: path@ },
            Action::RemoveDirs { paths } => ActionModel::RemoveDirs { paths: texts(paths@) },
            Action::Launch(command) => ActionModel::Launch(command@),
            Action::Fail(reason) => ActionModel::Fail(reason@),
        }
    }
}

impl ActionModel {
    /// Whether the action reaches out to the network.
    pub open spec fn is_network(self) -> bool {
        self is LatestRelease || self is DownloadZip
    }

    /// Whether the action reads or changes the file system.
    pub open spec fn is_filesystem(self) -> bool {
        self is IsFile || self is CreateDirAll || self is DownloadZip || self is MakeExecutable
            || self is ListDir || self is RemoveDirs
    }
}

/// The host's reply to an action.
#[derive(Debug, PartialEq, Eq)]
pub enum Event {
    /// To `CurrentPlatform`.
    Platform(Os, Architecture),
    /// To `LspSettings`: the binary's settings if the user made any, or why
    /// the settings could not be read.
    Settings(Result<Option<CommandSettings>, String>),
    /// To `Which`: where the executable lies, if it is on the search path.
    Which(Option<String>),
    /// To `IsFile`.
    IsFile(bool),
    /// To `ReportStatus` and `RemoveDirs`, which have nothing to report.
    Done,
    /// To `LatestRelease`.
    Release(Result<Release, String>),
    /// To `CreateDirAll`, `DownloadZip` and `MakeExecutable`.
    Completed(Result<(), String>),
    /// To `ListDir`: the entries, or nothing where the directory could not be
    /// listed.
    Listing(Option<Vec<ListedEntry>>),
}

pub enum EventModel {
    Platform(Os, Architecture),
    Settings(Result<Option<CommandSettingsModel>, Seq<char>>),
    Which(Option<Seq<char>>),
    IsFile(bool),
    Done,
    Release(Result<ReleaseModel, Seq<char>>),
    Completed(Result<(), Seq<char>>),
    Listing(Option<Seq<ListedEntryModel>>),
}

impl View for Event {
    type V = EventModel;

    open spec fn view(&self) -> EventModel {
        match self {
            Event::Platform(os, arch) => EventModel::Platform(*os, *arch),
            Event::Settings(Ok(Some(settings))) => EventModel::Settings(Ok(Some(settings@))),
            Event::Settings(Ok(None)) => EventModel::Settings(Ok(None)),
            Event::Settings(Err(error)) => EventModel::Settings(Err(error@)),
            Event::Which(found) => EventModel::Which(opt_text(*found)),
            Event::IsFile(answer) => EventModel::IsFile(*answer),
            Event::Done => EventModel::Done,
            Event::Release(Ok(release)) => EventModel::Release(Ok(release@)),
            Event::Release(Err(error)) => EventModel::Release(Err(error@)),
            Event::Completed(outcome) => EventModel::Completed(unit_outcome(*outcome)),
            Event::Listing(Some(entries)) => EventModel::Listing(Some(entry_models(entries@))),
            Event::Listing(None) => EventModel::Listing(None),
        }
    }
}

} // verus!
