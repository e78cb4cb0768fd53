//! The resolver: a state machine that settles on a language server binary.
//!
//! It prefers the path the user configured, then a copy on the search path,
//! then the copy it fetched earlier, and fetches a fresh one only when all
//! three fail. It performs nothing itself: each step hands the host one
//! [`Action`] and takes the host's [`Event`] in reply.

use vstd::prelude::*;
use crate::cleanup::{plan_cleanup, stale_paths, ListedEntry};
use crate::command::{launch_command, Command, CommandSettings, PackageSwiftBinary};
use crate::platform::{check_platform, is_supported, unsupported_message, Architecture, Os};
use crate::protocol::{Action, ActionModel, Event, EventModel, InstallationStatus};
use crate::release::{
    asset_name, asset_name_text, binary_path, binary_path_text, find_asset, first_named,
    version_dir_name, version_dir_text, Release,
};
use crate::text::{clone_texts, debug_quote, debug_quoted, joined, opt_text, opt_texts};

verus! {

/// The repository that publishes the language server.
pub const PACKAGE_SWIFT_LSP_GITHUB_REPO: &'static str = "kattouf/package-swift-lsp";

/// The name of the language server's executable.
pub const EXECUTABLE_NAME: &'static str = "package-swift-lsp";

/// The name under which the user's settings hold the language server.
pub const LANGUAGE_SERVER_NAME: &'static str = "package-swift-lsp";

/// The directory in which versions are installed.
pub const WORKING_DIRECTORY: &'static str = ".";

/// Which reply the resolver waits for.
#[derive(Clone, Copy, Debug, PartialEq, Eq, Structural)]
pub enum Phase {
    /// No request is under way.
    Idle,
    /// The platform, to judge whether it is supported.
    Platform,
    /// The user's settings.
    Settings,
    /// The lookup on the search path.
    PathLookup,
    /// Whether the remembered binary is still there.
    CacheProbe,
    /// The host has been told that an update is looked for.
    CheckingNotice,
    /// The latest release.
    Release,
    /// The version directory's creation.
    VersionDir,
    /// Whether the version directory holds the binary already.
    BinaryProbe,
    /// The host has been told that a download begins.
    DownloadNotice,
    /// The download.
    Download,
    /// The binary's being marked executable.
    Permission,
    /// The working directory's listing.
    Listing,
    /// The removal of stale versions.
    Cleanup,
}

/// The resolver's state: the binary it remembers, and the request under way.
#[derive(Debug, PartialEq, Eq)]
pub struct PackageSwiftLSPExtension {
    /// The binary fetched last, if any was since this value was made.
    pub cached_binary_path: Option<String>,
    pub phase: Phase,
    pub os: Os,
    pub arch: Architecture,
    /// The arguments from the settings, once these are read.
    pub args: Option<Vec<String>>,
    /// The directory of the version being installed.
    pub version_dir: String,
    /// Where that version's archive is downloaded from.
    pub download_url: String,
}

pub struct ExtensionModel {
    pub cached_binary_path: Option<Seq<char>>,
    pub phase: Phase,
    pub os: Os,
    pub arch: Architecture,
    pub args: Option<Seq<Seq<char>>>,
    pub version_dir: Seq<char>,
    pub download_url: Seq<char>,
}

impl View for PackageSwiftLSPExtension {
    type V = ExtensionModel;

    open spec fn view(&self) -> ExtensionModel {
        ExtensionModel {
            cached_binary_path: opt_text(self.cached_binary_path),
            phase: self.phase,
            os: self.os,
            arch: self.arch,
            args: opt_texts(self.args),
            version_dir: self.version_dir@,
            download_url: self.download_url@,
        }
    }
}

/// The error for a release that lacks the wanted asset, from the asset's
/// name in quotes.
pub open spec fn missing_asset_text(quoted_name: Seq<char>) -> Seq<char> {
    "no asset found matching "@ + quoted_name
}

/// The error for a version directory that could not be created.
pub open spec fn create_dir_text(dir: Seq<char>, error: Seq<char>) -> Seq<char> {
    "failed to create directory '"@ + dir + "': "@ + error
}

/// The error for a download that failed.
pub open spec fn download_text(error: Seq<char>) -> Seq<char> {
    "failed to download file: "@ + error
}

/// The error for a reply that does not answer the pending action.
pub open spec fn unexpected_reply_text() -> Seq<char> {
    "the host's reply does not answer the pending request"@
}

impl ExtensionModel {
    /// Where the binary of the version being installed lies.
    pub open spec fn binary_path(self) -> Seq<char> {
        binary_path_text(self.version_dir, EXECUTABLE_NAME@)
    }

    /// The request ends in failure.
    pub open spec fn fail(self, reason: Seq<char>) -> (ExtensionModel, ActionModel) {
        (ExtensionModel { phase: Phase::Idle, ..self }, ActionModel::Fail(reason))
    }

    /// The request ends with a binary that was there already.
    pub open spec fn settle(self, path: Seq<char>) -> (ExtensionModel, ActionModel) {
        (
            ExtensionModel { phase: Phase::Idle, ..self },
            ActionModel::Launch(launch_command(path, self.args)),
        )
    }

    /// The request ends with the binary of the version directory, which is
    /// remembered from now on.
    pub open spec fn settle_installed(self) -> (ExtensionModel, ActionModel) {
        (
            ExtensionModel {
                phase: Phase::Idle,
                cached_binary_path: Some(self.binary_path()),
                ..self
            },
            ActionModel::Launch(launch_command(self.binary_path(), self.args)),
        )
    }

    /// The fresh fetch begins, by telling the host so.
    pub open spec fn fetch(self) -> (ExtensionModel, ActionModel) {
        (
            ExtensionModel { phase: Phase::CheckingNotice, ..self },
            ActionModel::ReportStatus(InstallationStatus::CheckingForUpdate),
        )
    }

    /// The state of a resolver just made: nothing remembered, nothing under
    /// way.
    pub open spec fn fresh() -> ExtensionModel {
        ExtensionModel {
            cached_binary_path: None,
            phase: Phase::Idle,
            os: Os::Mac,
            arch: Architecture::Aarch64,
            args: None,
            version_dir: Seq::empty(),
            download_url: Seq::empty(),
        }
    }

    /// A launch request begins: the remembered binary is kept, whatever was
    /// under way is dropped, and the platform is asked for.
    pub open spec fn begin(self) -> (ExtensionModel, ActionModel) {
        (
            ExtensionModel {
                cached_binary_path: self.cached_binary_path,
                phase: Phase::Platform,
                ..Self::fresh()
            },
            ActionModel::CurrentPlatform,
        )
    }

    /// The resolution proper begins, for a platform that is known: the
    /// remembered binary is kept, whatever was under way is dropped, and the
    /// settings are asked for.
    pub open spec fn resolve_for(self, os: Os, arch: Architecture) -> (
        ExtensionModel,
        ActionModel,
    ) {
        (
            ExtensionModel {
                cached_binary_path: self.cached_binary_path,
                phase: Phase::Settings,
                os,
                arch,
                ..Self::fresh()
            },
            ActionModel::LspSettings { server: LANGUAGE_SERVER_NAME@ },
        )
    }

    /// One step: the state and action that follow on a reply.
    pub open spec fn step(self, event: EventModel) -> (ExtensionModel, ActionModel) {
        match (self.phase, event) {
            (Phase::Platform, EventModel::Platform(os, arch)) => {
                if is_supported(os, arch) {
                    self.resolve_for(os, arch)
                } else {
                    self.fail(unsupported_message(os, arch))
                }
            },
            (Phase::Settings, EventModel::Settings(Err(error))) => self.fail(error),
            (Phase::Settings, EventModel::Settings(Ok(None))) => (
                ExtensionModel { phase: Phase::PathLookup, args: None, ..self },
                ActionModel::Which { name: EXECUTABLE_NAME@ },
            ),
            (Phase::Settings, EventModel::Settings(Ok(Some(settings)))) => {
                let read = ExtensionModel { args: settings.arguments, ..self };
                match settings.path {
                    Some(path) => read.settle(path),
                    None => (
                        ExtensionModel { phase: Phase::PathLookup, ..read },
                        ActionModel::Which { name: EXECUTABLE_NAME@ },
                    ),
                }
            },
            (Phase::PathLookup, EventModel::Which(Some(path))) => self.settle(path),
            (Phase::PathLookup, EventModel::Which(None)) => match self.cached_binary_path {
                Some(path) => (
                    ExtensionModel { phase: Phase::CacheProbe, ..self },
                    ActionModel::IsFile { path },
                ),
                None => self.fetch(),
            },
            (Phase::CacheProbe, EventModel::IsFile(present)) => match self.cached_binary_path {
                Some(path) => if present {
                    self.settle(path)
                } else {
                    self.fetch()
                },
                None => self.fetch(),
            },
            (Phase::CheckingNotice, EventModel::Done) => (
                ExtensionModel { phase: Phase::Release, ..self },
                ActionModel::LatestRelease {
                    repo: PACKAGE_SWIFT_LSP_GITHUB_REPO@,
                    require_assets: true,
                    pre_release: false,
                },
            ),
            (Phase::Release, EventModel::Release(Err(error))) => self.fail(error),
            (Phase::Release, EventModel::Release(Ok(release))) => {
                let name = asset_name_text(EXECUTABLE_NAME@, release.version, self.arch, self.os);
                match first_named(release.assets, name) {
                    None => self.fail(missing_asset_text(debug_quoted(name))),
                    Some(asset) => {
                        let version_dir = version_dir_text(EXECUTABLE_NAME@, release.version);
                        (
                            ExtensionModel {
                                phase: Phase::VersionDir,
                                version_dir,
                                download_url: asset.download_url,
                                ..self
                            },
                            ActionModel::CreateDirAll { path: version_dir },
                        )
                    },
                }
            },
            (Phase::VersionDir, EventModel::Completed(Err(error))) => self.fail(
                create_dir_text(self.version_dir, error),
            ),
            (Phase::VersionDir, EventModel::Completed(Ok(_))) => (
                ExtensionModel { phase: Phase::BinaryProbe, ..self },
                ActionModel::IsFile { path: self.binary_path() },
            ),
            (Phase::BinaryProbe, EventModel::IsFile(present)) => if present {
                self.settle_installed()
            } else {
                (
                    ExtensionModel { phase: Phase::DownloadNotice, ..self },
                    ActionModel::ReportStatus(InstallationStatus::Downloading),
                )
            },
            (Phase::DownloadNotice, EventModel::Done) => (
                ExtensionModel { phase: Phase::Download, ..self },
                ActionModel::DownloadZip { url: self.download_url, path: self.version_dir },
            ),
            (Phase::Download, EventModel::Completed(Err(error))) => self.fail(
                download_text(error),
            ),
            (Phase::Download, EventModel::Completed(Ok(_))) => (
                ExtensionModel { phase: Phase::Permission, ..self },
                ActionModel::MakeExecutable { path: self.binary_path() },
            ),
            (Phase::Permission, EventModel::Completed(Err(error))) => self.fail(error),
            (Phase::Permission, EventModel::Completed(Ok(_))) => (
                ExtensionModel { phase: Phase::Listing, ..self },
                ActionModel::ListDir { path: WORKING_DIRECTORY@ },
            ),
            (Phase::Listing, EventModel::Listing(None)) => self.settle_installed(),
            (Phase::Listing, EventModel::Listing(Some(entries))) => (
                ExtensionModel { phase: Phase::Cleanup, ..self },
                ActionModel::RemoveDirs {
                    paths: stale_paths(entries, EXECUTABLE_NAME@, self.version_dir),
                },
            ),
            (Phase::Cleanup, EventModel::Done) => self.settle_installed(),
            _ => self.fail(unexpected_reply_text()),
        }
    }
}

/// The error for a release that lacks the wanted asset, from the asset's
/// name as `Debug` prints it.
pub fn missing_asset_message(quoted_name: &str) -> (message: String)
    ensures
        message@ == missing_asset_text(quoted_name@),
{
    joined("no asset found matching ", quoted_name)
}

/// The error for a version directory that could not be created.
pub fn create_dir_message(dir: &str, error: &str) -> (message: String)
    ensures
        message@ == create_dir_text(dir@, error@),
{
    let mut message = joined("failed to create directory '", dir);
    message.append("': ");
    message.append(error);
    message
}

/// The error for a download that failed.
pub fn download_message(error: &str) -> (message: String)
    ensures
        message@ == download_text(error@),
{
    joined("failed to download file: ", error)
}

impl PackageSwiftLSPExtension {
    /// A resolver that remembers no binary and has no request under way.
    pub fn new() -> (fresh: Self)
        ensures
            fresh@ == ExtensionModel::fresh(),
    {
        PackageSwiftLSPExtension {
            cached_binary_path: None,
            phase: Phase::Idle,
            os: Os::Mac,
            arch: Architecture::Aarch64,
            args: None,
            version_dir: String::new(),
            download_url: String::new(),
        }
    }

    /// Begins a launch request. Whatever was under way is dropped; the
    /// remembered binary is kept. The first thing asked is the platform, and
    /// on one that is not supported the request ends there.
    pub fn language_server_command(self) -> (out: (Self, Action))
        ensures
            out.0@ == self@.begin().0,
            out.1@ == self@.begin().1,
    {
        let mut next = Self::new();
        next.cached_binary_path = self.cached_binary_path;
        next.phase = Phase::Platform;
        (next, Action::CurrentPlatform)
    }

    /// Begins the resolution proper, for a platform that is known already
    /// and is not judged here. Whatever was under way is dropped; the
    /// remembered binary is kept. The first thing asked is the settings.
    pub fn language_server_binary(self, os: Os, arch: Architecture) -> (out: (Self, Action))
        ensures
            out.0@ == self@.resolve_for(os, arch).0,
            out.1@ == self@.resolve_for(os, arch).1,
    {
        let mut next = Self::new();
        next.cached_binary_path = self.cached_binary_path;
        next.phase = Phase::Settings;
        next.os = os;
        next.arch = arch;
        (next, Action::LspSettings { server: String::from_str(LANGUAGE_SERVER_NAME) })
    }

    fn binary_path(&self) -> (path: String)
        ensures
            path@ == self@.binary_path(),
    {
        binary_path(self.version_dir.as_str(), EXECUTABLE_NAME)
    }

    fn launch(&self, path: String) -> (command: Command)
        ensures
            command@ == launch_command(path@, self@.args),
    {
        let args = match &self.args {
            Some(list) => Some(clone_texts(list)),
            None => None,
        };
        PackageSwiftBinary { path, args }.into_command()
    }

    fn fail(self, reason: String) -> (out: (Self, Action))
        ensures
            out.0@ == self@.fail(reason@).0,
            out.1@ == self@.fail(reason@).1,
    {
        let mut next = self;
        next.phase = Phase::Idle;
        (next, Action::Fail(reason))
    }

    fn settle(self, path: String) -> (out: (Self, Action))
        ensures
            out.0@ == self@.settle(path@).0,
            out.1@ == self@.settle(path@).1,
    {
        let command = self.launch(path);
        let mut next = self;
        next.phase = Phase::Idle;
        (next, Action::Launch(command))
    }

    fn settle_installed(self) -> (out: (Self, Action))
        ensures
            out.0@ == self@.settle_installed().0,
            out.1@ == self@.settle_installed().1,
    {
        let path = self.binary_path();
        let command = self.launch(path.clone());
        let mut next = self;
        next.phase = Phase::Idle;
        next.cached_binary_path = Some(path);
        (next, Action::Launch(command))
    }

    fn fetch(self) -> (out: (Self, Action))
        ensures
            out.0@ == self@.fetch().0,
            out.1@ == self@.fetch().1,
    {
        let mut next = self;
        next.phase = Phase::CheckingNotice;
        (next, Action::ReportStatus(InstallationStatus::CheckingForUpdate))
    }

    fn ask(self, phase: Phase, action: Action) -> (out: (Self, Action))
        ensures
            out.0@ == (ExtensionModel { phase, ..self@ }),
            out.1 == action,
    {
        let mut next = self;
        next.phase = phase;
        (next, action)
    }

    fn on_platform(self, os: Os, arch: Architecture) -> (out: (Self, Action))
        requires
            self.phase == Phase::Platform,
        ensures
            out.0@ == self@.step(Event::Platform(os, arch)@).0,
            out.1@ == self@.step(Event::Platform(os, arch)@).1,
    {
        match check_platform(os, arch) {
            Ok(_) => self.language_server_binary(os, arch),
            Err(reason) => self.fail(reason),
        }
    }

    fn on_settings(self, settings: Option<CommandSettings>) -> (out: (Self, Action))
        requires
            self.phase == Phase::Settings,
        ensures
            out.0@ == self@.step(Event::Settings(Ok(settings))@).0,
            out.1@ == self@.step(Event::Settings(Ok(settings))@).1,
    {
        let mut next = self;
        let which = Action::Which { name: String::from_str(EXECUTABLE_NAME) };
        match settings {
            None => {
                next.args = None;
                next.ask(Phase::PathLookup, which)
            },
            Some(settings) => {
                next.args = settings.arguments;
                match settings.path {
                    Some(path) => next.settle(path),
                    None => next.ask(Phase::PathLookup, which),
                }
            },
        }
    }

    fn on_path_lookup(self, found: Option<String>) -> (out: (Self, Action))
        requires
            self.phase == Phase::PathLookup,
        ensures
            out.0@ == self@.step(Event::Which(found)@).0,
            out.1@ == self@.step(Event::Which(found)@).1,
    {
        match found {
            Some(path) => self.settle(path),
            None => {
                let probe = match &self.cached_binary_path {
                    Some(path) => Some(path.clone()),
                    None => None,
                };
                match probe {
                    Some(path) => self.ask(Phase::CacheProbe, Action::IsFile { path }),
                    None => self.fetch(),
                }
            },
        }
    }

    fn on_cache_probe(self, present: bool) -> (out: (Self, Action))
        requires
            self.phase == Phase::CacheProbe,
        ensures
            out.0@ == self@.step(Event::IsFile(present)@).0,
            out.1@ == self@.step(Event::IsFile(present)@).1,
    {
        let cached = match &self.cached_binary_path {
            Some(path) => Some(path.clone()),
            None => None,
        };
        match cached {
            Some(path) => if present {
                self.settle(path)
            } else {
                self.fetch()
            },
            None => self.fetch(),
        }
    }

    fn on_release(self, release: Release) -> (out: (Self, Action))
        requires
            self.phase == Phase::Release,
        ensures
            out.0@ == self@.step(Event::Release(Ok(release))@).0,
            out.1@ == self@.step(Event::Release(Ok(release))@).1,
    {
        let name = asset_name(EXECUTABLE_NAME, release.version.as_str(), self.arch, self.os);
        match find_asset(&release.assets, &name) {
            None => {
                let quoted = debug_quote(name.as_str());
                self.fail(missing_asset_message(quoted.as_str()))
            },
            Some(asset) => {
                let version_dir = version_dir_name(EXECUTABLE_NAME, release.version.as_str());
                let mut next = self;
                next.download_url = asset.download_url.clone();
                next.version_dir = version_dir.clone();
                next.ask(Phase::VersionDir, Action::CreateDirAll { path: version_dir })
            },
        }
    }

    fn on_listing(self, entries: Vec<ListedEntry>) -> (out: (Self, Action))
        requires
            self.phase == Phase::Listing,
        ensures
            out.0@ == self@.step(Event::Listing(Some(entries))@).0,
            out.1@ == self@.step(Event::Listing(Some(entries))@).1,
    {
        let paths = plan_cleanup(&entries, EXECUTABLE_NAME, &self.version_dir);
        self.ask(Phase::Cleanup, Action::RemoveDirs { paths })
    }

    /// Takes the host's reply to the action handed out last, and hands out the
    /// next one. `Launch` and `Fail` end the request; a reply that does not
    /// answer the pending action ends it in failure.
    pub fn advance(self, event: Event) -> (out: (Self, Action))
        ensures
            out.0@ == self@.step(event@).0,
            out.1@ == self@.step(event@).1,
    {
        match (self.phase, event) {
            (Phase::Platform, Event::Platform(os, arch)) => self.on_platform(os, arch),
            (Phase::Settings, Event::Settings(Err(error))) => self.fail(error),
            (Phase::Settings, Event::Settings(Ok(settings))) => self.on_settings(settings),
            (Phase::PathLookup, Event::Which(found)) => self.on_path_lookup(found),
            (Phase::CacheProbe, Event::IsFile(present)) => self.on_cache_probe(present),
            (Phase::CheckingNotice, Event::Done) => self.ask(
                Phase::Release,
                Action::LatestRelease {
                    repo: String::from_str(PACKAGE_SWIFT_LSP_GITHUB_REPO),
                    require_assets: true,
                    pre_release: false,
                },
            ),
            (Phase::Release, Event::Release(Err(error))) => self.fail(error),
            (Phase::Release, Event::Release(Ok(release))) => self.on_release(release),
            (Phase::VersionDir, Event::Completed(Err(error))) => {
                let reason = create_dir_message(self.version_dir.as_str(), error.as_str());
                self.fail(reason)
            },
            (Phase::VersionDir, Event::Completed(Ok(_))) => {
                let path = self.binary_path();
                self.ask(Phase::BinaryProbe, Action::IsFile { path })
            },
            (Phase::BinaryProbe, Event::IsFile(present)) => if present {
                self.settle_installed()
            } else {
                self.ask(
                    Phase::DownloadNotice,
                    Action::ReportStatus(InstallationStatus::Downloading),
                )
            },
            (Phase::DownloadNotice, Event::Done) => {
                let url = self.download_url.clone();
                let path = self.version_dir.clone();
                self.ask(Phase::Download, Action::DownloadZip { url, path })
            },
            (Phase::Download, Event::Completed(Err(error))) => self.fail(
                download_message(error.as_str()),
            ),
            (Phase::Download, Event::Completed(Ok(_))) => {
                let path = self.binary_path();
                self.ask(Phase::Permission, Action::MakeExecutable { path })
            },
            (Phase::Permission, Event::Completed(Err(error))) => self.fail(error),
            (Phase::Permission, Event::Completed(Ok(_))) => self.ask(
                Phase::Listing,
                Action::ListDir { path: String::from_str(WORKING_DIRECTORY) },
            ),
            (Phase::Listing, Event::Listing(None)) => self.settle_installed(),
            (Phase::Listing, Event::Listing(Some(entries))) => self.on_listing(entries),
            (Phase::Cleanup, Event::Done) => self.settle_installed(),
            _ => self.fail(String::from_str("the host's reply does not answer the pending request")),
        }
    }
}

} // verus!
