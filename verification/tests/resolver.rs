use package_swift_lsp::cleanup::ListedEntry;
use package_swift_lsp::command::{Command, CommandSettings};
use package_swift_lsp::platform::{Architecture, Os};
use package_swift_lsp::protocol::{Action, Event, InstallationStatus};
use package_swift_lsp::release::{Release, ReleaseAsset};
use package_swift_lsp::resolver::{
    PackageSwiftLSPExtension, Phase, EXECUTABLE_NAME, PACKAGE_SWIFT_LSP_GITHUB_REPO,
};

fn text(s: &str) -> String {
    s.to_string()
}

fn launch(path: &str, args: Vec<String>) -> Action {
    Action::Launch(Command { command: text(path), args, env: vec![] })
}

fn release(version: &str) -> Release {
    Release {
        version: text(version),
        assets: vec![
            ReleaseAsset {
                name: format!("package-swift-lsp-{version}-x86_64-apple-macosx.zip"),
                download_url: format!("https://example.test/{version}/intel.zip"),
            },
            ReleaseAsset {
                name: format!("package-swift-lsp-{version}-arm64-apple-macosx.zip"),
                download_url: format!("https://example.test/{version}/arm.zip"),
            },
        ],
    }
}

/// Feeds the replies in turn and returns the state with every action handed
/// out, the first being that of the request itself.
fn drive(ext: PackageSwiftLSPExtension, events: Vec<Event>) -> (PackageSwiftLSPExtension, Vec<Action>) {
    let (mut ext, first) = ext.language_server_command();
    let mut actions = vec![first];
    for event in events {
        let (next, action) = ext.advance(event);
        ext = next;
        actions.push(action);
    }
    (ext, actions)
}

fn remembering(path: &str) -> PackageSwiftLSPExtension {
    let mut ext = PackageSwiftLSPExtension::new();
    ext.cached_binary_path = Some(text(path));
    ext
}

fn to_fetch() -> Vec<Event> {
    vec![
        Event::Platform(Os::Mac, Architecture::Aarch64),
        Event::Settings(Ok(Some(CommandSettings {
            path: None,
            arguments: Some(vec![text("--stdio")]),
        }))),
        Event::Which(None),
        Event::Done,
    ]
}

fn asked_to_fetch() -> Vec<Action> {
    vec![
        Action::CurrentPlatform,
        Action::LspSettings { server: text("package-swift-lsp") },
        Action::Which { name: text("package-swift-lsp") },
        Action::ReportStatus(InstallationStatus::CheckingForUpdate),
        Action::LatestRelease {
            repo: text("kattouf/package-swift-lsp"),
            require_assets: true,
            pre_release: false,
        },
    ]
}

#[test]
fn names_are_fixed() {
    assert_eq!(EXECUTABLE_NAME, "package-swift-lsp");
    assert_eq!(PACKAGE_SWIFT_LSP_GITHUB_REPO, "kattouf/package-swift-lsp");
}

#[test]
fn new_resolver_is_idle_and_remembers_nothing() {
    let ext = PackageSwiftLSPExtension::new();
    assert_eq!(ext.cached_binary_path, None);
    assert_eq!(ext.phase, Phase::Idle);
}

#[test]
fn a_request_begins_with_the_platform() {
    let (ext, action) = remembering("kept").language_server_command();
    assert_eq!(action, Action::CurrentPlatform);
    assert_eq!(ext.phase, Phase::Platform);
    assert_eq!(ext.cached_binary_path, Some(text("kept")));
}

#[test]
fn configured_path_is_returned_verbatim() {
    let (ext, actions) = drive(
        remembering("/cache/lsp"),
        vec![
            Event::Platform(Os::Mac, Architecture::X8664),
            Event::Settings(Ok(Some(CommandSettings {
                path: Some(text("/does/not exist/ lsp ")),
                arguments: Some(vec![text("-v"), text("--log")]),
            }))),
        ],
    );
    assert_eq!(
        actions,
        vec![
            Action::CurrentPlatform,
            Action::LspSettings { server: text("package-swift-lsp") },
            launch("/does/not exist/ lsp ", vec![text("-v"), text("--log")]),
        ]
    );
    assert_eq!(ext.phase, Phase::Idle);
    assert_eq!(ext.cached_binary_path, Some(text("/cache/lsp")));
}

#[test]
fn configured_path_without_arguments() {
    let (_, actions) = drive(
        PackageSwiftLSPExtension::new(),
        vec![
            Event::Platform(Os::Mac, Architecture::Aarch64),
            Event::Settings(Ok(Some(CommandSettings { path: Some(text("")), arguments: None }))),
        ],
    );
    assert_eq!(actions[2], launch("", vec![]));
}

#[test]
fn unreadable_settings_fail_the_request() {
    let (ext, actions) = drive(
        PackageSwiftLSPExtension::new(),
        vec![
            Event::Platform(Os::Mac, Architecture::Aarch64),
            Event::Settings(Err(text("invalid type: integer `3`, expected a string"))),
        ],
    );
    assert_eq!(actions[2], Action::Fail(text("invalid type: integer `3`, expected a string")));
    assert_eq!(ext.phase, Phase::Idle);
}

#[test]
fn search_path_is_used_without_fetching() {
    let (ext, actions) = drive(
        PackageSwiftLSPExtension::new(),
        vec![
            Event::Platform(Os::Mac, Architecture::Aarch64),
            Event::Settings(Ok(Some(CommandSettings {
                path: None,
                arguments: Some(vec![text("--stdio")]),
            }))),
            Event::Which(Some(text("/usr/local/bin/package-swift-lsp"))),
        ],
    );
    assert_eq!(
        actions,
        vec![
            Action::CurrentPlatform,
            Action::LspSettings { server: text("package-swift-lsp") },
            Action::Which { name: text("package-swift-lsp") },
            launch("/usr/local/bin/package-swift-lsp", vec![text("--stdio")]),
        ]
    );
    assert_eq!(ext.cached_binary_path, None);
}

#[test]
fn search_path_is_used_when_there_are_no_settings() {
    let (_, actions) = drive(
        PackageSwiftLSPExtension::new(),
        vec![
            Event::Platform(Os::Mac, Architecture::Aarch64),
            Event::Settings(Ok(None)),
            Event::Which(Some(text("/opt/lsp"))),
        ],
    );
    assert_eq!(actions[3], launch("/opt/lsp", vec![]));
}

#[test]
fn remembered_binary_is_reused_when_still_there() {
    let (ext, actions) = drive(
        remembering("package-swift-lsp-1.0.0/package-swift-lsp"),
        vec![
            Event::Platform(Os::Mac, Architecture::Aarch64),
            Event::Settings(Ok(None)),
            Event::Which(None),
            Event::IsFile(true),
        ],
    );
    assert_eq!(
        actions[3..],
        [
            Action::IsFile { path: text("package-swift-lsp-1.0.0/package-swift-lsp") },
            launch("package-swift-lsp-1.0.0/package-swift-lsp", vec![]),
        ]
    );
    assert_eq!(ext.cached_binary_path, Some(text("package-swift-lsp-1.0.0/package-swift-lsp")));
}

#[test]
fn remembered_binary_that_vanished_leads_to_a_fetch() {
    let (ext, actions) = drive(
        remembering("package-swift-lsp-1.0.0/package-swift-lsp"),
        vec![
            Event::Platform(Os::Mac, Architecture::Aarch64),
            Event::Settings(Ok(None)),
            Event::Which(None),
            Event::IsFile(false),
            Event::Done,
        ],
    );
    assert_eq!(
        actions[3..],
        [
            Action::IsFile { path: text("package-swift-lsp-1.0.0/package-swift-lsp") },
            Action::ReportStatus(InstallationStatus::CheckingForUpdate),
            Action::LatestRelease {
                repo: text("kattouf/package-swift-lsp"),
                require_assets: true,
                pre_release: false,
            },
        ]
    );
    assert_eq!(ext.phase, Phase::Release);
}

#[test]
fn unsupported_system_fails_at_once() {
    let (ext, actions) = drive(
        PackageSwiftLSPExtension::new(),
        vec![Event::Platform(Os::Linux, Architecture::X8664)],
    );
    assert_eq!(
        actions,
        vec![
            Action::CurrentPlatform,
            Action::Fail(text(
                "Package.swift LSP is currently only supported on macOS, not on Os::Linux"
            )),
        ]
    );
    assert_eq!(ext.phase, Phase::Idle);
}

#[test]
fn unsupported_architecture_fails_at_once() {
    let (_, actions) = drive(
        PackageSwiftLSPExtension::new(),
        vec![Event::Platform(Os::Mac, Architecture::X86)],
    );
    assert_eq!(
        actions[1],
        Action::Fail(text(
            "Package.swift LSP is currently only supported on x86_64 and arm64 architectures, not on Architecture::X86"
        ))
    );
}

#[test]
fn unsupported_system_and_architecture_are_both_named() {
    let (ext, actions) = drive(
        PackageSwiftLSPExtension::new(),
        vec![Event::Platform(Os::Linux, Architecture::X86)],
    );
    assert_eq!(
        actions,
        vec![
            Action::CurrentPlatform,
            Action::Fail(text(
                "Package.swift LSP is currently only supported on macOS, not on Os::Linux; Package.swift LSP is currently only supported on x86_64 and arm64 architectures, not on Architecture::X86"
            )),
        ]
    );
    assert_eq!(ext.phase, Phase::Idle);
}

#[test]
fn nothing_follows_a_refusal() {
    let (ext, actions) = drive(
        PackageSwiftLSPExtension::new(),
        vec![
            Event::Platform(Os::Windows, Architecture::Aarch64),
            Event::Settings(Ok(None)),
            Event::Which(None),
            Event::Done,
            Event::Release(Ok(release("1.0.0"))),
        ],
    );
    for action in &actions[1..] {
        assert!(matches!(action, Action::Fail(_)));
    }
    assert_eq!(ext.phase, Phase::Idle);
}

#[test]
fn fresh_install_downloads_cleans_up_and_remembers() {
    let mut events = to_fetch();
    events.extend(vec![
        Event::Release(Ok(release("2.0.0"))),
        Event::Completed(Ok(())),
        Event::IsFile(false),
        Event::Done,
        Event::Completed(Ok(())),
        Event::Completed(Ok(())),
        Event::Listing(Some(vec![
            ListedEntry::Named(text("package-swift-lsp-1.0.0")),
            ListedEntry::Named(text("package-swift-lsp-2.0.0")),
            ListedEntry::Named(text("notes")),
        ])),
        Event::Done,
    ]);
    let (ext, actions) = drive(PackageSwiftLSPExtension::new(), events);
    let mut expected = asked_to_fetch();
    expected.extend(vec![
        Action::CreateDirAll { path: text("package-swift-lsp-2.0.0") },
        Action::IsFile { path: text("package-swift-lsp-2.0.0/package-swift-lsp") },
        Action::ReportStatus(InstallationStatus::Downloading),
        Action::DownloadZip {
            url: text("https://example.test/2.0.0/arm.zip"),
            path: text("package-swift-lsp-2.0.0"),
        },
        Action::MakeExecutable { path: text("package-swift-lsp-2.0.0/package-swift-lsp") },
        Action::ListDir { path: text(".") },
        Action::RemoveDirs { paths: vec![text("./package-swift-lsp-1.0.0")] },
        launch("package-swift-lsp-2.0.0/package-swift-lsp", vec![text("--stdio")]),
    ]);
    assert_eq!(actions, expected);
    assert_eq!(ext.cached_binary_path, Some(text("package-swift-lsp-2.0.0/package-swift-lsp")));
    assert_eq!(ext.phase, Phase::Idle);
}

#[test]
fn intel_mac_gets_the_intel_asset() {
    let (ext, actions) = drive(
        PackageSwiftLSPExtension::new(),
        vec![
            Event::Platform(Os::Mac, Architecture::X8664),
            Event::Settings(Ok(None)),
            Event::Which(None),
            Event::Done,
            Event::Release(Ok(release("1.0.0"))),
        ],
    );
    assert_eq!(actions[5], Action::CreateDirAll { path: text("package-swift-lsp-1.0.0") });
    assert_eq!(ext.download_url, "https://example.test/1.0.0/intel.zip");
}

#[test]
fn installed_version_is_not_downloaded_again() {
    let mut events = to_fetch();
    events.extend(vec![
        Event::Release(Ok(release("2.0.0"))),
        Event::Completed(Ok(())),
        Event::IsFile(true),
    ]);
    let (ext, actions) = drive(PackageSwiftLSPExtension::new(), events);
    assert_eq!(
        actions[5..],
        [
            Action::CreateDirAll { path: text("package-swift-lsp-2.0.0") },
            Action::IsFile { path: text("package-swift-lsp-2.0.0/package-swift-lsp") },
            launch("package-swift-lsp-2.0.0/package-swift-lsp", vec![text("--stdio")]),
        ]
    );
    assert_eq!(ext.cached_binary_path, Some(text("package-swift-lsp-2.0.0/package-swift-lsp")));
}

#[test]
fn a_second_request_finds_what_the_first_fetched() {
    let mut events = to_fetch();
    events.extend(vec![
        Event::Release(Ok(release("2.0.0"))),
        Event::Completed(Ok(())),
        Event::IsFile(true),
    ]);
    let (ext, _) = drive(PackageSwiftLSPExtension::new(), events);
    let (_, actions) = drive(
        ext,
        vec![
            Event::Platform(Os::Mac, Architecture::Aarch64),
            Event::Settings(Ok(None)),
            Event::Which(None),
            Event::IsFile(true),
        ],
    );
    assert_eq!(
        actions[3..],
        [
            Action::IsFile { path: text("package-swift-lsp-2.0.0/package-swift-lsp") },
            launch("package-swift-lsp-2.0.0/package-swift-lsp", vec![]),
        ]
    );
}

#[test]
fn release_failure_is_passed_on() {
    let mut events = to_fetch();
    events.push(Event::Release(Err(text("no releases found"))));
    let (ext, actions) = drive(PackageSwiftLSPExtension::new(), events);
    assert_eq!(actions[5], Action::Fail(text("no releases found")));
    assert_eq!(ext.phase, Phase::Idle);
}

#[test]
fn missing_asset_is_reported_with_its_quoted_name() {
    let mut events = to_fetch();
    events.push(Event::Release(Ok(Release {
        version: text("3.1.0"),
        assets: vec![ReleaseAsset {
            name: text("package-swift-lsp-3.1.0-x86_64-apple-macosx.zip"),
            download_url: text("u"),
        }],
    })));
    let (ext, actions) = drive(PackageSwiftLSPExtension::new(), events);
    assert_eq!(
        actions[5],
        Action::Fail(text(
            "no asset found matching \"package-swift-lsp-3.1.0-arm64-apple-macosx.zip\""
        ))
    );
    assert_eq!(ext.phase, Phase::Idle);
    assert_eq!(ext.cached_binary_path, None);
}

#[test]
fn missing_asset_name_is_escaped() {
    let mut events = to_fetch();
    events.push(Event::Release(Ok(Release { version: text("a\"b\\c"), assets: vec![] })));
    let (_, actions) = drive(PackageSwiftLSPExtension::new(), events);
    assert_eq!(
        actions[5],
        Action::Fail(text(
            "no asset found matching \"package-swift-lsp-a\\\"b\\\\c-arm64-apple-macosx.zip\""
        ))
    );
}

#[test]
fn directory_creation_failure_is_reported() {
    let mut events = to_fetch();
    events.extend(vec![
        Event::Release(Ok(release("2.0.0"))),
        Event::Completed(Err(text("read-only file system"))),
    ]);
    let (_, actions) = drive(PackageSwiftLSPExtension::new(), events);
    assert_eq!(
        actions[6],
        Action::Fail(text(
            "failed to create directory 'package-swift-lsp-2.0.0': read-only file system"
        ))
    );
}

fn to_download() -> Vec<Event> {
    let mut events = to_fetch();
    events.extend(vec![
        Event::Release(Ok(release("2.0.0"))),
        Event::Completed(Ok(())),
        Event::IsFile(false),
        Event::Done,
    ]);
    events
}

#[test]
fn download_failure_is_reported() {
    let mut events = to_download();
    events.push(Event::Completed(Err(text("connection reset"))));
    let (ext, actions) = drive(PackageSwiftLSPExtension::new(), events);
    assert_eq!(actions[9], Action::Fail(text("failed to download file: connection reset")));
    assert_eq!(ext.cached_binary_path, None);
}

#[test]
fn permission_failure_is_passed_on() {
    let mut events = to_download();
    events.extend(vec![Event::Completed(Ok(())), Event::Completed(Err(text("not permitted")))]);
    let (ext, actions) = drive(PackageSwiftLSPExtension::new(), events);
    assert_eq!(actions[10], Action::Fail(text("not permitted")));
    assert_eq!(ext.cached_binary_path, None);
}

#[test]
fn a_directory_that_cannot_be_listed_does_not_fail_the_request() {
    let mut events = to_download();
    events.extend(vec![Event::Completed(Ok(())), Event::Completed(Ok(())), Event::Listing(None)]);
    let (ext, actions) = drive(PackageSwiftLSPExtension::new(), events);
    assert_eq!(
        actions[10..],
        [
            Action::ListDir { path: text(".") },
            launch("package-swift-lsp-2.0.0/package-swift-lsp", vec![text("--stdio")]),
        ]
    );
    assert_eq!(ext.cached_binary_path, Some(text("package-swift-lsp-2.0.0/package-swift-lsp")));
    assert_eq!(ext.phase, Phase::Idle);
}

#[test]
fn an_unreadable_entry_does_not_fail_the_request() {
    let mut events = to_download();
    events.extend(vec![
        Event::Completed(Ok(())),
        Event::Completed(Ok(())),
        Event::Listing(Some(vec![
            ListedEntry::Named(text("package-swift-lsp-1.0.0")),
            ListedEntry::Unreadable,
            ListedEntry::Named(text("package-swift-lsp-1.5.0")),
            ListedEntry::Unnamed,
            ListedEntry::Named(text("package-swift-lsp-2.0.0")),
        ])),
        Event::Done,
    ]);
    let (ext, actions) = drive(PackageSwiftLSPExtension::new(), events);
    assert_eq!(
        actions[11..],
        [
            Action::RemoveDirs {
                paths: vec![text("./package-swift-lsp-1.0.0"), text("./package-swift-lsp-1.5.0")],
            },
            launch("package-swift-lsp-2.0.0/package-swift-lsp", vec![text("--stdio")]),
        ]
    );
    assert_eq!(ext.cached_binary_path, Some(text("package-swift-lsp-2.0.0/package-swift-lsp")));
    assert_eq!(ext.phase, Phase::Idle);
}

#[test]
fn an_empty_listing_still_ends_the_request_well() {
    let mut events = to_download();
    events.extend(vec![
        Event::Completed(Ok(())),
        Event::Completed(Ok(())),
        Event::Listing(Some(vec![])),
        Event::Done,
    ]);
    let (ext, actions) = drive(PackageSwiftLSPExtension::new(), events);
    assert_eq!(
        actions[11..],
        [
            Action::RemoveDirs { paths: vec![] },
            launch("package-swift-lsp-2.0.0/package-swift-lsp", vec![text("--stdio")]),
        ]
    );
    assert_eq!(ext.cached_binary_path, Some(text("package-swift-lsp-2.0.0/package-swift-lsp")));
}

#[test]
fn a_reply_out_of_turn_fails_the_request() {
    let (ext, actions) = drive(
        PackageSwiftLSPExtension::new(),
        vec![Event::Platform(Os::Mac, Architecture::Aarch64), Event::IsFile(true)],
    );
    assert_eq!(
        actions[2],
        Action::Fail(text("the host's reply does not answer the pending request"))
    );
    assert_eq!(ext.phase, Phase::Idle);
}

#[test]
fn a_reply_without_a_request_fails() {
    let (ext, action) = PackageSwiftLSPExtension::new().advance(Event::Done);
    assert_eq!(action, Action::Fail(text("the host's reply does not answer the pending request")));
    assert_eq!(ext.phase, Phase::Idle);
}

#[test]
fn resolution_can_begin_past_the_gate() {
    let (ext, action) =
        remembering("kept").language_server_binary(Os::Linux, Architecture::X86);
    assert_eq!(action, Action::LspSettings { server: text("package-swift-lsp") });
    assert_eq!(ext.phase, Phase::Settings);
    assert_eq!(ext.cached_binary_path, Some(text("kept")));
    let (ext, _) = ext.advance(Event::Settings(Ok(None)));
    let (ext, _) = ext.advance(Event::Which(None));
    let (ext, _) = ext.advance(Event::IsFile(false));
    let (ext, _) = ext.advance(Event::Done);
    let (_, action) = ext.advance(Event::Release(Ok(Release {
        version: text("1.0.0"),
        assets: vec![ReleaseAsset {
            name: text("package-swift-lsp-1.0.0-x86-linux.zip"),
            download_url: text("u"),
        }],
    })));
    assert_eq!(action, Action::CreateDirAll { path: text("package-swift-lsp-1.0.0") });
}

#[test]
fn a_new_request_drops_what_was_under_way() {
    let mut events = to_download();
    events.push(Event::Completed(Ok(())));
    let (ext, _) = drive(PackageSwiftLSPExtension::new(), events);
    assert_eq!(ext.phase, Phase::Permission);
    let (ext, action) = ext.language_server_command();
    assert_eq!(action, Action::CurrentPlatform);
    let mut expected = PackageSwiftLSPExtension::new();
    expected.phase = Phase::Platform;
    assert_eq!(ext, expected);
}
