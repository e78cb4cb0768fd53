//! What holds of the resolver whatever the host replies.

use vstd::prelude::*;
use crate::cleanup::{child_path_text, is_stale, stale_paths, ListedEntryModel};
use crate::command::{launch_command, CommandSettingsModel};
use crate::platform::{
    arch_label_text, architecture_supported, is_supported, lemma_refusal_names_what_is_unsupported,
    occurs_in, os_label_text, system_supported, unsupported_message, Architecture, Os,
};
use crate::protocol::{ActionModel, EventModel, InstallationStatus};
use crate::release::{
    asset_name_text, binary_path_text, lemma_first_named, version_dir_text, version_prefix_text,
    ReleaseModel,
};
use crate::resolver::{
    missing_asset_text, ExtensionModel, Phase, EXECUTABLE_NAME, LANGUAGE_SERVER_NAME,
    PACKAGE_SWIFT_LSP_GITHUB_REPO,
};
use crate::text::debug_quoted;

verus! {

/// The state reached from `state` on a series of replies, and the actions
/// handed out on the way, one for each reply.
pub open spec fn run(state: ExtensionModel, events: Seq<EventModel>) -> (
    ExtensionModel,
    Seq<ActionModel>,
)
    decreases events.len(),
{
    if events.len() == 0 {
        (state, Seq::empty())
    } else {
        let (next, action) = state.step(events[0]);
        let (last, rest) = run(next, events.drop_first());
        (last, seq![action] + rest)
    }
}

/// Whether none of the actions reaches out to the network.
pub open spec fn none_network(actions: Seq<ActionModel>) -> bool {
    forall|i: int| 0 <= i < actions.len() ==> !(#[trigger] actions[i]).is_network()
}

/// Whether none of the actions reads or changes the file system.
pub open spec fn none_filesystem(actions: Seq<ActionModel>) -> bool {
    forall|i: int| 0 <= i < actions.len() ==> !(#[trigger] actions[i]).is_filesystem()
}

/// The settings' reply when the user configured no path: no settings for the
/// binary at all, or settings that leave the path out.
pub open spec fn without_path(settings: Option<CommandSettingsModel>) -> bool {
    match settings {
        Some(s) => s.path is None,
        None => true,
    }
}

/// The arguments that settings carry.
pub open spec fn arguments_of(settings: Option<CommandSettingsModel>) -> Option<Seq<Seq<char>>> {
    match settings {
        Some(s) => s.arguments,
        None => None,
    }
}

proof fn lemma_run_one(state: ExtensionModel, a: EventModel)
    ensures
        run(state, seq![a]) == (state.step(a).0, seq![state.step(a).1]),
{
    reveal_with_fuel(run, 2);
    assert(seq![a].drop_first() =~= Seq::<EventModel>::empty());
    assert(seq![state.step(a).1] + Seq::<ActionModel>::empty() =~= seq![state.step(a).1]);
}

proof fn lemma_run_first(state: ExtensionModel, first: EventModel, rest: Seq<EventModel>)
    ensures
        run(state, seq![first] + rest) == (
            run(state.step(first).0, rest).0,
            seq![state.step(first).1] + run(state.step(first).0, rest).1,
        ),
{
    assert((seq![first] + rest).drop_first() =~= rest);
}

/// A path in the settings is the answer, verbatim: once the platform and the
/// settings are read the request ends with that path and the settings'
/// arguments. Nothing is asked of the file system or the network, and the
/// remembered binary is left as it was.
pub proof fn law_configured_path_wins(
    state: ExtensionModel,
    os: Os,
    arch: Architecture,
    settings: CommandSettingsModel,
)
    requires
        is_supported(os, arch),
        settings.path is Some,
    ensures
        run(
            state.begin().0,
            seq![EventModel::Platform(os, arch), EventModel::Settings(Ok(Some(settings)))],
        ).1 == seq![
            ActionModel::LspSettings { server: LANGUAGE_SERVER_NAME@ },
            ActionModel::Launch(launch_command(settings.path->Some_0, settings.arguments)),
        ],
        run(
            state.begin().0,
            seq![EventModel::Platform(os, arch), EventModel::Settings(Ok(Some(settings)))],
        ).0.cached_binary_path == state.cached_binary_path,
        none_filesystem(
            run(
                state.begin().0,
                seq![EventModel::Platform(os, arch), EventModel::Settings(Ok(Some(settings)))],
            ).1,
        ),
        none_network(
            run(
                state.begin().0,
                seq![EventModel::Platform(os, arch), EventModel::Settings(Ok(Some(settings)))],
            ).1,
        ),
{
    let e1 = EventModel::Platform(os, arch);
    let e2 = EventModel::Settings(Ok(Some(settings)));
    let s0 = state.begin().0;
    assert(seq![e1, e2] =~= seq![e1] + seq![e2]);
    lemma_run_first(s0, e1, seq![e2]);
    lemma_run_one(s0.step(e1).0, e2);
    assert(seq![s0.step(e1).1] + seq![s0.step(e1).0.step(e2).1] =~= seq![
        s0.step(e1).1,
        s0.step(e1).0.step(e2).1,
    ]);
}

/// The replies that lead a request past the settings: a supported platform,
/// then settings without a path.
pub open spec fn past_settings(
    os: Os,
    arch: Architecture,
    settings: Option<CommandSettingsModel>,
) -> Seq<EventModel> {
    seq![EventModel::Platform(os, arch), EventModel::Settings(Ok(settings))]
}

/// The actions handed out on `past_settings`.
pub open spec fn asked_past_settings() -> Seq<ActionModel> {
    seq![
        ActionModel::LspSettings { server: LANGUAGE_SERVER_NAME@ },
        ActionModel::Which { name: EXECUTABLE_NAME@ },
    ]
}

proof fn lemma_past_settings(
    state: ExtensionModel,
    os: Os,
    arch: Architecture,
    settings: Option<CommandSettingsModel>,
)
    requires
        is_supported(os, arch),
        without_path(settings),
    ensures
        run(state.begin().0, past_settings(os, arch, settings)).1 == asked_past_settings(),
        run(state.begin().0, past_settings(os, arch, settings)).0 == (ExtensionModel {
            phase: Phase::PathLookup,
            os,
            arch,
            args: arguments_of(settings),
            cached_binary_path: state.cached_binary_path,
            ..ExtensionModel::fresh()
        }),
{
    let e1 = EventModel::Platform(os, arch);
    let e2 = EventModel::Settings(Ok(settings));
    let s0 = state.begin().0;
    assert(past_settings(os, arch, settings) =~= seq![e1] + seq![e2]);
    lemma_run_first(s0, e1, seq![e2]);
    lemma_run_one(s0.step(e1).0, e2);
    assert(seq![s0.step(e1).1] + seq![s0.step(e1).0.step(e2).1] =~= asked_past_settings());
}

/// `run` on replies followed by more replies is `run` on the first, then on
/// the rest from where the first led.
pub proof fn lemma_run_append(state: ExtensionModel, first: Seq<EventModel>, rest: Seq<EventModel>)
    ensures
        run(state, first + rest) == (
            run(run(state, first).0, rest).0,
            run(state, first).1 + run(run(state, first).0, rest).1,
        ),
    decreases first.len(),
{
    if first.len() == 0 {
        assert(first + rest =~= rest);
        assert(Seq::<ActionModel>::empty() + run(state, rest).1 =~= run(state, rest).1);
    } else {
        let next = state.step(first[0]).0;
        assert((first + rest).drop_first() =~= first.drop_first() + rest);
        lemma_run_append(next, first.drop_first(), rest);
        assert(seq![state.step(first[0]).1] + (run(next, first.drop_first()).1 + run(
            run(next, first.drop_first()).0,
            rest,
        ).1) =~= (seq![state.step(first[0]).1] + run(next, first.drop_first()).1) + run(
            run(next, first.drop_first()).0,
            rest,
        ).1);
    }
}

/// With no path in the settings, an executable on the search path is the
/// answer: the request ends with where the lookup found it. Nothing is asked
/// of the file system or the network, and the remembered binary is left as
/// it was.
pub proof fn law_search_path_wins(
    state: ExtensionModel,
    os: Os,
    arch: Architecture,
    settings: Option<CommandSettingsModel>,
    found: Seq<char>,
)
    requires
        is_supported(os, arch),
        without_path(settings),
    ensures
        run(
            state.begin().0,
            past_settings(os, arch, settings) + seq![EventModel::Which(Some(found))],
        ).1 == asked_past_settings() + seq![
            ActionModel::Launch(launch_command(found, arguments_of(settings))),
        ],
        run(
            state.begin().0,
            past_settings(os, arch, settings) + seq![EventModel::Which(Some(found))],
        ).0.cached_binary_path == state.cached_binary_path,
        none_filesystem(
            run(
                state.begin().0,
                past_settings(os, arch, settings) + seq![EventModel::Which(Some(found))],
            ).1,
        ),
        none_network(
            run(
                state.begin().0,
                past_settings(os, arch, settings) + seq![EventModel::Which(Some(found))],
            ).1,
        ),
{
    let s0 = state.begin().0;
    lemma_past_settings(state, os, arch, settings);
    lemma_run_append(s0, past_settings(os, arch, settings), seq![EventModel::Which(Some(found))]);
    lemma_run_one(run(s0, past_settings(os, arch, settings)).0, EventModel::Which(Some(found)));
}

/// With no path in the settings and nothing on the search path, a remembered
/// binary that is still a regular file is the answer. The one thing asked of
/// the file system is whether it is there; nothing is asked of the network.
pub proof fn law_remembered_binary_is_reused(
    state: ExtensionModel,
    os: Os,
    arch: Architecture,
    settings: Option<CommandSettingsModel>,
    remembered: Seq<char>,
)
    requires
        is_supported(os, arch),
        without_path(settings),
        state.cached_binary_path == Some(remembered),
    ensures
        run(
            state.begin().0,
            past_settings(os, arch, settings) + seq![
                EventModel::Which(None),
                EventModel::IsFile(true),
            ],
        ).1 == asked_past_settings() + seq![
            ActionModel::IsFile { path: remembered },
            ActionModel::Launch(launch_command(remembered, arguments_of(settings))),
        ],
        run(
            state.begin().0,
            past_settings(os, arch, settings) + seq![
                EventModel::Which(None),
                EventModel::IsFile(true),
            ],
        ).0.cached_binary_path == Some(remembered),
        none_network(
            run(
                state.begin().0,
                past_settings(os, arch, settings) + seq![
                    EventModel::Which(None),
                    EventModel::IsFile(true),
                ],
            ).1,
        ),
{
    let s0 = state.begin().0;
    let e3 = EventModel::Which(None);
    let e4 = EventModel::IsFile(true);
    lemma_past_settings(state, os, arch, settings);
    lemma_run_append(s0, past_settings(os, arch, settings), seq![e3, e4]);
    let s2 = run(s0, past_settings(os, arch, settings)).0;
    assert(seq![e3, e4] =~= seq![e3] + seq![e4]);
    lemma_run_first(s2, e3, seq![e4]);
    lemma_run_one(s2.step(e3).0, e4);
    assert(seq![s2.step(e3).1] + seq![s2.step(e3).0.step(e4).1] =~= seq![
        s2.step(e3).1,
        s2.step(e3).0.step(e4).1,
    ]);
}

/// A remembered binary that is no longer a regular file is passed over in
/// silence: the request goes on to the fresh fetch, telling the host that an
/// update is looked for and then asking for the latest release.
pub proof fn law_lost_binary_is_fetched_again(
    state: ExtensionModel,
    os: Os,
    arch: Architecture,
    settings: Option<CommandSettingsModel>,
    remembered: Seq<char>,
)
    requires
        is_supported(os, arch),
        without_path(settings),
        state.cached_binary_path == Some(remembered),
    ensures
        run(
            state.begin().0,
            past_settings(os, arch, settings) + seq![
                EventModel::Which(None),
                EventModel::IsFile(false),
                EventModel::Done,
            ],
        ).1 == asked_past_settings() + seq![
            ActionModel::IsFile { path: remembered },
            ActionModel::ReportStatus(InstallationStatus::CheckingForUpdate),
            ActionModel::LatestRelease {
                repo: PACKAGE_SWIFT_LSP_GITHUB_REPO@,
                require_assets: true,
                pre_release: false,
            },
        ],
{
    let s0 = state.begin().0;
    let e3 = EventModel::Which(None);
    let e4 = EventModel::IsFile(false);
    let e5 = EventModel::Done;
    lemma_past_settings(state, os, arch, settings);
    lemma_run_append(s0, past_settings(os, arch, settings), seq![e3, e4, e5]);
    let s2 = run(s0, past_settings(os, arch, settings)).0;
    assert(seq![e3, e4, e5] =~= seq![e3] + seq![e4, e5]);
    assert(seq![e4, e5] =~= seq![e4] + seq![e5]);
    lemma_run_first(s2, e3, seq![e4, e5]);
    let s3 = s2.step(e3).0;
    lemma_run_first(s3, e4, seq![e5]);
    let s4 = s3.step(e4).0;
    lemma_run_one(s4, e5);
    assert(seq![s2.step(e3).1] + (seq![s3.step(e4).1] + seq![s4.step(e5).1]) =~= seq![
        s2.step(e3).1,
        s3.step(e4).1,
        s4.step(e5).1,
    ]);
}

/// With no request under way every reply is answered with a failure, and
/// none gets one under way.
pub proof fn lemma_idle_only_fails(state: ExtensionModel, events: Seq<EventModel>)
    requires
        state.phase == Phase::Idle,
    ensures
        run(state, events).0 == state,
        run(state, events).1.len() == events.len(),
        forall|i: int| 0 <= i < events.len() ==> run(state, events).1[i] is Fail,
    decreases events.len(),
{
    if events.len() > 0 {
        lemma_idle_only_fails(state, events.drop_first());
    }
}

/// On a platform for which the language server is not published the request
/// is refused as soon as the platform is known, with an error that names
/// what is not supported: the system, the architecture, or both where both
/// are wrong. The settings are not read, and whatever the host replies after
/// that, nothing is ever asked of the network or the file system: every
/// action from the refusal on is a failure.
pub proof fn law_unsupported_platform_is_refused(
    state: ExtensionModel,
    os: Os,
    arch: Architecture,
    later: Seq<EventModel>,
)
    requires
        !is_supported(os, arch),
    ensures
        run(state.begin().0, seq![EventModel::Platform(os, arch)] + later).1[0]
            == ActionModel::Fail(unsupported_message(os, arch)),
        !system_supported(os) ==> occurs_in(os_label_text(os), unsupported_message(os, arch)),
        !architecture_supported(arch) ==> occurs_in(
            arch_label_text(arch),
            unsupported_message(os, arch),
        ),
        run(state.begin().0, seq![EventModel::Platform(os, arch)] + later).1.len() == 1
            + later.len(),
        forall|i: int|
            0 <= i < 1 + later.len() ==> run(
                state.begin().0,
                seq![EventModel::Platform(os, arch)] + later,
            ).1[i] is Fail,
        none_filesystem(run(state.begin().0, seq![EventModel::Platform(os, arch)] + later).1),
        none_network(run(state.begin().0, seq![EventModel::Platform(os, arch)] + later).1),
{
    let s0 = state.begin().0;
    let e1 = EventModel::Platform(os, arch);
    lemma_run_first(s0, e1, later);
    lemma_idle_only_fails(s0.step(e1).0, later);
    lemma_refusal_names_what_is_unsupported(os, arch);
}

/// A release without an asset of the name computed for the platform ends the
/// request with an error that quotes that name. Nothing is downloaded.
pub proof fn law_missing_asset_is_reported(state: ExtensionModel, release: ReleaseModel)
    requires
        state.phase == Phase::Release,
        forall|i: int|
            0 <= i < release.assets.len() ==> release.assets[i].name != asset_name_text(
                EXECUTABLE_NAME@,
                release.version,
                state.arch,
                state.os,
            ),
    ensures
        state.step(EventModel::Release(Ok(release))).1 == ActionModel::Fail(
            missing_asset_text(
                debug_quoted(
                    asset_name_text(EXECUTABLE_NAME@, release.version, state.arch, state.os),
                ),
            ),
        ),
        state.step(EventModel::Release(Ok(release))).0.phase == Phase::Idle,
{
    lemma_first_named(
        release.assets,
        asset_name_text(EXECUTABLE_NAME@, release.version, state.arch, state.os),
    );
}

/// Two children of the working directory with one path have one name.
pub proof fn lemma_child_path_injective(a: Seq<char>, b: Seq<char>)
    requires
        child_path_text(a) == child_path_text(b),
    ensures
        a == b,
{
    let lead = "./"@;
    assert(child_path_text(a).subrange(lead.len() as int, (lead.len() + a.len()) as int) =~= a);
    assert(child_path_text(b).subrange(lead.len() as int, (lead.len() + b.len()) as int) =~= b);
    assert(child_path_text(a).len() == lead.len() + a.len());
    assert(child_path_text(b).len() == lead.len() + b.len());
}

/// Whether `path` is that of a stale directory at index `i` of `entries`.
pub open spec fn stale_at(
    entries: Seq<ListedEntryModel>,
    i: int,
    executable: Seq<char>,
    version_dir: Seq<char>,
    path: Seq<char>,
) -> bool {
    &&& 0 <= i < entries.len()
    &&& entries[i] matches ListedEntryModel::Named(name)
    &&& is_stale(name, executable, version_dir)
    &&& path == child_path_text(name)
}

/// What the cleanup removes is exactly this: the listed directories whose
/// names begin with the executable's name and a hyphen, and which are not the
/// current version directory.
pub proof fn law_cleanup_removes_the_stale(
    entries: Seq<ListedEntryModel>,
    executable: Seq<char>,
    version_dir: Seq<char>,
)
    ensures
        forall|path: Seq<char>|
            stale_paths(entries, executable, version_dir).contains(path) <==> exists|i: int|
                stale_at(entries, i, executable, version_dir, path),
    decreases entries.len(),
{
    let found = stale_paths(entries, executable, version_dir);
    if entries.len() == 0 {
        assert forall|path: Seq<char>| found.contains(path) implies exists|i: int|
            stale_at(entries, i, executable, version_dir, path) by {}
    } else {
        let init = entries.drop_last();
        let before = stale_paths(init, executable, version_dir);
        let last = entries.len() - 1;
        law_cleanup_removes_the_stale(init, executable, version_dir);
        assert forall|path: Seq<char>| found.contains(path) implies exists|i: int|
            stale_at(entries, i, executable, version_dir, path) by {
            let k = choose|k: int| 0 <= k < found.len() && found[k] == path;
            if k < before.len() {
                assert(before[k] == path);
                assert(before.contains(path));
                let i = choose|i: int| stale_at(init, i, executable, version_dir, path);
                assert(init[i] == entries[i]);
                assert(stale_at(entries, i, executable, version_dir, path));
            } else {
                assert(stale_at(entries, last, executable, version_dir, path));
            }
        }
        assert forall|path: Seq<char>|
            (exists|i: int|
                stale_at(entries, i, executable, version_dir, path)) implies found.contains(
            path,
        ) by {
            let i = choose|i: int| stale_at(entries, i, executable, version_dir, path);
            if i < last {
                assert(init[i] == entries[i]);
                assert(stale_at(init, i, executable, version_dir, path));
                assert(before.contains(path));
                let k = choose|k: int| 0 <= k < before.len() && before[k] == path;
                assert(found[k] == path);
            } else {
                assert(found[found.len() - 1] == path);
            }
        }
    }
}

/// The current version directory is never removed.
pub proof fn law_current_version_stays(
    entries: Seq<ListedEntryModel>,
    executable: Seq<char>,
    version_dir: Seq<char>,
)
    ensures
        !stale_paths(entries, executable, version_dir).contains(child_path_text(version_dir)),
{
    law_cleanup_removes_the_stale(entries, executable, version_dir);
    let path = child_path_text(version_dir);
    if stale_paths(entries, executable, version_dir).contains(path) {
        let i = choose|i: int| stale_at(entries, i, executable, version_dir, path);
        lemma_child_path_injective(entries[i]->Named_0, version_dir);
    }
}

/// The directory of any other version that the listing shows is removed once
/// `version` is installed.
pub proof fn law_other_versions_go(
    entries: Seq<ListedEntryModel>,
    executable: Seq<char>,
    version: Seq<char>,
    other: Seq<char>,
    i: int,
)
    requires
        other != version,
        0 <= i < entries.len(),
        entries[i] == ListedEntryModel::Named(version_dir_text(executable, other)),
    ensures
        stale_paths(entries, executable, version_dir_text(executable, version)).contains(
            child_path_text(version_dir_text(executable, other)),
        ),
{
    let prefix = version_prefix_text(executable);
    let old_dir = version_dir_text(executable, other);
    let new_dir = version_dir_text(executable, version);
    assert(old_dir.subrange(0, prefix.len() as int) =~= prefix);
    assert(prefix.is_prefix_of(old_dir));
    if old_dir == new_dir {
        assert(old_dir.subrange(prefix.len() as int, old_dir.len() as int) =~= other);
        assert(new_dir.subrange(prefix.len() as int, new_dir.len() as int) =~= version);
    }
    assert(stale_at(entries, i, executable, new_dir, child_path_text(old_dir)));
    law_cleanup_removes_the_stale(entries, executable, new_dir);
}

/// After a download, the cleanup that the resolver asks for removes the
/// directory of every other version that the listing shows, and leaves the
/// directory of the version just installed.
pub proof fn law_fresh_install_leaves_one_version(
    state: ExtensionModel,
    version: Seq<char>,
    other: Seq<char>,
    entries: Seq<ListedEntryModel>,
    i: int,
)
    requires
        state.phase == Phase::Listing,
        state.version_dir == version_dir_text(EXECUTABLE_NAME@, version),
        other != version,
        0 <= i < entries.len(),
        entries[i] == ListedEntryModel::Named(version_dir_text(EXECUTABLE_NAME@, other)),
    ensures
        state.step(EventModel::Listing(Some(entries))).1 matches ActionModel::RemoveDirs { paths }
            && paths.contains(child_path_text(version_dir_text(EXECUTABLE_NAME@, other)))
            && !paths.contains(child_path_text(version_dir_text(EXECUTABLE_NAME@, version))),
{
    law_other_versions_go(entries, EXECUTABLE_NAME@, version, other, i);
    law_current_version_stays(entries, EXECUTABLE_NAME@, state.version_dir);
}

/// The replies that a cleanup can get: no listing; or a listing, and then
/// word that the removals were tried. How the removals went is not told.
pub open spec fn cleanup_replies(listing: Option<Seq<ListedEntryModel>>) -> Seq<EventModel> {
    match listing {
        None => seq![EventModel::Listing(None)],
        Some(_) => seq![EventModel::Listing(listing), EventModel::Done],
    }
}

/// The cleanup cannot fail the request. Once the binary is installed and
/// executable, the request ends with that binary and remembers it, whether
/// the working directory can be listed or not, whatever the listing holds,
/// and however the removals go.
pub proof fn law_cleanup_cannot_fail(state: ExtensionModel, listing: Option<Seq<ListedEntryModel>>)
    requires
        state.phase == Phase::Listing,
    ensures
        run(state, cleanup_replies(listing)).1.last() == ActionModel::Launch(
            launch_command(state.binary_path(), state.args),
        ),
        forall|i: int|
            0 <= i < cleanup_replies(listing).len() ==> !(run(state, cleanup_replies(listing)).1[i]
                is Fail),
        run(state, cleanup_replies(listing)).0.cached_binary_path == Some(state.binary_path()),
        run(state, cleanup_replies(listing)).0.phase == Phase::Idle,
{
    match listing {
        None => {
            lemma_run_one(state, EventModel::Listing(None));
        },
        Some(entries) => {
            let e1 = EventModel::Listing(listing);
            let e2 = EventModel::Done;
            assert(seq![e1, e2] =~= seq![e1] + seq![e2]);
            lemma_run_first(state, e1, seq![e2]);
            lemma_run_one(state.step(e1).0, e2);
            assert(seq![state.step(e1).1] + seq![state.step(e1).0.step(e2).1] =~= seq![
                state.step(e1).1,
                state.step(e1).0.step(e2).1,
            ]);
        },
    }
}

proof fn lemma_run_push(state: ExtensionModel, events: Seq<EventModel>, next: EventModel)
    ensures
        run(state, events.push(next)) == (
            run(state, events).0.step(next).0,
            run(state, events).1.push(run(state, events).0.step(next).1),
        ),
        run(state, events).1.len() == events.len(),
{
    lemma_run_append(state, events, seq![next]);
    lemma_run_one(run(state, events).0, next);
    lemma_run_len(state, events);
    assert(events + seq![next] =~= events.push(next));
    assert(run(state, events).1 + seq![run(state, events).0.step(next).1] =~= run(
        state,
        events,
    ).1.push(run(state, events).0.step(next).1));
}

/// Every reply is answered with one action.
pub proof fn lemma_run_len(state: ExtensionModel, events: Seq<EventModel>)
    ensures
        run(state, events).1.len() == events.len(),
    decreases events.len(),
{
    if events.len() > 0 {
        lemma_run_len(state.step(events[0]).0, events.drop_first());
    }
}

/// The replies of a fresh install on which nothing fails before the cleanup:
/// the release, the version directory made, no binary in it yet, the notice
/// shown, the archive unpacked, the binary made executable; then the cleanup.
pub open spec fn install_replies(
    release: ReleaseModel,
    listing: Option<Seq<ListedEntryModel>>,
) -> Seq<EventModel> {
    seq![
        EventModel::Release(Ok(release)),
        EventModel::Completed(Ok(())),
        EventModel::IsFile(false),
        EventModel::Done,
        EventModel::Completed(Ok(())),
        EventModel::Completed(Ok(())),
    ] + cleanup_replies(listing)
}

/// A fresh install whose download succeeds ends well. Where the release has
/// the asset for the platform and the version directory, the download and
/// the permission go through, the request ends with
/// `{executable}-{version}/{executable}` and remembers it, whatever becomes
/// of the cleanup.
pub proof fn law_fresh_install_succeeds(
    state: ExtensionModel,
    release: ReleaseModel,
    listing: Option<Seq<ListedEntryModel>>,
)
    requires
        state.phase == Phase::Release,
        exists|i: int|
            0 <= i < release.assets.len() && release.assets[i].name == asset_name_text(
                EXECUTABLE_NAME@,
                release.version,
                state.arch,
                state.os,
            ),
    ensures
        run(state, install_replies(release, listing)).1.last() == ActionModel::Launch(
            launch_command(
                binary_path_text(
                    version_dir_text(EXECUTABLE_NAME@, release.version),
                    EXECUTABLE_NAME@,
                ),
                state.args,
            ),
        ),
        run(state, install_replies(release, listing)).0.cached_binary_path == Some(
            binary_path_text(version_dir_text(EXECUTABLE_NAME@, release.version), EXECUTABLE_NAME@),
        ),
        run(state, install_replies(release, listing)).0.phase == Phase::Idle,
{
    let e1 = EventModel::Release(Ok(release));
    let e2 = EventModel::Completed(Ok(()));
    let e3 = EventModel::IsFile(false);
    let e4 = EventModel::Done;
    lemma_first_named(
        release.assets,
        asset_name_text(EXECUTABLE_NAME@, release.version, state.arch, state.os),
    );
    let p1 = seq![e1];
    lemma_run_one(state, e1);
    let p2 = p1.push(e2);
    lemma_run_push(state, p1, e2);
    let p3 = p2.push(e3);
    lemma_run_push(state, p2, e3);
    let p4 = p3.push(e4);
    lemma_run_push(state, p3, e4);
    let p5 = p4.push(e2);
    lemma_run_push(state, p4, e2);
    let p6 = p5.push(e2);
    lemma_run_push(state, p5, e2);
    assert(p6 =~= seq![e1, e2, e3, e4, e2, e2]);
    let installed = run(state, p6).0;
    assert(installed.phase == Phase::Listing);
    let tail = cleanup_replies(listing);
    lemma_run_append(state, p6, tail);
    law_cleanup_cannot_fail(installed, listing);
    lemma_run_len(installed, tail);
    assert((run(state, p6).1 + run(installed, tail).1).last() == run(installed, tail).1.last());
}

} // verus!
