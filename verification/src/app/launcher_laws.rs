//! What the client does about the game and its launcher: laws on what it takes
//! a path for, what it keeps, and what a preparation leaves.

use vstd::prelude::*;

use crate::app::data::EffectModel;
use crate::app::launcher::{
    browsed, current_readiness, effective, game_checked, game_due, game_ready, launcher_due,
    launcher_set, path_applied, path_persisted, path_typed, path_valid, plan_fault, prepare_begun,
    prepare_ended, readiness_refreshed, ready, save_told, selected_path, some_found,
    switch_target, GameFile, PrepareFacts, ProcessFacts,
};
use crate::app::redaction::scrub;
use crate::app::AppModel;
use crate::launch::discovery::steam_program;
use crate::launch::laws::law_first_present;
use crate::launch::paths::resolved_platform;
use crate::launch::readiness::readiness_of;
use crate::launch::{
    platform_label, LauncherPlatform, LauncherSetupPlan, LauncherStatus, PathProbe, PrepareOutcome,
};
use crate::process_env::LauncherProcess;
use crate::text::{lower, trim, white_space};
use crate::text_laws::law_trim_finds_the_text;

verus! {

/// Nothing changes but the launcher, the settings, the log and the requests.
pub open spec fn only_launcher_differs(m: AppModel, after: AppModel) -> bool {
    &&& after.host == m.host
    &&& after.ui == m.ui
    &&& after.capture == m.capture
    &&& after.session == m.session
    &&& after.submit == m.submit
    &&& after.tray == m.tray
    &&& after.update == m.update
}

/// The settings that have nothing to do with the launcher are what they were.
pub open spec fn other_settings_kept(m: AppModel, after: AppModel) -> bool {
    &&& after.config.language == m.config.language
    &&& after.config.selected_interface == m.config.selected_interface
    &&& after.config.keep_in_tray == m.config.keep_in_tray
    &&& after.config.capture_method == m.config.capture_method
}

// ----- the game's process ---------------------------------------------------------

/// The game runs where the search under any one of its names, whichever it is,
/// found a process.
pub proof fn law_one_process_is_enough(
    m: AppModel,
    found: Seq<Option<Vec<LauncherProcess>>>,
    now: u64,
    i: int,
)
    requires
        0 <= i < found.len(),
        found[i] is Some,
        found[i]->0@.len() > 0,
    ensures
        some_found(found),
        game_checked(m, found, now).launcher.game_running,
{
}

/// The game does not run only where every search found nothing or failed.
pub proof fn law_no_process_no_game(
    m: AppModel,
    found: Seq<Option<Vec<LauncherProcess>>>,
    now: u64,
)
    requires
        forall|i: int|
            0 <= i < found.len() ==> (#[trigger] found[i]) is None || found[i]->0@.len() == 0,
    ensures
        !some_found(found),
        !game_checked(m, found, now).launcher.game_running,
{
}

/// A search is remembered with its time, and changes nothing else.
pub proof fn law_game_check_only_looks(
    m: AppModel,
    found: Seq<Option<Vec<LauncherProcess>>>,
    now: u64,
)
    ensures
        ({
            let after = game_checked(m, found, now);
            &&& after.launcher.last_game_check == now
            &&& after.launcher.readiness == m.launcher.readiness
            &&& after.launcher.was_ready == m.launcher.was_ready
            &&& after.launcher.game_path_text == m.launcher.game_path_text
            &&& after.launcher.last_check == m.launcher.last_check
            &&& after.config == m.config && after.messages == m.messages
            &&& after.effects == m.effects
            &&& only_launcher_differs(m, after)
        }),
{
}

/// Processes are looked at every two seconds for the launcher, and every three
/// for the game.
pub proof fn law_checks_have_their_times(m: AppModel, now: u64)
    ensures
        launcher_due(m, now) <==> now - m.launcher.last_check >= 2_000_000_000,
        game_due(m, now) <==> now - m.launcher.last_game_check >= 3_000_000_000,
{
}

// ----- the path of the game -------------------------------------------------------

/// A path that is typed is the path of the game, white space around it aside;
/// white space alone is none.
pub proof fn law_typed_path_is_selected(
    m: AppModel,
    a: Seq<char>,
    path: Seq<char>,
    b: Seq<char>,
)
    requires
        forall|i: int| 0 <= i < a.len() ==> white_space(#[trigger] a[i]),
        forall|i: int| 0 <= i < b.len() ==> white_space(#[trigger] b[i]),
        path.len() > 0 ==> !white_space(path[0]) && !white_space(path.last()),
    ensures
        ({
            let typed = path_typed(m, a + path + b);
            &&& typed.launcher.game_path_text == a + path + b
            &&& path.len() > 0 ==> selected_path(typed.launcher) == Some(path)
            &&& path.len() == 0 ==> selected_path(typed.launcher) is None
            &&& typed.config == m.config && typed.messages == m.messages
            &&& typed.effects == m.effects
            &&& only_launcher_differs(m, typed)
        }),
{
    law_trim_finds_the_text(a, path, b);
}

/// The path is one that can be started where there is one and it is that of a
/// file with the extension `exe`, in whatever case.
pub proof fn law_valid_path_is_a_program(m: AppModel, file: GameFile)
    ensures
        path_valid(m, file) <==> {
            &&& trim(m.launcher.game_path_text).len() > 0
            &&& file.exists && file.is_file
            &&& file.extension is Some && lower(file.extension->0@) == lower("exe"@)
        },
{
}

/// Steam starts the game without a path; every other launcher needs a program.
pub proof fn law_only_steam_needs_no_path(m: AppModel, file: GameFile)
    ensures
        effective(m) == LauncherPlatform::Steam ==> game_ready(m, file),
        effective(m) != LauncherPlatform::Steam ==> (game_ready(m, file) <==> path_valid(m, file)),
{
}

/// A path that is adopted is in the settings, with the launcher that it tells
/// of where none was selected, and the settings are saved.
pub proof fn law_path_is_adopted(m: AppModel)
    ensures
        ({
            let after = path_applied(m);
            &&& after.config.game_executable_path == selected_path(m.launcher)
            &&& m.config.platform != LauncherPlatform::Auto ==> after.config.platform
                == m.config.platform
            &&& m.config.platform == LauncherPlatform::Auto ==> after.config.platform
                == resolved_platform(
                LauncherPlatform::Auto,
                selected_path(m.launcher),
                m.launcher.install_locations,
            )
            &&& after.effects == m.effects.push(EffectModel::SaveConfig)
            &&& after.launcher == m.launcher && after.messages == m.messages
            &&& other_settings_kept(m, after)
            &&& only_launcher_differs(m, after)
        }),
{
}

/// A path that is picked in a dialog is adopted as if it had been typed; a dialog
/// that brought none changes nothing; and where none can open, the log says so.
pub proof fn law_picked_path_is_adopted(m: AppModel, dialogs: bool, picked: Option<Seq<char>>)
    ensures
        ({
            let after = browsed(m, dialogs, picked);
            if !dialogs {
                &&& after.messages.len() > 0
                &&& after == (AppModel { messages: after.messages, ..m })
            } else if let Some(path) = picked {
                &&& after.launcher.game_path_text == path
                &&& after.config.game_executable_path == if trim(path).len() > 0 {
                    Some(trim(path))
                } else {
                    None
                }
                &&& after.effects == m.effects.push(EffectModel::SaveConfig)
                &&& after.messages == m.messages
                &&& other_settings_kept(m, after)
                &&& only_launcher_differs(m, after)
            } else {
                after == m
            }
        }),
{
    reveal(crate::app::logged);
}

/// The path of the text gets into the settings, and is saved only where it is new.
pub proof fn law_path_is_kept(m: AppModel)
    ensures
        ({
            let after = path_persisted(m);
            &&& after.config.game_executable_path == selected_path(m.launcher)
            &&& after.config.platform == m.config.platform
            &&& after.effects == if selected_path(m.launcher) == m.config.game_executable_path {
                m.effects
            } else {
                m.effects.push(EffectModel::SaveConfig)
            }
            &&& after.launcher == m.launcher && after.messages == m.messages
            &&& other_settings_kept(m, after)
            &&& only_launcher_differs(m, after)
        }),
{
}

/// Settings that could not be written are told of.
pub proof fn law_failed_save_is_told(m: AppModel, error: Seq<char>)
    ensures
        save_told(m, Some(error)).messages[0] == scrub("Could not save settings: "@ + error),
        save_told(m, Some(error)) == (AppModel {
            messages: save_told(m, Some(error)).messages,
            ..m
        }),
        save_told(m, None) == m,
{
    reveal(crate::app::logged);
}

// ----- the launcher ---------------------------------------------------------------

/// A launcher that is chosen is kept and saved. Epic, without a path, gets that
/// of its own copy of the game, the one of the start before the one found now;
/// a path that is there is never overwritten.
pub proof fn law_chosen_launcher_is_kept(
    m: AppModel,
    platform: LauncherPlatform,
    found: Option<Seq<char>>,
)
    ensures
        ({
            let after = launcher_set(m, platform, found);
            let fills = platform == LauncherPlatform::Epic && trim(
                m.launcher.game_path_text,
            ).len() == 0;
            &&& after.config.platform == platform
            &&& after.effects == m.effects.push(EffectModel::SaveConfig)
            &&& !after.launcher.force_close_available
            &&& after.launcher.readiness == m.launcher.readiness
            &&& after.launcher.detected_epic_exe == m.launcher.detected_epic_exe
            &&& after.launcher.detected_steam == m.launcher.detected_steam
            &&& after.messages == m.messages
            &&& other_settings_kept(m, after)
            &&& only_launcher_differs(m, after)
            &&& if fills && m.launcher.detected_epic_exe is Some {
                &&& after.launcher.game_path_text == m.launcher.detected_epic_exe->0
                &&& after.config.game_executable_path == m.launcher.detected_epic_exe
            } else if fills && found is Some {
                &&& after.launcher.game_path_text == found->0
                &&& after.config.game_executable_path == found
            } else {
                &&& after.launcher.game_path_text == m.launcher.game_path_text
                &&& after.config.game_executable_path == m.config.game_executable_path
            }
        }),
{
}

/// A switch leads from either store to the other, where that has the game, and
/// nowhere from a direct launch.
pub proof fn law_switch_leads_to_the_other_store(m: AppModel)
    ensures
        switch_target(m) matches Some(target) ==> target != effective(m) && (target
            == LauncherPlatform::Steam || target == LauncherPlatform::Epic),
        effective(m) == LauncherPlatform::Steam ==> (switch_target(m) is Some
            <==> m.launcher.detected_epic_exe is Some),
        effective(m) == LauncherPlatform::Epic ==> (switch_target(m) is Some
            <==> m.launcher.detected_steam),
        effective(m) == LauncherPlatform::Direct ==> switch_target(m) is None,
{
}

/// The launcher is ready where it was found to hand the key over, or where none
/// is needed.
pub proof fn law_ready_launcher(m: AppModel)
    ensures
        ready(m) <==> m.launcher.readiness.status == LauncherStatus::Ready || effective(m)
            == LauncherPlatform::Direct,
        m.config.platform == LauncherPlatform::Direct ==> ready(m),
{
}

/// A look at the processes is for the key in use and the launcher in effect,
/// and its time is kept. That the launcher was ready once is not forgotten.
pub proof fn law_readiness_is_looked_into(m: AppModel, facts: ProcessFacts, now: u64)
    ensures
        ({
            let after = readiness_refreshed(m, facts, now);
            &&& after.launcher.last_check == now
            &&& m.capture.sync_key_source matches Some(source) ==> after.launcher.readiness
                == readiness_of(effective(m), source.path, facts.game@, facts.launcher)
            &&& m.capture.sync_key_source is None ==> after.launcher.readiness.status
                == LauncherStatus::Unknown && after.launcher.readiness.detail
                == "Launch setup unavailable"@
            &&& m.launcher.was_ready ==> after.launcher.was_ready
            &&& after.launcher.readiness.status == LauncherStatus::Ready
                ==> after.launcher.was_ready
            &&& after.launcher.was_ready && !m.launcher.was_ready ==> ready(after)
            &&& after.launcher.game_running == m.launcher.game_running
            &&& after.launcher.game_path_text == m.launcher.game_path_text
            &&& after.launcher.preparing == m.launcher.preparing
            &&& after.launcher.force_close_available == m.launcher.force_close_available
            &&& after.config == m.config && after.messages == m.messages
            &&& after.effects == m.effects
            &&& only_launcher_differs(m, after)
        }),
{
}

// ----- preparing ------------------------------------------------------------------

/// A preparation begins exactly where the game can be started, there is a sync
/// key, and the launcher in effect has its program. Else the log says what is
/// missing, unless the game cannot be started: that the window shows by itself.
pub proof fn law_preparation_begins(
    m: AppModel,
    file: GameFile,
    steam: Seq<PathProbe>,
    epic: Seq<PathProbe>,
)
    ensures
        ({
            let after = prepare_begun(m, file, steam, epic);
            let has_program = (effective(m) == LauncherPlatform::Steam ==> steam_program(
                m.host,
                steam,
            ) is Some) && (effective(m) == LauncherPlatform::Epic ==> exists|i: int|
                0 <= i < epic.len() && (#[trigger] epic[i]).exists);
            let begins = game_ready(m, file) && m.capture.sync_key_source is Some && has_program;
            &&& after.launcher.preparing == (m.launcher.preparing || begins)
            &&& begins || !game_ready(m, file) ==> after.messages == m.messages
            &&& !begins && game_ready(m, file) ==> after.messages.len() > 0 && after.messages[0]
                == scrub("Launcher setup failed: "@ + plan_fault(m, steam, epic)->0)
            &&& m.capture.sync_key_source is None ==> plan_fault(m, steam, epic) == Some(
                "Launch setup unavailable"@,
            )
            &&& after.config.game_executable_path == selected_path(m.launcher)
            &&& after.config.platform == m.config.platform
            &&& other_settings_kept(m, after)
            &&& only_launcher_differs(m, after)
            &&& after.effects == if selected_path(m.launcher) == m.config.game_executable_path {
                m.effects
            } else {
                m.effects.push(EffectModel::SaveConfig)
            }
        }),
{
    reveal(crate::app::logged);
    law_first_present(epic);
}

/// A preparation that succeeded takes up the key of the plan, says that the
/// launcher is ready, and lets the capture start with it.
pub proof fn law_prepared_launcher_lets_the_capture_start(
    m: AppModel,
    plan: LauncherSetupPlan,
    facts: PrepareFacts,
)
    ensures
        ({
            let after = prepare_ended(m, plan, Ok(PrepareOutcome::Ready), facts);
            let index = m.capture.selected_interface_index;
            &&& !after.launcher.preparing && !after.launcher.force_close_available
            &&& after.launcher.was_ready
            &&& after.launcher.last_check == facts.now
            &&& after.launcher.readiness == readiness_of(
                effective(m),
                plan.setup_source.path@,
                facts.processes.game@,
                facts.processes.launcher,
            )
            &&& after.capture.sync_key_source is Some
            &&& after.capture.sync_key_source->0.path == plan.setup_source.path@
            &&& after.capture.sync_key_source->0.kind == plan.setup_source.kind
            &&& after.messages.len() > 0 && after.messages[0] == scrub(
                platform_label(plan.platform) + " is ready"@,
            )
            &&& after.config == m.config && after.session == m.session
            &&& after.submit == m.submit && after.tray == m.tray && after.update == m.update
            &&& if !m.capture.active && !m.capture.blocked && !m.tray.paused && facts.elevated
                && facts.key_is_file && index < m.capture.interfaces.len() {
                &&& after.capture.active
                &&& after.effects == m.effects.push(
                    EffectModel::StartCapture(
                        m.config.capture_method,
                        m.capture.interfaces[index as int].name@,
                        plan.setup_source.path@,
                    ),
                )
            } else {
                &&& after.capture.active == m.capture.active
                &&& after.effects == m.effects
            }
        }),
{
    reveal(crate::app::logged);
}

/// A launcher that did not close may be forced to from then on; an error leaves
/// that as it was. Either way the log says so, and the preparation is over.
pub proof fn law_preparation_that_did_not_succeed(
    m: AppModel,
    plan: LauncherSetupPlan,
    outcome: Result<PrepareOutcome, String>,
    facts: PrepareFacts,
)
    requires
        outcome is Err || outcome->Ok_0 == PrepareOutcome::StillRunning,
    ensures
        ({
            let after = prepare_ended(m, plan, outcome, facts);
            &&& !after.launcher.preparing
            &&& after.launcher.force_close_available == (outcome is Ok
                || m.launcher.force_close_available)
            &&& after.launcher.last_check == facts.now
            &&& after.launcher.readiness == current_readiness(m, facts.processes)
            &&& m.launcher.was_ready ==> after.launcher.was_ready
            &&& after.effects == m.effects && after.config == m.config
            &&& only_launcher_differs(m, after)
            &&& after.messages.len() > 0 && after.messages[0] == scrub(
                match outcome {
                    Ok(_) => platform_label(plan.platform) + " needs to close"@,
                    Err(error) => "Launcher setup failed: "@ + error@,
                },
            )
        }),
{
    reveal(crate::app::logged);
}

} // verus!
