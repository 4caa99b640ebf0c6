//! What the start, the tray, the updater and a fresh attempt are for: laws on
//! what each leaves behind.

use vstd::prelude::*;

use crate::app::capture::interfaces_refreshed;
use crate::app::capture_laws::{
    law_key_is_taken_up, law_scan_keeps_the_choice, lemma_notices_only_log,
};
use crate::app::data::{
    ConfigModel, EffectModel, InstallProgress, InterfaceInfo, Polled, ReleaseInfo, Screen,
    UpdateModel,
};
use crate::app::launcher::some_found;
use crate::app::lifecycle::{
    background_steps, cleaned_up, hides_into_tray, language_changed, pause_toggled, picker_opened,
    quit_begun, step_wanted, tooltip_account, tooltip_set, tray_commanded, tried_again,
    BackgroundStep, RetryFacts, TrayCommand,
};
use crate::app::redaction::scrub;
use crate::app::start::{
    first_choice, picks_first, restored, restored_days, sign_in_text, started, tray_made, SavedSignIn,
    StartFacts,
};
use crate::app::sync::{refresh_ends_session, refresh_polled, submit_ends_session};
use crate::app::updates::{
    install_done, install_polled, install_started, relaunch_told, update_check_polled, update_check_started,
};
use crate::app::{AppModel, SubmitError, SubmitReceipt};
use crate::i18n::resolved_locale;
use crate::launch::{HostOs, LauncherPlatform, LauncherStatus, SyncKeyResolution};
use crate::text::{opt_view, views};

verus! {

// ----- the start ------------------------------------------------------------------

/// A first run picks the store that has the game, Steam before Epic, and with
/// Epic the path of its copy. A choice that was made, or a path that is known,
/// is left alone, and so are the other settings.
pub proof fn law_first_run_picks_a_store(
    config: ConfigModel,
    steam: bool,
    epic: Option<Seq<char>>,
)
    ensures
        ({
            let after = first_choice(config, steam, epic);
            &&& after.language == config.language
            &&& after.selected_interface == config.selected_interface
            &&& after.keep_in_tray == config.keep_in_tray
            &&& after.capture_method == config.capture_method
            &&& if config.platform == LauncherPlatform::Auto && config.game_executable_path is None
                && (steam || epic is Some) {
                &&& after.platform == if steam {
                    LauncherPlatform::Steam
                } else {
                    LauncherPlatform::Epic
                }
                &&& after.game_executable_path == if steam {
                    None
                } else {
                    epic
                }
            } else {
                after == config
            }
        }),
{
}

/// A saved sign-in that can be used is used; no other is.
pub proof fn law_saved_sign_in_is_restored(saved: SavedSignIn)
    ensures
        saved is Current ==> restored(saved) == Some(saved->token@),
        !(saved is Current) ==> restored(saved) is None,
        saved matches SavedSignIn::Current { token, days_remaining } ==> restored_days(saved)
            == days_remaining,
{
}

/// The client starts with the settings, the key and the sign-in that were found,
/// with nothing captured, submitted or under way, and tells of the sign-in.
pub proof fn law_start_takes_everything_up(facts: StartFacts)
    ensures
        ({
            let m = started(facts);
            &&& m.host == facts.host
            &&& m.config == facts.config@
            &&& m.session.auth_token == (if facts.saved_sign_in is Current {
                Some(facts.saved_sign_in->token@)
            } else {
                None
            })
            &&& m.session.account_name is None && !m.session.auth_pending
            &&& !m.capture.active && m.capture.latest_token is None
            &&& facts.sync_key matches Ok(resolution) ==> m.capture.sync_key_source == Some(
                resolution.source@,
            ) && m.capture.sync_key_skipped == resolution.skipped@
            &&& facts.sync_key is Err ==> m.capture.sync_key_source is None
            &&& !m.submit.pending && !m.submit.token_submitted && m.submit.fingerprint is None
            &&& m.submit.attempts == 0 && m.submit.failures == 0 && !m.submit.gave_up
            &&& m.submit.failed_at is None && m.submit.last_error is None
            &&& m.launcher.detected_steam == facts.detected_steam
            &&& m.launcher.detected_epic_exe == opt_view(facts.detected_epic_exe)
            &&& m.launcher.install_locations == views(facts.install_locations@)
            &&& m.launcher.game_path_text == match facts.config@.game_executable_path {
                Some(path) => path,
                None => Seq::empty(),
            }
            &&& m.launcher.game_running == some_found(facts.game@)
            &&& m.launcher.last_game_check == facts.now && m.launcher.last_check == facts.now
            &&& !m.launcher.preparing && !m.launcher.force_close_available
            &&& m.launcher.was_ready <==> m.launcher.readiness.status == LauncherStatus::Ready
            &&& m.tray.tooltip == facts.tooltip@
            &&& !m.tray.present && !m.tray.paused && !m.tray.pending_quit && !m.tray.pending_close
            &&& m.update.state is Idle && !m.update.check_pending && !m.update.progress_pending
            &&& m.ui.screen == Screen::Hub
            &&& m.ui.locale == resolved_locale(
                facts.config@.language,
                opt_view(facts.system_language),
            )
            &&& facts.interfaces matches Ok(interfaces) ==> m.capture.interfaces == interfaces@
                && !m.capture.blocked
            &&& facts.interfaces is Err ==> m.capture.interfaces.len() == 0 && m.capture.blocked
        }),
{
    lemma_start(facts);
}

proof fn lemma_start(facts: StartFacts)
    ensures
        ({
            let tidied = crate::app::start::start_tidied(facts);
            let first = crate::app::start::first_state(facts);
            tidied == (AppModel { messages: tidied.messages, effects: tidied.effects, ..first })
        }),
{
    let first = crate::app::start::first_state(facts);
    if let Ok(resolution) = facts.sync_key {
        lemma_notices_only_log(first, resolution.skipped@, resolution.skipped@.len());
    }
}

/// A sign-in that is outdated is forgotten, an old startup entry is removed, and
/// a sign-in with fewer than seven days left is refreshed.
pub proof fn law_start_asks_for(facts: StartFacts)
    ensures
        ({
            let m = started(facts);
            &&& m.effects.contains(EffectModel::RemoveStartupEntry)
            &&& facts.saved_sign_in is Outdated <==> m.effects.contains(EffectModel::ForgetSignIn)
            &&& facts.saved_sign_in matches SavedSignIn::Current { token, days_remaining } ==> {
                &&& m.session.refresh_pending <==> days_remaining is None || days_remaining->0 < 7
                &&& m.session.refresh_pending ==> m.effects.contains(
                    EffectModel::StartRefresh(token@),
                )
            }
            &&& !(facts.saved_sign_in is Current) ==> !m.session.refresh_pending
        }),
{
    lemma_start(facts);
    let first = crate::app::start::first_state(facts);
    if let Ok(resolution) = facts.sync_key {
        lemma_notices_only_log(first, resolution.skipped@, resolution.skipped@.len());
    }
    let m = started(facts);
    let set = EffectModel::SetLocale(first.ui.locale);
    let base = if facts.saved_sign_in is Outdated {
        seq![set, EffectModel::ForgetSignIn, EffectModel::RemoveStartupEntry]
    } else {
        seq![set, EffectModel::RemoveStartupEntry]
    };
    let tidied = crate::app::start::start_tidied(facts);
    assert(tidied.effects =~= base);
    let all = if m.session.refresh_pending {
        base.push(EffectModel::StartRefresh(first.session.auth_token->0))
    } else {
        base
    };
    assert(m.effects == all);
    assert(base[base.len() - 1] == EffectModel::RemoveStartupEntry);
    assert(all[base.len() - 1] == EffectModel::RemoveStartupEntry);
    if facts.saved_sign_in is Outdated {
        assert(all[1] == EffectModel::ForgetSignIn);
    }
    if m.session.refresh_pending {
        assert(all[base.len() as int] == EffectModel::StartRefresh(first.session.auth_token->0));
    }
}

/// What is told of the sign-in: that it was restored, how many days an outdated
/// one has, that there is none, or why it could not be read.
pub proof fn law_sign_in_is_told(saved: SavedSignIn)
    ensures
        saved matches SavedSignIn::Current { token, days_remaining } ==> sign_in_text(saved)
            == "Sign-in restored."@,
        saved matches SavedSignIn::Outdated { days_remaining: Some(days) } ==> sign_in_text(saved)
            == "Saved sign-in not current ("@ + crate::numerals::signed_decimal(days as int)
            + " days left). Sign in again."@,
        saved is Missing ==> sign_in_text(saved) == "No saved sign-in found."@,
        saved matches SavedSignIn::Unreadable(error) ==> sign_in_text(saved)
            == "Could not read saved sign-in: "@ + error@,
{
}

/// Only Windows has a tray, and one that could not be made is told of.
pub proof fn law_tray_is_made(m: AppModel, outcome: Result<(), String>)
    ensures
        ({
            let after = tray_made(m, outcome);
            &&& m.host == HostOs::Linux ==> after == m
            &&& m.host == HostOs::Windows && outcome is Ok ==> after.tray.present
                && after.messages == m.messages
            &&& m.host == HostOs::Windows ==> (outcome matches Err(error) ==> after.tray == m.tray
                && after.messages[0] == scrub("Tray unavailable: "@ + error@))
            &&& after.tray.paused == m.tray.paused && after.tray.tooltip == m.tray.tooltip
            &&& after.config == m.config && after.capture == m.capture
            &&& after.session == m.session && after.submit == m.submit
            &&& after.effects == m.effects
        }),
{
    reveal(crate::app::logged);
}

// ----- the tray -------------------------------------------------------------------

/// Nothing changes but the tray, the window, the capture and the requests.
pub open spec fn only_window_differs(m: AppModel, after: AppModel) -> bool {
    &&& after.host == m.host
    &&& after.launcher == m.launcher
    &&& after.session == m.session
    &&& after.submit == m.submit
    &&& after.update == m.update
    &&& after.messages == m.messages
}

/// Toggling pauses sync or goes on with it. Going on starts a capture where one
/// can start, and a tray that is there is told.
pub proof fn law_toggling_pauses_and_goes_on(m: AppModel, elevated: bool, key_is_file: bool)
    ensures
        ({
            let after = pause_toggled(m, elevated, key_is_file);
            &&& after.tray.paused == !m.tray.paused
            &&& after.tray.tooltip == m.tray.tooltip && after.tray.present == m.tray.present
            &&& after.config == m.config && after.ui == m.ui
            &&& only_window_differs(m, after)
            &&& m.tray.present ==> after.effects.len() > 0 && after.effects.last()
                == EffectModel::SetTrayPaused(!m.tray.paused)
            &&& !m.tray.paused ==> !after.capture.active
            &&& !m.tray.paused && m.capture.active ==> after.effects[m.effects.len() as int]
                == EffectModel::StopCapture
            &&& m.tray.paused && !m.capture.active ==> (after.capture.active <==> elevated
                && key_is_file && !m.capture.blocked && m.capture.sync_key_source is Some
                && m.capture.selected_interface_index < m.capture.interfaces.len())
            &&& after.capture.sync_key_source == m.capture.sync_key_source
            &&& after.capture.interfaces == m.capture.interfaces
        }),
{
}

/// The tooltip names the account only where it is synced.
pub proof fn law_tooltip_names_a_synced_account(m: AppModel)
    ensures
        m.submit.token_submitted ==> tooltip_account(m) == m.session.account_name,
        !m.submit.token_submitted ==> tooltip_account(m) is None,
{
}

/// A new tooltip is kept and shown, an old one is not shown again.
pub proof fn law_tooltip_is_shown_once(m: AppModel, text: Seq<char>)
    ensures
        ({
            let after = tooltip_set(m, text);
            &&& after.tray.tooltip == text
            &&& after.tray.paused == m.tray.paused && after.tray.present == m.tray.present
            &&& after.effects == if m.tray.tooltip != text && m.tray.present {
                m.effects.push(EffectModel::SetTooltip(text))
            } else {
                m.effects
            }
            &&& after.config == m.config && after.ui == m.ui && after.capture == m.capture
            &&& only_window_differs(m, after)
            &&& tooltip_set(after, text) == after
        }),
{
}

/// The tray's menu does what its entries say: it shows the hub, toggles the
/// pause, signs out; to quit is up to the caller.
pub proof fn law_tray_menu(
    m: AppModel,
    elevated: bool,
    key_is_file: bool,
    clear_error: Option<Seq<char>>,
)
    ensures
        ({
            let opened = tray_commanded(m, TrayCommand::Open, elevated, key_is_file, clear_error);
            let toggled = tray_commanded(
                m,
                TrayCommand::TogglePause,
                elevated,
                key_is_file,
                clear_error,
            );
            let out = tray_commanded(m, TrayCommand::SignOut, elevated, key_is_file, clear_error);
            &&& opened.ui.screen == Screen::Hub
            &&& opened.ui.locale == m.ui.locale
            &&& opened.effects == m.effects.push(EffectModel::ShowWindow)
            &&& opened.config == m.config && opened.capture == m.capture && opened.tray == m.tray
            &&& only_window_differs(m, opened)
            &&& toggled.tray.paused == !m.tray.paused
            &&& out.session.auth_token is None && out.session.account_name is None
            &&& tray_commanded(m, TrayCommand::Quit, elevated, key_is_file, clear_error) == m
        }),
{
}

/// Closing the window hides it only where the settings say so, there is a tray,
/// and no close is under way.
pub proof fn law_window_hides_into_the_tray(m: AppModel)
    ensures
        hides_into_tray(m) ==> m.config.keep_in_tray && m.tray.present,
        m.config.keep_in_tray && m.tray.present && !m.tray.pending_close ==> hides_into_tray(m),
        m.tray.pending_close ==> !hides_into_tray(m),
{
}

// ----- the end --------------------------------------------------------------------

/// A quit that begins stops the worker, and from then on no work is done.
pub proof fn law_quit_begins(m: AppModel)
    ensures
        quit_begun(m).tray.pending_quit,
        quit_begun(m).effects == m.effects.push(EffectModel::StopWorker),
        quit_begun(m).tray.paused == m.tray.paused,
        quit_begun(m).config == m.config && quit_begun(m).capture == m.capture,
        only_window_differs(m, quit_begun(m)),
{
}

/// The end clears the program's own key file last, after the capture has
/// stopped, and removes the rule for the capture.
pub proof fn law_cleanup_leaves_nothing(m: AppModel)
    ensures
        ({
            let after = cleaned_up(m);
            &&& !after.capture.active
            &&& after.effects.last() == EffectModel::ClearSyncKeyFile
            &&& after.effects[after.effects.len() - 2] == EffectModel::RemoveCaptureRule
            &&& after.effects[m.effects.len() as int] == EffectModel::StopWorker
            &&& after.effects.len() == m.effects.len() + if m.capture.active {
                4int
            } else {
                3
            }
            &&& m.capture.active ==> after.effects[m.effects.len() as int + 1] == EffectModel::StopCapture
            &&& after.config == m.config && after.tray == m.tray && after.ui == m.ui
            &&& only_window_differs(m, after)
        }),
{
}

// ----- the language ---------------------------------------------------------------

/// A language that is chosen is kept and saved; the interface, the fonts and the
/// tooltip follow it.
pub proof fn law_language_is_changed(
    m: AppModel,
    language: Option<Seq<char>>,
    system: Option<Seq<char>>,
)
    ensures
        ({
            let after = language_changed(m, language, system);
            let locale = resolved_locale(language, system);
            &&& after.config.language == language
            &&& after.ui.locale == locale
            &&& after.config.platform == m.config.platform
            &&& after.config.game_executable_path == m.config.game_executable_path
            &&& after.config.selected_interface == m.config.selected_interface
            &&& after.config.keep_in_tray == m.config.keep_in_tray
            &&& after.config.capture_method == m.config.capture_method
            &&& after.ui.screen == m.ui.screen
            &&& after.capture == m.capture
            &&& only_window_differs(m, after)
            &&& if m.ui.locale == locale && m.config.language == language {
                after == m
            } else {
                &&& after.effects == m.effects + seq![
                    EffectModel::SaveConfig,
                    EffectModel::SetLocale(locale),
                    EffectModel::ApplyFonts(m.ui.picker_fonts_loaded),
                    EffectModel::RefreshTooltip,
                ]
                &&& after.tray.tooltip.len() == 0
            }
        }),
{
    let after = language_changed(m, language, system);
    let locale = resolved_locale(language, system);
    if !(m.ui.locale == locale && m.config.language == language) {
        assert(after.effects =~= m.effects + seq![
            EffectModel::SaveConfig,
            EffectModel::SetLocale(locale),
            EffectModel::ApplyFonts(m.ui.picker_fonts_loaded),
            EffectModel::RefreshTooltip,
        ]);
    }
}

/// The fonts of the language picker are loaded when it first opens, and never
/// again.
pub proof fn law_picker_fonts_are_loaded_once(m: AppModel)
    ensures
        picker_opened(m).ui.picker_fonts_loaded,
        !m.ui.picker_fonts_loaded ==> picker_opened(m).effects == m.effects.push(
            EffectModel::ApplyFonts(true),
        ),
        picker_opened(picker_opened(m)) == picker_opened(m),
        m.ui.picker_fonts_loaded ==> picker_opened(m) == m,
        picker_opened(m).ui.locale == m.ui.locale,
        picker_opened(m).config == m.config,
        only_window_differs(m, picker_opened(m)),
{
}

// ----- the work of a tick ---------------------------------------------------------

/// Every part of the work is there, each once, what comes in before what is
/// started, and the tooltip last.
pub proof fn law_no_part_is_left_out(step: BackgroundStep)
    ensures
        background_steps().contains(step),
        forall|i: int, j: int|
            0 <= i < background_steps().len() && 0 <= j < background_steps().len()
                && #[trigger] background_steps()[i] == #[trigger] background_steps()[j] ==> i == j,
        background_steps().last() == BackgroundStep::UpdateTooltip,
        background_steps()[0] == BackgroundStep::PollAuth,
{
    let steps = background_steps();
    let i: int = match step {
        BackgroundStep::PollAuth => 0,
        BackgroundStep::PollCapture => 1,
        BackgroundStep::PollSubmit => 2,
        BackgroundStep::RetrySubmission => 3,
        BackgroundStep::PollRefresh => 4,
        BackgroundStep::RefreshLauncher => 5,
        BackgroundStep::ProbeNpcap => 6,
        BackgroundStep::RefreshGame => 7,
        BackgroundStep::RefreshAuth => 8,
        BackgroundStep::CheckForUpdate => 9,
        BackgroundStep::PollUpdateCheck => 10,
        BackgroundStep::PollUpdateInstall => 11,
        BackgroundStep::StartCapture => 12,
        BackgroundStep::UpdateTooltip => 13,
    };
    assert(steps[i] == step);
}

/// What comes in is always taken in; processes are looked at when it is time,
/// and no capture starts while sync is paused.
pub proof fn law_parts_have_their_times(m: AppModel, step: BackgroundStep, now: u64)
    ensures
        match step {
            BackgroundStep::RefreshLauncher => step_wanted(m, step, now) <==> now
                - m.launcher.last_check >= 2_000_000_000,
            BackgroundStep::RefreshGame => step_wanted(m, step, now) <==> now
                - m.launcher.last_game_check >= 3_000_000_000,
            BackgroundStep::StartCapture => step_wanted(m, step, now) <==> !m.tray.paused,
            BackgroundStep::ProbeNpcap => step_wanted(m, step, now) ==> m.config.capture_method
                == crate::app::CaptureMethod::Npcap,
            _ => step_wanted(m, step, now),
        },
{
}

// ----- updates --------------------------------------------------------------------

/// Nothing changes but the updater, the log and the requests.
pub open spec fn only_update_differs(m: AppModel, after: AppModel) -> bool {
    &&& after.host == m.host
    &&& after.config == m.config
    &&& after.ui == m.ui
    &&& after.capture == m.capture
    &&& after.launcher == m.launcher
    &&& after.session == m.session
    &&& after.submit == m.submit
    &&& after.tray == m.tray
}

/// A newer release is looked for once an hour on Windows, and not while one is
/// known or something is under way.
pub proof fn law_update_is_looked_for(m: AppModel, now: u64)
    ensures
        ({
            let after = update_check_started(m, now);
            if m.host == HostOs::Windows && !m.update.check_pending && !m.update.progress_pending
                && (m.update.state is Idle || m.update.state is Failed) && now
                - m.update.last_check >= 3600 * 1_000_000_000 {
                &&& after.update.check_pending && after.update.last_check == now
                &&& after.update.state == m.update.state
                &&& after.update.current_release == m.update.current_release
                &&& after.effects == m.effects.push(EffectModel::StartUpdateCheck)
                &&& after.messages == m.messages
                &&& only_update_differs(m, after)
            } else {
                after == m
            }
        }),
{
}

/// A release that is newer is available from then on; any other result only
/// ends the search.
pub proof fn law_newer_release_is_offered(
    m: AppModel,
    event: Polled<Result<ReleaseInfo, String>>,
    newer: bool,
)
    ensures
        ({
            let after = update_check_polled(m, event, newer);
            if !m.update.check_pending || event is Empty {
                after == m
            } else {
                &&& !after.update.check_pending
                &&& after.effects == m.effects && after.messages == m.messages
                &&& after.update.last_check == m.update.last_check
                &&& after.update.progress_pending == m.update.progress_pending
                &&& after.update.show_modal == m.update.show_modal
                &&& only_update_differs(m, after)
                &&& if newer && (event matches Polled::Value(result) && result is Ok) {
                    &&& after.update.state is Available
                    &&& after.update.current_release == Some(event->Value_0->Ok_0)
                } else {
                    &&& after.update.state == m.update.state
                    &&& after.update.current_release == m.update.current_release
                }
            }
        }),
{
}

/// The release that is chosen is the one that is installed, one at a time, and
/// its size is the total of the download where it is known.
pub proof fn law_chosen_release_is_installed(m: AppModel, release: ReleaseInfo)
    ensures
        ({
            let after = install_started(m, release);
            if m.update.progress_pending {
                after == m
            } else {
                &&& after.effects == m.effects.push(EffectModel::StartInstall(release))
                &&& after.update.progress_pending && after.update.done_pending
                &&& after.update.state == UpdateModel::Downloading(
                    0,
                    if release.size == 0 {
                        None
                    } else {
                        Some(release.size)
                    },
                )
                &&& after.update.current_release == m.update.current_release
                &&& after.messages == m.messages
                &&& only_update_differs(m, after)
            }
        }),
{
}

/// Where the installation is, by its last report.
pub open spec fn shown_progress(progress: InstallProgress) -> UpdateModel {
    match progress {
        InstallProgress::Downloading { received, total } => UpdateModel::Downloading(
            received,
            total,
        ),
        InstallProgress::Verifying => UpdateModel::Verifying,
        InstallProgress::Installing => UpdateModel::Installing,
    }
}

/// An installation shows its last report until it ends; then it is relaunching,
/// or it failed, with the error to show, and another can be started.
pub proof fn law_installation_is_followed(
    m: AppModel,
    progress: Seq<InstallProgress>,
    done: Polled<Result<(), String>>,
)
    requires
        m.update.progress_pending,
        m.update.done_pending,
    ensures
        ({
            let after = install_polled(m, progress, done);
            &&& after.effects == m.effects
            &&& after.update.current_release == m.update.current_release
            &&& after.update.show_modal == m.update.show_modal
            &&& only_update_differs(m, after)
            &&& match done {
                Polled::Empty => {
                    &&& after.update.progress_pending && after.update.done_pending
                    &&& after.messages == m.messages
                    &&& after.update.state == if progress.len() > 0 {
                        shown_progress(progress.last())
                    } else {
                        m.update.state
                    }
                },
                Polled::Value(Ok(())) => {
                    &&& after.update.state is Relaunching
                    &&& !after.update.progress_pending && !after.update.done_pending
                    &&& after.messages == m.messages
                },
                Polled::Value(Err(error)) => {
                    &&& after.update.state == UpdateModel::Failed(error@)
                    &&& !after.update.progress_pending && !after.update.done_pending
                    &&& after.messages[0] == scrub("Update could not be installed."@)
                },
                Polled::Disconnected => {
                    &&& after.update.state == UpdateModel::Failed(
                        "The update stopped unexpectedly."@,
                    )
                    &&& !after.update.progress_pending && !after.update.done_pending
                    &&& after.messages == m.messages
                },
            }
        }),
{
    reveal(crate::app::logged);
}

/// Without an installation under way its reports change nothing.
pub proof fn law_stray_progress_changes_nothing(
    m: AppModel,
    progress: Seq<InstallProgress>,
    done: Polled<Result<(), String>>,
)
    requires
        !m.update.progress_pending,
        !m.update.done_pending,
    ensures
        install_polled(m, progress, done) == m,
{
}

/// A new version that could not be started is told of, with the error to show.
pub proof fn law_failed_relaunch_is_told(m: AppModel, error: Seq<char>)
    ensures
        relaunch_told(m, error).update.state == UpdateModel::Failed(error),
        relaunch_told(m, error).messages[0] == scrub(
            "Update installed, but the app couldn't restart automatically."@,
        ),
        relaunch_told(m, error).effects == m.effects,
        only_update_differs(m, relaunch_told(m, error)),
{
    reveal(crate::app::logged);
}

// ----- when the stored sign-in goes -----------------------------------------------

/// The stored sign-in goes exactly where a refresh signs a user out who was
/// refused before.
pub proof fn law_stored_sign_in_goes_after_a_refresh(
    m: AppModel,
    event: Polled<Result<String, SubmitError>>,
    save_error: Option<Seq<char>>,
    clear_error: Option<Seq<char>>,
)
    requires
        m.session.auth_token is Some,
    ensures
        refresh_ends_session(m, event) <==> refresh_polled(
            m,
            event,
            save_error,
            clear_error,
        ).session.auth_token is None,
{
}

/// It goes after a submission only where a refusal found nobody signed in.
pub proof fn law_stored_sign_in_goes_after_a_refusal(
    m: AppModel,
    event: Polled<Result<SubmitReceipt, SubmitError>>,
)
    ensures
        submit_ends_session(m, event) <==> {
            &&& m.submit.pending && !m.submit.refreshed && m.session.auth_token is None
            &&& event matches Polled::Value(Err(error)) && error.status == Some(401u16)
        },
{
}

// ----- trying again ---------------------------------------------------------------

/// Trying again forgets what stood in the way: the retries begin anew, nothing
/// is blocked where the adapters could be listed, and the settings, the sign-in
/// and the pause stay as they are.
pub proof fn law_trying_again_clears_the_way(
    m: AppModel,
    interfaces: Vec<InterfaceInfo>,
    resolution: SyncKeyResolution,
    facts: RetryFacts,
)
    requires
        interfaces@.len() > 0,
    ensures
        ({
            let after = tried_again(m, Ok(interfaces), Ok(resolution), facts);
            &&& after.submit.failures == 0 && !after.submit.gave_up && after.submit.failed_at is None
            &&& !after.submit.refreshed
            &&& !after.capture.blocked
            &&& after.capture.interfaces == interfaces@
            &&& after.capture.sync_key_source == Some(resolution.source@)
            &&& after.config == m.config && after.session == m.session && after.tray == m.tray
            &&& after.update == m.update
            &&& !m.tray.paused && facts.elevated && facts.key_is_file ==> after.capture.active
        }),
{
    let cleared = crate::app::sync::retry_reset(
        AppModel {
            capture: crate::app::state::CaptureModel {
                blocked: false,
                npcap_available: None,
                ..m.capture
            },
            ..m
        },
    );
    let scanned = interfaces_refreshed(cleared, Ok(interfaces));
    law_scan_keeps_the_choice(cleared, interfaces);
    law_key_is_taken_up(scanned, resolution);
}

/// A token at hand is submitted again at once, where it still counts: the
/// capture it came from runs on.
pub proof fn law_trying_again_submits(
    m: AppModel,
    interfaces: Vec<InterfaceInfo>,
    resolution: SyncKeyResolution,
    facts: RetryFacts,
)
    requires
        interfaces@.len() > 0,
        m.capture.active,
        m.capture.sync_key_source == Some(resolution.source@),
        m.capture.selected_interface_index < m.capture.interfaces.len(),
        ({
            let after = tried_again(m, Ok(interfaces), Ok(resolution), facts);
            interfaces@[after.capture.selected_interface_index as int].name@
                == m.capture.interfaces[m.capture.selected_interface_index as int].name@
        }),
        m.session.auth_token is Some,
        m.capture.latest_token is Some,
        !m.submit.pending,
        m.submit.fingerprint != Some(m.capture.latest_token->0.fingerprint@),
    ensures
        ({
            let after = tried_again(m, Ok(interfaces), Ok(resolution), facts);
            &&& after.submit.pending
            &&& after.effects.len() > 0 && after.effects.last() == EffectModel::StartSubmit(
                m.session.auth_token->0,
                m.capture.latest_token->0,
            )
        }),
{
    let cleared = crate::app::sync::retry_reset(
        AppModel {
            capture: crate::app::state::CaptureModel {
                blocked: false,
                npcap_available: None,
                ..m.capture
            },
            ..m
        },
    );
    law_scan_keeps_the_choice(cleared, interfaces);
    let scanned = interfaces_refreshed(cleared, Ok(interfaces));
    law_key_is_taken_up(scanned, resolution);
}

// ----- what follows the start -----------------------------------------------------

/// The settings of a first run are written exactly where it changed them.
pub proof fn law_first_run_is_saved(config: ConfigModel, steam: bool, epic: Option<Seq<char>>)
    ensures
        picks_first(config, steam, epic) <==> first_choice(config, steam, epic) != config,
{
    if picks_first(config, steam, epic) {
        assert(first_choice(config, steam, epic).platform != LauncherPlatform::Auto);
    }
}

/// A release is looked for right after the start, on a system that has been up
/// for an hour.
pub proof fn law_update_is_looked_for_at_the_start(facts: StartFacts)
    requires
        facts.host == HostOs::Windows,
        facts.now >= 3600 * 1_000_000_000,
    ensures
        update_check_started(started(facts), facts.now).update.check_pending,
        update_check_started(started(facts), facts.now).effects.last()
            == EffectModel::StartUpdateCheck,
{
    lemma_start(facts);
}

/// The new version is started exactly where the installation ended well.
pub proof fn law_new_version_is_started(
    m: AppModel,
    progress: Seq<InstallProgress>,
    done: Polled<Result<(), String>>,
)
    requires
        m.update.progress_pending && m.update.done_pending,
        progress.len() == 0,
        !(m.update.state is Relaunching),
    ensures
        install_done(m, done) <==> install_polled(m, progress, done).update.state is Relaunching,
        !install_done(
            AppModel {
                update: crate::app::state::UpdaterModel { done_pending: false, ..m.update },
                ..m
            },
            done,
        ),
{
}

/// A fresh look at the network takes up what it finds, and neither starts a
/// capture nor submits anything; Npcap is looked for anew.
pub proof fn law_network_is_looked_into(
    m: AppModel,
    interfaces: Vec<InterfaceInfo>,
    resolution: SyncKeyResolution,
    facts: RetryFacts,
)
    requires
        interfaces@.len() > 0,
    ensures
        ({
            let after = crate::app::screens::network_refreshed(
                m,
                Ok(interfaces),
                Ok(resolution),
                facts,
            );
            &&& after.capture.interfaces == interfaces@
            &&& after.capture.sync_key_source == Some(resolution.source@)
            &&& after.capture.npcap_available is None
            &&& after.capture.active ==> m.capture.active
            &&& after.submit.pending == m.submit.pending
            &&& after.config == m.config && after.session == m.session && after.tray == m.tray
            &&& m.capture.sync_key_source != Some(resolution.source@)
                ==> after.launcher.last_check == facts.now
        }),
{
    let scanned = interfaces_refreshed(m, Ok(interfaces));
    law_scan_keeps_the_choice(m, interfaces);
    law_key_is_taken_up(scanned, resolution);
}

/// Trying again where the adapters cannot be listed leaves the capture blocked.
pub proof fn law_trying_again_without_adapters(
    m: AppModel,
    error: String,
    resolution: SyncKeyResolution,
    facts: RetryFacts,
)
    requires
        m.capture.sync_key_source == Some(resolution.source@),
    ensures
        ({
            let after = tried_again(m, Err(error), Ok(resolution), facts);
            &&& after.capture.blocked && !after.capture.active
            &&& after.capture.interfaces.len() == 0
            &&& after.submit.failures == 0 && !after.submit.gave_up
            &&& after.config == m.config && after.session == m.session
        }),
{
}

} // verus!
