//! The tray, the language, the work of each tick, and the end of the program.

use vstd::prelude::*;

use crate::app::data::{Effect, InterfaceInfo, Screen};
use crate::app::launcher::ProcessFacts;
use crate::app::ArcTrackerSyncApp;
use crate::i18n::resolve_locale_from;
use crate::launch::SyncKeyResolution;
use crate::text::{copy_opt, opt_eq, str_eq};
use crate::app::capture::{
    capture_started, capture_stopped, interfaces_refreshed, key_refreshed, key_unchanged,
    npcap_probe_due,
};
use crate::app::data::{ConfigModel, EffectModel};
use crate::app::launcher::readiness_refreshed;
use crate::app::state::{CaptureModel, TrayModel, UiModel};
use crate::app::sync::{retry_reset, signed_out, since, submit_started, SECOND};
use crate::app::{requested, AppModel};
use crate::i18n::resolved_locale;
use crate::text::{opt_str_view, opt_view};

verus! {

// ----- the tray -------------------------------------------------------------------

/// What the user can ask for in the tray's menu.
#[derive(Debug, Clone, Copy, PartialEq, Eq, Structural)]
pub enum TrayCommand {
    Open,
    TogglePause,
    SignOut,
    Quit,
}

/// The tray is told.
pub open spec fn tray_told(m: AppModel, effect: EffectModel) -> AppModel {
    if m.tray.present {
        requested(m, effect)
    } else {
        m
    }
}

/// Sync is paused, or goes on.
pub open spec fn pause_toggled(m: AppModel, elevated: bool, key_is_file: bool) -> AppModel {
    let toggled = AppModel { tray: TrayModel { paused: !m.tray.paused, ..m.tray }, ..m };
    tray_told(
        if toggled.tray.paused {
            capture_stopped(toggled)
        } else {
            capture_started(toggled, elevated, key_is_file)
        },
        EffectModel::SetTrayPaused(!m.tray.paused),
    )
}

/// The account that the tray's tooltip names: that of a synced account.
pub open spec fn tooltip_account(m: AppModel) -> Option<Seq<char>> {
    if m.submit.token_submitted {
        m.session.account_name
    } else {
        None
    }
}

/// The tray's tooltip is `text`; the tray is told only where that is new.
pub open spec fn tooltip_set(m: AppModel, text: Seq<char>) -> AppModel {
    if m.tray.tooltip == text {
        m
    } else {
        tray_told(
            AppModel { tray: TrayModel { tooltip: text, ..m.tray }, ..m },
            EffectModel::SetTooltip(text),
        )
    }
}

/// The screen is the one asked for.
pub open spec fn on_screen(m: AppModel, screen: Screen) -> AppModel {
    AppModel { ui: UiModel { screen, ..m.ui }, ..m }
}

/// A choice in the tray's menu was carried out.
pub open spec fn tray_commanded(
    m: AppModel,
    command: TrayCommand,
    elevated: bool,
    key_is_file: bool,
    clear_error: Option<Seq<char>>,
) -> AppModel {
    match command {
        TrayCommand::Open => requested(on_screen(m, Screen::Hub), EffectModel::ShowWindow),
        TrayCommand::TogglePause => pause_toggled(m, elevated, key_is_file),
        TrayCommand::SignOut => signed_out(m, clear_error),
        TrayCommand::Quit => m,
    }
}

/// A request to close the window hides it into the tray instead.
pub open spec fn hides_into_tray(m: AppModel) -> bool {
    m.config.keep_in_tray && m.tray.present && !m.tray.pending_close
}

impl ArcTrackerSyncApp {
    fn tell_tray(&mut self, effect: Effect)
        requires
            old(self).wf(),
        ensures
            final(self)@ == tray_told(old(self)@, effect@),
            final(self).wf(),
    {
        if self.tray.present {
            self.request(effect);
        }
    }

    fn set_paused(&mut self, paused: bool)
        requires
            old(self).wf(),
            paused ==> !old(self)@.capture.active,
        ensures
            final(self)@ == (AppModel {
                tray: TrayModel { paused, ..old(self)@.tray },
                ..old(self)@
            }),
            final(self).wf(),
    {
        self.tray.paused = paused;
    }

    /// Pauses sync, which stops the capture, or goes on with it.
    pub fn toggle_sync_paused(&mut self, elevated: bool, key_is_file: bool)
        requires
            old(self).wf(),
        ensures
            final(self)@ == pause_toggled(old(self)@, elevated, key_is_file),
            final(self).wf(),
    {
        let paused = !self.tray.paused;
        if paused {
            self.stop_capture();
            self.set_paused(true);
        } else {
            self.set_paused(false);
            self.maybe_start_background_capture(elevated, key_is_file);
        }
        self.tell_tray(Effect::SetTrayPaused(paused));
    }

    /// The account that the tray's tooltip names.
    pub fn tooltip_account_name(&self) -> (r: Option<String>)
        ensures
            opt_view(r) == tooltip_account(self@),
    {
        if self.submit.token_submitted {
            copy_opt(&self.session.account_name)
        } else {
            None
        }
    }

    fn keep_tooltip(&mut self, text: &str)
        requires
            old(self).wf(),
        ensures
            final(self)@ == (AppModel {
                tray: TrayModel { tooltip: text@, ..old(self)@.tray },
                ..old(self)@
            }),
            final(self).wf(),
    {
        self.tray.tooltip = text.to_owned();
    }

    /// Takes in the tooltip for [`Self::tooltip_account_name`].
    pub fn update_tray_tooltip(&mut self, text: &str)
        requires
            old(self).wf(),
        ensures
            final(self)@ == tooltip_set(old(self)@, text@),
            final(self).wf(),
    {
        if str_eq(self.tray.tooltip.as_str(), text) {
            return;
        }
        self.keep_tooltip(text);
        self.tell_tray(Effect::SetTooltip(text.to_owned()));
    }

    /// Shows a screen.
    pub fn show_screen(&mut self, screen: Screen)
        requires
            old(self).wf(),
        ensures
            final(self)@ == on_screen(old(self)@, screen),
            final(self).wf(),
    {
        self.ui.screen = screen;
    }

    /// Carries out a choice in the tray's menu; returns whether the program is
    /// to end.
    pub fn handle_tray_command(
        &mut self,
        command: TrayCommand,
        elevated: bool,
        key_is_file: bool,
        clear_error: &Option<String>,
    ) -> (r: bool)
        requires
            old(self).wf(),
        ensures
            final(self)@ == tray_commanded(
                old(self)@,
                command,
                elevated,
                key_is_file,
                opt_view(*clear_error),
            ),
            r == (command == TrayCommand::Quit),
            final(self).wf(),
    {
        match command {
            TrayCommand::Open => {
                self.show_screen(Screen::Hub);
                self.request(Effect::ShowWindow);
                false
            },
            TrayCommand::TogglePause => {
                self.toggle_sync_paused(elevated, key_is_file);
                false
            },
            TrayCommand::SignOut => {
                self.sign_out(clear_error);
                false
            },
            TrayCommand::Quit => true,
        }
    }

    /// Whether a request to close the window hides it into the tray instead.
    pub fn closes_into_tray(&self) -> (r: bool)
        ensures
            r == hides_into_tray(self@),
    {
        self.config.keep_in_tray && self.tray.present && !self.tray.pending_close
    }
}

// ----- the end --------------------------------------------------------------------

/// The program begins to quit.
pub open spec fn quit_begun(m: AppModel) -> AppModel {
    requested(
        AppModel { tray: TrayModel { pending_quit: true, ..m.tray }, ..m },
        EffectModel::StopWorker,
    )
}

/// Everything that outlives the window is asked to end.
pub open spec fn cleaned_up(m: AppModel) -> AppModel {
    requested(
        requested(
            capture_stopped(requested(m, EffectModel::StopWorker)),
            EffectModel::RemoveCaptureRule,
        ),
        EffectModel::ClearSyncKeyFile,
    )
}

impl ArcTrackerSyncApp {
    /// Begins to quit: the next frame finishes it, so that what has just come
    /// in is still stored.
    pub fn quit(&mut self)
        requires
            old(self).wf(),
        ensures
            final(self)@ == quit_begun(old(self)@),
            final(self).wf(),
    {
        self.tray.pending_quit = true;
        self.request(Effect::StopWorker);
    }

    /// Ends what outlives the window: the worker, the capture, the firewall
    /// rule, and the program's own sync key, which must not stay behind.
    pub fn shutdown_cleanup(&mut self)
        requires
            old(self).wf(),
        ensures
            final(self)@ == cleaned_up(old(self)@),
            final(self).wf(),
    {
        self.request(Effect::StopWorker);
        self.stop_capture();
        self.request(Effect::RemoveCaptureRule);
        self.request(Effect::ClearSyncKeyFile);
    }
}

/// No capture outlives the program.
pub proof fn law_cleanup_stops_the_capture(m: AppModel)
    ensures
        !cleaned_up(m).capture.active,
        m.capture.active ==> cleaned_up(m).effects == m.effects.push(EffectModel::StopWorker).push(
            EffectModel::StopCapture,
        ).push(EffectModel::RemoveCaptureRule).push(EffectModel::ClearSyncKeyFile),
{
}

// ----- the language ---------------------------------------------------------------

/// The user chose a language, or to follow the system's.
pub open spec fn language_changed(
    m: AppModel,
    language: Option<Seq<char>>,
    system: Option<Seq<char>>,
) -> AppModel {
    let locale = resolved_locale(language, system);
    if locale == m.ui.locale && language == m.config.language {
        m
    } else {
        requested(
            requested(
                requested(
                    requested(
                        AppModel {
                            config: ConfigModel { language, ..m.config },
                            ui: UiModel { locale, ..m.ui },
                            tray: TrayModel { tooltip: Seq::empty(), ..m.tray },
                            ..m
                        },
                        EffectModel::SaveConfig,
                    ),
                    EffectModel::SetLocale(locale),
                ),
                EffectModel::ApplyFonts(m.ui.picker_fonts_loaded),
            ),
            EffectModel::RefreshTooltip,
        )
    }
}

/// The fonts of the language picker are asked for once.
pub open spec fn picker_opened(m: AppModel) -> AppModel {
    if m.ui.picker_fonts_loaded {
        m
    } else {
        requested(
            AppModel { ui: UiModel { picker_fonts_loaded: true, ..m.ui }, ..m },
            EffectModel::ApplyFonts(true),
        )
    }
}

impl ArcTrackerSyncApp {
    fn adopt_language(&mut self, language: Option<String>, locale: &str)
        requires
            old(self).wf(),
        ensures
            final(self)@ == (AppModel {
                config: ConfigModel { language: opt_view(language), ..old(self)@.config },
                ui: UiModel { locale: locale@, ..old(self)@.ui },
                tray: TrayModel { tooltip: Seq::empty(), ..old(self)@.tray },
                ..old(self)@
            }),
            final(self).wf(),
    {
        self.config.language = language;
        self.ui.locale = locale.to_owned();
        self.tray.tooltip = String::new();
    }

    /// Changes to a language, or to that of the system; nothing happens where
    /// that is no change.
    pub fn change_language(&mut self, language: Option<String>, system: Option<&str>)
        requires
            old(self).wf(),
        ensures
            final(self)@ == language_changed(
                old(self)@,
                opt_view(language),
                opt_str_view(system),
            ),
            final(self).wf(),
    {
        let preferred = match &language {
            Some(tag) => Some(tag.as_str()),
            None => None,
        };
        let resolved = resolve_locale_from(preferred, system);
        if str_eq(resolved, self.ui.locale.as_str()) && opt_eq(&language, &self.config.language) {
            return;
        }
        let all = self.ui.picker_fonts_loaded;
        self.adopt_language(language, resolved);
        self.request(Effect::SaveConfig);
        self.request(Effect::SetLocale(resolved.to_owned()));
        self.request(Effect::ApplyFonts { all });
        self.request(Effect::RefreshTooltip);
    }

    /// The language picker opens: the first time, its fonts are loaded, and
    /// they stay for the session.
    pub fn ensure_picker_fonts(&mut self)
        requires
            old(self).wf(),
        ensures
            final(self)@ == picker_opened(old(self)@),
            final(self).wf(),
    {
        if self.ui.picker_fonts_loaded {
            return;
        }
        self.ui.picker_fonts_loaded = true;
        self.request(Effect::ApplyFonts { all: true });
    }
}

// ----- the work of a tick ---------------------------------------------------------

/// A part of the work that is done at each tick.
#[derive(Debug, Clone, Copy, PartialEq, Eq, Structural)]
pub enum BackgroundStep {
    PollAuth,
    PollCapture,
    PollSubmit,
    RetrySubmission,
    PollRefresh,
    RefreshLauncher,
    ProbeNpcap,
    RefreshGame,
    RefreshAuth,
    CheckForUpdate,
    PollUpdateCheck,
    PollUpdateInstall,
    StartCapture,
    UpdateTooltip,
}

/// The parts of the work, in order.
pub open spec fn background_steps() -> Seq<BackgroundStep> {
    seq![
        BackgroundStep::PollAuth,
        BackgroundStep::PollCapture,
        BackgroundStep::PollSubmit,
        BackgroundStep::RetrySubmission,
        BackgroundStep::PollRefresh,
        BackgroundStep::RefreshLauncher,
        BackgroundStep::ProbeNpcap,
        BackgroundStep::RefreshGame,
        BackgroundStep::RefreshAuth,
        BackgroundStep::CheckForUpdate,
        BackgroundStep::PollUpdateCheck,
        BackgroundStep::PollUpdateInstall,
        BackgroundStep::StartCapture,
        BackgroundStep::UpdateTooltip,
    ]
}

/// A part of the work is wanted: what looks at processes only at its times,
/// and no capture starts while sync is paused.
pub open spec fn step_wanted(m: AppModel, step: BackgroundStep, now: u64) -> bool {
    match step {
        BackgroundStep::RefreshLauncher => since(m.launcher.last_check, now) >= 2 * SECOND,
        BackgroundStep::ProbeNpcap => npcap_probe_due(m, now),
        BackgroundStep::RefreshGame => since(m.launcher.last_game_check, now) >= 3 * SECOND,
        BackgroundStep::StartCapture => !m.tray.paused,
        _ => true,
    }
}

/// The first wanted part from the `k`-th on, with its number.
pub open spec fn step_from(m: AppModel, k: nat, now: u64) -> Option<(BackgroundStep, nat)>
    decreases background_steps().len() - k,
{
    if k >= background_steps().len() {
        None
    } else if step_wanted(m, background_steps()[k as int], now) {
        Some((background_steps()[k as int], k))
    } else {
        step_from(m, k + 1, now)
    }
}

/// The parts of the work, in order.
pub fn background_step_list() -> (r: Vec<BackgroundStep>)
    ensures
        r@ == background_steps(),
{
    let r: Vec<BackgroundStep> = vec![
        BackgroundStep::PollAuth,
        BackgroundStep::PollCapture,
        BackgroundStep::PollSubmit,
        BackgroundStep::RetrySubmission,
        BackgroundStep::PollRefresh,
        BackgroundStep::RefreshLauncher,
        BackgroundStep::ProbeNpcap,
        BackgroundStep::RefreshGame,
        BackgroundStep::RefreshAuth,
        BackgroundStep::CheckForUpdate,
        BackgroundStep::PollUpdateCheck,
        BackgroundStep::PollUpdateInstall,
        BackgroundStep::StartCapture,
        BackgroundStep::UpdateTooltip,
    ];
    r
}

impl ArcTrackerSyncApp {
    fn wants_step(&self, step: BackgroundStep, now: u64) -> (r: bool)
        ensures
            r == step_wanted(self@, step, now),
    {
        match step {
            BackgroundStep::RefreshLauncher => self.launcher_check_due(now),
            BackgroundStep::ProbeNpcap => self.npcap_check_due(now),
            BackgroundStep::RefreshGame => self.game_check_due(now),
            BackgroundStep::StartCapture => !self.tray.paused,
            _ => true,
        }
    }

    /// The next part of the work of a tick, from the `k`-th part on, with its
    /// number; `None` where the tick is over. While the program quits, there is
    /// no work.
    pub fn run_background_work(&self, k: usize, now: u64) -> (r: Option<(BackgroundStep, usize)>)
        ensures
            match r {
                Some((step, n)) => !self@.tray.pending_quit && step_from(self@, k as nat, now)
                    == Some((step, n as nat)) && k <= n < background_steps().len(),
                None => self@.tray.pending_quit || step_from(self@, k as nat, now) is None,
            },
    {
        if self.tray.pending_quit {
            return None;
        }
        let steps = background_step_list();
        let mut i: usize = k;
        while i < steps.len()
            invariant
                k <= i,
                steps@ == background_steps(),
                !self@.tray.pending_quit,
                step_from(self@, k as nat, now) == step_from(self@, i as nat, now),
            decreases steps.len() - i,
        {
            if self.wants_step(steps[i], now) {
                return Some((steps[i], i));
            }
            i += 1;
        }
        None
    }
}

// ----- trying again ---------------------------------------------------------------

/// What a fresh attempt finds.
#[derive(Debug, Clone, PartialEq, Eq)]
pub struct RetryFacts {
    pub processes: ProcessFacts,
    pub now: u64,
    pub elevated: bool,
    /// The sync key that was looked up exists and is a file.
    pub key_is_file: bool,
}

/// The user asked to try again: everything that may have stopped the sync is
/// looked into afresh, and the token at hand is submitted.
pub open spec fn tried_again(
    m: AppModel,
    scan: Result<Vec<InterfaceInfo>, String>,
    key: Result<SyncKeyResolution, String>,
    facts: RetryFacts,
) -> AppModel {
    let cleared = retry_reset(
        AppModel {
            capture: CaptureModel { blocked: false, npcap_available: None, ..m.capture },
            ..m
        },
    );
    let scanned = interfaces_refreshed(cleared, scan);
    let keyed = key_refreshed(scanned, key);
    let checked = if key_unchanged(scanned, key) {
        keyed
    } else {
        readiness_refreshed(keyed, facts.processes, facts.now)
    };
    submit_started(capture_started(checked, facts.elevated, facts.key_is_file))
}

impl ArcTrackerSyncApp {
    fn clear_obstacles(&mut self)
        requires
            old(self).wf(),
        ensures
            final(self)@ == (AppModel {
                capture: CaptureModel {
                    blocked: false,
                    npcap_available: None,
                    ..old(self)@.capture
                },
                ..old(self)@
            }),
            final(self).wf(),
    {
        self.capture.blocked = false;
        self.capture.npcap_available = None;
    }

    /// Tries again, after a scan of the adapters and a lookup of the sync key.
    pub fn try_again(
        &mut self,
        scan: Result<Vec<InterfaceInfo>, String>,
        key: &Result<SyncKeyResolution, String>,
        facts: &RetryFacts,
    )
        requires
            old(self).wf(),
        ensures
            final(self)@ == tried_again(old(self)@, scan, *key, *facts),
            final(self).wf(),
    {
        self.clear_obstacles();
        self.reset_submit_retry_state();
        self.refresh_interfaces(scan);
        if self.refresh_sync_key_source(key) {
            self.refresh_launcher_readiness(&facts.processes, facts.now);
        }
        self.maybe_start_background_capture(facts.elevated, facts.key_is_file);
        self.submit_latest_token_if_ready();
    }
}

} // verus!
