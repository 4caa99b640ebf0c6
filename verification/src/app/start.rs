//! The start of the client: which launcher a first run picks, what becomes of
//! the saved sign-in, and the state that everything begins in.

use vstd::prelude::*;

use crate::app::data::{
    AppConfig, CaptureStats, Effect, InterfaceInfo, Screen, UpdateState,
};
use crate::app::launcher::ProcessFacts;
use crate::app::state::{
    CaptureState, LauncherState, SessionState, SubmitState, TrayState, UiState, UpdaterState,
};
use crate::app::sync::backdate;
use crate::app::updates::UPDATE_CHECK_INTERVAL;
use crate::app::ArcTrackerSyncApp;
use crate::i18n::resolve_locale_from;
use crate::launch::{
    launcher_readiness, resolve_platform, HostOs, LauncherPlatform, LauncherReadiness,
    LauncherStatus, SyncKeyResolution,
};
use crate::numerals::to_signed_decimal;
use crate::process_env::LauncherProcess;
use crate::text::{cat2, cat3, copy_opt};
use crate::app::capture::{copy_skipped, interfaces_refreshed, resolution_told};
use crate::app::data::{effect_views, no_stats, ConfigModel, EffectModel, UpdateModel};
use crate::app::launcher::some_found;
use crate::app::state::{
    CaptureModel, LauncherModel, SessionModel, SubmitModel, TrayModel, UiModel, UpdaterModel,
};
use crate::app::sync::{backdated, launch_refreshed};
use crate::app::{pushed, requested, tidy, AppModel};
use crate::i18n::resolved_locale;
use crate::launch::paths::resolved_platform;
use crate::launch::readiness::{readiness_of, ReadinessModel};
use crate::numerals::signed_decimal;
use crate::text::{opt_view, views};

verus! {

// ----- the launcher of a first run ------------------------------------------------

/// A launcher was left open, and no path is known: the store that has the game
/// is picked. Steam comes first, since it starts the game by a number and needs
/// no path.
pub open spec fn first_choice(
    config: ConfigModel,
    steam: bool,
    epic: Option<Seq<char>>,
) -> ConfigModel {
    if config.platform != LauncherPlatform::Auto || config.game_executable_path is Some {
        config
    } else if steam {
        ConfigModel { platform: LauncherPlatform::Steam, ..config }
    } else if epic is Some {
        ConfigModel {
            platform: LauncherPlatform::Epic,
            game_executable_path: epic,
            ..config
        }
    } else {
        config
    }
}

/// A first run picks a launcher.
pub open spec fn picks_first(config: ConfigModel, steam: bool, epic: Option<Seq<char>>) -> bool {
    config.platform == LauncherPlatform::Auto && config.game_executable_path is None && (steam
        || epic is Some)
}

/// Picks the launcher of a first run; returns whether the settings changed and
/// are to be written.
pub fn choose_first_launcher(
    config: &mut AppConfig,
    detected_steam: bool,
    detected_epic_exe: &Option<String>,
) -> (r: bool)
    ensures
        final(config)@ == first_choice(
            old(config)@,
            detected_steam,
            opt_view(*detected_epic_exe),
        ),
        r == picks_first(old(config)@, detected_steam, opt_view(*detected_epic_exe)),
{
    if config.platform != LauncherPlatform::Auto || config.game_executable_path.is_some() {
        return false;
    }
    if detected_steam {
        config.platform = LauncherPlatform::Steam;
        true
    } else if detected_epic_exe.is_some() {
        config.platform = LauncherPlatform::Epic;
        config.game_executable_path = copy_opt(detected_epic_exe);
        true
    } else {
        false
    }
}

// ----- the saved sign-in ----------------------------------------------------------

/// What was found of a saved sign-in.
#[derive(Debug, Clone, PartialEq, Eq)]
pub enum SavedSignIn {
    /// One that can be used, with the days that it has left.
    Current { token: String, days_remaining: Option<i64> },
    /// One that cannot, with the days that it has left where it says so.
    Outdated { days_remaining: Option<i64> },
    Missing,
    Unreadable(String),
}

/// What the log says of the saved sign-in.
pub open spec fn sign_in_text(saved: SavedSignIn) -> Seq<char> {
    match saved {
        SavedSignIn::Current { token, days_remaining } => "Sign-in restored."@,
        SavedSignIn::Outdated { days_remaining } => match days_remaining {
            Some(days) => "Saved sign-in not current ("@ + signed_decimal(days as int)
                + " days left). Sign in again."@,
            None => "Saved sign-in couldn't be read. Sign in again."@,
        },
        SavedSignIn::Missing => "No saved sign-in found."@,
        SavedSignIn::Unreadable(error) => "Could not read saved sign-in: "@ + error@,
    }
}

/// The sign-in that is restored.
pub open spec fn restored(saved: SavedSignIn) -> Option<Seq<char>> {
    match saved {
        SavedSignIn::Current { token, days_remaining } => Some(token@),
        _ => None,
    }
}

/// The days that a restored sign-in has left, where it says so.
pub open spec fn restored_days(saved: SavedSignIn) -> Option<i64> {
    match saved {
        SavedSignIn::Current { token, days_remaining } => days_remaining,
        _ => None,
    }
}

impl SavedSignIn {
    /// What the log says of the saved sign-in.
    pub fn message(&self) -> (r: String)
        ensures
            r@ == sign_in_text(*self),
    {
        match self {
            SavedSignIn::Current { .. } => "Sign-in restored.".to_owned(),
            SavedSignIn::Outdated { days_remaining } => match *days_remaining {
                Some(days) => {
                    let number = to_signed_decimal(days);
                    cat3(
                        "Saved sign-in not current (",
                        number.as_str(),
                        " days left). Sign in again.",
                    )
                },
                None => "Saved sign-in couldn't be read. Sign in again.".to_owned(),
            },
            SavedSignIn::Missing => "No saved sign-in found.".to_owned(),
            SavedSignIn::Unreadable(error) => {
                cat2("Could not read saved sign-in: ", error.as_str())
            },
        }
    }

    fn token(&self) -> (r: Option<String>)
        ensures
            opt_view(r) == restored(*self),
    {
        match self {
            SavedSignIn::Current { token, .. } => Some(token.clone()),
            _ => None,
        }
    }

    fn days(&self) -> (r: Option<i64>)
        ensures
            r == restored_days(*self),
    {
        match self {
            SavedSignIn::Current { days_remaining, .. } => *days_remaining,
            _ => None,
        }
    }
}

// ----- the first state ------------------------------------------------------------

/// What the client starts with.
pub struct StartFacts {
    pub host: HostOs,
    /// The settings, with the launcher of a first run picked.
    pub config: AppConfig,
    pub detected_steam: bool,
    pub detected_epic_exe: Option<String>,
    pub install_locations: Vec<String>,
    pub system_language: Option<String>,
    pub sync_key: Result<SyncKeyResolution, String>,
    pub saved_sign_in: SavedSignIn,
    pub processes: ProcessFacts,
    /// The processes under each of the game's names.
    pub game: Vec<Option<Vec<LauncherProcess>>>,
    pub interfaces: Result<Vec<InterfaceInfo>, String>,
    /// The tooltip of a tray without an account.
    pub tooltip: String,
    pub now: u64,
}

/// Ten seconds: what was last done so long before the start is due at once.
pub const LONG_AGO: u64 = 10_000_000_000;

/// Whether the launcher hands the sync key over, as far as is known at the start.
pub open spec fn first_readiness(f: StartFacts) -> ReadinessModel {
    let platform = resolved_platform(
        f.config@.platform,
        f.config@.game_executable_path,
        views(f.install_locations@),
    );
    match f.sync_key {
        Ok(resolution) => readiness_of(
            platform,
            resolution.source.path@,
            f.processes.game@,
            f.processes.launcher,
        ),
        Err(_) => ReadinessModel {
            platform,
            status: LauncherStatus::Unknown,
            process_count: 0,
            detail: "Launch setup unavailable"@,
        },
    }
}

/// The capture at the start.
pub open spec fn first_capture(f: StartFacts) -> CaptureModel {
    CaptureModel {
        interfaces: Seq::empty(),
        selected_interface_index: 0,
        sync_key_source: match f.sync_key {
            Ok(resolution) => Some(resolution.source@),
            Err(_) => None,
        },
        sync_key_skipped: match f.sync_key {
            Ok(resolution) => resolution.skipped@,
            Err(_) => Seq::empty(),
        },
        active: false,
        blocked: false,
        npcap_available: None,
        last_npcap_check: backdated(f.now, LONG_AGO),
        stats: no_stats(),
        latest_token: None,
    }
}

/// The game and its launcher at the start.
pub open spec fn first_launcher(f: StartFacts) -> LauncherModel {
    LauncherModel {
        readiness: first_readiness(f),
        last_check: f.now,
        force_close_available: false,
        preparing: false,
        was_ready: first_readiness(f).status == LauncherStatus::Ready,
        detected_steam: f.detected_steam,
        detected_epic_exe: opt_view(f.detected_epic_exe),
        install_locations: views(f.install_locations@),
        game_path_text: match f.config@.game_executable_path {
            Some(path) => path,
            None => Seq::empty(),
        },
        game_running: false,
        last_game_check: backdated(f.now, LONG_AGO),
    }
}

/// The submission at the start.
pub open spec fn first_submit() -> SubmitModel {
    SubmitModel {
        attempts: 0,
        last_error: None,
        failed_at: None,
        failures: 0,
        refreshed: false,
        gave_up: false,
        pending: false,
        token_submitted: false,
        fingerprint: None,
        sync_enabled: false,
    }
}

/// The state that everything begins in. The language is asked for at once.
pub open spec fn first_state(f: StartFacts) -> AppModel {
    let locale = resolved_locale(f.config@.language, opt_view(f.system_language));
    AppModel {
        host: f.host,
        config: f.config@,
        ui: UiModel {
            locale,
            picker_fonts_loaded: false,
            screen: Screen::Hub,
            show_activity_log: false,
            show_explainer: false,
        },
        capture: first_capture(f),
        launcher: first_launcher(f),
        session: SessionModel {
            auth_token: restored(f.saved_sign_in),
            account_name: None,
            auth_pending: false,
            refresh_pending: false,
            last_refresh_attempt: f.now,
            refresh_after_unauthorized: false,
        },
        submit: first_submit(),
        tray: TrayModel {
            present: false,
            tooltip: f.tooltip@,
            paused: false,
            pending_close: false,
            pending_quit: false,
        },
        update: UpdaterModel {
            state: UpdateModel::Idle,
            current_release: None,
            show_modal: false,
            check_pending: false,
            progress_pending: false,
            done_pending: false,
            last_check: backdated(f.now, UPDATE_CHECK_INTERVAL),
        },
        messages: Seq::empty(),
        effects: seq![EffectModel::SetLocale(locale)],
    }
}

/// The log says what became of the sync key and of the saved sign-in.
pub open spec fn start_told(f: StartFacts) -> AppModel {
    let first = first_state(f);
    pushed(
        match f.sync_key {
            Ok(resolution) => resolution_told(first, resolution),
            Err(error) => pushed(first, "Local sync setup unavailable: "@ + error@),
        },
        sign_in_text(f.saved_sign_in),
    )
}

/// A sign-in that cannot be used is forgotten, and so is an entry that once
/// started the program with the system.
pub open spec fn start_tidied(f: StartFacts) -> AppModel {
    let told = start_told(f);
    requested(
        if f.saved_sign_in is Outdated {
            requested(told, EffectModel::ForgetSignIn)
        } else {
            told
        },
        EffectModel::RemoveStartupEntry,
    )
}

/// The state after the start.
pub open spec fn started(f: StartFacts) -> AppModel {
    let tidied = start_tidied(f);
    let looked = AppModel {
        launcher: LauncherModel {
            game_running: some_found(f.game@),
            last_game_check: f.now,
            ..tidied.launcher
        },
        ..tidied
    };
    launch_refreshed(
        interfaces_refreshed(looked, f.interfaces),
        restored_days(f.saved_sign_in),
        f.now,
    )
}

impl StartFacts {
    fn readiness(&self) -> (r: LauncherReadiness)
        ensures
            r@ == first_readiness(*self),
    {
        let game = match &self.config.game_executable_path {
            Some(path) => Some(path.as_str()),
            None => None,
        };
        match &self.sync_key {
            Ok(resolution) => launcher_readiness(
                self.config.platform,
                game,
                &self.install_locations,
                resolution.source.path.as_str(),
                &self.processes.game,
                &self.processes.launcher,
            ),
            Err(_) => LauncherReadiness {
                platform: resolve_platform(self.config.platform, game, &self.install_locations),
                status: LauncherStatus::Unknown,
                process_count: 0,
                detail: "Launch setup unavailable".to_owned(),
            },
        }
    }

    fn capture(&self) -> (r: CaptureState)
        ensures
            r@ == first_capture(*self),
    {
        let (source, skipped) = match &self.sync_key {
            Ok(resolution) => (Some(resolution.source.copy()), copy_skipped(&resolution.skipped)),
            Err(_) => (None, Vec::new()),
        };
        CaptureState {
            interfaces: Vec::new(),
            selected_interface_index: 0,
            sync_key_source: source,
            sync_key_skipped: skipped,
            active: false,
            blocked: false,
            npcap_available: None,
            last_npcap_check: backdate(self.now, LONG_AGO),
            stats: CaptureStats::default(),
            latest_token: None,
        }
    }

    fn launcher(&self) -> (r: LauncherState)
        ensures
            r@ == first_launcher(*self),
    {
        let readiness = self.readiness();
        let was_ready = readiness.status == LauncherStatus::Ready;
        let game_path_text = match &self.config.game_executable_path {
            Some(path) => path.clone(),
            None => String::new(),
        };
        assert(self.config.game_executable_path is None ==> game_path_text@ =~= Seq::<
            char,
        >::empty());
        let locations = copy_all(&self.install_locations);
        LauncherState {
            readiness,
            last_check: self.now,
            force_close_available: false,
            preparing: false,
            was_ready,
            detected_steam: self.detected_steam,
            detected_epic_exe: copy_opt(&self.detected_epic_exe),
            install_locations: locations,
            game_path_text,
            game_running: false,
            last_game_check: backdate(self.now, LONG_AGO),
        }
    }

    fn locale(&self) -> (r: &'static str)
        ensures
            r@ == resolved_locale(self.config@.language, opt_view(self.system_language)),
    {
        let preferred = match &self.config.language {
            Some(tag) => Some(tag.as_str()),
            None => None,
        };
        let system = match &self.system_language {
            Some(tag) => Some(tag.as_str()),
            None => None,
        };
        resolve_locale_from(preferred, system)
    }

    fn config(&self) -> (r: AppConfig)
        ensures
            r@ == self.config@,
    {
        AppConfig {
            platform: self.config.platform,
            game_executable_path: copy_opt(&self.config.game_executable_path),
            language: copy_opt(&self.config.language),
            selected_interface: copy_opt(&self.config.selected_interface),
            keep_in_tray: self.config.keep_in_tray,
            capture_method: self.config.capture_method,
        }
    }

    /// The state that everything begins in.
    fn first(&self) -> (r: ArcTrackerSyncApp)
        ensures
            r@ == first_state(*self),
            r.wf(),
    {
        let locale = self.locale();
        let app = ArcTrackerSyncApp {
            host: self.host,
            config: self.config(),
            ui: UiState {
                locale: locale.to_owned(),
                picker_fonts_loaded: false,
                screen: Screen::Hub,
                show_activity_log: false,
                show_explainer: false,
            },
            capture: self.capture(),
            launcher: self.launcher(),
            session: SessionState {
                auth_token: self.saved_sign_in.token(),
                account_name: None,
                auth_pending: false,
                refresh_pending: false,
                last_refresh_attempt: self.now,
                refresh_after_unauthorized: false,
            },
            submit: SubmitState {
                attempts: 0,
                last_error: None,
                failed_at: None,
                failures: 0,
                refreshed: false,
                gave_up: false,
                pending: false,
                token_submitted: false,
                fingerprint: None,
                sync_enabled: false,
            },
            tray: TrayState {
                present: false,
                tooltip: self.tooltip.clone(),
                paused: false,
                pending_close: false,
                pending_quit: false,
            },
            update: UpdaterState {
                state: UpdateState::Idle,
                current_release: None,
                show_modal: false,
                check_pending: false,
                progress_pending: false,
                done_pending: false,
                last_check: backdate(self.now, UPDATE_CHECK_INTERVAL),
            },
            messages: Vec::new(),
            effects: vec![Effect::SetLocale(locale.to_owned())],
        };
        assert(views(app.messages@) =~= Seq::<Seq<char>>::empty());
        assert(effect_views(app.effects@) =~= first_state(*self).effects);
        assert(tidy(app@.messages)) by {
            reveal(tidy);
        }
        app
    }
}

fn copy_all(texts: &Vec<String>) -> (r: Vec<String>)
    ensures
        views(r@) == views(texts@),
{
    let ghost all = views(texts@);
    let mut r: Vec<String> = Vec::new();
    let mut i: usize = 0;
    while i < texts.len()
        invariant
            i <= texts@.len(),
            all == views(texts@),
            views(r@) == all.take(i as int),
        decreases texts.len() - i,
    {
        let ghost before = r@;
        r.push(texts[i].clone());
        assert(views(r@) =~= views(before).push(all[i as int]));
        i += 1;
    }
    r
}

/// A tray was made, or not. Only Windows has one.
pub open spec fn tray_made(m: AppModel, outcome: Result<(), String>) -> AppModel {
    if m.host != HostOs::Windows {
        m
    } else {
        match outcome {
            Ok(()) => AppModel { tray: TrayModel { present: true, ..m.tray }, ..m },
            Err(error) => pushed(m, "Tray unavailable: "@ + error@),
        }
    }
}

impl ArcTrackerSyncApp {
    fn tell_start(&mut self, facts: &StartFacts)
        requires
            old(self)@ == first_state(*facts),
            old(self).wf(),
        ensures
            final(self)@ == start_told(*facts),
            final(self).wf(),
    {
        match &facts.sync_key {
            Ok(resolution) => self.tell_resolution(resolution),
            Err(error) => {
                let text = cat2("Local sync setup unavailable: ", error.as_str());
                self.push_message(text.as_str());
            },
        }
        let text = facts.saved_sign_in.message();
        self.push_message(text.as_str());
    }

    fn tidy_start(&mut self, facts: &StartFacts)
        requires
            old(self)@ == start_told(*facts),
            old(self).wf(),
        ensures
            final(self)@ == start_tidied(*facts),
            final(self).wf(),
    {
        if let SavedSignIn::Outdated { .. } = &facts.saved_sign_in {
            self.request(Effect::ForgetSignIn);
        }
        self.request(Effect::RemoveStartupEntry);
    }

    /// Starts the client.
    pub fn new(facts: StartFacts) -> (r: ArcTrackerSyncApp)
        ensures
            r@ == started(facts),
            r.wf(),
    {
        let mut app = facts.first();
        app.tell_start(&facts);
        app.tidy_start(&facts);
        app.refresh_game_running(&facts.game, facts.now);
        let days = facts.saved_sign_in.days();
        app.refresh_interfaces(facts.interfaces);
        app.maybe_refresh_auth_on_launch(days, facts.now);
        app
    }

    /// Takes in whether a tray could be made. Only Windows has one; elsewhere
    /// closing the window ends the program.
    pub fn init_tray(&mut self, outcome: &Result<(), String>)
        requires
            old(self).wf(),
        ensures
            final(self)@ == tray_made(old(self)@, *outcome),
            final(self).wf(),
    {
        if self.host != HostOs::Windows {
            return;
        }
        match outcome {
            Ok(()) => {
                self.tray.present = true;
            },
            Err(error) => {
                let text = cat2("Tray unavailable: ", error.as_str());
                self.push_message(text.as_str());
            },
        }
    }
}

} // verus!
