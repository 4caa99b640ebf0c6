//! The parts of the client's state, each with what it says.

use vstd::prelude::*;

use crate::app::data::{
    CaptureStats, InterfaceInfo, ReleaseInfo, Screen, TokenObservation, UpdateState,
};
use crate::launch::{LauncherReadiness, SkippedSyncKey, SyncKeySource};
use crate::app::data::UpdateModel;
use crate::launch::readiness::ReadinessModel;
use crate::launch::sync_key::{opt_source, SourceModel};
use crate::text::{opt_view, views};

verus! {

/// What the window shows.
pub struct UiState {
    pub locale: String,
    /// The fonts of the whole language picker are loaded.
    pub picker_fonts_loaded: bool,
    pub screen: Screen,
    pub show_activity_log: bool,
    pub show_explainer: bool,
}

/// What it says.
pub struct UiModel {
    pub locale: Seq<char>,
    pub picker_fonts_loaded: bool,
    pub screen: Screen,
    pub show_activity_log: bool,
    pub show_explainer: bool,
}

impl View for UiState {
    type V = UiModel;

    open spec fn view(&self) -> UiModel {
        UiModel {
            locale: self.locale@,
            picker_fonts_loaded: self.picker_fonts_loaded,
            screen: self.screen,
            show_activity_log: self.show_activity_log,
            show_explainer: self.show_explainer,
        }
    }
}

/// The capture and what it runs on.
pub struct CaptureState {
    pub interfaces: Vec<InterfaceInfo>,
    pub selected_interface_index: usize,
    pub sync_key_source: Option<SyncKeySource>,
    /// Overrides of the sync key that were passed over, for the diagnostics.
    pub sync_key_skipped: Vec<SkippedSyncKey>,
    /// A capture is running.
    pub active: bool,
    /// A capture failed, and none is started until something changes.
    pub blocked: bool,
    /// Whether Npcap is installed; none until it was looked for.
    pub npcap_available: Option<bool>,
    pub last_npcap_check: u64,
    pub stats: CaptureStats,
    pub latest_token: Option<TokenObservation>,
}

/// What it says.
pub struct CaptureModel {
    pub interfaces: Seq<InterfaceInfo>,
    pub selected_interface_index: usize,
    pub sync_key_source: Option<SourceModel>,
    pub sync_key_skipped: Seq<SkippedSyncKey>,
    pub active: bool,
    pub blocked: bool,
    pub npcap_available: Option<bool>,
    pub last_npcap_check: u64,
    pub stats: CaptureStats,
    pub latest_token: Option<TokenObservation>,
}

impl View for CaptureState {
    type V = CaptureModel;

    open spec fn view(&self) -> CaptureModel {
        CaptureModel {
            interfaces: self.interfaces@,
            selected_interface_index: self.selected_interface_index,
            sync_key_source: opt_source(self.sync_key_source),
            sync_key_skipped: self.sync_key_skipped@,
            active: self.active,
            blocked: self.blocked,
            npcap_available: self.npcap_available,
            last_npcap_check: self.last_npcap_check,
            stats: self.stats,
            latest_token: self.latest_token,
        }
    }
}

/// The game and its launcher.
pub struct LauncherState {
    pub readiness: LauncherReadiness,
    pub last_check: u64,
    /// The launcher did not close when asked to.
    pub force_close_available: bool,
    pub preparing: bool,
    /// The launcher was ready before in this session.
    pub was_ready: bool,
    /// Steam has the game, as found at the start.
    pub detected_steam: bool,
    /// Epic's copy of the game, as found at the start.
    pub detected_epic_exe: Option<String>,
    /// Where Epic has installed games.
    pub install_locations: Vec<String>,
    pub game_path_text: String,
    pub game_running: bool,
    pub last_game_check: u64,
}

/// What it says.
pub struct LauncherModel {
    pub readiness: ReadinessModel,
    pub last_check: u64,
    pub force_close_available: bool,
    pub preparing: bool,
    pub was_ready: bool,
    pub detected_steam: bool,
    pub detected_epic_exe: Option<Seq<char>>,
    pub install_locations: Seq<Seq<char>>,
    pub game_path_text: Seq<char>,
    pub game_running: bool,
    pub last_game_check: u64,
}

impl View for LauncherState {
    type V = LauncherModel;

    open spec fn view(&self) -> LauncherModel {
        LauncherModel {
            readiness: self.readiness@,
            last_check: self.last_check,
            force_close_available: self.force_close_available,
            preparing: self.preparing,
            was_ready: self.was_ready,
            detected_steam: self.detected_steam,
            detected_epic_exe: opt_view(self.detected_epic_exe),
            install_locations: views(self.install_locations@),
            game_path_text: self.game_path_text@,
            game_running: self.game_running,
            last_game_check: self.last_game_check,
        }
    }
}

/// The sign-in.
pub struct SessionState {
    pub auth_token: Option<String>,
    pub account_name: Option<String>,
    /// A sign-in is under way.
    pub auth_pending: bool,
    /// A refresh of the sign-in is under way.
    pub refresh_pending: bool,
    pub last_refresh_attempt: u64,
    /// The refresh under way is to be followed by a submission.
    pub refresh_after_unauthorized: bool,
}

/// What it says.
pub struct SessionModel {
    pub auth_token: Option<Seq<char>>,
    pub account_name: Option<Seq<char>>,
    pub auth_pending: bool,
    pub refresh_pending: bool,
    pub last_refresh_attempt: u64,
    pub refresh_after_unauthorized: bool,
}

impl View for SessionState {
    type V = SessionModel;

    open spec fn view(&self) -> SessionModel {
        SessionModel {
            auth_token: opt_view(self.auth_token),
            account_name: opt_view(self.account_name),
            auth_pending: self.auth_pending,
            refresh_pending: self.refresh_pending,
            last_refresh_attempt: self.last_refresh_attempt,
            refresh_after_unauthorized: self.refresh_after_unauthorized,
        }
    }
}

/// The submission of captured tokens.
pub struct SubmitState {
    /// Submissions started in this session.
    pub attempts: u32,
    /// The last failure, with user names scrubbed.
    pub last_error: Option<String>,
    /// When the last submission failed; none while idle, synced or stopped.
    pub failed_at: Option<u64>,
    /// Failures in a row for the current token.
    pub failures: u32,
    /// The sign-in was refreshed for the current row of failures.
    pub refreshed: bool,
    /// Retries have stopped until the user acts or a new token arrives.
    pub gave_up: bool,
    /// A submission is under way.
    pub pending: bool,
    /// The account was synced in this session.
    pub token_submitted: bool,
    /// The token that was submitted last.
    pub fingerprint: Option<String>,
    pub sync_enabled: bool,
}

/// What it says.
pub struct SubmitModel {
    pub attempts: u32,
    pub last_error: Option<Seq<char>>,
    pub failed_at: Option<u64>,
    pub failures: u32,
    pub refreshed: bool,
    pub gave_up: bool,
    pub pending: bool,
    pub token_submitted: bool,
    pub fingerprint: Option<Seq<char>>,
    pub sync_enabled: bool,
}

impl View for SubmitState {
    type V = SubmitModel;

    open spec fn view(&self) -> SubmitModel {
        SubmitModel {
            attempts: self.attempts,
            last_error: opt_view(self.last_error),
            failed_at: self.failed_at,
            failures: self.failures,
            refreshed: self.refreshed,
            gave_up: self.gave_up,
            pending: self.pending,
            token_submitted: self.token_submitted,
            fingerprint: opt_view(self.fingerprint),
            sync_enabled: self.sync_enabled,
        }
    }
}

/// The tray and the end of the program.
pub struct TrayState {
    /// There is a tray.
    pub present: bool,
    pub tooltip: String,
    /// Sync is paused.
    pub paused: bool,
    pub pending_close: bool,
    /// A quit is under way: the next frame finishes it.
    pub pending_quit: bool,
}

/// What it says.
pub struct TrayModel {
    pub present: bool,
    pub tooltip: Seq<char>,
    pub paused: bool,
    pub pending_close: bool,
    pub pending_quit: bool,
}

impl View for TrayState {
    type V = TrayModel;

    open spec fn view(&self) -> TrayModel {
        TrayModel {
            present: self.present,
            tooltip: self.tooltip@,
            paused: self.paused,
            pending_close: self.pending_close,
            pending_quit: self.pending_quit,
        }
    }
}

/// The updater.
pub struct UpdaterState {
    pub state: UpdateState,
    pub current_release: Option<ReleaseInfo>,
    pub show_modal: bool,
    /// A check for a release is under way.
    pub check_pending: bool,
    /// An installation is under way.
    pub progress_pending: bool,
    /// The installation's result is awaited.
    pub done_pending: bool,
    pub last_check: u64,
}

/// What it says.
pub struct UpdaterModel {
    pub state: UpdateModel,
    pub current_release: Option<ReleaseInfo>,
    pub show_modal: bool,
    pub check_pending: bool,
    pub progress_pending: bool,
    pub done_pending: bool,
    pub last_check: u64,
}

impl View for UpdaterState {
    type V = UpdaterModel;

    open spec fn view(&self) -> UpdaterModel {
        UpdaterModel {
            state: self.state@,
            current_release: self.current_release,
            show_modal: self.show_modal,
            check_pending: self.check_pending,
            progress_pending: self.progress_pending,
            done_pending: self.done_pending,
            last_check: self.last_check,
        }
    }
}

} // verus!
