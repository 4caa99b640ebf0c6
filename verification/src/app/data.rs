//! The data that the client works on.

use vstd::prelude::*;

use crate::launch::LauncherPlatform;
use crate::text::opt_view;

verus! {

// ----- settings -------------------------------------------------------------------

/// How traffic is captured.
#[derive(Debug, Clone, Copy, PartialEq, Eq, Structural)]
pub enum CaptureMethod {
    RawSocket,
    Npcap,
}

/// The screens of the window.
#[derive(Debug, Clone, Copy, PartialEq, Eq, Structural)]
pub enum Screen {
    Hub,
    Settings,
}

/// The settings that are kept on disk.
#[derive(Debug, Clone, PartialEq, Eq)]
pub struct AppConfig {
    pub platform: LauncherPlatform,
    pub game_executable_path: Option<String>,
    pub language: Option<String>,
    pub selected_interface: Option<String>,
    pub keep_in_tray: bool,
    pub capture_method: CaptureMethod,
}

/// What the settings say.
pub struct ConfigModel {
    pub platform: LauncherPlatform,
    pub game_executable_path: Option<Seq<char>>,
    pub language: Option<Seq<char>>,
    pub selected_interface: Option<Seq<char>>,
    pub keep_in_tray: bool,
    pub capture_method: CaptureMethod,
}

impl View for AppConfig {
    type V = ConfigModel;

    open spec fn view(&self) -> ConfigModel {
        ConfigModel {
            platform: self.platform,
            game_executable_path: opt_view(self.game_executable_path),
            language: opt_view(self.language),
            selected_interface: opt_view(self.selected_interface),
            keep_in_tray: self.keep_in_tray,
            capture_method: self.capture_method,
        }
    }
}

// ----- capture --------------------------------------------------------------------

/// A network adapter.
#[derive(Debug, Clone, PartialEq, Eq)]
pub struct InterfaceInfo {
    pub name: String,
    pub description: Option<String>,
}

/// What a capture has counted.
#[derive(Debug, Clone, PartialEq, Eq)]
pub struct CaptureStats {
    pub packets_seen: u64,
    pub tls_segments_processed: u64,
    pub tls_embark_sni_hellos: u64,
    pub http1_bearer_headers: u64,
    pub sync_key_entries: u64,
    pub tls_client_hellos: u64,
    pub tls_server_hellos: u64,
    pub tls_keys_established: u64,
    pub tls_missing_keys: u64,
    pub embark_missing_key_sessions: u64,
    pub last_embark_missing_key: Option<String>,
    pub tls_encrypted_no_decrypt: u64,
    pub decrypted_records: u64,
    pub tls_decrypt_errors: u64,
    pub last_tls_decrypt_error: Option<String>,
    pub tls_inner_app_data_to_server: u64,
    pub tls_inner_app_data_to_client: u64,
    pub http1_candidates: u64,
    pub http1_embark_hosts: u64,
    pub last_http1_method: Option<String>,
    pub last_http1_host: Option<String>,
    pub last_http1_path: Option<String>,
    pub packet_truncations: u64,
    pub packet_truncated_bytes: u64,
    pub sync_key_reloads: u64,
}

/// Nothing counted yet.
pub open spec fn no_stats() -> CaptureStats {
    CaptureStats {
        packets_seen: 0,
        tls_segments_processed: 0,
        tls_embark_sni_hellos: 0,
        http1_bearer_headers: 0,
        sync_key_entries: 0,
        tls_client_hellos: 0,
        tls_server_hellos: 0,
        tls_keys_established: 0,
        tls_missing_keys: 0,
        embark_missing_key_sessions: 0,
        last_embark_missing_key: None,
        tls_encrypted_no_decrypt: 0,
        decrypted_records: 0,
        tls_decrypt_errors: 0,
        last_tls_decrypt_error: None,
        tls_inner_app_data_to_server: 0,
        tls_inner_app_data_to_client: 0,
        http1_candidates: 0,
        http1_embark_hosts: 0,
        last_http1_method: None,
        last_http1_host: None,
        last_http1_path: None,
        packet_truncations: 0,
        packet_truncated_bytes: 0,
        sync_key_reloads: 0,
    }
}

impl Default for CaptureStats {
    fn default() -> (r: Self)
        ensures
            r == no_stats(),
    {
        CaptureStats {
            packets_seen: 0,
            tls_segments_processed: 0,
            tls_embark_sni_hellos: 0,
            http1_bearer_headers: 0,
            sync_key_entries: 0,
            tls_client_hellos: 0,
            tls_server_hellos: 0,
            tls_keys_established: 0,
            tls_missing_keys: 0,
            embark_missing_key_sessions: 0,
            last_embark_missing_key: None,
            tls_encrypted_no_decrypt: 0,
            decrypted_records: 0,
            tls_decrypt_errors: 0,
            last_tls_decrypt_error: None,
            tls_inner_app_data_to_server: 0,
            tls_inner_app_data_to_client: 0,
            http1_candidates: 0,
            http1_embark_hosts: 0,
            last_http1_method: None,
            last_http1_host: None,
            last_http1_path: None,
            packet_truncations: 0,
            packet_truncated_bytes: 0,
            sync_key_reloads: 0,
        }
    }
}

impl CaptureStats {
    /// Counts that say the same.
    pub fn copy(&self) -> (r: CaptureStats)
        ensures
            r == *self,
    {
        CaptureStats {
            packets_seen: self.packets_seen,
            tls_segments_processed: self.tls_segments_processed,
            tls_embark_sni_hellos: self.tls_embark_sni_hellos,
            http1_bearer_headers: self.http1_bearer_headers,
            sync_key_entries: self.sync_key_entries,
            tls_client_hellos: self.tls_client_hellos,
            tls_server_hellos: self.tls_server_hellos,
            tls_keys_established: self.tls_keys_established,
            tls_missing_keys: self.tls_missing_keys,
            embark_missing_key_sessions: self.embark_missing_key_sessions,
            last_embark_missing_key: same_opt(&self.last_embark_missing_key),
            tls_encrypted_no_decrypt: self.tls_encrypted_no_decrypt,
            decrypted_records: self.decrypted_records,
            tls_decrypt_errors: self.tls_decrypt_errors,
            last_tls_decrypt_error: same_opt(&self.last_tls_decrypt_error),
            tls_inner_app_data_to_server: self.tls_inner_app_data_to_server,
            tls_inner_app_data_to_client: self.tls_inner_app_data_to_client,
            http1_candidates: self.http1_candidates,
            http1_embark_hosts: self.http1_embark_hosts,
            last_http1_method: same_opt(&self.last_http1_method),
            last_http1_host: same_opt(&self.last_http1_host),
            last_http1_path: same_opt(&self.last_http1_path),
            packet_truncations: self.packet_truncations,
            packet_truncated_bytes: self.packet_truncated_bytes,
            sync_key_reloads: self.sync_key_reloads,
        }
    }
}

fn same_opt(text: &Option<String>) -> (r: Option<String>)
    ensures
        r == *text,
{
    match text {
        Some(s) => Some(s.clone()),
        None => None,
    }
}

/// A point in time, with the offset from universal time at which it is shown.
#[derive(Debug, Clone, Copy, PartialEq, Eq, Structural)]
pub struct LocalTime {
    /// Seconds since the epoch, in universal time.
    pub seconds: i64,
    /// Nanoseconds on top.
    pub nanos: u32,
    /// Seconds east of universal time.
    pub offset: i32,
}

/// A token that the game was seen to use.
#[derive(Debug, Clone, PartialEq, Eq)]
pub struct TokenObservation {
    pub fingerprint: String,
    pub host: String,
    pub token: String,
    pub expires_at: Option<LocalTime>,
}

impl TokenObservation {
    /// An observation that says the same.
    pub fn copy(&self) -> (r: TokenObservation)
        ensures
            r == *self,
    {
        TokenObservation {
            fingerprint: self.fingerprint.clone(),
            host: self.host.clone(),
            token: self.token.clone(),
            expires_at: self.expires_at,
        }
    }
}

/// What a running capture reports.
#[derive(Debug, Clone, PartialEq, Eq)]
pub enum CaptureEvent {
    Status(String),
    Stats(CaptureStats),
    Token(TokenObservation),
    Error(String),
    Stopped,
}

// ----- replies --------------------------------------------------------------------

/// What a worker's channel held when it was looked into.
#[derive(Debug, Clone, PartialEq, Eq)]
pub enum Polled<T> {
    /// The worker's result.
    Value(T),
    /// Nothing yet.
    Empty,
    /// The worker is gone without a result.
    Disconnected,
}

/// The service's reply to a submitted token.
#[derive(Debug, Clone, PartialEq, Eq)]
pub struct SubmitResponse {
    pub success: bool,
    pub sync_enabled: bool,
    pub display_name: Option<String>,
    pub display_name_discriminator: Option<String>,
}

/// A submission that was answered, with the fingerprint of what was submitted.
#[derive(Debug, Clone, PartialEq, Eq)]
pub struct SubmitReceipt {
    pub fingerprint: String,
    pub response: SubmitResponse,
}

/// A request that failed: the status that came back, if any, and the error in words.
#[derive(Debug, Clone, PartialEq, Eq)]
pub struct SubmitError {
    pub status: Option<u16>,
    pub message: String,
}

// ----- updates --------------------------------------------------------------------

/// A release of the program.
#[derive(Debug, Clone, PartialEq, Eq)]
pub struct ReleaseInfo {
    pub version: String,
    pub tag: String,
    pub notes: String,
    pub size: u64,
}

impl ReleaseInfo {
    /// A release that says the same.
    pub fn copy(&self) -> (r: ReleaseInfo)
        ensures
            r == *self,
    {
        ReleaseInfo {
            version: self.version.clone(),
            tag: self.tag.clone(),
            notes: self.notes.clone(),
            size: self.size,
        }
    }
}

/// How far an installation is.
#[derive(Debug, Clone, Copy, PartialEq, Eq, Structural)]
pub enum InstallProgress {
    Downloading { received: u64, total: Option<u64> },
    Verifying,
    Installing,
}

/// The updater's state.
#[derive(Debug, Clone, PartialEq, Eq)]
pub enum UpdateState {
    /// No newer release known, or between checks.
    Idle,
    Available,
    Downloading { received: u64, total: Option<u64> },
    Verifying,
    Installing,
    Relaunching,
    Failed(String),
}

/// What the updater's state says.
pub enum UpdateModel {
    Idle,
    Available,
    Downloading(u64, Option<u64>),
    Verifying,
    Installing,
    Relaunching,
    Failed(Seq<char>),
}

impl View for UpdateState {
    type V = UpdateModel;

    open spec fn view(&self) -> UpdateModel {
        match *self {
            UpdateState::Idle => UpdateModel::Idle,
            UpdateState::Available => UpdateModel::Available,
            UpdateState::Downloading { received, total } => UpdateModel::Downloading(
                received,
                total,
            ),
            UpdateState::Verifying => UpdateModel::Verifying,
            UpdateState::Installing => UpdateModel::Installing,
            UpdateState::Relaunching => UpdateModel::Relaunching,
            UpdateState::Failed(error) => UpdateModel::Failed(error@),
        }
    }
}

// ----- requests -------------------------------------------------------------------

/// What the client asks its surroundings to do, in this order.
#[derive(Debug, Clone, PartialEq, Eq)]
pub enum Effect {
    /// Stop the running capture and let go of it.
    StopCapture,
    /// Let go of a capture that has ended by itself.
    DropCapture,
    StartCapture { method: CaptureMethod, interface: String, sync_key_path: String },
    /// Exchange the sign-in for a fresh one.
    StartRefresh { token: String },
    StartSubmit { auth_token: String, observation: TokenObservation },
    /// Write the settings, and report a failure.
    SaveConfig,
    /// Remove the stored sign-in; a failure is passed over.
    ForgetSignIn,
    /// Remove the entry that once started the program with the system.
    RemoveStartupEntry,
    /// Work the tray's tooltip out anew.
    RefreshTooltip,
    SetTooltip(String),
    SetTrayPaused(bool),
    ShowWindow,
    /// Make a language of the interface the active one.
    SetLocale(String),
    /// Use the fonts of the language, those of the language picker too if `all`.
    ApplyFonts { all: bool },
    StartUpdateCheck,
    StartInstall(ReleaseInfo),
    StopWorker,
    RemoveCaptureRule,
    ClearSyncKeyFile,
}

/// What a request says.
pub enum EffectModel {
    StopCapture,
    DropCapture,
    StartCapture(CaptureMethod, Seq<char>, Seq<char>),
    StartRefresh(Seq<char>),
    StartSubmit(Seq<char>, TokenObservation),
    SaveConfig,
    ForgetSignIn,
    RemoveStartupEntry,
    RefreshTooltip,
    SetTooltip(Seq<char>),
    SetTrayPaused(bool),
    ShowWindow,
    SetLocale(Seq<char>),
    ApplyFonts(bool),
    StartUpdateCheck,
    StartInstall(ReleaseInfo),
    StopWorker,
    RemoveCaptureRule,
    ClearSyncKeyFile,
}

impl View for Effect {
    type V = EffectModel;

    open spec fn view(&self) -> EffectModel {
        match *self {
            Effect::StopCapture => EffectModel::StopCapture,
            Effect::DropCapture => EffectModel::DropCapture,
            Effect::StartCapture { method, interface, sync_key_path } => EffectModel::StartCapture(
                method,
                interface@,
                sync_key_path@,
            ),
            Effect::StartRefresh { token } => EffectModel::StartRefresh(token@),
            Effect::StartSubmit { auth_token, observation } => EffectModel::StartSubmit(
                auth_token@,
                observation,
            ),
            Effect::SaveConfig => EffectModel::SaveConfig,
            Effect::ForgetSignIn => EffectModel::ForgetSignIn,
            Effect::RemoveStartupEntry => EffectModel::RemoveStartupEntry,
            Effect::RefreshTooltip => EffectModel::RefreshTooltip,
            Effect::SetTooltip(text) => EffectModel::SetTooltip(text@),
            Effect::SetTrayPaused(paused) => EffectModel::SetTrayPaused(paused),
            Effect::ShowWindow => EffectModel::ShowWindow,
            Effect::SetLocale(locale) => EffectModel::SetLocale(locale@),
            Effect::ApplyFonts { all } => EffectModel::ApplyFonts(all),
            Effect::StartUpdateCheck => EffectModel::StartUpdateCheck,
            Effect::StartInstall(release) => EffectModel::StartInstall(release),
            Effect::StopWorker => EffectModel::StopWorker,
            Effect::RemoveCaptureRule => EffectModel::RemoveCaptureRule,
            Effect::ClearSyncKeyFile => EffectModel::ClearSyncKeyFile,
        }
    }
}

/// What the requests say.
pub open spec fn effect_views(effects: Seq<Effect>) -> Seq<EffectModel> {
    effects.map_values(|e: Effect| e@)
}

} // verus!
