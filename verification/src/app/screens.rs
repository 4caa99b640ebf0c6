//! What stands on the title bar, in the footer, on the settings screen and in
//! the dialogs, and what the controls there do.

use vstd::prelude::*;

use crate::app::data::{CaptureMethod, Effect, InterfaceInfo, LocalTime, UpdateState};
use crate::app::hub::HubState;
use crate::app::lifecycle::RetryFacts;
use crate::app::ArcTrackerSyncApp;
use crate::i18n::{native_name, ui_locale_list, Message};
use crate::launch::{HostOs, LauncherPlatform, SyncKeyResolution};
use crate::numerals::to_decimal;
use crate::text::{copy_opt, str_eq};
use crate::theme::{
    arc_fg_dim, arc_foreground, arc_muted_text, arc_success, window_radius, Rgb, RADIUS_WINDOW,
};
use crate::widgets::WindowButton;
use crate::app::capture::{interfaces_refreshed, key_refreshed, key_unchanged, npcap_missing};
use crate::app::data::{ConfigModel, EffectModel, UpdateModel};
use crate::app::expiry::{lasts, tellable_expiry, time_text};
use crate::app::hub::{accent_of, body_of, by_host, offers_switch, phase_of, title_of, waits};
use crate::app::interfaces::label_of;
use crate::app::launcher::{
    effective, launcher_set, readiness_refreshed, selected_path, switch_target,
};
use crate::app::redaction::{redact, scrub};
use crate::app::state::{CaptureModel, UiModel, UpdaterModel};
use crate::app::updates::install_started;
use crate::app::{requested, AppModel};
use crate::i18n::{native_name_of, say, say_with, ui_locales, MessageModel};
use crate::launch::platform_label;
use crate::numerals::decimal;
use crate::text::{opt_view, views};
use crate::theme::{fg_dim_rgb, foreground_rgb, muted_text_rgb, success_rgb};

verus! {

/// A text of the catalog, or one that is shown as it is.
pub enum Text {
    Catalog(Message),
    Plain(String),
}

/// What a text is.
pub enum TextModel {
    Catalog(MessageModel),
    Plain(Seq<char>),
}

impl View for Text {
    type V = TextModel;

    open spec fn view(&self) -> TextModel {
        match *self {
            Text::Catalog(message) => TextModel::Catalog(message@),
            Text::Plain(text) => TextModel::Plain(text@),
        }
    }
}

// ----- the title bar --------------------------------------------------------------

/// What stands on the title bar.
pub struct TitleBar {
    pub status: Message,
    pub status_color: Rgb,
    pub update_visible: bool,
    pub resize: WindowButton,
    pub radius: u8,
}

/// Whether someone is signed in, in words.
pub open spec fn header_status(m: AppModel) -> MessageModel {
    if m.session.auth_token is Some {
        say("SyncApp.header.signedIn"@)
    } else {
        say("SyncApp.header.signedOut"@)
    }
}

/// There is something to say about updates.
pub open spec fn update_shown(m: AppModel) -> bool {
    !(m.update.state is Idle)
}

impl ArcTrackerSyncApp {
    /// What stands on the title bar: whether someone is signed in, a mark
    /// where there is something to say about updates, and the control that
    /// fits the size of the window.
    pub fn title_bar(&self, maximized: bool) -> (r: TitleBar)
        ensures
            r.status@ == header_status(self@),
            r.status_color == (if self@.session.auth_token is Some {
                success_rgb()
            } else {
                muted_text_rgb()
            }),
            r.update_visible == update_shown(self@),
            r.resize == (if maximized {
                WindowButton::Restore
            } else {
                WindowButton::Maximize
            }),
            r.radius == (if maximized {
                0
            } else {
                RADIUS_WINDOW
            }),
    {
        let signed_in = self.session.auth_token.is_some();
        TitleBar {
            status: if signed_in {
                Message::plain("SyncApp.header.signedIn")
            } else {
                Message::plain("SyncApp.header.signedOut")
            },
            status_color: if signed_in {
                arc_success()
            } else {
                arc_muted_text()
            },
            update_visible: self.update_indicator_visible(),
            resize: WindowButton::resize(maximized),
            radius: window_radius(maximized),
        }
    }

    /// The mark for updates was clicked.
    pub fn open_update_modal(&mut self)
        requires
            old(self).wf(),
        ensures
            final(self)@ == (AppModel {
                update: UpdaterModel { show_modal: true, ..old(self)@.update },
                ..old(self)@
            }),
            final(self).wf(),
    {
        self.update.show_modal = true;
    }
}

// ----- the footer -----------------------------------------------------------------

/// Who the footer names.
pub struct FooterIdentity {
    pub dot: Rgb,
    pub label: Message,
    pub label_color: Rgb,
    /// The account, which is set off from the label.
    pub account: Option<String>,
    pub account_color: Rgb,
}

/// The account of a synced sign-in.
pub open spec fn synced_account(m: AppModel) -> Option<Seq<char>> {
    if m.submit.token_submitted {
        m.session.account_name
    } else {
        None
    }
}

impl ArcTrackerSyncApp {
    /// Who the footer names, and in which colours: the synced account, else
    /// only whether someone is signed in.
    pub fn footer_identity(&self) -> (r: FooterIdentity)
        ensures
            opt_view(r.account) == synced_account(self@),
            r.account_color == foreground_rgb(),
            ({
                if synced_account(self@) is Some {
                    &&& r.dot == success_rgb()
                    &&& r.label@ == say("SyncApp.footer.syncedLabel"@)
                    &&& r.label_color == muted_text_rgb()
                } else if self@.session.auth_token is Some {
                    &&& r.dot == muted_text_rgb()
                    &&& r.label@ == say("SyncApp.header.signedIn"@)
                    &&& r.label_color == muted_text_rgb()
                } else {
                    &&& r.dot == fg_dim_rgb()
                    &&& r.label@ == say("SyncApp.footer.notSignedIn"@)
                    &&& r.label_color == fg_dim_rgb()
                }
            }),
    {
        let account = if self.submit.token_submitted {
            copy_opt(&self.session.account_name)
        } else {
            None
        };
        if account.is_some() {
            FooterIdentity {
                dot: arc_success(),
                label: Message::plain("SyncApp.footer.syncedLabel"),
                label_color: arc_muted_text(),
                account,
                account_color: arc_foreground(),
            }
        } else if self.session.auth_token.is_some() {
            FooterIdentity {
                dot: arc_muted_text(),
                label: Message::plain("SyncApp.header.signedIn"),
                label_color: arc_muted_text(),
                account,
                account_color: arc_foreground(),
            }
        } else {
            FooterIdentity {
                dot: arc_fg_dim(),
                label: Message::plain("SyncApp.footer.notSignedIn"),
                label_color: arc_fg_dim(),
                account,
                account_color: arc_foreground(),
            }
        }
    }
}

// ----- the panel of the hub -------------------------------------------------------

/// What stands on the panel of the hub, above its buttons.
pub struct HeroPanel {
    pub phase: usize,
    pub busy: bool,
    pub tone: Rgb,
    pub phase_name: Message,
    /// The number of the step, from one on.
    pub step: Message,
    pub title: Message,
    pub body: Message,
    pub launcher_toggle: bool,
    /// Until when the session lasts.
    pub session: Option<Message>,
    /// That the window can be closed, or what closing does.
    pub can_close: Option<Message>,
}

/// What an optional catalog text is.
pub open spec fn opt_message(message: Option<Message>) -> Option<MessageModel> {
    match message {
        Some(message) => Some(message@),
        None => None,
    }
}

/// Until when the session lasts, as the panel says it.
pub open spec fn session_notice(
    m: AppModel,
    state: HubState,
    now: LocalTime,
) -> Option<MessageModel> {
    if state == HubState::Synced && m.capture.latest_token is Some
        && m.capture.latest_token->0.expires_at is Some {
        let exp = m.capture.latest_token->0.expires_at->0;
        match time_text(exp.seconds, exp.offset, "%b %-d, %H:%M"@) {
            Some(until) => if lasts(exp, now) {
                Some(say_with("SyncApp.state.synced.session"@, "time"@, until))
            } else {
                None
            },
            None => None,
        }
    } else {
        None
    }
}

/// That the window can be closed, or what closing does, once all is synced.
pub open spec fn close_notice(m: AppModel, state: HubState) -> Option<MessageModel> {
    if state == HubState::Synced {
        Some(
            say(
                by_host(
                    m.host,
                    "SyncApp.state.synced.canClose"@,
                    "SyncApp.state.synced.canCloseLinux"@,
                ),
            ),
        )
    } else {
        None
    }
}

/// A segment of the toggle between the stores was clicked.
pub open spec fn store_toggled(
    m: AppModel,
    platform: LauncherPlatform,
    found: Option<Seq<char>>,
) -> AppModel {
    if platform == effective(m) {
        m
    } else {
        launcher_set(m, platform, found)
    }
}

/// A launcher was picked on the settings screen.
pub open spec fn launcher_picked(
    m: AppModel,
    platform: LauncherPlatform,
    found: Option<Seq<char>>,
) -> AppModel {
    if platform == m.config.platform {
        m
    } else {
        launcher_set(m, platform, found)
    }
}

impl ArcTrackerSyncApp {
    /// What stands on the panel of the hub, above its buttons.
    pub fn hero_panel(&self, state: HubState, now: LocalTime) -> (r: HeroPanel)
        ensures
            r.phase == phase_of(state),
            r.busy == waits(state),
            r.tone == accent_of(state),
            r.phase_name@ == crate::app::hub::phase_labels(
                platform_label(effective(self@)),
            )[phase_of(state) as int].0,
            r.step@ == say_with("SyncApp.hero.step"@, "n"@, decimal(phase_of(state) + 1)),
            r.title@ == title_of(self@, state),
            r.body@ == body_of(self@, state),
            r.launcher_toggle == (offers_switch(state) && switch_target(self@) is Some),
            opt_message(r.session) == session_notice(self@, state, now),
            state == HubState::Synced && tellable_expiry(self@) && lasts(
                self@.capture.latest_token->0.expires_at->0,
                now,
            ) ==> r.session is Some,
            opt_message(r.can_close) == close_notice(self@, state),
    {
        let phase = Self::hub_phase(state);
        let number = to_decimal(phase as u64 + 1);
        let copy = self.hub_copy(state);
        HeroPanel {
            phase,
            busy: Self::is_busy(state),
            tone: Self::state_accent(state),
            phase_name: self.phase_name(phase),
            step: Message::with("SyncApp.hero.step", "n", number.as_str()),
            title: copy.title,
            body: copy.body,
            launcher_toggle: Self::is_launcher_phase(state)
                && self.launcher_switch_target().is_some(),
            session: self.session_message(state, now),
            can_close: self.close_message(state),
        }
    }

    fn phase_name(&self, phase: usize) -> (r: Message)
        requires
            phase <= 3,
        ensures
            r@ == crate::app::hub::phase_labels(
                platform_label(effective(self@)),
            )[phase as int].0,
    {
        match phase {
            0 => Message::plain("SyncApp.phase.account.label"),
            1 => Message::plain("SyncApp.phase.launcher.label"),
            2 => Message::plain("SyncApp.phase.play.label"),
            _ => Message::plain("SyncApp.phase.sync.label"),
        }
    }

    fn session_message(&self, state: HubState, now: LocalTime) -> (r: Option<Message>)
        ensures
            opt_message(r) == session_notice(self@, state, now),
            state == HubState::Synced && tellable_expiry(self@) && lasts(
                self@.capture.latest_token->0.expires_at->0,
                now,
            ) ==> r is Some,
    {
        if state != HubState::Synced {
            return None;
        }
        match self.session_expiry_label(now) {
            Some(until) => Some(
                Message::with("SyncApp.state.synced.session", "time", until.as_str()),
            ),
            None => None,
        }
    }

    fn close_message(&self, state: HubState) -> (r: Option<Message>)
        ensures
            opt_message(r) == close_notice(self@, state),
    {
        if state != HubState::Synced {
            return None;
        }
        match self.host {
            HostOs::Windows => Some(Message::plain("SyncApp.state.synced.canClose")),
            HostOs::Linux => Some(Message::plain("SyncApp.state.synced.canCloseLinux")),
        }
    }

    /// A segment of the toggle between the stores was clicked: nothing happens
    /// where it is the one in effect. Returns whether the launcher's readiness
    /// has to be looked into.
    pub fn launcher_toggle(
        &mut self,
        platform: LauncherPlatform,
        found: &Option<String>,
    ) -> (r: bool)
        requires
            old(self).wf(),
        ensures
            r == (platform != effective(old(self)@)),
            final(self)@ == store_toggled(old(self)@, platform, opt_view(*found)),
            final(self).wf(),
    {
        if platform == self.effective_platform() {
            return false;
        }
        self.set_launcher(platform, found);
        true
    }
}

// ----- settings: account, game, startup -------------------------------------------

/// What the account's row says.
pub open spec fn account_text(m: AppModel) -> MessageModel {
    match synced_account(m) {
        Some(account) => say_with("SyncApp.footer.signedInAs"@, "account"@, account),
        None => if m.session.auth_token is Some {
            say("SyncApp.header.signedIn"@)
        } else {
            say("SyncApp.footer.notSignedIn"@)
        },
    }
}

/// Where the game is, as its row says it.
pub open spec fn location_text(m: AppModel) -> TextModel {
    match selected_path(m.launcher) {
        Some(path) => TextModel::Plain(path),
        None => TextModel::Catalog(say("SyncApp.settings.autoDetected"@)),
    }
}

/// The switch for staying in the tray stands as it was set.
pub open spec fn tray_kept(m: AppModel, keep: bool) -> AppModel {
    requested(
        AppModel { config: ConfigModel { keep_in_tray: keep, ..m.config }, ..m },
        EffectModel::SaveConfig,
    )
}

impl ArcTrackerSyncApp {
    /// What the account's row says, and whether it offers to sign out.
    pub fn settings_account(&self) -> (r: (Message, bool))
        ensures
            r.0@ == account_text(self@),
            r.1 == (self@.session.auth_token is Some),
    {
        let signed_in = self.session.auth_token.is_some();
        let account = match &self.session.account_name {
            Some(account) => if self.submit.token_submitted {
                Message::with("SyncApp.footer.signedInAs", "account", account.as_str())
            } else if signed_in {
                Message::plain("SyncApp.header.signedIn")
            } else {
                Message::plain("SyncApp.footer.notSignedIn")
            },
            None => if signed_in {
                Message::plain("SyncApp.header.signedIn")
            } else {
                Message::plain("SyncApp.footer.notSignedIn")
            },
        };
        (account, signed_in)
    }

    /// Where the game is, as its row says it.
    pub fn settings_location(&self) -> (r: Text)
        ensures
            r@ == location_text(self@),
    {
        match self.selected_game_path() {
            Some(path) => Text::Plain(path),
            None => Text::Catalog(Message::plain("SyncApp.settings.autoDetected")),
        }
    }

    /// A launcher was picked on the settings screen: nothing happens where it
    /// is the one of the settings. Returns whether the launcher's readiness has
    /// to be looked into.
    pub fn choose_launcher(
        &mut self,
        platform: LauncherPlatform,
        found: &Option<String>,
    ) -> (r: bool)
        requires
            old(self).wf(),
        ensures
            r == (platform != old(self)@.config.platform),
            final(self)@ == launcher_picked(old(self)@, platform, opt_view(*found)),
            final(self).wf(),
    {
        if platform == self.config.platform {
            return false;
        }
        self.set_launcher(platform, found);
        true
    }

    /// Whether the settings screen has a card for the tray: only Windows has one.
    pub fn has_startup_settings(&self) -> (r: bool)
        ensures
            r == (self@.host == HostOs::Windows),
    {
        self.host == HostOs::Windows
    }

    /// The switch for staying in the tray was moved.
    pub fn set_keep_in_tray(&mut self, keep: bool)
        requires
            old(self).wf(),
        ensures
            final(self)@ == tray_kept(old(self)@, keep),
            final(self).wf(),
    {
        self.config.keep_in_tray = keep;
        self.request(Effect::SaveConfig);
    }
}

// ----- settings: language ---------------------------------------------------------

/// A choice of the language picker.
pub struct LanguageChoice {
    pub locale: &'static str,
    pub name: &'static str,
    pub selected: bool,
}

/// What the language picker says.
pub struct LanguagePicker {
    /// That the default follows the system.
    pub hint: Message,
    /// The choice that follows the system.
    pub follow: Message,
    pub follows: bool,
    /// What is selected now.
    pub current: Text,
    pub choices: Vec<LanguageChoice>,
}

/// The choice that follows the system is called after it.
pub open spec fn follow_text(m: AppModel) -> MessageModel {
    say(by_host(m.host, "SyncApp.settings.matchWindows"@, "SyncApp.settings.matchSystem"@))
}

/// A choice is right: a locale of the interface by its own name, selected where
/// the settings name it.
pub open spec fn choice_says(
    choice: LanguageChoice,
    locale: Seq<char>,
    language: Option<Seq<char>>,
) -> bool {
    &&& choice.locale@ == locale
    &&& choice.name@ == native_name_of(locale)
    &&& choice.selected == (language == Some(locale))
}

impl ArcTrackerSyncApp {
    fn language_choices(&self) -> (r: Vec<LanguageChoice>)
        ensures
            r@.len() == ui_locales().len(),
            forall|i: int|
                0 <= i < r@.len() ==> choice_says(
                    #[trigger] r@[i],
                    ui_locales()[i],
                    self@.config.language,
                ),
    {
        let locales = ui_locale_list();
        let mut r: Vec<LanguageChoice> = Vec::new();
        let mut i: usize = 0;
        while i < locales.len()
            invariant
                i <= locales@.len(),
                crate::text::str_views(locales@) == ui_locales(),
                r@.len() == i,
                forall|k: int|
                    0 <= k < i ==> choice_says(
                        #[trigger] r@[k],
                        ui_locales()[k],
                        self@.config.language,
                    ),
            decreases locales.len() - i,
        {
            let locale = locales[i];
            let selected = match &self.config.language {
                Some(language) => str_eq(language.as_str(), locale),
                None => false,
            };
            r.push(LanguageChoice { locale, name: native_name(locale), selected });
            i += 1;
        }
        r
    }

    /// What the language picker says.
    pub fn language_picker(&self) -> (r: LanguagePicker)
        ensures
            r.hint@ == say(
                by_host(
                    self@.host,
                    "SyncApp.settings.matchesWindows"@,
                    "SyncApp.settings.matchesSystem"@,
                ),
            ),
            r.follow@ == follow_text(self@),
            r.follows == (self@.config.language is None),
            r.current@ == (match self@.config.language {
                Some(language) => TextModel::Plain(native_name_of(language)),
                None => TextModel::Catalog(follow_text(self@)),
            }),
            r.choices@.len() == ui_locales().len(),
            forall|i: int|
                0 <= i < r.choices@.len() ==> choice_says(
                    #[trigger] r.choices@[i],
                    ui_locales()[i],
                    self@.config.language,
                ),
    {
        let hint = match self.host {
            HostOs::Windows => Message::plain("SyncApp.settings.matchesWindows"),
            HostOs::Linux => Message::plain("SyncApp.settings.matchesSystem"),
        };
        let current = match &self.config.language {
            Some(language) => Text::Plain(native_name(language.as_str()).to_owned()),
            None => Text::Catalog(self.follow_message()),
        };
        LanguagePicker {
            hint,
            follow: self.follow_message(),
            follows: self.config.language.is_none(),
            current,
            choices: self.language_choices(),
        }
    }

    fn follow_message(&self) -> (r: Message)
        ensures
            r@ == follow_text(self@),
    {
        match self.host {
            HostOs::Windows => Message::plain("SyncApp.settings.matchWindows"),
            HostOs::Linux => Message::plain("SyncApp.settings.matchSystem"),
        }
    }
}

// ----- settings: network ----------------------------------------------------------

/// What the network card says.
pub struct NetworkSettings {
    /// The selected adapter.
    pub adapter: String,
    pub adapters: Vec<String>,
    /// The capture method in use.
    pub method: Message,
    pub methods: Vec<CaptureMethod>,
    pub npcap_missing: bool,
}

/// What the selected adapter is called.
pub open spec fn adapter_text(capture: CaptureModel) -> Seq<char> {
    if capture.selected_interface_index < capture.interfaces.len() {
        label_of(capture.interfaces[capture.selected_interface_index as int])
    } else {
        "Automatic"@
    }
}

/// What a capture method is called.
pub open spec fn method_text(host: HostOs, method: CaptureMethod) -> MessageModel {
    match method {
        CaptureMethod::RawSocket => say(
            by_host(
                host,
                "SyncApp.settings.captureRawSockets"@,
                "SyncApp.settings.captureRawSocketsLinux"@,
            ),
        ),
        CaptureMethod::Npcap => say("SyncApp.settings.captureNpcap"@),
    }
}

/// The capture methods that there are: Npcap only on Windows.
pub open spec fn methods_of(host: HostOs) -> Seq<CaptureMethod> {
    match host {
        HostOs::Windows => seq![CaptureMethod::RawSocket, CaptureMethod::Npcap],
        HostOs::Linux => seq![CaptureMethod::RawSocket],
    }
}

/// The network was looked into afresh.
pub open spec fn network_refreshed(
    m: AppModel,
    scan: Result<Vec<InterfaceInfo>, String>,
    key: Result<SyncKeyResolution, String>,
    facts: RetryFacts,
) -> AppModel {
    let scanned = interfaces_refreshed(m, scan);
    let keyed = key_refreshed(scanned, key);
    let checked = if key_unchanged(scanned, key) {
        keyed
    } else {
        readiness_refreshed(keyed, facts.processes, facts.now)
    };
    AppModel { capture: CaptureModel { npcap_available: None, ..checked.capture }, ..checked }
}

impl ArcTrackerSyncApp {
    /// What a capture method is called.
    pub fn method_label(&self, method: CaptureMethod) -> (r: Message)
        ensures
            r@ == method_text(self@.host, method),
    {
        match method {
            CaptureMethod::RawSocket => match self.host {
                HostOs::Windows => Message::plain("SyncApp.settings.captureRawSockets"),
                HostOs::Linux => Message::plain("SyncApp.settings.captureRawSocketsLinux"),
            },
            CaptureMethod::Npcap => Message::plain("SyncApp.settings.captureNpcap"),
        }
    }

    fn adapter_labels(&self) -> (r: Vec<String>)
        ensures
            views(r@) == self@.capture.interfaces.map_values(|i: InterfaceInfo| label_of(i)),
    {
        let interfaces = &self.capture.interfaces;
        let ghost all = interfaces@.map_values(|i: InterfaceInfo| label_of(i));
        let mut r: Vec<String> = Vec::new();
        let mut i: usize = 0;
        while i < interfaces.len()
            invariant
                i <= interfaces@.len(),
                all == interfaces@.map_values(|i: InterfaceInfo| label_of(i)),
                views(r@) == all.take(i as int),
            decreases interfaces.len() - i,
        {
            let ghost before = r@;
            r.push(Self::interface_label(&interfaces[i]));
            assert(views(r@) =~= views(before).push(all[i as int]));
            i += 1;
        }
        r
    }

    fn adapter_label(&self) -> (r: String)
        ensures
            r@ == adapter_text(self@.capture),
    {
        let index = self.capture.selected_interface_index;
        if index < self.capture.interfaces.len() {
            Self::interface_label(&self.capture.interfaces[index])
        } else {
            "Automatic".to_owned()
        }
    }

    fn method_list(&self) -> (r: Vec<CaptureMethod>)
        ensures
            r@ == methods_of(self@.host),
    {
        let mut r: Vec<CaptureMethod> = Vec::new();
        r.push(CaptureMethod::RawSocket);
        if self.host == HostOs::Windows {
            r.push(CaptureMethod::Npcap);
        }
        r
    }

    /// What the network card says.
    pub fn settings_network(&self) -> (r: NetworkSettings)
        ensures
            r.adapter@ == adapter_text(self@.capture),
            views(r.adapters@) == self@.capture.interfaces.map_values(
                |i: InterfaceInfo| label_of(i),
            ),
            r.method@ == method_text(self@.host, self@.config.capture_method),
            r.methods@ == methods_of(self@.host),
            r.npcap_missing == npcap_missing(self@),
    {
        NetworkSettings {
            adapter: self.adapter_label(),
            adapters: self.adapter_labels(),
            method: self.method_label(self.config.capture_method),
            methods: self.method_list(),
            npcap_missing: self.npcap_known_missing(),
        }
    }

    /// The user asked for a fresh look at the network.
    pub fn refresh_network(
        &mut self,
        scan: Result<Vec<InterfaceInfo>, String>,
        key: &Result<SyncKeyResolution, String>,
        facts: &RetryFacts,
    )
        requires
            old(self).wf(),
        ensures
            final(self)@ == network_refreshed(old(self)@, scan, *key, *facts),
            final(self).wf(),
    {
        self.refresh_interfaces(scan);
        if self.refresh_sync_key_source(key) {
            self.refresh_launcher_readiness(&facts.processes, facts.now);
        }
        self.forget_npcap();
    }
}

// ----- settings: troubleshooting --------------------------------------------------

/// What the activity log shows of each event: no token, and no user name.
pub open spec fn shown_log(messages: Seq<Seq<char>>) -> Seq<Seq<char>> {
    if messages.len() == 0 {
        seq!["—"@]
    } else {
        messages.map_values(|text: Seq<char>| scrub(redact(text, false)))
    }
}

impl ArcTrackerSyncApp {
    /// What the button for the activity log says.
    pub fn log_button(&self) -> (r: Message)
        ensures
            r@ == (if self@.ui.show_activity_log {
                say("SyncApp.settings.hide"@)
            } else {
                say("SyncApp.settings.view"@)
            }),
    {
        if self.ui.show_activity_log {
            Message::plain("SyncApp.settings.hide")
        } else {
            Message::plain("SyncApp.settings.view")
        }
    }

    /// Shows the activity log, or hides it.
    pub fn toggle_activity_log(&mut self)
        requires
            old(self).wf(),
        ensures
            final(self)@ == (AppModel {
                ui: UiModel {
                    show_activity_log: !old(self)@.ui.show_activity_log,
                    ..old(self)@.ui
                },
                ..old(self)@
            }),
            final(self).wf(),
    {
        self.ui.show_activity_log = !self.ui.show_activity_log;
    }

    /// What the activity log shows, the newest event first.
    pub fn activity_log(&self) -> (r: Vec<String>)
        ensures
            views(r@) == shown_log(self@.messages),
    {
        let mut r: Vec<String> = Vec::new();
        if self.messages.len() == 0 {
            r.push("—".to_owned());
            return r;
        }
        let messages = &self.messages;
        let ghost all = views(messages@).map_values(
            |text: Seq<char>| scrub(redact(text, false)),
        );
        let mut i: usize = 0;
        while i < messages.len()
            invariant
                i <= messages@.len(),
                all == views(messages@).map_values(
                    |text: Seq<char>| scrub(redact(text, false)),
                ),
                views(r@) == all.take(i as int),
            decreases messages.len() - i,
        {
            let ghost before = r@;
            r.push(Self::support_event_message(messages[i].as_str()));
            assert(views(r@) =~= views(before).push(all[i as int]));
            i += 1;
        }
        r
    }
}

// ----- the explainer --------------------------------------------------------------

impl ArcTrackerSyncApp {
    /// The title and the body of the explainer, where it is open.
    pub fn explainer(&self) -> (r: Option<(Message, Message)>)
        ensures
            match r {
                Some((title, body)) => {
                    &&& self@.ui.show_explainer
                    &&& title@ == say_with(
                        "SyncApp.explain.title"@,
                        "launcher"@,
                        platform_label(effective(self@)),
                    )
                    &&& body@ == say_with(
                        "SyncApp.explain.body"@,
                        "launcher"@,
                        platform_label(effective(self@)),
                    )
                },
                None => !self@.ui.show_explainer,
            },
    {
        if !self.ui.show_explainer {
            return None;
        }
        let launcher = self.effective_platform().label();
        Some(
            (
                Message::with("SyncApp.explain.title", "launcher", launcher),
                Message::with("SyncApp.explain.body", "launcher", launcher),
            ),
        )
    }

    /// Opens the explainer, or closes it.
    pub fn show_explainer(&mut self, show: bool)
        requires
            old(self).wf(),
        ensures
            final(self)@ == (AppModel {
                ui: UiModel { show_explainer: show, ..old(self)@.ui },
                ..old(self)@
            }),
            final(self).wf(),
    {
        self.ui.show_explainer = show;
    }
}

// ----- the update dialog ----------------------------------------------------------

/// What the update dialog shows.
pub enum UpdateDialog {
    /// Nothing: it closes.
    Close,
    /// A release, with its notes, and a failure of the last attempt.
    Offer { title: Message, notes: String, failure: Option<Message>, install: Message },
    /// A download: how much has come, and of how much where that is known.
    Download { received: u64, total: Option<u64> },
    /// Something that takes a moment.
    Busy { label: Message },
}

/// What the dialog says.
pub enum DialogModel {
    Close,
    Offer(MessageModel, Seq<char>, Option<MessageModel>, MessageModel),
    Download(u64, Option<u64>),
    Busy(MessageModel),
}

impl View for UpdateDialog {
    type V = DialogModel;

    open spec fn view(&self) -> DialogModel {
        match *self {
            UpdateDialog::Close => DialogModel::Close,
            UpdateDialog::Offer { title, notes, failure, install } => DialogModel::Offer(
                title@,
                notes@,
                opt_message(failure),
                install@,
            ),
            UpdateDialog::Download { received, total } => DialogModel::Download(received, total),
            UpdateDialog::Busy { label } => DialogModel::Busy(label@),
        }
    }
}

/// A size that a share can be taken of.
pub open spec fn share_of(total: Option<u64>) -> Option<u64> {
    match total {
        Some(total) => if total > 0 {
            Some(total)
        } else {
            None
        },
        None => None,
    }
}

/// What the dialog says in the updater's state.
pub open spec fn dialog_of(m: AppModel) -> DialogModel {
    match m.update.state {
        UpdateModel::Available => match m.update.current_release {
            Some(release) => DialogModel::Offer(
                say_with("SyncApp.update.title"@, "version"@, release.tag@),
                release.notes@,
                None,
                say("SyncApp.update.install"@),
            ),
            None => DialogModel::Close,
        },
        UpdateModel::Failed(error) => match m.update.current_release {
            Some(release) => DialogModel::Offer(
                say_with("SyncApp.update.title"@, "version"@, release.tag@),
                release.notes@,
                Some(say_with("SyncApp.update.failed"@, "error"@, error)),
                say("SyncApp.update.retry"@),
            ),
            None => DialogModel::Close,
        },
        UpdateModel::Downloading(received, total) => DialogModel::Download(
            received,
            share_of(total),
        ),
        UpdateModel::Verifying => DialogModel::Busy(say("SyncApp.update.verifying"@)),
        UpdateModel::Installing => DialogModel::Busy(say("SyncApp.update.installing"@)),
        UpdateModel::Relaunching => DialogModel::Busy(say("SyncApp.update.restarting"@)),
        UpdateModel::Idle => DialogModel::Close,
    }
}

/// The dialog is open no longer.
pub open spec fn dialog_closed(m: AppModel) -> AppModel {
    AppModel { update: UpdaterModel { show_modal: false, ..m.update }, ..m }
}

/// What the user did in the dialog was carried out. An installation that runs
/// cannot be clicked away.
pub open spec fn dialog_answered(
    m: AppModel,
    install: bool,
    close: bool,
    dismissed: bool,
) -> AppModel {
    if install {
        match m.update.current_release {
            Some(release) => install_started(m, release),
            None => m,
        }
    } else if close || dialog_of(m) is Close {
        dialog_closed(m)
    } else if dismissed && (m.update.state is Available || m.update.state is Failed) {
        dialog_closed(m)
    } else {
        m
    }
}

impl ArcTrackerSyncApp {
    /// What the update dialog shows, where it is open.
    pub fn update_dialog(&self) -> (r: Option<UpdateDialog>)
        ensures
            match r {
                Some(dialog) => self@.update.show_modal && dialog@ == dialog_of(self@),
                None => !self@.update.show_modal,
            },
    {
        if self.update.show_modal {
            Some(self.dialog())
        } else {
            None
        }
    }

    fn offer(&self, failure: Option<Message>, install: Message) -> (r: UpdateDialog)
        ensures
            r@ == (match self@.update.current_release {
                Some(release) => DialogModel::Offer(
                    say_with("SyncApp.update.title"@, "version"@, release.tag@),
                    release.notes@,
                    opt_message(failure),
                    install@,
                ),
                None => DialogModel::Close,
            }),
    {
        match &self.update.current_release {
            Some(release) => UpdateDialog::Offer {
                title: Message::with("SyncApp.update.title", "version", release.tag.as_str()),
                notes: release.notes.clone(),
                failure,
                install,
            },
            None => UpdateDialog::Close,
        }
    }

    fn dialog(&self) -> (r: UpdateDialog)
        ensures
            r@ == dialog_of(self@),
    {
        match &self.update.state {
            UpdateState::Available => self.offer(None, Message::plain("SyncApp.update.install")),
            UpdateState::Failed(error) => self.offer(
                Some(Message::with("SyncApp.update.failed", "error", error.as_str())),
                Message::plain("SyncApp.update.retry"),
            ),
            UpdateState::Downloading { received, total } => UpdateDialog::Download {
                received: *received,
                total: match *total {
                    Some(total) => if total > 0 {
                        Some(total)
                    } else {
                        None
                    },
                    None => None,
                },
            },
            UpdateState::Verifying => UpdateDialog::Busy {
                label: Message::plain("SyncApp.update.verifying"),
            },
            UpdateState::Installing => UpdateDialog::Busy {
                label: Message::plain("SyncApp.update.installing"),
            },
            UpdateState::Relaunching => UpdateDialog::Busy {
                label: Message::plain("SyncApp.update.restarting"),
            },
            UpdateState::Idle => UpdateDialog::Close,
        }
    }

    fn close_update_modal(&mut self)
        requires
            old(self).wf(),
        ensures
            final(self)@ == dialog_closed(old(self)@),
            final(self).wf(),
    {
        self.update.show_modal = false;
    }

    /// Carries out what the user did in the update dialog: asked to install,
    /// asked to close, or clicked beside it.
    pub fn answer_update_dialog(&mut self, install: bool, close: bool, dismissed: bool)
        requires
            old(self).wf(),
        ensures
            final(self)@ == dialog_answered(old(self)@, install, close, dismissed),
            final(self).wf(),
    {
        if install {
            let release = match &self.update.current_release {
                Some(release) => release.copy(),
                None => return,
            };
            self.start_update_install(release);
            return;
        }
        let empty = match self.dialog() {
            UpdateDialog::Close => true,
            _ => false,
        };
        let idle = match &self.update.state {
            UpdateState::Available | UpdateState::Failed(_) => true,
            _ => false,
        };
        if close || empty || (dismissed && idle) {
            self.close_update_modal();
        }
    }
}

/// An installation that runs keeps its dialog, unless the user closes it with
/// the button that only an offer has.
pub proof fn law_running_install_stays_on_screen(m: AppModel)
    requires
        m.update.show_modal,
        m.update.state is Downloading || m.update.state is Verifying || m.update.state
            is Installing || m.update.state is Relaunching,
    ensures
        dialog_answered(m, false, false, true) == m,
{
}

} // verus!
