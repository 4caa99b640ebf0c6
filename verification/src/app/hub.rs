//! The hub: which state the client is in, what it says there, and what it offers.

use vstd::prelude::*;

use crate::app::launcher::GameFile;
use crate::app::ArcTrackerSyncApp;
use crate::i18n::Message;
use crate::launch::HostOs;
use crate::theme::{arc_primary, arc_success, arc_warning, Rgb};
use crate::widgets::{stage, StageState};
use crate::app::capture::npcap_missing;
use crate::app::launcher::{effective, game_ready, ready};
use crate::app::AppModel;
use crate::i18n::{say, say_with, MessageModel};
use crate::launch::platform_label;
use crate::theme::{primary_rgb, success_rgb, warning_rgb};
use crate::widgets::stage_of;

verus! {

// ----- the state ------------------------------------------------------------------

/// What the hub is about.
#[derive(Debug, Clone, Copy, PartialEq, Eq, Structural)]
pub enum HubState {
    NeedsAdmin,
    SignedOut,
    SigningIn,
    SelectGame,
    PrepareLauncher,
    PreparingLauncher,
    CloseLauncher,
    LauncherReady,
    Connecting,
    Updating,
    Synced,
    SyncedIdle,
    NeedsLauncher,
    NeedsAttention,
}

/// The game is running, or has been seen to.
pub open spec fn playing(m: AppModel) -> bool {
    m.launcher.game_running || m.capture.latest_token is Some
}

/// The state of the hub: the first thing that is still missing on the way to a
/// synced account.
pub open spec fn hub_of(m: AppModel, elevated: bool, file: GameFile) -> HubState {
    if !elevated {
        HubState::NeedsAdmin
    } else if m.session.auth_pending {
        HubState::SigningIn
    } else if m.session.auth_token is None {
        HubState::SignedOut
    } else if m.capture.blocked || m.submit.gave_up {
        HubState::NeedsAttention
    } else if m.submit.token_submitted {
        if m.launcher.game_running {
            HubState::Synced
        } else {
            HubState::SyncedIdle
        }
    } else if m.submit.pending {
        HubState::Updating
    } else if !game_ready(m, file) {
        HubState::SelectGame
    } else if m.launcher.force_close_available {
        HubState::CloseLauncher
    } else if m.launcher.preparing {
        HubState::PreparingLauncher
    } else if ready(m) {
        if playing(m) {
            HubState::Connecting
        } else {
            HubState::LauncherReady
        }
    } else if m.launcher.was_ready {
        HubState::NeedsLauncher
    } else {
        HubState::PrepareLauncher
    }
}

impl ArcTrackerSyncApp {
    /// The state of the hub, given whether the process has the rights to
    /// capture and what the file system says of the game's path.
    pub fn hub_state(&self, elevated: bool, file: &GameFile) -> (r: HubState)
        ensures
            r == hub_of(self@, elevated, *file),
    {
        if !elevated {
            return HubState::NeedsAdmin;
        }
        if self.session.auth_pending {
            return HubState::SigningIn;
        }
        if self.session.auth_token.is_none() {
            return HubState::SignedOut;
        }
        if self.capture.blocked || self.submit.gave_up {
            return HubState::NeedsAttention;
        }
        if self.submit.token_submitted {
            return if self.launcher.game_running {
                HubState::Synced
            } else {
                HubState::SyncedIdle
            };
        }
        if self.submit.pending {
            return HubState::Updating;
        }
        if !self.game_ready_for_platform(file) {
            return HubState::SelectGame;
        }
        if self.launcher.force_close_available {
            return HubState::CloseLauncher;
        }
        if self.launcher.preparing {
            return HubState::PreparingLauncher;
        }
        if self.launcher_ready() {
            return if self.launcher.game_running || self.capture.latest_token.is_some() {
                HubState::Connecting
            } else {
                HubState::LauncherReady
            };
        }
        if self.launcher.was_ready {
            HubState::NeedsLauncher
        } else {
            HubState::PrepareLauncher
        }
    }
}

/// Once retries have stopped, who is signed in sees that something needs
/// attention, never an endless wait.
pub proof fn law_giving_up_is_shown(m: AppModel, file: GameFile)
    requires
        m.submit.gave_up,
        m.session.auth_token is Some,
        !m.session.auth_pending,
    ensures
        hub_of(m, true, file) == HubState::NeedsAttention,
{
}

/// Without the rights to capture nothing else is shown.
pub proof fn law_rights_come_first(m: AppModel, elevated: bool, file: GameFile)
    ensures
        hub_of(m, elevated, file) == HubState::NeedsAdmin <==> !elevated,
{
}

/// A synced account is shown only to who is signed in and has a token accepted.
pub proof fn law_synced_means_submitted(m: AppModel, elevated: bool, file: GameFile)
    requires
        hub_of(m, elevated, file) == HubState::Synced || hub_of(m, elevated, file)
            == HubState::SyncedIdle,
    ensures
        m.submit.token_submitted,
        m.session.auth_token is Some,
        hub_of(m, elevated, file) == HubState::Synced <==> m.launcher.game_running,
{
}

// ----- phases ---------------------------------------------------------------------

/// Which of the four steps a state belongs to.
pub open spec fn phase_of(state: HubState) -> nat {
    match state {
        HubState::NeedsAdmin | HubState::SignedOut | HubState::SigningIn => 0,
        HubState::SelectGame | HubState::PrepareLauncher | HubState::PreparingLauncher
        | HubState::CloseLauncher | HubState::NeedsLauncher => 1,
        HubState::LauncherReady | HubState::Connecting => 2,
        HubState::Updating | HubState::Synced | HubState::SyncedIdle
        | HubState::NeedsAttention => 3,
    }
}

/// The state waits for work in the background.
pub open spec fn waits(state: HubState) -> bool {
    state == HubState::SigningIn || state == HubState::PreparingLauncher || state
        == HubState::Connecting || state == HubState::Updating
}

/// A switch between the stores makes sense in the state.
pub open spec fn offers_switch(state: HubState) -> bool {
    state == HubState::SelectGame || state == HubState::PrepareLauncher || state
        == HubState::NeedsLauncher || state == HubState::LauncherReady
}

/// The colour of a state.
pub open spec fn accent_of(state: HubState) -> Rgb {
    match state {
        HubState::Synced | HubState::SyncedIdle => success_rgb(),
        HubState::NeedsAttention | HubState::NeedsLauncher | HubState::CloseLauncher => {
            warning_rgb()
        },
        _ => primary_rgb(),
    }
}

/// The four steps are numbered from 0 to 3.
pub proof fn law_phases_are_four(state: HubState)
    ensures
        phase_of(state) <= 3,
{
}

/// How far the four steps are: the account, the launcher, the game, the sync.
/// A step counts only once the one before it does.
pub open spec fn stages_of(m: AppModel, state: HubState) -> Seq<StageState> {
    seq![
        stage_of(
            m.session.auth_token is Some,
            state == HubState::SignedOut || state == HubState::SigningIn,
        ),
        if m.session.auth_token is None {
            StageState::Pending
        } else {
            stage_of(ready(m), phase_of(state) == 1)
        },
        if !ready(m) {
            StageState::Pending
        } else {
            stage_of(playing(m), phase_of(state) == 2)
        },
        if !playing(m) {
            StageState::Pending
        } else {
            stage_of(m.submit.token_submitted, state == HubState::Updating)
        },
    ]
}

/// What the four steps are called in the overview.
pub open spec fn stage_labels() -> Seq<MessageModel> {
    seq![
        say("SyncApp.progress.signedIn"@),
        say("SyncApp.progress.launcherReady"@),
        say("SyncApp.progress.playing"@),
        say("SyncApp.progress.synced"@),
    ]
}

/// A step of the overview.
pub struct Stage {
    pub label: Message,
    pub state: StageState,
}

/// The label and the sub-label of a step.
pub struct PhaseLabel {
    pub label: Message,
    pub sub: Message,
}

/// The labels and sub-labels of the four steps.
pub open spec fn phase_labels(launcher: Seq<char>) -> Seq<(MessageModel, MessageModel)> {
    seq![
        (say("SyncApp.phase.account.label"@), say("SyncApp.phase.account.sub"@)),
        (
            say("SyncApp.phase.launcher.label"@),
            say_with("SyncApp.phase.launcher.sub"@, "launcher"@, launcher),
        ),
        (say("SyncApp.phase.play.label"@), say("SyncApp.phase.play.sub"@)),
        (say("SyncApp.phase.sync.label"@), say("SyncApp.phase.sync.sub"@)),
    ]
}

/// The labels and sub-labels of the four steps.
pub fn phase_node_labels(launcher: &str) -> (r: Vec<PhaseLabel>)
    ensures
        r@.map_values(|p: PhaseLabel| (p.label@, p.sub@)) == phase_labels(launcher@),
{
    let mut r: Vec<PhaseLabel> = Vec::new();
    r.push(
        PhaseLabel {
            label: Message::plain("SyncApp.phase.account.label"),
            sub: Message::plain("SyncApp.phase.account.sub"),
        },
    );
    r.push(
        PhaseLabel {
            label: Message::plain("SyncApp.phase.launcher.label"),
            sub: Message::with("SyncApp.phase.launcher.sub", "launcher", launcher),
        },
    );
    r.push(
        PhaseLabel {
            label: Message::plain("SyncApp.phase.play.label"),
            sub: Message::plain("SyncApp.phase.play.sub"),
        },
    );
    r.push(
        PhaseLabel {
            label: Message::plain("SyncApp.phase.sync.label"),
            sub: Message::plain("SyncApp.phase.sync.sub"),
        },
    );
    r
}

impl ArcTrackerSyncApp {
    /// Which of the four steps a state belongs to.
    pub fn hub_phase(state: HubState) -> (r: usize)
        ensures
            r == phase_of(state),
            r <= 3,
    {
        match state {
            HubState::NeedsAdmin | HubState::SignedOut | HubState::SigningIn => 0,
            HubState::SelectGame | HubState::PrepareLauncher | HubState::PreparingLauncher
            | HubState::CloseLauncher | HubState::NeedsLauncher => 1,
            HubState::LauncherReady | HubState::Connecting => 2,
            HubState::Updating | HubState::Synced | HubState::SyncedIdle
            | HubState::NeedsAttention => 3,
        }
    }

    /// Whether a state waits for work in the background.
    pub fn is_busy(state: HubState) -> (r: bool)
        ensures
            r == waits(state),
    {
        match state {
            HubState::SigningIn | HubState::PreparingLauncher | HubState::Connecting
            | HubState::Updating => true,
            _ => false,
        }
    }

    /// Whether a switch between the stores makes sense in a state.
    pub fn is_launcher_phase(state: HubState) -> (r: bool)
        ensures
            r == offers_switch(state),
    {
        match state {
            HubState::SelectGame | HubState::PrepareLauncher | HubState::NeedsLauncher
            | HubState::LauncherReady => true,
            _ => false,
        }
    }

    /// The colour of a state.
    pub fn state_accent(state: HubState) -> (r: Rgb)
        ensures
            r == accent_of(state),
    {
        match state {
            HubState::Synced | HubState::SyncedIdle => arc_success(),
            HubState::NeedsAttention | HubState::NeedsLauncher | HubState::CloseLauncher => {
                arc_warning()
            },
            _ => arc_primary(),
        }
    }

    /// How far the four steps are.
    pub fn progress_stages(&self, state: HubState) -> (r: Vec<Stage>)
        ensures
            r@.map_values(|s: Stage| s.label@) == stage_labels(),
            r@.map_values(|s: Stage| s.state) == stages_of(self@, state),
    {
        let signed_in = self.session.auth_token.is_some();
        let launcher_ready = self.launcher_ready();
        let is_playing = self.launcher.game_running || self.capture.latest_token.is_some();
        let phase = Self::hub_phase(state);
        let account = stage(
            signed_in,
            state == HubState::SignedOut || state == HubState::SigningIn,
        );
        let launcher = if signed_in {
            stage(launcher_ready, phase == 1)
        } else {
            StageState::Pending
        };
        let play = if launcher_ready {
            stage(is_playing, phase == 2)
        } else {
            StageState::Pending
        };
        let sync = if is_playing {
            stage(self.submit.token_submitted, state == HubState::Updating)
        } else {
            StageState::Pending
        };
        let mut r: Vec<Stage> = Vec::new();
        r.push(Stage { label: Message::plain("SyncApp.progress.signedIn"), state: account });
        r.push(Stage { label: Message::plain("SyncApp.progress.launcherReady"), state: launcher });
        r.push(Stage { label: Message::plain("SyncApp.progress.playing"), state: play });
        r.push(Stage { label: Message::plain("SyncApp.progress.synced"), state: sync });
        r
    }
}

// ----- the copy -------------------------------------------------------------------

/// A text, or another one where the system is not Windows.
pub open spec fn by_host(host: HostOs, windows: Seq<char>, linux: Seq<char>) -> Seq<char> {
    match host {
        HostOs::Windows => windows,
        HostOs::Linux => linux,
    }
}

fn pick_by_host(host: HostOs, windows: &'static str, linux: &'static str) -> (r: &'static str)
    ensures
        r@ == by_host(host, windows@, linux@),
{
    match host {
        HostOs::Windows => windows,
        HostOs::Linux => linux,
    }
}

/// The title of a state.
pub open spec fn title_of(m: AppModel, state: HubState) -> MessageModel {
    let launcher = platform_label(effective(m));
    match state {
        HubState::NeedsAdmin => say("SyncApp.state.needsAdmin.title"@),
        HubState::SignedOut => say("SyncApp.state.signedOut.title"@),
        HubState::SigningIn => say("SyncApp.state.signingIn.title"@),
        HubState::SelectGame => say("SyncApp.state.selectGame.title"@),
        HubState::PrepareLauncher => say_with(
            "SyncApp.state.prepareLauncher.title"@,
            "launcher"@,
            launcher,
        ),
        HubState::PreparingLauncher => say_with(
            "SyncApp.state.preparingLauncher.title"@,
            "launcher"@,
            launcher,
        ),
        HubState::CloseLauncher => say_with(
            "SyncApp.state.closeLauncher.title"@,
            "launcher"@,
            launcher,
        ),
        HubState::LauncherReady => say_with(
            "SyncApp.state.launcherReady.title"@,
            "launcher"@,
            launcher,
        ),
        HubState::Connecting => say("SyncApp.state.connecting.title"@),
        HubState::Updating => say("SyncApp.state.updating.title"@),
        HubState::Synced | HubState::SyncedIdle => say("SyncApp.state.synced.title"@),
        HubState::NeedsLauncher => say_with(
            "SyncApp.state.needsLauncher.title"@,
            "launcher"@,
            launcher,
        ),
        HubState::NeedsAttention => say("SyncApp.state.needsAttention.title"@),
    }
}

/// What a state explains below its title.
pub open spec fn body_of(m: AppModel, state: HubState) -> MessageModel {
    let launcher = platform_label(effective(m));
    let account = match m.session.account_name {
        Some(name) => name,
        None => Seq::empty(),
    };
    match state {
        HubState::NeedsAdmin => say(
            by_host(
                m.host,
                "SyncApp.state.needsAdmin.body"@,
                "SyncApp.state.needsAdmin.bodyLinux"@,
            ),
        ),
        HubState::SignedOut => say("SyncApp.state.signedOut.body"@),
        HubState::SigningIn => say("SyncApp.state.signingIn.body"@),
        HubState::SelectGame => say_with(
            "SyncApp.state.selectGame.body"@,
            "launcher"@,
            launcher,
        ),
        HubState::PrepareLauncher => say_with(
            "SyncApp.state.prepareLauncher.body"@,
            "launcher"@,
            launcher,
        ),
        HubState::PreparingLauncher => say_with(
            "SyncApp.state.preparingLauncher.body"@,
            "launcher"@,
            launcher,
        ),
        HubState::CloseLauncher => say_with(
            "SyncApp.state.closeLauncher.body"@,
            "launcher"@,
            launcher,
        ),
        HubState::LauncherReady => say_with(
            "SyncApp.state.launcherReady.body"@,
            "launcher"@,
            launcher,
        ),
        HubState::Connecting => say("SyncApp.state.connecting.body"@),
        HubState::Updating => say("SyncApp.state.updating.body"@),
        HubState::Synced => say_with("SyncApp.state.synced.body"@, "account"@, account),
        HubState::SyncedIdle => say(
            by_host(
                m.host,
                "SyncApp.state.syncedIdle.body"@,
                "SyncApp.state.syncedIdle.bodyLinux"@,
            ),
        ),
        HubState::NeedsLauncher => say_with(
            "SyncApp.state.needsLauncher.body"@,
            "launcher"@,
            launcher,
        ),
        HubState::NeedsAttention => say(
            if npcap_missing(m) {
                "SyncApp.state.needsAttention.npcapBody"@
            } else {
                "SyncApp.state.needsAttention.body"@
            },
        ),
    }
}

/// The title and the body of a state.
pub struct HubCopy {
    pub title: Message,
    pub body: Message,
}

impl ArcTrackerSyncApp {
    /// What a state says: its title and what it explains below.
    pub fn hub_copy(&self, state: HubState) -> (r: HubCopy)
        ensures
            r.title@ == title_of(self@, state),
            r.body@ == body_of(self@, state),
    {
        HubCopy { title: self.hub_title(state), body: self.hub_body(state) }
    }

    fn hub_title(&self, state: HubState) -> (r: Message)
        ensures
            r@ == title_of(self@, state),
    {
        let launcher = self.effective_platform().label();
        match state {
            HubState::NeedsAdmin => Message::plain("SyncApp.state.needsAdmin.title"),
            HubState::SignedOut => Message::plain("SyncApp.state.signedOut.title"),
            HubState::SigningIn => Message::plain("SyncApp.state.signingIn.title"),
            HubState::SelectGame => Message::plain("SyncApp.state.selectGame.title"),
            HubState::PrepareLauncher => {
                Message::with("SyncApp.state.prepareLauncher.title", "launcher", launcher)
            },
            HubState::PreparingLauncher => {
                Message::with("SyncApp.state.preparingLauncher.title", "launcher", launcher)
            },
            HubState::CloseLauncher => {
                Message::with("SyncApp.state.closeLauncher.title", "launcher", launcher)
            },
            HubState::LauncherReady => {
                Message::with("SyncApp.state.launcherReady.title", "launcher", launcher)
            },
            HubState::Connecting => Message::plain("SyncApp.state.connecting.title"),
            HubState::Updating => Message::plain("SyncApp.state.updating.title"),
            HubState::Synced | HubState::SyncedIdle => Message::plain("SyncApp.state.synced.title"),
            HubState::NeedsLauncher => {
                Message::with("SyncApp.state.needsLauncher.title", "launcher", launcher)
            },
            HubState::NeedsAttention => Message::plain("SyncApp.state.needsAttention.title"),
        }
    }

    fn hub_body(&self, state: HubState) -> (r: Message)
        ensures
            r@ == body_of(self@, state),
    {
        let launcher = self.effective_platform().label();
        match state {
            HubState::NeedsAdmin => Message::plain(
                pick_by_host(
                    self.host,
                    "SyncApp.state.needsAdmin.body",
                    "SyncApp.state.needsAdmin.bodyLinux",
                ),
            ),
            HubState::SignedOut => Message::plain("SyncApp.state.signedOut.body"),
            HubState::SigningIn => Message::plain("SyncApp.state.signingIn.body"),
            HubState::SelectGame => {
                Message::with("SyncApp.state.selectGame.body", "launcher", launcher)
            },
            HubState::PrepareLauncher => {
                Message::with("SyncApp.state.prepareLauncher.body", "launcher", launcher)
            },
            HubState::PreparingLauncher => {
                Message::with("SyncApp.state.preparingLauncher.body", "launcher", launcher)
            },
            HubState::CloseLauncher => {
                Message::with("SyncApp.state.closeLauncher.body", "launcher", launcher)
            },
            HubState::LauncherReady => {
                Message::with("SyncApp.state.launcherReady.body", "launcher", launcher)
            },
            HubState::Connecting => Message::plain("SyncApp.state.connecting.body"),
            HubState::Updating => Message::plain("SyncApp.state.updating.body"),
            HubState::Synced => match &self.session.account_name {
                Some(name) => Message::with("SyncApp.state.synced.body", "account", name.as_str()),
                None => {
                    let nobody = String::new();
                    Message::with("SyncApp.state.synced.body", "account", nobody.as_str())
                },
            },
            HubState::SyncedIdle => Message::plain(
                pick_by_host(
                    self.host,
                    "SyncApp.state.syncedIdle.body",
                    "SyncApp.state.syncedIdle.bodyLinux",
                ),
            ),
            HubState::NeedsLauncher => {
                Message::with("SyncApp.state.needsLauncher.body", "launcher", launcher)
            },
            HubState::NeedsAttention => if self.npcap_known_missing() {
                Message::plain("SyncApp.state.needsAttention.npcapBody")
            } else {
                Message::plain("SyncApp.state.needsAttention.body")
            },
        }
    }
}

// ----- the actions ----------------------------------------------------------------

/// What the user can ask for with a button of the hub.
#[derive(Debug, Clone, Copy, PartialEq, Eq, Structural)]
pub enum Intent {
    /// Get the rights to capture.
    Elevate,
    OpenHelp,
    StartSignIn,
    CancelSignIn,
    BrowseGame,
    ShowExplainer,
    /// Get the launcher ready, by force where it did not close.
    PrepareLauncher { force_close: bool },
    HideToTray,
    OpenStash,
    OpenNpcap,
    TryAgain,
}

/// The page that an intent opens, if it opens one.
pub open spec fn page_of(intent: Intent) -> Option<Seq<char>> {
    match intent {
        Intent::OpenHelp => Some("https://arctracker.io/help/sync"@),
        Intent::OpenStash => Some("https://arctracker.io/stash"@),
        Intent::OpenNpcap => Some("https://npcap.com/#download"@),
        _ => None,
    }
}

impl Intent {
    /// The page that is opened in the browser, if that is what was asked for.
    pub fn url(self) -> (r: Option<&'static str>)
        ensures
            crate::text::opt_str_view(r) == page_of(self),
    {
        match self {
            Intent::OpenHelp => Some("https://arctracker.io/help/sync"),
            Intent::OpenStash => Some("https://arctracker.io/stash"),
            Intent::OpenNpcap => Some("https://npcap.com/#download"),
            _ => None,
        }
    }
}

/// An item below the text of the hub.
pub enum HeroItem {
    Primary { label: Message, intent: Intent },
    Secondary { label: Message, intent: Intent },
    Link { label: Message, intent: Intent },
    Spinner { label: Message },
}

/// What an item says.
pub enum HeroModel {
    Primary(MessageModel, Intent),
    Secondary(MessageModel, Intent),
    Link(MessageModel, Intent),
    Spinner(MessageModel),
}

impl View for HeroItem {
    type V = HeroModel;

    open spec fn view(&self) -> HeroModel {
        match *self {
            HeroItem::Primary { label, intent } => HeroModel::Primary(label@, intent),
            HeroItem::Secondary { label, intent } => HeroModel::Secondary(label@, intent),
            HeroItem::Link { label, intent } => HeroModel::Link(label@, intent),
            HeroItem::Spinner { label } => HeroModel::Spinner(label@),
        }
    }
}

/// What the items say.
pub open spec fn hero_views(items: Seq<HeroItem>) -> Seq<HeroModel> {
    items.map_values(|i: HeroItem| i@)
}

/// A button that hides the window, where there is a tray to hide it in.
pub open spec fn hide_items(m: AppModel) -> Seq<HeroModel> {
    if m.tray.present {
        seq![HeroModel::Secondary(say("SyncApp.action.hideToTray"@), Intent::HideToTray)]
    } else {
        Seq::empty()
    }
}

/// The items of a state, in order.
pub open spec fn actions_of(m: AppModel, state: HubState) -> Seq<HeroModel> {
    let launcher = platform_label(effective(m));
    let help = HeroModel::Secondary(say("SyncApp.action.getHelp"@), Intent::OpenHelp);
    let explain = HeroModel::Secondary(
        say("SyncApp.action.whatDoesThisDo"@),
        Intent::ShowExplainer,
    );
    let prepare = HeroModel::Primary(
        say_with("SyncApp.action.prepareLauncher"@, "launcher"@, launcher),
        Intent::PrepareLauncher { force_close: false },
    );
    match state {
        HubState::NeedsAdmin => seq![
            HeroModel::Primary(
                say(
                    by_host(
                        m.host,
                        "SyncApp.action.restartAsAdmin"@,
                        "SyncApp.action.grantCapture"@,
                    ),
                ),
                Intent::Elevate,
            ),
            help,
        ],
        HubState::SignedOut => seq![
            HeroModel::Primary(say("SyncApp.action.signIn"@), Intent::StartSignIn),
        ],
        HubState::SigningIn => seq![
            HeroModel::Secondary(say("SyncApp.action.cancel"@), Intent::CancelSignIn),
        ],
        HubState::SelectGame => seq![
            HeroModel::Primary(say("SyncApp.action.chooseGame"@), Intent::BrowseGame),
            explain,
        ],
        HubState::PrepareLauncher => seq![prepare, explain],
        HubState::PreparingLauncher => seq![
            HeroModel::Spinner(
                say_with("SyncApp.state.preparingLauncher.waiting"@, "launcher"@, launcher),
            ),
        ],
        HubState::CloseLauncher => seq![
            HeroModel::Primary(
                say_with("SyncApp.action.closeLauncher"@, "launcher"@, launcher),
                Intent::PrepareLauncher { force_close: true },
            ),
        ],
        HubState::LauncherReady => hide_items(m),
        HubState::Connecting => seq![
            HeroModel::Spinner(say("SyncApp.state.connecting.waiting"@)),
        ],
        HubState::Updating => seq![HeroModel::Spinner(say("SyncApp.state.updating.waiting"@))],
        HubState::Synced | HubState::SyncedIdle => seq![
            HeroModel::Primary(say("SyncApp.action.viewStash"@), Intent::OpenStash),
        ] + hide_items(m),
        HubState::NeedsLauncher => seq![prepare, help],
        HubState::NeedsAttention => (if npcap_missing(m) {
            seq![HeroModel::Link(say("SyncApp.settings.npcapLink"@), Intent::OpenNpcap)]
        } else {
            Seq::empty()
        }) + seq![HeroModel::Primary(say("SyncApp.action.tryAgain"@), Intent::TryAgain), help],
    }
}

fn primary(label: Message, intent: Intent) -> (r: HeroItem)
    ensures
        r@ == HeroModel::Primary(label@, intent),
{
    HeroItem::Primary { label, intent }
}

fn secondary(label: Message, intent: Intent) -> (r: HeroItem)
    ensures
        r@ == HeroModel::Secondary(label@, intent),
{
    HeroItem::Secondary { label, intent }
}

fn only(item: HeroItem) -> (r: Vec<HeroItem>)
    ensures
        hero_views(r@) == seq![item@],
{
    let mut r: Vec<HeroItem> = Vec::new();
    r.push(item);
    r
}

fn both(first: HeroItem, second: HeroItem) -> (r: Vec<HeroItem>)
    ensures
        hero_views(r@) == seq![first@, second@],
{
    let mut r: Vec<HeroItem> = Vec::new();
    r.push(first);
    r.push(second);
    r
}

impl ArcTrackerSyncApp {
    fn add_hide(&self, items: &mut Vec<HeroItem>)
        ensures
            hero_views(final(items)@) == hero_views(old(items)@) + hide_items(self@),
    {
        if self.tray.present {
            items.push(secondary(Message::plain("SyncApp.action.hideToTray"), Intent::HideToTray));
        }
    }

    fn prepare_button(&self) -> (r: HeroItem)
        ensures
            r@ == HeroModel::Primary(
                say_with(
                    "SyncApp.action.prepareLauncher"@,
                    "launcher"@,
                    platform_label(effective(self@)),
                ),
                Intent::PrepareLauncher { force_close: false },
            ),
    {
        let launcher = self.effective_platform().label();
        primary(
            Message::with("SyncApp.action.prepareLauncher", "launcher", launcher),
            Intent::PrepareLauncher { force_close: false },
        )
    }

    fn attention_items(&self) -> (r: Vec<HeroItem>)
        ensures
            hero_views(r@) == actions_of(self@, HubState::NeedsAttention),
    {
        let mut r: Vec<HeroItem> = Vec::new();
        if self.npcap_known_missing() {
            r.push(
                HeroItem::Link {
                    label: Message::plain("SyncApp.settings.npcapLink"),
                    intent: Intent::OpenNpcap,
                },
            );
        }
        r.push(primary(Message::plain("SyncApp.action.tryAgain"), Intent::TryAgain));
        r.push(secondary(Message::plain("SyncApp.action.getHelp"), Intent::OpenHelp));
        r
    }

    /// What a state offers below its text.
    pub fn hero_actions(&self, state: HubState) -> (r: Vec<HeroItem>)
        ensures
            hero_views(r@) == actions_of(self@, state),
    {
        let launcher = self.effective_platform().label();
        match state {
            HubState::NeedsAdmin => both(
                primary(
                    Message::plain(
                        pick_by_host(
                            self.host,
                            "SyncApp.action.restartAsAdmin",
                            "SyncApp.action.grantCapture",
                        ),
                    ),
                    Intent::Elevate,
                ),
                secondary(Message::plain("SyncApp.action.getHelp"), Intent::OpenHelp),
            ),
            HubState::SignedOut => only(
                primary(Message::plain("SyncApp.action.signIn"), Intent::StartSignIn),
            ),
            HubState::SigningIn => only(
                secondary(Message::plain("SyncApp.action.cancel"), Intent::CancelSignIn),
            ),
            HubState::SelectGame => both(
                primary(Message::plain("SyncApp.action.chooseGame"), Intent::BrowseGame),
                secondary(Message::plain("SyncApp.action.whatDoesThisDo"), Intent::ShowExplainer),
            ),
            HubState::PrepareLauncher => both(
                self.prepare_button(),
                secondary(Message::plain("SyncApp.action.whatDoesThisDo"), Intent::ShowExplainer),
            ),
            HubState::PreparingLauncher => only(
                HeroItem::Spinner {
                    label: Message::with(
                        "SyncApp.state.preparingLauncher.waiting",
                        "launcher",
                        launcher,
                    ),
                },
            ),
            HubState::CloseLauncher => only(
                primary(
                    Message::with("SyncApp.action.closeLauncher", "launcher", launcher),
                    Intent::PrepareLauncher { force_close: true },
                ),
            ),
            HubState::LauncherReady => {
                let mut r: Vec<HeroItem> = Vec::new();
                self.add_hide(&mut r);
                r
            },
            HubState::Connecting => only(
                HeroItem::Spinner { label: Message::plain("SyncApp.state.connecting.waiting") },
            ),
            HubState::Updating => only(
                HeroItem::Spinner { label: Message::plain("SyncApp.state.updating.waiting") },
            ),
            HubState::Synced | HubState::SyncedIdle => {
                let mut r = only(
                    primary(Message::plain("SyncApp.action.viewStash"), Intent::OpenStash),
                );
                self.add_hide(&mut r);
                r
            },
            HubState::NeedsLauncher => both(
                self.prepare_button(),
                secondary(Message::plain("SyncApp.action.getHelp"), Intent::OpenHelp),
            ),
            HubState::NeedsAttention => self.attention_items(),
        }
    }
}

/// A state that waits offers nothing that the user would have to do, but to
/// cancel a sign-in.
pub proof fn law_waiting_states_ask_nothing(m: AppModel, state: HubState)
    requires
        waits(state),
    ensures
        actions_of(m, state).len() == 1,
        state != HubState::SigningIn ==> actions_of(m, state)[0] is Spinner,
        state == HubState::SigningIn ==> (actions_of(m, state)[0] matches HeroModel::Secondary(
            _,
            intent,
        ) && intent == Intent::CancelSignIn),
{
}

} // verus!
