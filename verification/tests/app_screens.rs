use arctracker_sync::app::hub::{phase_node_labels, HeroItem, HubState, Intent};
use arctracker_sync::app::launcher::{GameFile, ProcessFacts};
use arctracker_sync::app::screens::{Text, UpdateDialog};
use arctracker_sync::app::start::{SavedSignIn, StartFacts};
use arctracker_sync::app::{
    AppConfig, ArcTrackerSyncApp, CaptureMethod, Effect, InterfaceInfo, LocalTime, ReleaseInfo,
    TokenObservation, UpdateState,
};
use arctracker_sync::i18n::Message;
use arctracker_sync::launch::{
    HostOs, LauncherPlatform, LauncherScan, LauncherStatus, SyncKeyResolution, SyncKeySource,
    SyncKeySourceKind,
};
use arctracker_sync::theme::{arc_fg_dim, arc_muted_text, arc_primary, arc_success, arc_warning};
use arctracker_sync::widgets::{StageState, WindowButton};

fn s(text: &str) -> String {
    text.to_string()
}

fn app(host: HostOs) -> ArcTrackerSyncApp {
    ArcTrackerSyncApp::new(StartFacts {
        host,
        config: AppConfig {
            platform: LauncherPlatform::Steam,
            game_executable_path: None,
            language: None,
            selected_interface: None,
            keep_in_tray: false,
            capture_method: CaptureMethod::RawSocket,
        },
        detected_steam: true,
        detected_epic_exe: None,
        install_locations: Vec::new(),
        system_language: Some(s("fr")),
        sync_key: Ok(SyncKeyResolution {
            source: SyncKeySource { kind: SyncKeySourceKind::AppOwned, path: s("/keys") },
            skipped: Vec::new(),
        }),
        saved_sign_in: SavedSignIn::Current { token: s("auth"), days_remaining: Some(30) },
        processes: ProcessFacts { game: Vec::new(), launcher: LauncherScan::Found(Vec::new()) },
        game: Vec::new(),
        interfaces: Ok(vec![InterfaceInfo { name: s("eth0"), description: None }]),
        tooltip: s("idle"),
        now: 0,
    })
}

fn file() -> GameFile {
    GameFile { exists: true, is_file: true, extension: Some(s("exe")) }
}

fn token(seconds: i64) -> TokenObservation {
    TokenObservation {
        fingerprint: s("f"),
        host: s("h"),
        token: s("t"),
        expires_at: Some(LocalTime { seconds, nanos: 0, offset: 0 }),
    }
}

const NOW: LocalTime = LocalTime { seconds: 0, nanos: 0, offset: 0 };

fn shown(message: &Message) -> String {
    let args: Vec<String> =
        message.args.iter().map(|a| format!(" {}={}", a.name, a.value)).collect();
    format!("{}{}", message.key, args.join(""))
}

fn items(app: &ArcTrackerSyncApp, state: HubState) -> Vec<(String, Option<Intent>)> {
    app.hero_actions(state)
        .iter()
        .map(|item| match item {
            HeroItem::Primary { label, intent } => (format!("1 {}", shown(label)), Some(*intent)),
            HeroItem::Secondary { label, intent } => (format!("2 {}", shown(label)), Some(*intent)),
            HeroItem::Link { label, intent } => (format!("link {}", shown(label)), Some(*intent)),
            HeroItem::Spinner { label } => (format!("wait {}", shown(label)), None),
        })
        .collect()
}

#[test]
fn the_hub_shows_what_is_missing_next() {
    let mut app = app(HostOs::Linux);
    let state = |app: &ArcTrackerSyncApp| app.hub_state(true, &file());
    assert_eq!(app.hub_state(false, &file()), HubState::NeedsAdmin);
    assert_eq!(state(&app), HubState::PrepareLauncher);
    app.launcher.was_ready = true;
    assert_eq!(state(&app), HubState::NeedsLauncher);
    app.launcher.readiness.status = LauncherStatus::Ready;
    assert_eq!(state(&app), HubState::LauncherReady);
    app.launcher.game_running = true;
    assert_eq!(state(&app), HubState::Connecting);
    app.launcher.preparing = true;
    assert_eq!(state(&app), HubState::PreparingLauncher);
    app.launcher.force_close_available = true;
    assert_eq!(state(&app), HubState::CloseLauncher);
    app.config.platform = LauncherPlatform::Epic;
    assert_eq!(state(&app), HubState::SelectGame);
    app.submit.pending = true;
    assert_eq!(state(&app), HubState::Updating);
    app.submit.token_submitted = true;
    assert_eq!(state(&app), HubState::Synced);
    app.launcher.game_running = false;
    assert_eq!(state(&app), HubState::SyncedIdle);
    app.submit.gave_up = true;
    assert_eq!(state(&app), HubState::NeedsAttention);
    app.submit.gave_up = false;
    app.capture.blocked = true;
    assert_eq!(state(&app), HubState::NeedsAttention);
    app.session.auth_token = None;
    assert_eq!(state(&app), HubState::SignedOut);
    app.session.auth_pending = true;
    assert_eq!(state(&app), HubState::SigningIn);
}

#[test]
fn states_have_phases_and_colours() {
    assert_eq!(ArcTrackerSyncApp::hub_phase(HubState::SigningIn), 0);
    assert_eq!(ArcTrackerSyncApp::hub_phase(HubState::NeedsLauncher), 1);
    assert_eq!(ArcTrackerSyncApp::hub_phase(HubState::Connecting), 2);
    assert_eq!(ArcTrackerSyncApp::hub_phase(HubState::NeedsAttention), 3);
    assert!(ArcTrackerSyncApp::is_busy(HubState::Updating));
    assert!(!ArcTrackerSyncApp::is_busy(HubState::Synced));
    assert!(ArcTrackerSyncApp::is_launcher_phase(HubState::LauncherReady));
    assert!(!ArcTrackerSyncApp::is_launcher_phase(HubState::Connecting));
    assert_eq!(ArcTrackerSyncApp::state_accent(HubState::SyncedIdle), arc_success());
    assert_eq!(ArcTrackerSyncApp::state_accent(HubState::CloseLauncher), arc_warning());
    assert_eq!(ArcTrackerSyncApp::state_accent(HubState::SignedOut), arc_primary());
}

#[test]
fn stages_count_once_the_one_before_does() {
    let mut app = app(HostOs::Linux);
    let stages = |app: &ArcTrackerSyncApp, state| {
        app.progress_stages(state).iter().map(|s| s.state).collect::<Vec<_>>()
    };
    assert_eq!(
        stages(&app, HubState::PrepareLauncher),
        vec![StageState::Done, StageState::Current, StageState::Pending, StageState::Pending]
    );
    app.launcher.readiness.status = LauncherStatus::Ready;
    assert_eq!(
        stages(&app, HubState::LauncherReady),
        vec![StageState::Done, StageState::Done, StageState::Current, StageState::Pending]
    );
    app.launcher.game_running = true;
    assert_eq!(
        stages(&app, HubState::Updating),
        vec![StageState::Done, StageState::Done, StageState::Done, StageState::Current]
    );
    app.session.auth_token = None;
    assert_eq!(stages(&app, HubState::SignedOut)[..2], [StageState::Current, StageState::Pending]);
    assert_eq!(app.progress_stages(HubState::Synced)[3].label.key, "SyncApp.progress.synced");
    let labels = phase_node_labels("Steam");
    assert_eq!(labels.len(), 4);
    assert_eq!(shown(&labels[1].sub), "SyncApp.phase.launcher.sub launcher=Steam");
}

#[test]
fn states_say_their_part() {
    let mut linux = app(HostOs::Linux);
    let copy = |app: &ArcTrackerSyncApp, state| {
        let copy = app.hub_copy(state);
        (shown(&copy.title), shown(&copy.body))
    };
    assert_eq!(
        copy(&linux, HubState::NeedsAdmin),
        (s("SyncApp.state.needsAdmin.title"), s("SyncApp.state.needsAdmin.bodyLinux"))
    );
    assert_eq!(
        copy(&app(HostOs::Windows), HubState::SyncedIdle),
        (s("SyncApp.state.synced.title"), s("SyncApp.state.syncedIdle.body"))
    );
    assert_eq!(
        copy(&linux, HubState::CloseLauncher),
        (
            s("SyncApp.state.closeLauncher.title launcher=Steam"),
            s("SyncApp.state.closeLauncher.body launcher=Steam")
        )
    );
    assert_eq!(copy(&linux, HubState::Synced).1, "SyncApp.state.synced.body account=");
    linux.session.account_name = Some(s("Matt"));
    assert_eq!(copy(&linux, HubState::Synced).1, "SyncApp.state.synced.body account=Matt");
    linux.config.capture_method = CaptureMethod::Npcap;
    linux.capture.npcap_available = Some(false);
    assert_eq!(
        copy(&linux, HubState::NeedsAttention).1,
        "SyncApp.state.needsAttention.npcapBody"
    );
}

#[test]
fn states_offer_what_can_be_done() {
    let mut app = app(HostOs::Linux);
    assert_eq!(
        items(&app, HubState::NeedsAdmin),
        vec![
            (s("1 SyncApp.action.grantCapture"), Some(Intent::Elevate)),
            (s("2 SyncApp.action.getHelp"), Some(Intent::OpenHelp)),
        ]
    );
    assert_eq!(
        items(&app, HubState::PrepareLauncher)[0],
        (
            s("1 SyncApp.action.prepareLauncher launcher=Steam"),
            Some(Intent::PrepareLauncher { force_close: false })
        )
    );
    assert_eq!(
        items(&app, HubState::CloseLauncher),
        vec![(
            s("1 SyncApp.action.closeLauncher launcher=Steam"),
            Some(Intent::PrepareLauncher { force_close: true })
        )]
    );
    assert_eq!(
        items(&app, HubState::Connecting),
        vec![(s("wait SyncApp.state.connecting.waiting"), None)]
    );
    assert_eq!(items(&app, HubState::LauncherReady), Vec::new());
    assert_eq!(items(&app, HubState::Synced).len(), 1);
    app.tray.present = true;
    assert_eq!(
        items(&app, HubState::LauncherReady),
        vec![(s("2 SyncApp.action.hideToTray"), Some(Intent::HideToTray))]
    );
    assert_eq!(items(&app, HubState::SyncedIdle).len(), 2);
    assert_eq!(items(&app, HubState::NeedsAttention).len(), 2);
    app.config.capture_method = CaptureMethod::Npcap;
    app.capture.npcap_available = Some(false);
    assert_eq!(
        items(&app, HubState::NeedsAttention)[0],
        (s("link SyncApp.settings.npcapLink"), Some(Intent::OpenNpcap))
    );
    assert_eq!(items(&app, HubState::SigningIn)[0].1, Some(Intent::CancelSignIn));
    assert_eq!(items(&app, HubState::SignedOut)[0].1, Some(Intent::StartSignIn));
    assert_eq!(items(&app, HubState::SelectGame)[0].1, Some(Intent::BrowseGame));
    assert_eq!(items(&app, HubState::NeedsLauncher)[1].1, Some(Intent::OpenHelp));
    assert_eq!(items(&app, HubState::Updating).len(), 1);
    assert_eq!(items(&app, HubState::PreparingLauncher).len(), 1);
    assert_eq!(Intent::OpenHelp.url(), Some("https://arctracker.io/help/sync"));
    assert_eq!(Intent::OpenStash.url(), Some("https://arctracker.io/stash"));
    assert_eq!(Intent::OpenNpcap.url(), Some("https://npcap.com/#download"));
    assert_eq!(Intent::TryAgain.url(), None);
}

#[test]
fn the_panel_says_until_when_the_session_lasts() {
    let mut app = app(HostOs::Linux);
    app.capture.latest_token = Some(token(86_400));
    let panel = app.hero_panel(HubState::Synced, NOW);
    assert_eq!(panel.phase, 3);
    assert_eq!(shown(&panel.step), "SyncApp.hero.step n=4");
    assert_eq!(panel.phase_name.key, "SyncApp.phase.sync.label");
    assert_eq!(
        panel.session.map(|m| shown(&m)),
        Some(s("SyncApp.state.synced.session time=Jan 2, 00:00"))
    );
    assert_eq!(
        panel.can_close.map(|m| shown(&m)),
        Some(s("SyncApp.state.synced.canCloseLinux"))
    );
    app.capture.latest_token = Some(token(100));
    assert!(app.hero_panel(HubState::Synced, NOW).session.is_none());
    let idle = app.hero_panel(HubState::SyncedIdle, NOW);
    assert!(idle.session.is_none() && idle.can_close.is_none());
    assert!(!app.hero_panel(HubState::PrepareLauncher, NOW).launcher_toggle);
    app.launcher.detected_epic_exe = Some(s("e.exe"));
    let offer = app.hero_panel(HubState::PrepareLauncher, NOW);
    assert!(offer.launcher_toggle && !offer.busy);
    assert_eq!(offer.tone, arc_primary());
    assert_eq!(offer.title.key, "SyncApp.state.prepareLauncher.title");
}

#[test]
fn title_bar_and_footer_name_who_is_signed_in() {
    let mut app = app(HostOs::Linux);
    let bar = app.title_bar(true);
    assert_eq!(bar.status.key, "SyncApp.header.signedIn");
    assert_eq!(bar.status_color, arc_success());
    assert_eq!(bar.resize, WindowButton::Restore);
    assert_eq!(bar.radius, 0);
    assert!(!bar.update_visible);
    let footer = app.footer_identity();
    assert_eq!(footer.label.key, "SyncApp.header.signedIn");
    assert_eq!(footer.dot, arc_muted_text());
    app.submit.token_submitted = true;
    assert_eq!(app.footer_identity().account, None);
    app.session.account_name = Some(s("Matt"));
    let synced = app.footer_identity();
    assert_eq!(synced.account.as_deref(), Some("Matt"));
    assert_eq!(synced.dot, arc_success());
    let (account, can_sign_out) = app.settings_account();
    assert_eq!(shown(&account), "SyncApp.footer.signedInAs account=Matt");
    assert!(can_sign_out);
    app.submit.token_submitted = false;
    assert_eq!(app.settings_account().0.key, "SyncApp.header.signedIn");
    app.session.auth_token = None;
    let out = app.footer_identity();
    assert_eq!(out.label.key, "SyncApp.footer.notSignedIn");
    assert_eq!(out.dot, arc_fg_dim());
    assert_eq!(app.title_bar(false).status.key, "SyncApp.header.signedOut");
    let (nobody, can_sign_out) = app.settings_account();
    assert_eq!(nobody.key, "SyncApp.footer.notSignedIn");
    assert!(!can_sign_out);
}

fn plain(text: &Text) -> String {
    match text {
        Text::Plain(text) => text.clone(),
        Text::Catalog(message) => format!("@{}", shown(message)),
    }
}

#[test]
fn settings_say_what_is_selected() {
    let mut linux = app(HostOs::Linux);
    assert_eq!(plain(&linux.settings_location()), "@SyncApp.settings.autoDetected");
    linux.type_game_path(" /g ");
    assert_eq!(plain(&linux.settings_location()), "/g");
    let picker = linux.language_picker();
    assert_eq!(picker.hint.key, "SyncApp.settings.matchesSystem");
    assert_eq!(plain(&picker.current), "@SyncApp.settings.matchSystem");
    assert!(picker.follows);
    assert_eq!(picker.choices.len(), 20);
    linux.config.language = Some(s("ja"));
    let picker = linux.language_picker();
    assert_eq!(plain(&picker.current), "日本語");
    let selected: Vec<&str> =
        picker.choices.iter().filter(|c| c.selected).map(|c| c.locale).collect();
    assert_eq!(selected, vec!["ja"]);
    let network = linux.settings_network();
    assert_eq!(network.adapter, "eth0");
    assert_eq!(network.adapters, vec!["eth0"]);
    assert_eq!(network.method.key, "SyncApp.settings.captureRawSocketsLinux");
    assert_eq!(network.methods, vec![CaptureMethod::RawSocket]);
    assert!(!network.npcap_missing);
    linux.capture.interfaces.clear();
    assert_eq!(linux.settings_network().adapter, "Automatic");
    let windows = app(HostOs::Windows);
    assert_eq!(windows.settings_network().methods.len(), 2);
    assert_eq!(
        windows.method_label(CaptureMethod::Npcap).key,
        "SyncApp.settings.captureNpcap"
    );
    assert_eq!(windows.language_picker().follow.key, "SyncApp.settings.matchWindows");
    assert_eq!(linux.log_button().key, "SyncApp.settings.view");
    linux.toggle_activity_log();
    assert_eq!(linux.log_button().key, "SyncApp.settings.hide");
}

#[test]
fn the_explainer_opens_and_closes() {
    let mut app = app(HostOs::Linux);
    assert!(app.explainer().is_none());
    app.show_explainer(true);
    let (title, body) = app.explainer().unwrap();
    assert_eq!(shown(&title), "SyncApp.explain.title launcher=Steam");
    assert_eq!(shown(&body), "SyncApp.explain.body launcher=Steam");
    app.show_explainer(false);
    assert!(app.explainer().is_none());
}

fn dialog(app: &ArcTrackerSyncApp) -> String {
    match app.update_dialog() {
        None => s("none"),
        Some(UpdateDialog::Close) => s("close"),
        Some(UpdateDialog::Offer { title, notes, failure, install }) => format!(
            "{} | {} | {} | {}",
            shown(&title),
            notes,
            failure.map(|m| shown(&m)).unwrap_or_default(),
            install.key
        ),
        Some(UpdateDialog::Download { received, total }) => format!("{received} of {total:?}"),
        Some(UpdateDialog::Busy { label }) => shown(&label),
    }
}

#[test]
fn the_update_dialog_follows_the_update() {
    let mut app = app(HostOs::Windows);
    assert_eq!(dialog(&app), "none");
    app.open_update_modal();
    assert_eq!(dialog(&app), "close");
    app.answer_update_dialog(false, false, false);
    assert!(!app.update.show_modal);
    app.open_update_modal();
    app.update.state = UpdateState::Available;
    assert_eq!(dialog(&app), "close");
    app.update.current_release = Some(ReleaseInfo {
        version: s("1"),
        tag: s("v1"),
        notes: s("new"),
        size: 9,
    });
    assert_eq!(dialog(&app), "SyncApp.update.title version=v1 | new |  | SyncApp.update.install");
    app.update.state = UpdateState::Failed(s("bad"));
    assert_eq!(
        dialog(&app),
        "SyncApp.update.title version=v1 | new | SyncApp.update.failed error=bad | SyncApp.update.retry"
    );
    app.answer_update_dialog(false, false, true);
    assert!(!app.update.show_modal);
    app.open_update_modal();
    app.answer_update_dialog(false, true, false);
    assert!(!app.update.show_modal);
    app.open_update_modal();
    app.take_effects();
    app.answer_update_dialog(true, false, false);
    assert_eq!(app.take_effects().len(), 1);
    assert_eq!(dialog(&app), "0 of Some(9)");
    app.answer_update_dialog(false, false, true);
    assert!(app.update.show_modal);
    app.update.state = UpdateState::Downloading { received: 4, total: Some(0) };
    assert_eq!(dialog(&app), "4 of None");
    app.update.state = UpdateState::Verifying;
    assert_eq!(dialog(&app), "SyncApp.update.verifying");
    app.update.state = UpdateState::Installing;
    assert_eq!(dialog(&app), "SyncApp.update.installing");
    app.update.state = UpdateState::Relaunching;
    assert_eq!(dialog(&app), "SyncApp.update.restarting");
}

#[test]
fn a_switch_for_the_tray_is_kept() {
    let mut app = app(HostOs::Windows);
    app.take_effects();
    app.set_keep_in_tray(true);
    assert!(app.config.keep_in_tray);
    assert_eq!(app.take_effects(), vec![Effect::SaveConfig]);
}
