use std::time::Duration;

use arctracker_sync::app::capture::skipped_sync_key_notice;
use arctracker_sync::app::diagnostics::DiagnosticFacts;
use arctracker_sync::app::expiry::{expiry_label, full_time, is_lasting};
use arctracker_sync::app::interfaces::{best_index, find_interface};
use arctracker_sync::app::launcher::{GameFile, PrepareFacts, ProcessFacts};
use arctracker_sync::app::lifecycle::{BackgroundStep, RetryFacts, TrayCommand};
use arctracker_sync::app::start::{choose_first_launcher, SavedSignIn, StartFacts};
use arctracker_sync::app::sync::{SignInStart, REFRESH_INTERVAL, SECOND};
use arctracker_sync::app::{
    AppConfig, ArcTrackerSyncApp, CaptureEvent, CaptureMethod, CaptureStats, Effect,
    InstallProgress, InterfaceInfo, LocalTime, Polled, ReleaseInfo, Screen, SubmitError,
    SubmitReceipt, SubmitResponse, TokenObservation, UpdateState,
};
use arctracker_sync::launch::{
    EnvReading, HostOs, LauncherPlatform, LauncherScan, LauncherStatus, PathProbe, PrepareOutcome,
    SkippedSyncKey, SyncKeyResolution, SyncKeySource, SyncKeySourceKind,
};
use arctracker_sync::process_env::LauncherProcess;
use chrono::TimeZone;

const START: u64 = 100_000 * SECOND;

fn s(text: &str) -> String {
    text.to_string()
}

fn config() -> AppConfig {
    AppConfig {
        platform: LauncherPlatform::Steam,
        game_executable_path: None,
        language: Some(s("de")),
        selected_interface: None,
        keep_in_tray: true,
        capture_method: CaptureMethod::RawSocket,
    }
}

fn key(path: &str) -> SyncKeyResolution {
    SyncKeyResolution {
        source: SyncKeySource { kind: SyncKeySourceKind::AppOwned, path: s(path) },
        skipped: Vec::new(),
    }
}

fn interface(name: &str, description: &str) -> InterfaceInfo {
    InterfaceInfo { name: s(name), description: Some(s(description)) }
}

fn no_processes() -> ProcessFacts {
    ProcessFacts { game: Vec::new(), launcher: LauncherScan::Found(Vec::new()) }
}

fn ready_processes() -> ProcessFacts {
    ProcessFacts {
        game: Vec::new(),
        launcher: LauncherScan::Found(vec![EnvReading::Value(s("/keys"))]),
    }
}

fn facts() -> StartFacts {
    StartFacts {
        host: HostOs::Linux,
        config: config(),
        detected_steam: true,
        detected_epic_exe: None,
        install_locations: Vec::new(),
        system_language: None,
        sync_key: Ok(key("/keys")),
        saved_sign_in: SavedSignIn::Current { token: s("auth"), days_remaining: Some(20) },
        processes: no_processes(),
        game: vec![None, Some(Vec::new())],
        interfaces: Ok(vec![interface("eth0", "link up")]),
        tooltip: s("idle"),
        now: START,
    }
}

fn app() -> ArcTrackerSyncApp {
    let mut app = ArcTrackerSyncApp::new(facts());
    app.take_effects();
    app
}

fn file() -> GameFile {
    GameFile { exists: true, is_file: true, extension: Some(s("exe")) }
}

fn token(fingerprint: &str) -> TokenObservation {
    TokenObservation {
        fingerprint: s(fingerprint),
        host: s("api.example"),
        token: s("secret"),
        expires_at: Some(LocalTime { seconds: 1_000_000_000, nanos: 0, offset: 0 }),
    }
}

fn response(success: bool) -> SubmitResponse {
    SubmitResponse {
        success,
        sync_enabled: success,
        display_name: Some(s("Matt")),
        display_name_discriminator: Some(s("1234")),
    }
}

fn accepted(fingerprint: &str) -> Polled<Result<SubmitReceipt, SubmitError>> {
    Polled::Value(Ok(SubmitReceipt { fingerprint: s(fingerprint), response: response(true) }))
}

fn refused(status: Option<u16>, message: &str) -> Polled<Result<SubmitReceipt, SubmitError>> {
    Polled::Value(Err(SubmitError { status, message: s(message) }))
}

/// A client that captures, with a token that is being submitted.
fn submitting() -> ArcTrackerSyncApp {
    let mut app = app();
    app.maybe_start_background_capture(true, true);
    app.poll_capture(&vec![CaptureEvent::Token(token("one"))]);
    app.take_effects();
    assert!(app.submit.pending);
    app
}

// ----- redaction ------------------------------------------------------------------

#[test]
fn submit_backoff_escalates_then_gives_up() {
    let backoff = |failures| ArcTrackerSyncApp::submit_backoff(failures).map(Duration::from_secs);
    assert_eq!(backoff(0), None);
    assert_eq!(backoff(1), Some(Duration::from_secs(30)));
    assert_eq!(backoff(2), Some(Duration::from_secs(60)));
    assert_eq!(backoff(3), Some(Duration::from_secs(120)));
    assert_eq!(backoff(4), Some(Duration::from_secs(300)));
    assert_eq!(backoff(5), Some(Duration::from_secs(600)));
    assert_eq!(backoff(6), None);
    assert_eq!(backoff(100), None);
}

#[test]
fn events_store_raw_detail_and_redact_only_at_render() {
    let raw = "ARCTracker rejected token submission with HTTP 503: upstream timeout";
    let stored = ArcTrackerSyncApp::stored_event_message(raw);
    assert!(stored.contains("HTTP 503"), "stored: {stored}");

    let shown = ArcTrackerSyncApp::support_event_message(&stored);
    assert_eq!(
        shown,
        "ARCTracker rejected token submission with HTTP 503: upstream timeout"
    );

    let stored =
        ArcTrackerSyncApp::stored_event_message("loading C:\\Users\\someone\\file.log failed");
    assert!(
        stored.contains("<user>") && !stored.contains("someone"),
        "stored: {stored}"
    );
}

#[test]
fn skipped_sync_key_notice_survives_support_redaction() {
    let notice = skipped_sync_key_notice("C:\\Users\\someone\\Documents");
    let shown = ArcTrackerSyncApp::support_event_message(&notice);

    assert!(
        shown.contains("Ignoring sync key setting"),
        "notice carries no token value, so it shows intact: {shown}"
    );
    assert!(
        shown.contains("<user>") && !shown.contains("someone"),
        "username should be scrubbed: {shown}"
    );
}

fn local(time: chrono::DateTime<chrono::Local>) -> LocalTime {
    LocalTime {
        seconds: time.timestamp(),
        nanos: time.timestamp_subsec_nanos(),
        offset: time.offset().local_minus_utc(),
    }
}

#[test]
fn expiry_label_always_includes_the_date() {
    let now = chrono::Local.with_ymd_and_hms(2026, 6, 9, 16, 44, 48).unwrap();

    let exp = now + chrono::Duration::hours(24);
    assert_eq!(expiry_label(local(exp), local(now)).as_deref(), Some("Jun 10, 16:44"));

    let exp = now + chrono::Duration::hours(3);
    assert_eq!(expiry_label(local(exp), local(now)).as_deref(), Some("Jun 9, 19:44"));
}

#[test]
fn expiry_label_hides_near_now_or_past_expiry() {
    let now = chrono::Local.with_ymd_and_hms(2026, 6, 9, 16, 0, 0).unwrap();
    assert_eq!(expiry_label(local(now + chrono::Duration::minutes(1)), local(now)), None);
    assert_eq!(expiry_label(local(now - chrono::Duration::hours(1)), local(now)), None);
}

#[test]
fn support_event_message_redacts_the_token_value_only() {
    let event = ArcTrackerSyncApp::support_event_message(
        "Authorization: Bearer abc.def.ghi over HTTP failed",
    );
    assert_eq!(event, "Authorization: Bearer <redacted> over HTTP failed");
}

#[test]
fn times_are_shown_at_their_offset() {
    let time = LocalTime { seconds: 0, nanos: 0, offset: 3600 };
    assert_eq!(full_time(time).as_deref(), Some("1970-01-01 01:00:00"));
    let past = LocalTime { seconds: -1, nanos: 5, offset: 0 };
    assert_eq!(full_time(past).as_deref(), Some("1969-12-31 23:59:59"));
    assert_eq!(full_time(LocalTime { seconds: 0, nanos: 0, offset: 86_400 }), None);
    assert_eq!(full_time(LocalTime { seconds: i64::MAX, nanos: 0, offset: 0 }), None);
    assert!(full_time(LocalTime { seconds: 8_000_000_000_000, nanos: 0, offset: 86_399 }).is_some());
    assert!(full_time(LocalTime { seconds: -8_000_000_000_000, nanos: 0, offset: -86_399 }).is_some());
    let at = |seconds, nanos| LocalTime { seconds, nanos, offset: 0 };
    assert!(!is_lasting(at(120, 0), at(0, 0)));
    assert!(is_lasting(at(120, 1), at(0, 0)));
    assert!(is_lasting(at(121, 0), at(0, 999)));
    assert!(!is_lasting(at(i64::MAX, 0), at(i64::MAX, 0)));
}

#[test]
fn user_names_are_scrubbed_in_either_slash_style() {
    let scrub = ArcTrackerSyncApp::scrub_paths;
    assert_eq!(scrub("C:\\Users\\bob\\x and c:/users/al/y"), "C:\\Users\\<user>\\x and c:/users/<user>/y");
    assert_eq!(scrub("C:\\USERS\\bob"), "C:\\USERS\\<user>");
    assert_eq!(scrub("C:\\Users\\"), "C:\\Users\\");
    assert_eq!(scrub("\\Users\\\\x"), "\\Users\\\\x");
    assert_eq!(scrub("Users\\bob\\x"), "Users\\bob\\x");
    assert_eq!(scrub("no path"), "no path");
    let once = scrub("D:\\Users\\a\\Users\\b\\c");
    assert_eq!(scrub(&once), once);
}

#[test]
fn tokens_are_redacted_word_by_word() {
    let redact = ArcTrackerSyncApp::redact_token_values;
    let jwt = "eyJhbGciOi.abcdefghij_-.ABCDEFGHIJ";
    assert_eq!(redact(&format!("got {jwt}  now")), "got <redacted>  now");
    assert_eq!(redact("(bearer): x y"), "(bearer): <redacted> y");
    assert_eq!(redact("short.seg.ments stay"), "short.seg.ments stay");
    assert_eq!(redact("bearer"), "bearer");
    assert_eq!(redact(" \t\n"), " \t\n");
    assert_eq!(redact(""), "");
}

// ----- the log --------------------------------------------------------------------

#[test]
fn the_log_keeps_the_newest_events() {
    let mut app = app();
    for i in 0..30 {
        app.push_message(&format!("event {i} in C:\\Users\\bob\\x"));
    }
    assert_eq!(app.messages.len(), 20);
    assert_eq!(app.messages[0], "event 29 in C:\\Users\\<user>\\x");
    assert_eq!(app.messages[19], "event 10 in C:\\Users\\<user>\\x");
    app.push_message("Authorization: Bearer abc");
    assert_eq!(app.activity_log()[0], "Authorization: Bearer <redacted>");
    assert_eq!(app.activity_log().len(), 20);
    app.messages.clear();
    assert_eq!(app.activity_log(), vec!["—"]);
}

// ----- the start ------------------------------------------------------------------

#[test]
fn a_first_run_picks_the_store_that_has_the_game() {
    let open = AppConfig { platform: LauncherPlatform::Auto, ..config() };
    let mut both = open.clone();
    assert!(choose_first_launcher(&mut both, true, &Some(s("e.exe"))));
    assert_eq!(both.platform, LauncherPlatform::Steam);
    assert_eq!(both.game_executable_path, None);
    let mut epic = open.clone();
    assert!(choose_first_launcher(&mut epic, false, &Some(s("e.exe"))));
    assert_eq!(epic.platform, LauncherPlatform::Epic);
    assert_eq!(epic.game_executable_path.as_deref(), Some("e.exe"));
    let mut none = open.clone();
    assert!(!choose_first_launcher(&mut none, false, &None));
    assert_eq!(none, open);
    let mut chosen = AppConfig { platform: LauncherPlatform::Direct, ..config() };
    assert!(!choose_first_launcher(&mut chosen, true, &None));
    let mut pathed = AppConfig { game_executable_path: Some(s("x")), ..open };
    assert!(!choose_first_launcher(&mut pathed, true, &None));
}

#[test]
fn the_start_tells_of_the_key_and_the_sign_in() {
    let mut app = ArcTrackerSyncApp::new(facts());
    assert_eq!(app.messages, vec!["Sign-in restored.", "Launch from this app"]);
    assert_eq!(app.ui.locale, "de");
    assert_eq!(app.session.auth_token.as_deref(), Some("auth"));
    assert_eq!(app.launcher.readiness.status, LauncherStatus::NotRunning);
    assert!(!app.launcher.game_running);
    assert_eq!(
        app.take_effects(),
        vec![Effect::SetLocale(s("de")), Effect::RemoveStartupEntry]
    );
    assert_eq!(app.take_effects(), Vec::new());

    let mut outdated = facts();
    outdated.saved_sign_in = SavedSignIn::Outdated { days_remaining: Some(-3) };
    outdated.sync_key = Err(s("no home"));
    outdated.game = vec![Some(vec![LauncherProcess {
        pid: 1,
        parent_pid: 0,
        name: s("PioneerGame.exe"),
        executable_path: None,
    }])];
    let mut app = ArcTrackerSyncApp::new(outdated);
    assert_eq!(
        app.messages,
        vec![
            "Saved sign-in not current (-3 days left). Sign in again.",
            "Local sync setup unavailable: no home"
        ]
    );
    assert_eq!(app.session.auth_token, None);
    assert_eq!(app.launcher.readiness.detail, "Launch setup unavailable");
    assert!(app.launcher.game_running);
    assert_eq!(
        app.take_effects()[1..],
        [Effect::ForgetSignIn, Effect::RemoveStartupEntry]
    );
}

#[test]
fn saved_sign_ins_are_described() {
    assert_eq!(
        SavedSignIn::Outdated { days_remaining: None }.message(),
        "Saved sign-in couldn't be read. Sign in again."
    );
    assert_eq!(SavedSignIn::Missing.message(), "No saved sign-in found.");
    assert_eq!(
        SavedSignIn::Unreadable(s("locked")).message(),
        "Could not read saved sign-in: locked"
    );
}

#[test]
fn a_sign_in_with_few_days_left_is_refreshed_at_the_start() {
    for (days, refreshes) in [(Some(6), true), (Some(7), false), (None, true)] {
        let mut start = facts();
        start.saved_sign_in = SavedSignIn::Current { token: s("auth"), days_remaining: days };
        let mut app = ArcTrackerSyncApp::new(start);
        let refresh = Effect::StartRefresh { token: s("auth") };
        assert_eq!(app.take_effects().contains(&refresh), refreshes);
        assert_eq!(app.session.refresh_pending, refreshes);
    }
}

#[test]
fn overrides_that_were_passed_over_are_in_the_log() {
    let mut start = facts();
    let mut resolution = key("/keys");
    resolution.skipped = vec![SkippedSyncKey {
        kind: SyncKeySourceKind::ProcessEnv,
        path: s("C:\\Users\\bob\\dir"),
    }];
    start.sync_key = Ok(resolution);
    let app = ArcTrackerSyncApp::new(start);
    assert_eq!(
        app.messages[2],
        "Ignoring sync key setting that isn't a usable file: C:\\Users\\<user>\\dir — using the app-managed sync key instead"
    );
}

// ----- submitting -----------------------------------------------------------------

#[test]
fn a_new_token_is_submitted_once() {
    let mut app = app();
    app.maybe_start_background_capture(true, true);
    assert_eq!(
        app.take_effects(),
        vec![Effect::StartCapture {
            method: CaptureMethod::RawSocket,
            interface: s("eth0"),
            sync_key_path: s("/keys"),
        }]
    );
    app.poll_capture(&vec![CaptureEvent::Token(token("one")), CaptureEvent::Token(token("one"))]);
    assert_eq!(
        app.take_effects(),
        vec![Effect::StartSubmit { auth_token: s("auth"), observation: token("one") }]
    );
    assert_eq!(app.submit.attempts, 1);
    app.poll_submit(Polled::Empty, START, &None, "idle");
    assert!(app.submit.pending);
    app.poll_submit(accepted("one"), START, &None, "idle");
    assert!(app.submit.token_submitted && !app.submit.pending && app.submit.sync_enabled);
    assert_eq!(app.session.account_name.as_deref(), Some("Matt#1234"));
    assert_eq!(app.messages[0], "Matt#1234 connected");
    assert_eq!(app.take_effects(), vec![Effect::RefreshTooltip]);
    app.poll_capture(&vec![CaptureEvent::Token(token("one"))]);
    assert_eq!(app.take_effects(), Vec::new());
    app.poll_capture(&vec![CaptureEvent::Token(token("two"))]);
    assert!(app.submit.token_submitted && app.submit.pending);
    assert_eq!(app.messages[0], "Matt#1234 connected");
}

#[test]
fn accounts_are_named_as_far_as_the_service_names_them() {
    for (name, number, shown) in [
        (Some("Matt"), None, "Matt connected"),
        (None, Some("1"), "idle connected"),
        (None, None, "idle connected"),
    ] {
        let mut app = submitting();
        let receipt = SubmitReceipt {
            fingerprint: s("one"),
            response: SubmitResponse {
                success: true,
                sync_enabled: false,
                display_name: name.map(s),
                display_name_discriminator: number.map(s),
            },
        };
        app.poll_submit(Polled::Value(Ok(receipt)), START, &None, "idle");
        assert_eq!(app.messages[0], shown);
        assert!(!app.submit.sync_enabled);
    }
}

#[test]
fn an_answer_without_success_is_final() {
    let mut app = submitting();
    let receipt = SubmitReceipt { fingerprint: s("one"), response: response(false) };
    app.poll_submit(Polled::Value(Ok(receipt)), START, &None, "idle");
    assert_eq!(app.messages[0], "ARCTracker did not enable sync for this account");
    assert_eq!(
        app.submit.last_error.as_deref(),
        Some("ARCTracker answered success=false for the submitted token")
    );
    assert_eq!(app.submit.failed_at, None);
    app.maybe_retry_token_submission(START + 10_000 * SECOND);
    assert_eq!(app.take_effects(), Vec::new());
}

#[test]
fn failures_are_retried_after_their_delay_and_then_no_more() {
    let mut app = submitting();
    let mut now = START;
    for delay in [30, 60, 120, 300, 600] {
        app.poll_submit(refused(Some(503), "down"), now, &None, "idle");
        assert_eq!(app.submit.failed_at, Some(now));
        app.maybe_retry_token_submission(now + delay * SECOND - 1);
        assert!(!app.submit.pending);
        now += delay * SECOND;
        app.maybe_retry_token_submission(now);
        assert!(app.submit.pending);
    }
    let down = app.messages.iter().filter(|m| m.as_str() == "down").count();
    assert_eq!(down, 1);
    app.take_effects();
    app.poll_submit(refused(Some(503), "down"), now, &None, "idle");
    assert!(app.submit.gave_up);
    assert_eq!(
        app.messages[0],
        "Sync paused after repeated failures. Use Try again once it's resolved."
    );
    app.maybe_retry_token_submission(now + 1_000_000 * SECOND);
    assert_eq!(app.take_effects(), Vec::new());
    app.poll_capture(&vec![CaptureEvent::Token(token("two"))]);
    assert!(!app.submit.gave_up && app.submit.pending);
    assert_eq!(app.submit.failures, 0);
}

#[test]
fn a_refused_sign_in_is_refreshed_once() {
    let mut app = submitting();
    app.poll_submit(refused(Some(401), "unauthorized"), START, &None, "idle");
    assert_eq!(app.take_effects(), vec![Effect::StartRefresh { token: s("auth") }]);
    assert!(app.session.refresh_after_unauthorized);
    app.poll_refresh(Polled::Value(Ok(s("fresh"))), &Some(s("disk full")), &None);
    assert_eq!(app.messages[0], "Could not remember ARCTracker sign-in: disk full");
    assert_eq!(
        app.take_effects(),
        vec![Effect::StartSubmit { auth_token: s("fresh"), observation: token("one") }]
    );
    app.poll_submit(refused(Some(401), "unauthorized"), START, &None, "idle");
    assert_eq!(app.take_effects(), Vec::new());
    assert_eq!(app.session.auth_token.as_deref(), Some("fresh"));
    assert_eq!(app.submit.failures, 2);
}

#[test]
fn a_failed_refresh_signs_out_only_after_a_refusal() {
    let failed = || Polled::Value(Err(SubmitError { status: Some(500), message: s("no luck") }));
    let mut app = submitting();
    app.poll_submit(refused(Some(401), "unauthorized"), START, &None, "idle");
    assert!(app.refresh_signs_out(&failed()));
    assert!(!app.refresh_signs_out(&Polled::Empty));
    app.poll_refresh(failed(), &None, &Some(s("locked")));
    assert_eq!(app.session.auth_token, None);
    assert_eq!(app.messages[0], "no luck");
    assert_eq!(app.messages[1], "Could not clear ARCTracker sign-in: locked");

    let mut app = submitting();
    app.maybe_refresh_auth_on_timer(START + REFRESH_INTERVAL - 1);
    assert!(!app.session.refresh_pending);
    app.maybe_refresh_auth_on_timer(START + REFRESH_INTERVAL);
    assert!(app.session.refresh_pending);
    assert!(!app.refresh_signs_out(&failed()));
    app.poll_refresh(failed(), &None, &None);
    assert_eq!(app.session.auth_token.as_deref(), Some("auth"));
    assert!(!app.session.refresh_pending);

    let mut app = submitting();
    app.poll_submit(refused(Some(401), "unauthorized"), START, &None, "idle");
    app.poll_refresh(Polled::Disconnected, &None, &None);
    assert_eq!(app.session.auth_token, None);
}

#[test]
fn a_refusal_without_a_sign_in_signs_out() {
    let mut app = submitting();
    app.session.auth_token = None;
    let event = refused(Some(401), "unauthorized");
    assert!(app.submit_signs_out(&event));
    assert!(!app.submit_signs_out(&refused(Some(500), "x")));
    assert!(ArcTrackerSyncApp::is_auth_submission_error(&SubmitError {
        status: Some(401),
        message: s("")
    }));
    app.poll_submit(event, START, &Some(s("locked")), "idle");
    assert_eq!(app.messages[0], "Could not clear ARCTracker sign-in: locked");
    assert_eq!(app.take_effects(), Vec::new());
}

#[test]
fn a_worker_that_is_gone_counts_as_a_failure() {
    let mut app = submitting();
    app.poll_submit(Polled::Disconnected, START, &None, "idle");
    assert_eq!(app.submit.failures, 1);
    assert_eq!(app.messages[0], "Submission worker stopped unexpectedly");
    assert_eq!(times_logged(&app, "Submission worker stopped unexpectedly"), 1);
}

fn times_logged(app: &ArcTrackerSyncApp, text: &str) -> usize {
    app.messages.iter().filter(|message| message.as_str() == text).count()
}

#[test]
fn errors_that_take_turns_are_logged_once_each() {
    let mut app = app();
    for error in ["A", "B", "A", "B", "A"] {
        app.note_submit_failure(error, START);
    }
    assert_eq!(times_logged(&app, "A"), 1);
    assert_eq!(times_logged(&app, "B"), 1);
    assert_eq!(app.messages[..2], ["B", "A"]);
    assert_eq!(app.submit.last_error.as_deref(), Some("A"));
    app.note_submit_failure("C", START);
    assert_eq!(times_logged(&app, "C"), 1);
    assert!(app.submit.gave_up);
}

// ----- signing in and out ---------------------------------------------------------

#[test]
fn signing_in_submits_the_token_at_hand() {
    let mut start = facts();
    start.saved_sign_in = SavedSignIn::Missing;
    let mut app = ArcTrackerSyncApp::new(start);
    app.maybe_start_background_capture(true, true);
    app.poll_capture(&vec![CaptureEvent::Token(token("one"))]);
    assert!(!app.submit.pending);
    app.start_sign_in(SignInStart::Waiting {
        url: s("https://x"),
        browser_error: Some(s("none")),
    });
    assert!(app.session.auth_pending);
    assert_eq!(app.messages[..2], ["Could not open browser: none", "Open this URL: https://x"]);
    app.poll_auth(Polled::Empty, &None);
    assert!(app.session.auth_pending);
    app.poll_auth(Polled::Value(Ok(s("fresh"))), &None);
    assert_eq!(app.messages[0], "ARCTracker sign-in complete");
    assert!(app.submit.pending && !app.session.auth_pending);
}

#[test]
fn a_sign_in_can_fail_or_be_cancelled() {
    let mut app = app();
    app.start_sign_in(SignInStart::Failed(s("no port")));
    assert_eq!(app.messages[0], "Could not start sign-in: no port");
    app.start_sign_in(SignInStart::Waiting { url: s("u"), browser_error: None });
    app.start_sign_in(SignInStart::Failed(s("ignored")));
    assert_eq!(app.messages[0], "Could not start sign-in: no port");
    app.poll_auth(Polled::Value(Err(s("denied"))), &None);
    assert_eq!(app.messages[0], "denied");
    assert!(!app.session.auth_pending);
    app.start_sign_in(SignInStart::Waiting { url: s("u"), browser_error: None });
    app.poll_auth(Polled::Disconnected, &None);
    assert_eq!(app.messages[0], "Sign-in callback stopped unexpectedly");
    app.start_sign_in(SignInStart::Waiting { url: s("u"), browser_error: None });
    app.cancel_sign_in();
    app.poll_auth(Polled::Value(Ok(s("late"))), &None);
    assert_eq!(app.session.auth_token.as_deref(), Some("auth"));
}

#[test]
fn signing_out_forgets_the_account() {
    let mut app = submitting();
    app.poll_submit(accepted("one"), START, &None, "idle");
    app.take_effects();
    app.sign_out(&Some(s("locked")));
    assert_eq!(app.session.auth_token, None);
    assert_eq!(app.session.account_name, None);
    assert_eq!(app.capture.latest_token, None);
    assert_eq!(app.submit.fingerprint, None);
    assert!(!app.submit.token_submitted && !app.submit.sync_enabled);
    assert_eq!(app.messages[0], "Could not clear ARCTracker sign-in: locked");
    assert_eq!(app.take_effects(), vec![Effect::RefreshTooltip]);
}

// ----- the capture ----------------------------------------------------------------

#[test]
fn a_capture_starts_only_when_everything_is_there() {
    let mut lacking = app();
    lacking.maybe_start_background_capture(false, true);
    lacking.maybe_start_background_capture(true, false);
    lacking.capture.blocked = true;
    lacking.maybe_start_background_capture(true, true);
    lacking.capture.blocked = false;
    lacking.tray.paused = true;
    lacking.maybe_start_background_capture(true, true);
    lacking.tray.paused = false;
    let source = lacking.capture.sync_key_source.take();
    lacking.maybe_start_background_capture(true, true);
    lacking.capture.sync_key_source = source;
    lacking.capture.selected_interface_index = 9;
    lacking.maybe_start_background_capture(true, true);
    assert_eq!(lacking.take_effects(), Vec::new());
    lacking.capture.selected_interface_index = 0;
    lacking.maybe_start_background_capture(true, true);
    assert!(lacking.capture.active);
    assert_eq!(lacking.take_effects().len(), 1);
    lacking.maybe_start_background_capture(true, true);
    assert_eq!(lacking.take_effects(), Vec::new());
}

#[test]
fn reports_of_a_capture_are_taken_in() {
    let mut app = app();
    app.poll_capture(&vec![CaptureEvent::Status(s("ignored"))]);
    assert_ne!(app.messages[0], "ignored");
    app.maybe_start_background_capture(true, true);
    app.take_effects();
    let stats = CaptureStats { packets_seen: 5, ..CaptureStats::default() };
    app.poll_capture(&vec![CaptureEvent::Status(s("listening")), CaptureEvent::Stats(stats.clone())]);
    assert_eq!(app.messages[0], "listening");
    assert_eq!(app.capture.stats, stats);
    app.poll_capture(&vec![CaptureEvent::Error(s("socket closed")), CaptureEvent::Status(s("end"))]);
    assert!(app.capture.blocked && !app.capture.active);
    assert_eq!(app.messages[..2], ["end", "socket closed"]);
    assert_eq!(app.take_effects(), vec![Effect::DropCapture]);
    app.capture_settings_changed();
    assert!(!app.capture.blocked);
    app.maybe_start_background_capture(true, true);
    app.poll_capture(&vec![CaptureEvent::Stopped]);
    assert!(!app.capture.active && !app.capture.blocked);
}

#[test]
fn a_change_of_settings_starts_over() {
    let mut app = submitting();
    app.poll_submit(accepted("one"), START, &None, "idle");
    app.take_effects();
    app.capture_settings_changed();
    assert!(!app.capture.active && !app.submit.token_submitted);
    assert_eq!(app.capture.latest_token, None);
    assert_eq!(app.submit.fingerprint, None);
    assert_eq!(app.take_effects(), vec![Effect::StopCapture]);
}

#[test]
fn the_live_adapter_wins() {
    let list = vec![
        interface("wlan0", "Intel wireless link down"),
        interface("eth0", "link up"),
        interface("docker0", "virtual link up"),
    ];
    assert_eq!(ArcTrackerSyncApp::interface_score(&list[0]), -100 + 15 + 40);
    assert_eq!(ArcTrackerSyncApp::interface_score(&list[1]), 120);
    assert_eq!(ArcTrackerSyncApp::interface_score(&list[2]), -100);
    assert_eq!(best_index(&list), Some(1));
    assert_eq!(best_index(&Vec::new()), None);
    let same = vec![interface("a", "x"), interface("b", "x")];
    assert_eq!(best_index(&same), Some(1));
    assert_eq!(find_interface(&list, "docker0"), Some(2));
    assert_eq!(find_interface(&list, "none"), None);
    assert_eq!(ArcTrackerSyncApp::interface_label(&list[1]), "link up");
    assert_eq!(
        ArcTrackerSyncApp::interface_label(&InterfaceInfo { name: s("n"), description: None }),
        "n"
    );
    assert_eq!(ArcTrackerSyncApp::interface_label(&interface("n", "")), "n");
}

#[test]
fn adapters_are_scanned_and_remembered() {
    let mut app = submitting();
    app.refresh_interfaces(Ok(vec![interface("lo", "loopback"), interface("eth0", "link up")]));
    assert_eq!(app.capture.selected_interface_index, 1);
    assert!(app.capture.active);
    assert_eq!(app.best_interface_index(), Some(1));
    app.choose_interface(0);
    assert_eq!(app.config.selected_interface.as_deref(), Some("lo"));
    assert_eq!(app.take_effects(), vec![Effect::SaveConfig, Effect::StopCapture]);
    app.choose_interface(0);
    app.choose_interface(7);
    assert_eq!(app.take_effects(), Vec::new());
    app.refresh_interfaces(Ok(vec![interface("eth0", "link up"), interface("lo", "loopback")]));
    assert_eq!(app.capture.selected_interface_index, 1);
    app.refresh_interfaces(Err(s("denied")));
    assert!(app.capture.blocked && app.capture.interfaces.is_empty());
    assert_eq!(app.messages[0], "Connection setup failed: denied");
}

#[test]
fn another_sync_key_starts_over() {
    let mut app = submitting();
    assert!(!app.refresh_sync_key_source(&Ok(key("/keys"))));
    assert!(app.capture.active);
    assert!(app.refresh_sync_key_source(&Ok(key("/other"))));
    assert!(!app.capture.active);
    assert_eq!(app.active_sync_key_path().as_deref(), Some("/other"));
    assert_eq!(app.messages[0], "Launch from this app");
    assert!(app.refresh_sync_key_source(&Err(s("gone"))));
    assert_eq!(app.active_sync_key_path(), None);
    assert_eq!(app.messages[0], "Local sync setup unavailable: gone");
}

#[test]
fn npcap_is_looked_for_while_it_is_in_use() {
    let mut app = app();
    app.refresh_npcap_available_if_needed(false, START);
    assert_eq!(app.capture.npcap_available, None);
    app.choose_capture_method(CaptureMethod::Npcap);
    assert_eq!(app.take_effects(), vec![Effect::SaveConfig]);
    assert!(app.npcap_check_due(START));
    app.refresh_npcap_available_if_needed(false, START);
    assert!(app.npcap_known_missing());
    assert!(!app.npcap_check_due(START + 2 * SECOND - 1));
    app.refresh_npcap_available_if_needed(true, START + 2 * SECOND);
    assert!(!app.npcap_known_missing());
    app.forget_npcap();
    assert_eq!(app.capture.npcap_available, None);
    app.choose_capture_method(CaptureMethod::Npcap);
    assert_eq!(app.take_effects(), Vec::new());
}

// ----- the launcher ---------------------------------------------------------------

#[test]
fn game_paths_are_typed_picked_and_kept() {
    let mut start = facts();
    start.config.platform = LauncherPlatform::Auto;
    let mut app = ArcTrackerSyncApp::new(start);
    app.take_effects();
    app.type_game_path("  C:\\Epic Games\\a.exe ");
    assert_eq!(app.selected_game_path().as_deref(), Some("C:\\Epic Games\\a.exe"));
    assert_eq!(app.effective_platform(), LauncherPlatform::Epic);
    app.apply_game_path();
    assert_eq!(app.config.platform, LauncherPlatform::Epic);
    assert_eq!(app.config.game_executable_path.as_deref(), Some("C:\\Epic Games\\a.exe"));
    assert_eq!(app.take_effects(), vec![Effect::SaveConfig]);
    app.persist_game_path();
    assert_eq!(app.take_effects(), Vec::new());
    app.type_game_path(" ");
    app.persist_game_path();
    assert_eq!(app.config.game_executable_path, None);
    assert_eq!(app.take_effects(), vec![Effect::SaveConfig]);
    app.browse_game_executable(false, Some("x"));
    assert!(app.messages[0].starts_with("File dialogs cannot open while this binary carries CAP_NET_RAW (the"));
    app.browse_game_executable(true, None);
    assert_eq!(app.selected_game_path(), None);
    app.browse_game_executable(true, Some("D:\\a.exe"));
    assert_eq!(app.selected_game_path().as_deref(), Some("D:\\a.exe"));
    app.config_saved(&Some(s("read-only")));
    assert_eq!(app.messages[0], "Could not save settings: read-only");
}

#[test]
fn switching_to_epic_fills_the_path_in() {
    let mut app = app();
    assert_eq!(app.launcher_switch_target(), None);
    app.launcher.force_close_available = true;
    assert!(app.launcher_toggle(LauncherPlatform::Epic, &Some(s("found.exe"))));
    assert_eq!(app.launcher.game_path_text, "found.exe");
    assert_eq!(app.config.game_executable_path.as_deref(), Some("found.exe"));
    assert!(!app.launcher.force_close_available);
    assert_eq!(app.launcher_switch_target(), Some(LauncherPlatform::Steam));
    assert!(!app.launcher_toggle(LauncherPlatform::Epic, &None));
    assert!(app.choose_launcher(LauncherPlatform::Direct, &None));
    assert!(!app.choose_launcher(LauncherPlatform::Direct, &None));
    assert!(app.launcher_ready());
    let mut known = app;
    known.type_game_path("");
    known.launcher.detected_epic_exe = Some(s("first.exe"));
    known.set_launcher(LauncherPlatform::Epic, &Some(s("found.exe")));
    assert_eq!(known.launcher.game_path_text, "first.exe");
    known.set_launcher(LauncherPlatform::Steam, &None);
    assert_eq!(known.launcher_switch_target(), Some(LauncherPlatform::Epic));
}

fn prepare_facts(processes: ProcessFacts) -> PrepareFacts {
    PrepareFacts { processes, now: START, elevated: true, key_is_file: true }
}

#[test]
fn preparing_the_launcher_starts_the_capture() {
    let mut app = app();
    let steam = vec![PathProbe { path: s("/usr/bin/steam"), exists: true }];
    app.type_game_path(" /games/a.exe ");
    let plan = app.begin_preparing_launcher(&file(), &steam, &Vec::new()).unwrap();
    assert!(app.launcher.preparing);
    assert_eq!(app.config.game_executable_path.as_deref(), Some("/games/a.exe"));
    assert_eq!(app.take_effects(), vec![Effect::SaveConfig]);
    assert_eq!(plan.steam_exe.as_deref(), Some("steam"));
    assert_eq!(plan.game_executable.as_deref(), Some("/games/a.exe"));
    app.prepare_launcher(&plan, &Ok(PrepareOutcome::StillRunning), &prepare_facts(no_processes()));
    assert!(!app.launcher.preparing && app.launcher.force_close_available);
    assert_eq!(app.messages[0], "Steam needs to close");
    app.prepare_launcher(&plan, &Err(s("no such file")), &prepare_facts(no_processes()));
    assert_eq!(app.messages[0], "Launcher setup failed: no such file");
    assert!(app.launcher.force_close_available);
    app.prepare_launcher(&plan, &Ok(PrepareOutcome::Ready), &prepare_facts(ready_processes()));
    assert!(!app.launcher.force_close_available && app.launcher.was_ready && app.launcher_ready());
    assert_eq!(app.messages[0], "Steam is ready");
    assert!(app.capture.active);
}

#[test]
fn a_launcher_that_is_missing_is_told() {
    let mut app = app();
    assert!(app.begin_preparing_launcher(&file(), &Vec::new(), &Vec::new()).is_none());
    assert_eq!(app.messages[0], "Launcher setup failed: Steam was not found on PATH");
    app.capture.sync_key_source = None;
    assert!(app.begin_preparing_launcher(&file(), &Vec::new(), &Vec::new()).is_none());
    assert_eq!(app.messages[0], "Launcher setup failed: Launch setup unavailable");
    app.config.platform = LauncherPlatform::Epic;
    let told = app.messages.len();
    assert!(app.begin_preparing_launcher(&file(), &Vec::new(), &Vec::new()).is_none());
    assert_eq!(app.messages.len(), told);
    assert!(!app.game_ready_for_platform(&file()));
    app.type_game_path("x.exe");
    assert!(app.game_path_is_valid(&file()));
    let directory = GameFile { is_file: false, ..file() };
    assert!(!app.game_path_is_valid(&directory));
}

#[test]
fn readiness_is_remembered() {
    let mut app = app();
    assert!(app.launcher_check_due(START + 2 * SECOND));
    assert!(!app.launcher_check_due(START + 2 * SECOND - 1));
    app.refresh_launcher_readiness(&ready_processes(), START + 5);
    assert!(app.launcher_ready() && app.launcher.was_ready);
    app.refresh_launcher_readiness(&no_processes(), START + 6);
    assert!(!app.launcher_ready() && app.launcher.was_ready);
    assert!(app.game_check_due(START + 3 * SECOND));
    assert!(!app.game_check_due(START + 3 * SECOND - 1));
    app.refresh_install_locations(vec![s("E:\\arc")]);
    app.config.platform = LauncherPlatform::Auto;
    app.type_game_path("e:/ARC/a.exe");
    assert_eq!(app.effective_platform(), LauncherPlatform::Epic);
}

// ----- the tray, the language, the end --------------------------------------------

#[test]
fn pausing_stops_the_capture_and_going_on_starts_it() {
    let mut app = submitting();
    app.tray.present = true;
    app.toggle_sync_paused(true, true);
    assert!(app.tray.paused && !app.capture.active);
    assert_eq!(app.take_effects(), vec![Effect::StopCapture, Effect::SetTrayPaused(true)]);
    app.maybe_start_background_capture(true, true);
    assert!(!app.capture.active);
    app.toggle_sync_paused(true, true);
    assert!(app.capture.active);
    assert_eq!(app.take_effects()[1], Effect::SetTrayPaused(false));
}

#[test]
fn tray_commands_are_carried_out() {
    let mut app = app();
    app.show_screen(Screen::Settings);
    assert!(!app.handle_tray_command(TrayCommand::Open, true, true, &None));
    assert_eq!(app.ui.screen, Screen::Hub);
    assert_eq!(app.take_effects(), vec![Effect::ShowWindow]);
    assert!(!app.handle_tray_command(TrayCommand::TogglePause, true, true, &None));
    assert!(app.tray.paused);
    assert!(!app.handle_tray_command(TrayCommand::SignOut, true, true, &None));
    assert_eq!(app.session.auth_token, None);
    assert!(app.handle_tray_command(TrayCommand::Quit, true, true, &None));
    assert!(!app.closes_into_tray());
    app.tray.present = true;
    assert!(app.closes_into_tray());
    app.set_keep_in_tray(false);
    assert!(!app.closes_into_tray());
}

#[test]
fn the_tooltip_is_told_when_it_changes() {
    let mut app = submitting();
    app.tray.present = true;
    assert_eq!(app.tooltip_account_name(), None);
    app.poll_submit(accepted("one"), START, &None, "idle");
    assert_eq!(app.tooltip_account_name().as_deref(), Some("Matt#1234"));
    app.take_effects();
    app.update_tray_tooltip("Matt#1234 synced");
    app.update_tray_tooltip("Matt#1234 synced");
    assert_eq!(app.take_effects(), vec![Effect::SetTooltip(s("Matt#1234 synced"))]);
}

#[test]
fn a_tray_exists_only_on_windows() {
    let mut linux = app();
    linux.init_tray(&Ok(()));
    assert!(!linux.tray.present && !linux.has_startup_settings());
    let mut start = facts();
    start.host = HostOs::Windows;
    let mut windows = ArcTrackerSyncApp::new(start);
    windows.init_tray(&Err(s("no shell")));
    assert_eq!(windows.messages[0], "Tray unavailable: no shell");
    windows.init_tray(&Ok(()));
    assert!(windows.tray.present && windows.has_startup_settings());
}

#[test]
fn a_language_is_changed_once() {
    let mut app = app();
    app.change_language(Some(s("de")), Some("fr"));
    assert_eq!(app.take_effects(), Vec::new());
    app.change_language(None, Some("fr_FR"));
    assert_eq!(app.ui.locale, "fr");
    assert_eq!(app.config.language, None);
    assert_eq!(app.tray.tooltip, "");
    assert_eq!(
        app.take_effects(),
        vec![
            Effect::SaveConfig,
            Effect::SetLocale(s("fr")),
            Effect::ApplyFonts { all: false },
            Effect::RefreshTooltip
        ]
    );
    app.ensure_picker_fonts();
    app.ensure_picker_fonts();
    assert_eq!(app.take_effects(), vec![Effect::ApplyFonts { all: true }]);
    app.change_language(Some(s("ja")), None);
    assert_eq!(
        app.take_effects()[1..3],
        [Effect::SetLocale(s("ja")), Effect::ApplyFonts { all: true }]
    );
}

#[test]
fn cleaning_up_leaves_nothing_running() {
    let mut app = submitting();
    app.quit();
    assert!(app.tray.pending_quit);
    assert_eq!(app.run_background_work(0, START), None);
    app.take_effects();
    app.shutdown_cleanup();
    assert_eq!(
        app.take_effects(),
        vec![
            Effect::StopWorker,
            Effect::StopCapture,
            Effect::RemoveCaptureRule,
            Effect::ClearSyncKeyFile
        ]
    );
}

#[test]
fn the_work_of_a_tick_comes_in_order() {
    let mut app = app();
    let walk = |app: &ArcTrackerSyncApp, now: u64| {
        let mut steps = Vec::new();
        let mut k = 0;
        while let Some((step, n)) = app.run_background_work(k, now) {
            steps.push(step);
            k = n + 1;
        }
        steps
    };
    let soon = walk(&app, START);
    assert_eq!(soon.len(), 11);
    assert_eq!(soon[0], BackgroundStep::PollAuth);
    assert_eq!(soon[9], BackgroundStep::StartCapture);
    assert!(!soon.contains(&BackgroundStep::RefreshLauncher));
    let later = walk(&app, START + 5 * SECOND);
    assert_eq!(later[5], BackgroundStep::RefreshLauncher);
    assert_eq!(later[6], BackgroundStep::RefreshGame);
    app.choose_capture_method(CaptureMethod::Npcap);
    app.tray.paused = true;
    let paused = walk(&app, START);
    assert!(paused.contains(&BackgroundStep::ProbeNpcap));
    assert!(!paused.contains(&BackgroundStep::StartCapture));
}

#[test]
fn trying_again_clears_what_stood_in_the_way() {
    let mut app = submitting();
    for _ in 0..6 {
        app.submit.pending = true;
        app.poll_submit(refused(None, "down"), START, &None, "idle");
    }
    assert!(app.submit.gave_up);
    app.take_effects();
    let facts = RetryFacts {
        processes: no_processes(),
        now: START,
        elevated: true,
        key_is_file: true,
    };
    app.try_again(Ok(vec![interface("eth0", "link up")]), &Ok(key("/keys")), &facts);
    assert!(!app.submit.gave_up && app.submit.pending);
    assert_eq!(app.take_effects().len(), 1);
    app.capture.npcap_available = Some(true);
    app.refresh_network(Err(s("denied")), &Ok(key("/keys")), &facts);
    assert!(app.capture.blocked);
    assert_eq!(app.capture.npcap_available, None);
}

// ----- updates --------------------------------------------------------------------

fn release() -> ReleaseInfo {
    ReleaseInfo { version: s("1.0.0"), tag: s("v1.0.0"), notes: s("notes"), size: 10 }
}

fn windows() -> ArcTrackerSyncApp {
    let mut start = facts();
    start.host = HostOs::Windows;
    let mut app = ArcTrackerSyncApp::new(start);
    app.take_effects();
    app
}

#[test]
fn updates_are_looked_for_once_an_hour_on_windows() {
    let hour = 3600 * SECOND;
    let mut linux = app();
    linux.maybe_check_for_update(START + hour);
    assert_eq!(linux.take_effects(), Vec::new());
    let mut app = windows();
    app.maybe_check_for_update(START);
    app.maybe_check_for_update(START);
    assert_eq!(app.take_effects(), vec![Effect::StartUpdateCheck]);
    app.poll_update_check(Polled::Empty, false);
    assert!(app.update.check_pending);
    app.poll_update_check(Polled::Value(Err(s("offline"))), false);
    assert!(!app.update.check_pending && !app.update_indicator_visible());
    app.maybe_check_for_update(START + hour - 1);
    assert_eq!(app.take_effects(), Vec::new());
    app.maybe_check_for_update(START + hour);
    app.poll_update_check(Polled::Value(Ok(release())), false);
    assert_eq!(app.update.state, UpdateState::Idle);
    app.maybe_check_for_update(START + 2 * hour);
    app.poll_update_check(Polled::Value(Ok(release())), true);
    assert_eq!(app.update.state, UpdateState::Available);
    assert!(app.update_indicator_visible());
    app.take_effects();
    app.maybe_check_for_update(START + 3 * hour);
    assert_eq!(app.take_effects(), Vec::new());
}

#[test]
fn an_installation_reports_and_ends() {
    let mut app = windows();
    app.start_update_install(release());
    app.start_update_install(release());
    assert_eq!(app.take_effects(), vec![Effect::StartInstall(release())]);
    assert_eq!(app.update.state, UpdateState::Downloading { received: 0, total: Some(10) });
    let progress = vec![
        InstallProgress::Downloading { received: 5, total: None },
        InstallProgress::Verifying,
    ];
    assert!(!app.poll_update_install(&progress, Polled::Empty));
    assert_eq!(app.update.state, UpdateState::Verifying);
    assert!(!app.poll_update_install(&vec![InstallProgress::Installing], Polled::Empty));
    assert_eq!(app.update.state, UpdateState::Installing);
    assert!(app.poll_update_install(&Vec::new(), Polled::Value(Ok(()))));
    assert_eq!(app.update.state, UpdateState::Relaunching);
    app.relaunch_failed(s("denied"));
    assert_eq!(app.update.state, UpdateState::Failed(s("denied")));
    assert_eq!(
        app.messages[0],
        "Update installed, but the app couldn't restart automatically."
    );
    app.start_update_install(ReleaseInfo { size: 0, ..release() });
    assert_eq!(app.update.state, UpdateState::Downloading { received: 0, total: None });
    assert!(!app.poll_update_install(&Vec::new(), Polled::Value(Err(s("bad zip")))));
    assert_eq!(app.messages[0], "Update could not be installed.");
    assert_eq!(app.update.state, UpdateState::Failed(s("bad zip")));
    app.start_update_install(release());
    assert!(!app.poll_update_install(&Vec::new(), Polled::Disconnected));
    assert_eq!(
        app.update.state,
        UpdateState::Failed(s("The update stopped unexpectedly."))
    );
    assert!(!app.update.progress_pending && !app.update.done_pending);
}

// ----- diagnostics ----------------------------------------------------------------

#[test]
fn the_report_says_everything_but_the_user_name() {
    let mut app = submitting();
    app.launcher.readiness.detail = s("C:\\Users\\bob\\steam.exe");
    app.capture.sync_key_skipped =
        vec![SkippedSyncKey { kind: SyncKeySourceKind::Registry, path: s("D:\\Users\\al\\keys") }];
    app.capture.stats.last_http1_method = Some(s("GET"));
    app.capture.stats.tls_client_hellos = 3;
    let facts = DiagnosticFacts {
        version: s("0.2.0"),
        capture_ready: true,
        capture_method: s("Raw sockets"),
        npcap: None,
    };
    let report = app.copy_diagnostics(&facts);
    let lines: Vec<&str> = report.lines().collect();
    assert_eq!(lines.len(), 12 + 10 + 7 + 7 + 1 + 1 + app.messages.len());
    assert_eq!(lines[0], "ARCTracker Sync v0.2.0");
    assert_eq!(lines[1], "Locale: de");
    assert_eq!(lines[2], "Platform: Steam");
    assert_eq!(lines[3], "Launcher: Not running");
    assert_eq!(lines[4], "Launcher detail: C:\\Users\\<user>\\steam.exe");
    assert_eq!(lines[8], "Npcap: not installed");
    assert_eq!(lines[11], "Connection active: true");
    assert_eq!(lines[17], "TLS hellos client/server: 3 / 0");
    assert_eq!(lines[20], "Embark missing-key sessions: 0 (last: -)");
    assert_eq!(lines[26], "Last HTTP: GET - -");
    assert_eq!(lines[27], "Token expires: 2001-09-09 01:46:40");
    assert_eq!(lines[28], "Packet truncations: 0 (0 bytes)");
    assert_eq!(lines[29], "Sync key source: AppOwned (/keys)");
    assert_eq!(lines[32], "Token host: api.example");
    assert_eq!(lines[33], "Sync submit attempts: 1 (in flight: true)");
    assert_eq!(lines[34], "Sync retry: 0 consecutive failures");
    assert_eq!(lines[35], "Last sync error: -");
    assert_eq!(lines[36], "Skipped SSLKEYLOGFILE (not a file): D:\\Users\\<user>\\keys");
    assert_eq!(lines[37], "Events:");
    assert_eq!(lines[38], "  Game account connected");
    app.submit.gave_up = true;
    app.submit.failures = 6;
    let paused = app.diagnostic_lines(&facts);
    assert_eq!(
        paused[34],
        "Sync retry: 6 consecutive failures (paused — Try again to resume)"
    );
}
