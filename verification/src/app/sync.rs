//! From a captured token to a synced account: sign-in, submission, retries,
//! refreshes, and the limits on both.

use vstd::prelude::*;

use crate::app::data::{Effect, Polled, SubmitError, SubmitReceipt, SubmitResponse};
use crate::app::ArcTrackerSyncApp;
use crate::text::{cat2, cat3, str_eq};
use crate::app::data::EffectModel;
use crate::app::redaction::scrub;
use crate::app::state::{CaptureModel, SessionModel, SubmitModel};
use crate::app::{pushed, requested, AppModel, RETRIED_FAILURES};
use crate::text::{opt_view, views};

verus! {

// ----- time -----------------------------------------------------------------------

/// Nanoseconds in a second.
pub const SECOND: u64 = 1_000_000_000;

/// The sign-in is refreshed once a day.
pub const REFRESH_INTERVAL: u64 = 86_400_000_000_000;

/// The sign-in is refreshed at the start when fewer days than this remain.
pub const REFRESH_THRESHOLD_DAYS: i64 = 7;

/// How long ago `then` is.
pub open spec fn since(then: u64, now: u64) -> int {
    if now >= then {
        now - then
    } else {
        0
    }
}

/// How long ago `then` is; nothing where it lies ahead.
pub fn elapsed(then: u64, now: u64) -> (r: u64)
    ensures
        r == since(then, now),
{
    if now >= then {
        now - then
    } else {
        0
    }
}

/// The time `by` before `now`, or `now` where the clock does not reach back so far.
pub open spec fn backdated(now: u64, by: u64) -> u64 {
    if now >= by {
        (now - by) as u64
    } else {
        now
    }
}

pub fn backdate(now: u64, by: u64) -> (r: u64)
    ensures
        r == backdated(now, by),
{
    if now >= by {
        now - by
    } else {
        now
    }
}

/// How long to wait after so many failures in a row, in seconds; `None` gives
/// up for good.
pub open spec fn backoff(failures: u32) -> Option<u64> {
    if failures == 1 {
        Some(30)
    } else if failures == 2 {
        Some(60)
    } else if failures == 3 {
        Some(120)
    } else if failures == 4 {
        Some(300)
    } else if failures == 5 {
        Some(600)
    } else {
        None
    }
}

/// Each wait is longer than the one before it, and after the last there is none.
pub proof fn law_backoff_escalates_then_gives_up(failures: u32)
    ensures
        backoff(failures) is Some <==> 1 <= failures <= RETRIED_FAILURES,
        1 <= failures < RETRIED_FAILURES ==> backoff(failures)->0 < backoff(
            (failures + 1) as u32,
        )->0,
{
}

// ----- the parts of a step --------------------------------------------------------

/// The count of failures, and all that hangs on it, as after a success.
pub open spec fn retry_reset(m: AppModel) -> AppModel {
    AppModel {
        submit: SubmitModel {
            failures: 0,
            refreshed: false,
            gave_up: false,
            failed_at: None,
            ..m.submit
        },
        ..m
    }
}

/// A refresh of the sign-in is under way; one at a time.
pub open spec fn refresh_started(m: AppModel, token: Seq<char>, now: u64) -> AppModel {
    if m.session.refresh_pending {
        m
    } else {
        requested(
            AppModel {
                session: SessionModel {
                    last_refresh_attempt: now,
                    refresh_pending: true,
                    ..m.session
                },
                ..m
            },
            EffectModel::StartRefresh(token),
        )
    }
}

/// A token waits for submission: one was captured, someone is signed in, the
/// token is not the one submitted last, and no submission is under way.
pub open spec fn submit_due(m: AppModel) -> bool {
    &&& !m.submit.pending
    &&& m.session.auth_token is Some
    &&& m.capture.latest_token is Some
    &&& m.submit.fingerprint != Some(m.capture.latest_token->0.fingerprint@)
}

/// The captured token is being submitted, if it waits for that.
pub open spec fn submit_started(m: AppModel) -> AppModel {
    if submit_due(m) {
        requested(
            AppModel {
                submit: SubmitModel {
                    attempts: m.submit.attempts.wrapping_add(1),
                    pending: true,
                    ..m.submit
                },
                ..m
            },
            EffectModel::StartSubmit(m.session.auth_token->0, m.capture.latest_token->0),
        )
    } else {
        m
    }
}

/// The number after `n`, or the last one.
pub open spec fn next_up(n: u32) -> u32 {
    if n == u32::MAX {
        n
    } else {
        (n + 1) as u32
    }
}

/// The error goes into the log once: where the log has it already, or it is the
/// one that was noted last, the log stays as it is.
pub open spec fn failure_told(m: AppModel, error: Seq<char>) -> AppModel {
    if m.submit.last_error == Some(scrub(error)) || m.messages.contains(scrub(error)) {
        m
    } else {
        pushed(m, error)
    }
}

/// A submission failed: the count goes up, the error goes into the log unless
/// it was told before, and a retry is due or retries stop.
pub open spec fn failure_noted(m: AppModel, error: Seq<char>, now: u64) -> AppModel {
    let failures = next_up(m.submit.failures);
    let detail = scrub(error);
    let told = failure_told(m, error);
    let counted = SubmitModel { failures, last_error: Some(detail), ..m.submit };
    if backoff(failures) is Some {
        AppModel { submit: SubmitModel { failed_at: Some(now), ..counted }, ..told }
    } else {
        pushed(
            AppModel {
                submit: SubmitModel { failed_at: None, gave_up: true, ..counted },
                ..told
            },
            "Sync paused after repeated failures. Use Try again once it's resolved."@,
        )
    }
}

/// Signed out, and the stored sign-in with it; where that failed, the log says so.
pub open spec fn session_cleared(m: AppModel, clear_error: Option<Seq<char>>) -> AppModel {
    let cleared = AppModel {
        session: SessionModel { auth_token: None, account_name: None, ..m.session },
        submit: SubmitModel {
            token_submitted: false,
            fingerprint: None,
            sync_enabled: false,
            ..m.submit
        },
        ..m
    };
    match clear_error {
        Some(error) => pushed(cleared, "Could not clear ARCTracker sign-in: "@ + error),
        None => cleared,
    }
}

/// Signed in; where the sign-in could not be stored, the log says so.
pub open spec fn signed_in(
    m: AppModel,
    token: Seq<char>,
    save_error: Option<Seq<char>>,
) -> AppModel {
    let told = match save_error {
        Some(error) => pushed(m, "Could not remember ARCTracker sign-in: "@ + error),
        None => m,
    };
    AppModel { session: SessionModel { auth_token: Some(token), ..told.session }, ..told }
}

impl ArcTrackerSyncApp {
    /// How long to wait before a retry, in seconds, after so many failures in a
    /// row; `None` gives up for good, so that an outage is not met with ever
    /// more requests.
    pub fn submit_backoff(failures: u32) -> (r: Option<u64>)
        ensures
            r == backoff(failures),
    {
        match failures {
            1 => Some(30),
            2 => Some(60),
            3 => Some(120),
            4 => Some(300),
            5 => Some(600),
            _ => None,
        }
    }

    pub fn reset_submit_retry_state(&mut self)
        requires
            old(self).wf(),
        ensures
            final(self)@ == retry_reset(old(self)@),
            final(self).wf(),
    {
        self.submit.failures = 0;
        self.submit.refreshed = false;
        self.submit.gave_up = false;
        self.submit.failed_at = None;
    }

    pub fn start_refresh(&mut self, token: String, now: u64)
        requires
            old(self).wf(),
        ensures
            final(self)@ == refresh_started(old(self)@, token@, now),
            final(self).wf(),
    {
        if self.session.refresh_pending {
            return;
        }
        self.session.last_refresh_attempt = now;
        self.session.refresh_pending = true;
        self.request(Effect::StartRefresh { token });
    }

    /// Submits the captured token, unless something stands in the way.
    pub fn submit_latest_token_if_ready(&mut self)
        requires
            old(self).wf(),
        ensures
            final(self)@ == submit_started(old(self)@),
            final(self).wf(),
    {
        if self.submit.pending {
            return;
        }
        let auth_token = match &self.session.auth_token {
            Some(token) => token.clone(),
            None => return,
        };
        let observation = match &self.capture.latest_token {
            Some(observation) => observation.copy(),
            None => return,
        };
        if let Some(fingerprint) = &self.submit.fingerprint {
            if str_eq(fingerprint.as_str(), observation.fingerprint.as_str()) {
                return;
            }
        }
        self.submit.attempts = self.submit.attempts.wrapping_add(1);
        self.submit.pending = true;
        self.request(Effect::StartSubmit { auth_token, observation });
    }

    /// Whether the log has the text.
    fn has_message(&self, text: &str) -> (r: bool)
        ensures
            r == self@.messages.contains(text@),
    {
        let ghost messages = self@.messages;
        let mut i: usize = 0;
        while i < self.messages.len()
            invariant
                i <= self.messages@.len(),
                messages == views(self.messages@),
                forall|k: int| 0 <= k < i ==> #[trigger] messages[k] != text@,
            decreases self.messages.len() - i,
        {
            if str_eq(self.messages[i].as_str(), text) {
                assert(messages[i as int] == text@);
                return true;
            }
            i += 1;
        }
        false
    }

    fn tell_failure(&mut self, error: &str, detail: &str)
        requires
            old(self).wf(),
            detail@ == scrub(error@),
        ensures
            final(self)@ == failure_told(old(self)@, error@),
            final(self).wf(),
    {
        if let Some(last) = &self.submit.last_error {
            if str_eq(last.as_str(), detail) {
                return;
            }
        }
        if !self.has_message(detail) {
            self.push_message(error);
        }
    }

    /// Counts a failure, and plans a retry or stops retrying.
    fn count_failure(&mut self, failures: u32, detail: String, now: u64)
        ensures
            final(self)@ == (AppModel {
                submit: SubmitModel {
                    failures,
                    last_error: Some(detail@),
                    failed_at: if backoff(failures) is Some {
                        Some(now)
                    } else {
                        None
                    },
                    gave_up: backoff(failures) is None || old(self)@.submit.gave_up,
                    ..old(self)@.submit
                },
                ..old(self)@
            }),
    {
        self.submit.failures = failures;
        self.submit.last_error = Some(detail);
        if Self::submit_backoff(failures).is_some() {
            self.submit.failed_at = Some(now);
        } else {
            self.submit.failed_at = None;
            self.submit.gave_up = true;
        }
    }

    /// Notes a failed submission. The error goes into the log once per distinct
    /// message.
    pub fn note_submit_failure(&mut self, error: &str, now: u64)
        requires
            old(self).wf(),
        ensures
            final(self)@ == failure_noted(old(self)@, error@, now),
            final(self).wf(),
    {
        let failures: u32 = self.submit.failures.saturating_add(1);
        let detail = Self::scrub_paths(error);
        self.tell_failure(error, detail.as_str());
        self.count_failure(failures, detail, now);
        if self.submit.gave_up {
            self.push_message(
                "Sync paused after repeated failures. Use Try again once it's resolved.",
            );
        }
    }

    fn clear_auth_session(&mut self, clear_error: &Option<String>)
        requires
            old(self).wf(),
        ensures
            final(self)@ == session_cleared(old(self)@, opt_view(*clear_error)),
            final(self).wf(),
    {
        self.session.auth_token = None;
        self.submit.token_submitted = false;
        self.submit.fingerprint = None;
        self.submit.sync_enabled = false;
        self.session.account_name = None;
        if let Some(error) = clear_error {
            let text = cat2("Could not clear ARCTracker sign-in: ", error.as_str());
            self.push_message(text.as_str());
        }
    }

    fn adopt_sign_in(&mut self, token: String, save_error: &Option<String>)
        requires
            old(self).wf(),
        ensures
            final(self)@ == signed_in(old(self)@, token@, opt_view(*save_error)),
            final(self).wf(),
    {
        if let Some(error) = save_error {
            let text = cat2("Could not remember ARCTracker sign-in: ", error.as_str());
            self.push_message(text.as_str());
        }
        self.session.auth_token = Some(token);
    }
}

// ----- signing in and out ---------------------------------------------------------

/// What came of starting a sign-in.
#[derive(Debug, Clone, PartialEq, Eq)]
pub enum SignInStart {
    /// The sign-in waits at the address; the browser may have failed to open it.
    Waiting { url: String, browser_error: Option<String> },
    Failed(String),
}

/// A sign-in is under way, unless it could not be started.
pub open spec fn sign_in_started(m: AppModel, start: SignInStart) -> AppModel {
    if m.session.auth_pending {
        m
    } else {
        match start {
            SignInStart::Waiting { url, browser_error } => {
                let waiting = AppModel {
                    session: SessionModel { auth_pending: true, ..m.session },
                    ..m
                };
                match browser_error {
                    Some(error) => pushed(
                        pushed(waiting, "Open this URL: "@ + url@),
                        "Could not open browser: "@ + error@,
                    ),
                    None => waiting,
                }
            },
            SignInStart::Failed(error) => pushed(m, "Could not start sign-in: "@ + error@),
        }
    }
}

/// No sign-in is under way.
pub open spec fn sign_in_over(m: AppModel) -> AppModel {
    AppModel { session: SessionModel { auth_pending: false, ..m.session }, ..m }
}

/// A sign-in came to an end, or not yet.
pub open spec fn auth_polled(
    m: AppModel,
    event: Polled<Result<String, String>>,
    save_error: Option<Seq<char>>,
) -> AppModel {
    if !m.session.auth_pending {
        m
    } else {
        match event {
            Polled::Value(Ok(token)) => submit_started(
                pushed(
                    signed_in(sign_in_over(m), token@, save_error),
                    "ARCTracker sign-in complete"@,
                ),
            ),
            Polled::Value(Err(error)) => pushed(sign_in_over(m), error@),
            Polled::Empty => m,
            Polled::Disconnected => pushed(
                sign_in_over(m),
                "Sign-in callback stopped unexpectedly"@,
            ),
        }
    }
}

/// Nobody is signed in, and nothing of the account is left.
pub open spec fn signed_out(m: AppModel, clear_error: Option<Seq<char>>) -> AppModel {
    let cleared = session_cleared(sign_in_over(m), clear_error);
    requested(
        AppModel { capture: CaptureModel { latest_token: None, ..cleared.capture }, ..cleared },
        EffectModel::RefreshTooltip,
    )
}

impl ArcTrackerSyncApp {
    /// Takes in what came of starting a sign-in; one at a time.
    pub fn start_sign_in(&mut self, start: SignInStart)
        requires
            old(self).wf(),
        ensures
            final(self)@ == sign_in_started(old(self)@, start),
            final(self).wf(),
    {
        if self.session.auth_pending {
            return;
        }
        match start {
            SignInStart::Waiting { url, browser_error } => {
                self.session.auth_pending = true;
                if let Some(error) = browser_error {
                    let address = cat2("Open this URL: ", url.as_str());
                    let reason = cat2("Could not open browser: ", error.as_str());
                    self.push_two(address.as_str(), reason.as_str());
                }
            },
            SignInStart::Failed(error) => {
                let text = cat2("Could not start sign-in: ", error.as_str());
                self.push_message(text.as_str());
            },
        }
    }

    fn push_two(&mut self, first: &str, second: &str)
        requires
            old(self).wf(),
        ensures
            final(self)@ == pushed(pushed(old(self)@, first@), second@),
            final(self).wf(),
    {
        self.push_message(first);
        self.push_message(second);
    }

    pub fn cancel_sign_in(&mut self)
        requires
            old(self).wf(),
        ensures
            final(self)@ == sign_in_over(old(self)@),
            final(self).wf(),
    {
        self.session.auth_pending = false;
    }

    /// Takes in what the sign-in brought; `save_error` says why a sign-in that
    /// came could not be stored.
    pub fn poll_auth(
        &mut self,
        event: Polled<Result<String, String>>,
        save_error: &Option<String>,
    )
        requires
            old(self).wf(),
        ensures
            final(self)@ == auth_polled(old(self)@, event, opt_view(*save_error)),
            final(self).wf(),
    {
        if !self.session.auth_pending {
            return;
        }
        match event {
            Polled::Value(Ok(token)) => {
                self.cancel_sign_in();
                self.adopt_sign_in(token, save_error);
                self.push_message("ARCTracker sign-in complete");
                self.submit_latest_token_if_ready();
            },
            Polled::Value(Err(error)) => {
                self.cancel_sign_in();
                self.push_message(error.as_str());
            },
            Polled::Empty => {},
            Polled::Disconnected => {
                self.cancel_sign_in();
                self.push_message("Sign-in callback stopped unexpectedly");
            },
        }
    }

    fn forget_token(&mut self)
        requires
            old(self).wf(),
        ensures
            final(self)@ == (AppModel {
                capture: CaptureModel { latest_token: None, ..old(self)@.capture },
                ..old(self)@
            }),
            final(self).wf(),
    {
        self.capture.latest_token = None;
    }

    /// Signs out; `clear_error` says why the stored sign-in could not be removed.
    pub fn sign_out(&mut self, clear_error: &Option<String>)
        requires
            old(self).wf(),
        ensures
            final(self)@ == signed_out(old(self)@, opt_view(*clear_error)),
            final(self).wf(),
    {
        self.cancel_sign_in();
        self.clear_auth_session(clear_error);
        self.forget_token();
        self.request(Effect::RefreshTooltip);
    }
}

// ----- refreshing the sign-in -----------------------------------------------------

/// No refresh is under way, and no submission waits for one.
pub open spec fn refresh_over(m: AppModel) -> AppModel {
    AppModel {
        session: SessionModel {
            refresh_pending: false,
            refresh_after_unauthorized: false,
            ..m.session
        },
        ..m
    }
}

/// A refresh failed: who was refused before is signed out now.
pub open spec fn refresh_failed(m: AppModel, clear_error: Option<Seq<char>>) -> AppModel {
    if m.session.refresh_after_unauthorized {
        session_cleared(refresh_over(m), clear_error)
    } else {
        refresh_over(m)
    }
}

/// A refresh came to an end, or not yet.
pub open spec fn refresh_polled(
    m: AppModel,
    event: Polled<Result<String, SubmitError>>,
    save_error: Option<Seq<char>>,
    clear_error: Option<Seq<char>>,
) -> AppModel {
    if !m.session.refresh_pending {
        m
    } else {
        match event {
            Polled::Value(Ok(token)) => {
                let fresh = signed_in(refresh_over(m), token@, save_error);
                if m.session.refresh_after_unauthorized {
                    submit_started(fresh)
                } else {
                    fresh
                }
            },
            Polled::Value(Err(error)) => pushed(refresh_failed(m, clear_error), error.message@),
            Polled::Empty => m,
            Polled::Disconnected => refresh_failed(m, clear_error),
        }
    }
}

/// The sign-in is being refreshed where few days of it remain, or it does not
/// say how many.
pub open spec fn launch_refreshed(m: AppModel, days: Option<i64>, now: u64) -> AppModel {
    match m.session.auth_token {
        Some(token) => if days is None || days->0 < REFRESH_THRESHOLD_DAYS {
            refresh_started(m, token, now)
        } else {
            m
        },
        None => m,
    }
}

/// The sign-in is being refreshed where the last attempt is a day ago.
pub open spec fn timer_refreshed(m: AppModel, now: u64) -> AppModel {
    match m.session.auth_token {
        Some(token) => if since(m.session.last_refresh_attempt, now) >= REFRESH_INTERVAL {
            refresh_started(m, token, now)
        } else {
            m
        },
        None => m,
    }
}

/// What the refresh brought signs the user out.
pub open spec fn refresh_ends_session(
    m: AppModel,
    event: Polled<Result<String, SubmitError>>,
) -> bool {
    m.session.refresh_pending && m.session.refresh_after_unauthorized && (event is Disconnected || (
    event matches Polled::Value(result) && result is Err))
}

impl ArcTrackerSyncApp {
    /// Whether what the refresh brought signs the user out, so that the stored
    /// sign-in has to go.
    pub fn refresh_signs_out(&self, event: &Polled<Result<String, SubmitError>>) -> (r: bool)
        ensures
            r == refresh_ends_session(self@, *event),
    {
        if !self.session.refresh_pending || !self.session.refresh_after_unauthorized {
            return false;
        }
        match event {
            Polled::Value(Ok(_)) => false,
            Polled::Value(Err(_)) => true,
            Polled::Empty => false,
            Polled::Disconnected => true,
        }
    }

    fn end_refresh(&mut self)
        requires
            old(self).wf(),
        ensures
            final(self)@ == refresh_over(old(self)@),
            final(self).wf(),
    {
        self.session.refresh_pending = false;
        self.session.refresh_after_unauthorized = false;
    }

    fn fail_refresh(&mut self, clear_error: &Option<String>)
        requires
            old(self).wf(),
        ensures
            final(self)@ == refresh_failed(old(self)@, opt_view(*clear_error)),
            final(self).wf(),
    {
        let refused = self.session.refresh_after_unauthorized;
        self.end_refresh();
        if refused {
            self.clear_auth_session(clear_error);
        }
    }

    /// Takes in what the refresh brought. `save_error` says why a sign-in that
    /// came could not be stored, `clear_error` why the stored one could not be
    /// removed where the user is signed out.
    pub fn poll_refresh(
        &mut self,
        event: Polled<Result<String, SubmitError>>,
        save_error: &Option<String>,
        clear_error: &Option<String>,
    )
        requires
            old(self).wf(),
        ensures
            final(self)@ == refresh_polled(
                old(self)@,
                event,
                opt_view(*save_error),
                opt_view(*clear_error),
            ),
            final(self).wf(),
    {
        if !self.session.refresh_pending {
            return;
        }
        match event {
            Polled::Value(Ok(token)) => {
                let refused = self.session.refresh_after_unauthorized;
                self.end_refresh();
                self.adopt_sign_in(token, save_error);
                if refused {
                    self.submit_latest_token_if_ready();
                }
            },
            Polled::Value(Err(error)) => {
                self.fail_refresh(clear_error);
                self.push_message(error.message.as_str());
            },
            Polled::Empty => {},
            Polled::Disconnected => {
                self.fail_refresh(clear_error);
            },
        }
    }

    /// Refreshes the sign-in at the start where few days of it remain, or it
    /// does not say how many.
    pub fn maybe_refresh_auth_on_launch(&mut self, days_remaining: Option<i64>, now: u64)
        requires
            old(self).wf(),
        ensures
            final(self)@ == launch_refreshed(old(self)@, days_remaining, now),
            final(self).wf(),
    {
        let due = match days_remaining {
            Some(days) => days < REFRESH_THRESHOLD_DAYS,
            None => true,
        };
        if !due {
            return;
        }
        let token = match &self.session.auth_token {
            Some(token) => token.clone(),
            None => return,
        };
        self.start_refresh(token, now);
    }

    /// Refreshes the sign-in once a day.
    pub fn maybe_refresh_auth_on_timer(&mut self, now: u64)
        requires
            old(self).wf(),
        ensures
            final(self)@ == timer_refreshed(old(self)@, now),
            final(self).wf(),
    {
        if elapsed(self.session.last_refresh_attempt, now) < REFRESH_INTERVAL {
            return;
        }
        let token = match &self.session.auth_token {
            Some(token) => token.clone(),
            None => return,
        };
        self.start_refresh(token, now);
    }
}

// ----- the answer to a submission -------------------------------------------------

/// What the account is called: by its name, with the number behind it that
/// tells it from others of the name; `unnamed` where the service gave none.
pub open spec fn account_of(response: SubmitResponse, unnamed: Seq<char>) -> Seq<char> {
    match response.display_name {
        Some(name) => match response.display_name_discriminator {
            Some(number) => name@ + "#"@ + number@,
            None => name@,
        },
        None => unnamed,
    }
}

/// No submission is under way.
pub open spec fn submit_over(m: AppModel) -> AppModel {
    AppModel { submit: SubmitModel { pending: false, ..m.submit }, ..m }
}

/// The submission of a token succeeded: the account is synced, and a token
/// that was captured meanwhile is submitted next.
pub open spec fn submit_accepted(
    m: AppModel,
    receipt: SubmitReceipt,
    unnamed: Seq<char>,
) -> AppModel {
    let account = account_of(receipt.response, unnamed);
    let synced = AppModel {
        session: SessionModel { account_name: Some(account), ..m.session },
        submit: SubmitModel {
            token_submitted: true,
            fingerprint: Some(receipt.fingerprint@),
            sync_enabled: receipt.response.sync_enabled,
            last_error: None,
            ..m.submit
        },
        ..m
    };
    submit_started(
        requested(
            pushed(retry_reset(synced), account + " connected"@),
            EffectModel::RefreshTooltip,
        ),
    )
}

/// The service answered that it does not sync the account. That is final: no
/// retry follows. Where the account is synced already, it stays so.
pub open spec fn submit_declined(m: AppModel, response: SubmitResponse) -> AppModel {
    if m.submit.token_submitted {
        m
    } else {
        pushed(
            AppModel {
                submit: SubmitModel {
                    sync_enabled: response.sync_enabled,
                    last_error: Some(
                        "ARCTracker answered success=false for the submitted token"@,
                    ),
                    failed_at: None,
                    ..m.submit
                },
                ..m
            },
            "ARCTracker did not enable sync for this account"@,
        )
    }
}

/// The request was refused for want of a valid sign-in.
pub open spec fn unauthorized(error: SubmitError) -> bool {
    error.status == Some(401u16)
}

/// A submission failed. Where the sign-in was refused, it is refreshed, but
/// only once per row of failures: a lasting refusal would else be met with
/// refresh after refresh without any delay.
pub open spec fn submit_refused(
    m: AppModel,
    error: SubmitError,
    now: u64,
    clear_error: Option<Seq<char>>,
) -> AppModel {
    let noted = failure_noted(m, error.message@, now);
    if unauthorized(error) && !noted.submit.refreshed {
        match noted.session.auth_token {
            Some(token) => refresh_planned(refresh_started(noted, token, now)),
            None => session_cleared(noted, clear_error),
        }
    } else {
        noted
    }
}

/// The sign-in is refreshed for this row of failures, and a submission waits for it.
pub open spec fn refresh_planned(m: AppModel) -> AppModel {
    AppModel {
        submit: SubmitModel { refreshed: true, ..m.submit },
        session: SessionModel { refresh_after_unauthorized: true, ..m.session },
        ..m
    }
}

/// A submission came to an end, or not yet.
pub open spec fn submit_polled(
    m: AppModel,
    event: Polled<Result<SubmitReceipt, SubmitError>>,
    now: u64,
    clear_error: Option<Seq<char>>,
    unnamed: Seq<char>,
) -> AppModel {
    if !m.submit.pending {
        m
    } else {
        let over = submit_over(m);
        match event {
            Polled::Value(Ok(receipt)) => if receipt.response.success {
                submit_accepted(over, receipt, unnamed)
            } else {
                submit_declined(over, receipt.response)
            },
            Polled::Value(Err(error)) => submit_refused(over, error, now, clear_error),
            Polled::Empty => m,
            Polled::Disconnected => failure_noted(
                pushed(over, "Submission worker stopped unexpectedly"@),
                "Submission worker stopped unexpectedly"@,
                now,
            ),
        }
    }
}

/// What the submission brought signs the user out.
pub open spec fn submit_ends_session(
    m: AppModel,
    event: Polled<Result<SubmitReceipt, SubmitError>>,
) -> bool {
    m.submit.pending && !m.submit.refreshed && m.session.auth_token is None && (event matches
        Polled::Value(result) && (result matches Err(error) && unauthorized(error)))
}

fn account_text(response: &SubmitResponse, unnamed: &str) -> (r: String)
    ensures
        r@ == account_of(*response, unnamed@),
{
    match (&response.display_name, &response.display_name_discriminator) {
        (Some(name), Some(number)) => cat3(name.as_str(), "#", number.as_str()),
        (Some(name), None) => name.clone(),
        _ => unnamed.to_owned(),
    }
}

impl ArcTrackerSyncApp {
    /// Whether a failed submission says that the sign-in was refused.
    pub fn is_auth_submission_error(error: &SubmitError) -> (r: bool)
        ensures
            r == unauthorized(*error),
    {
        match error.status {
            Some(status) => status == 401,
            None => false,
        }
    }

    /// Whether what the submission brought signs the user out, so that the
    /// stored sign-in has to go.
    pub fn submit_signs_out(
        &self,
        event: &Polled<Result<SubmitReceipt, SubmitError>>,
    ) -> (r: bool)
        ensures
            r == submit_ends_session(self@, *event),
    {
        if !self.submit.pending || self.submit.refreshed || self.session.auth_token.is_some() {
            return false;
        }
        match event {
            Polled::Value(Err(error)) => Self::is_auth_submission_error(error),
            _ => false,
        }
    }

    fn end_submit(&mut self)
        requires
            old(self).wf(),
        ensures
            final(self)@ == submit_over(old(self)@),
            final(self).wf(),
    {
        self.submit.pending = false;
    }

    fn adopt_account(&mut self, receipt: SubmitReceipt, account: String)
        requires
            old(self).wf(),
        ensures
            final(self)@ == (AppModel {
                session: SessionModel { account_name: Some(account@), ..old(self)@.session },
                submit: SubmitModel {
                    token_submitted: true,
                    fingerprint: Some(receipt.fingerprint@),
                    sync_enabled: receipt.response.sync_enabled,
                    last_error: None,
                    ..old(self)@.submit
                },
                ..old(self)@
            }),
            final(self).wf(),
    {
        self.submit.token_submitted = true;
        self.submit.sync_enabled = receipt.response.sync_enabled;
        self.submit.fingerprint = Some(receipt.fingerprint);
        self.submit.last_error = None;
        self.session.account_name = Some(account);
    }

    fn accept_submit(&mut self, receipt: SubmitReceipt, unnamed: &str)
        requires
            old(self).wf(),
        ensures
            final(self)@ == submit_accepted(old(self)@, receipt, unnamed@),
            final(self).wf(),
    {
        let account = account_text(&receipt.response, unnamed);
        let text = cat2(account.as_str(), " connected");
        self.adopt_account(receipt, account);
        self.reset_submit_retry_state();
        self.push_message(text.as_str());
        self.request(Effect::RefreshTooltip);
        self.submit_latest_token_if_ready();
    }

    fn decline_submit(&mut self, response: &SubmitResponse)
        requires
            old(self).wf(),
        ensures
            final(self)@ == submit_declined(old(self)@, *response),
            final(self).wf(),
    {
        if self.submit.token_submitted {
            return;
        }
        self.submit.sync_enabled = response.sync_enabled;
        self.submit.last_error = Some(
            "ARCTracker answered success=false for the submitted token".to_owned(),
        );
        self.submit.failed_at = None;
        self.push_message("ARCTracker did not enable sync for this account");
    }

    fn plan_refresh(&mut self)
        requires
            old(self).wf(),
            old(self)@.session.refresh_pending,
        ensures
            final(self)@ == refresh_planned(old(self)@),
            final(self).wf(),
    {
        self.submit.refreshed = true;
        self.session.refresh_after_unauthorized = true;
    }

    fn refuse_submit(&mut self, error: &SubmitError, now: u64, clear_error: &Option<String>)
        requires
            old(self).wf(),
        ensures
            final(self)@ == submit_refused(old(self)@, *error, now, opt_view(*clear_error)),
            final(self).wf(),
    {
        self.note_submit_failure(error.message.as_str(), now);
        if Self::is_auth_submission_error(error) && !self.submit.refreshed {
            let token = match &self.session.auth_token {
                Some(token) => Some(token.clone()),
                None => None,
            };
            match token {
                Some(token) => {
                    self.start_refresh(token, now);
                    self.plan_refresh();
                },
                None => self.clear_auth_session(clear_error),
            }
        }
    }

    /// Takes in what the submission brought. `clear_error` says why the stored
    /// sign-in could not be removed where the user is signed out, `unnamed` is
    /// what an account without a name is called.
    pub fn poll_submit(
        &mut self,
        event: Polled<Result<SubmitReceipt, SubmitError>>,
        now: u64,
        clear_error: &Option<String>,
        unnamed: &str,
    )
        requires
            old(self).wf(),
        ensures
            final(self)@ == submit_polled(
                old(self)@,
                event,
                now,
                opt_view(*clear_error),
                unnamed@,
            ),
            final(self).wf(),
    {
        if !self.submit.pending {
            return;
        }
        match event {
            Polled::Value(Ok(receipt)) => {
                self.end_submit();
                if receipt.response.success {
                    self.accept_submit(receipt, unnamed);
                } else {
                    self.decline_submit(&receipt.response);
                }
            },
            Polled::Value(Err(error)) => {
                self.end_submit();
                self.refuse_submit(&error, now, clear_error);
            },
            Polled::Empty => {},
            Polled::Disconnected => {
                self.end_submit();
                self.push_message("Submission worker stopped unexpectedly");
                self.note_submit_failure("Submission worker stopped unexpectedly", now);
            },
        }
    }
}

// ----- retries --------------------------------------------------------------------

/// The wait after the last failure is over, and the submission is tried again.
pub open spec fn retried(m: AppModel, now: u64) -> AppModel {
    if m.submit.token_submitted || m.submit.pending {
        m
    } else {
        match m.submit.failed_at {
            Some(then) => match backoff(m.submit.failures) {
                Some(delay) => if since(then, now) >= delay * SECOND {
                    submit_started(
                        AppModel {
                            submit: SubmitModel { failed_at: Some(now), ..m.submit },
                            ..m
                        },
                    )
                } else {
                    m
                },
                None => AppModel {
                    submit: SubmitModel { failed_at: None, gave_up: true, ..m.submit },
                    ..m
                },
            },
            None => m,
        }
    }
}

impl ArcTrackerSyncApp {
    /// Tries a failed submission again once its wait is over. A capture
    /// reports each token only once, so without this a passing fault would
    /// cost the sync of the whole session.
    pub fn maybe_retry_token_submission(&mut self, now: u64)
        requires
            old(self).wf(),
        ensures
            final(self)@ == retried(old(self)@, now),
            final(self).wf(),
    {
        if self.submit.token_submitted || self.submit.pending {
            return;
        }
        let then = match self.submit.failed_at {
            Some(then) => then,
            None => return,
        };
        if let Some(delay) = Self::submit_backoff(self.submit.failures) {
            if elapsed(then, now) >= delay * SECOND {
                self.submit.failed_at = Some(now);
                self.submit_latest_token_if_ready();
            }
        }
    }
}

} // verus!
