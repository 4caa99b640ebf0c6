//! The sync client as a state machine: what it knows, what it shows, and what
//! it asks its surroundings to do next.

use vstd::prelude::*;

use crate::launch::HostOs;
use crate::text::views;

pub mod capture;
pub mod capture_laws;
pub mod data;
pub mod diagnostics;
pub mod expiry;
pub mod hub;
pub mod interfaces;
pub mod launcher;
pub mod launcher_laws;
pub mod laws;
pub mod lifecycle;
pub mod log_laws;
pub mod redaction;
pub mod screen_laws;
pub mod screens;
pub mod session_laws;
pub mod start;
pub mod state;
pub mod step_laws;
pub mod sync;
pub mod updates;

pub use self::data::{
    AppConfig, CaptureEvent, CaptureMethod, CaptureStats, Effect, InstallProgress, InterfaceInfo,
    LocalTime, Polled, ReleaseInfo, Screen, SubmitError, SubmitReceipt, SubmitResponse,
    TokenObservation, UpdateState,
};
use self::data::{effect_views, ConfigModel, EffectModel};
pub use self::state::{
    CaptureState, LauncherState, SessionState, SubmitState, TrayState, UiState, UpdaterState,
};
use self::state::{
    CaptureModel, LauncherModel, SessionModel, SubmitModel, TrayModel, UiModel, UpdaterModel,
};
use self::redaction::{law_scrub_is_idempotent, scrub};

verus! {

/// The state of the client. Times are those of a monotonic clock, in
/// nanoseconds.
pub struct ArcTrackerSyncApp {
    pub host: HostOs,
    pub config: AppConfig,
    pub ui: UiState,
    pub capture: CaptureState,
    pub launcher: LauncherState,
    pub session: SessionState,
    pub submit: SubmitState,
    pub tray: TrayState,
    pub update: UpdaterState,
    /// The activity log, the newest event first.
    pub messages: Vec<String>,
    /// What the surroundings are asked to do.
    pub effects: Vec<Effect>,
}

/// What the state says.
pub struct AppModel {
    pub host: HostOs,
    pub config: ConfigModel,
    pub ui: UiModel,
    pub capture: CaptureModel,
    pub launcher: LauncherModel,
    pub session: SessionModel,
    pub submit: SubmitModel,
    pub tray: TrayModel,
    pub update: UpdaterModel,
    pub messages: Seq<Seq<char>>,
    pub effects: Seq<EffectModel>,
}

impl View for ArcTrackerSyncApp {
    type V = AppModel;

    open spec fn view(&self) -> AppModel {
        AppModel {
            host: self.host,
            config: self.config@,
            ui: self.ui@,
            capture: self.capture@,
            launcher: self.launcher@,
            session: self.session@,
            submit: self.submit@,
            tray: self.tray@,
            update: self.update@,
            messages: views(self.messages@),
            effects: effect_views(self.effects@),
        }
    }
}

// ----- what holds of every state --------------------------------------------------

/// How many events the activity log keeps.
pub const LOG_LENGTH: usize = 20;

/// How many failures in a row are retried.
pub const RETRIED_FAILURES: u32 = 5;

/// The log is short, and every event in it is scrubbed.
#[verifier::opaque]
pub open spec fn tidy(messages: Seq<Seq<char>>) -> bool {
    &&& messages.len() <= LOG_LENGTH
    &&& forall|i: int| 0 <= i < messages.len() ==> scrub(#[trigger] messages[i]) == messages[i]
}

/// The log is short and names no user; retries stop exactly when the failures
/// in a row are more than are retried, and a retry is due only before that; the
/// fingerprint of what was submitted is known exactly while the account is
/// synced; a refusal waits for a refresh only while one is under way; an
/// installation reports its progress exactly until it is over; and nothing is
/// captured while sync is paused.
pub open spec fn valid(m: AppModel) -> bool {
    &&& tidy(m.messages)
    &&& m.submit.gave_up <==> m.submit.failures > RETRIED_FAILURES
    &&& m.submit.failed_at is Some ==> 1 <= m.submit.failures <= RETRIED_FAILURES
    &&& m.submit.token_submitted <==> m.submit.fingerprint is Some
    &&& m.session.refresh_after_unauthorized ==> m.session.refresh_pending
    &&& m.update.progress_pending <==> m.update.done_pending
    &&& m.tray.paused ==> !m.capture.active
}

impl ArcTrackerSyncApp {
    pub open spec fn wf(&self) -> bool {
        valid(self@)
    }
}

// ----- the log and the requests ---------------------------------------------------

/// The log with one more event, scrubbed, and no more events than it keeps.
#[verifier::opaque]
pub open spec fn logged(messages: Seq<Seq<char>>, text: Seq<char>) -> Seq<Seq<char>> {
    let all = seq![scrub(text)] + messages;
    if all.len() > LOG_LENGTH {
        all.take(LOG_LENGTH as int)
    } else {
        all
    }
}

/// The state with one more event in the log.
pub open spec fn pushed(m: AppModel, text: Seq<char>) -> AppModel {
    AppModel { messages: logged(m.messages, text), ..m }
}

/// The state with one more request.
pub open spec fn requested(m: AppModel, effect: EffectModel) -> AppModel {
    AppModel { effects: m.effects.push(effect), ..m }
}

/// An event in the log leaves the state valid.
pub proof fn lemma_pushed_valid(m: AppModel, text: Seq<char>)
    requires
        valid(m),
    ensures
        valid(pushed(m, text)),
{
    reveal(tidy);
    reveal(logged);
    law_scrub_is_idempotent(text);
}

/// The newest event comes first, and the others keep their order.
pub proof fn law_log_is_newest_first(m: AppModel, text: Seq<char>)
    ensures
        pushed(m, text).messages.len() > 0,
        pushed(m, text).messages[0] == scrub(text),
        forall|i: int|
            1 <= i < pushed(m, text).messages.len() ==> #[trigger] pushed(m, text).messages[i]
                == m.messages[i - 1],
{
    reveal(logged);
}

impl ArcTrackerSyncApp {
    /// Puts an event into the activity log.
    pub fn push_message(&mut self, message: &str)
        requires
            old(self).wf(),
        ensures
            final(self)@ == pushed(old(self)@, message@),
            final(self).wf(),
    {
        let stored = Self::stored_event_message(message);
        self.messages.insert(0, stored);
        self.messages.truncate(LOG_LENGTH);
        assert(views(self.messages@) =~= logged(views(old(self).messages@), message@)) by {
            reveal(logged);
        }
        proof {
            lemma_pushed_valid(old(self)@, message@);
        }
    }

    /// Asks the surroundings for something.
    pub fn request(&mut self, effect: Effect)
        ensures
            final(self)@ == requested(old(self)@, effect@),
            old(self).wf() ==> final(self).wf(),
    {
        self.effects.push(effect);
        assert(effect_views(self.effects@) =~= effect_views(old(self).effects@).push(effect@));
    }

    /// Hands out what was asked for so far, in order.
    pub fn take_effects(&mut self) -> (r: Vec<Effect>)
        ensures
            effect_views(r@) == old(self)@.effects,
            final(self)@ == (AppModel { effects: Seq::empty(), ..old(self)@ }),
            old(self).wf() ==> final(self).wf(),
    {
        let mut r: Vec<Effect> = Vec::new();
        r.append(&mut self.effects);
        assert(effect_views(self.effects@) =~= Seq::<EffectModel>::empty());
        r
    }
}

} // verus!
