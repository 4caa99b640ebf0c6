//! What holds over several steps of the client.

use vstd::prelude::*;

use crate::app::capture::{capture_started, settings_changed, token_seen};
use crate::app::capture_laws::lemma_notices_only_log;
use crate::app::data::{EffectModel, Polled, SubmitError, SubmitReceipt, TokenObservation};
use crate::app::diagnostics::{report_lines, DiagnosticFacts};
use crate::app::lifecycle::{
    background_steps, language_changed, pause_toggled, step_from, step_wanted,
};
use crate::app::redaction::{law_scrub_hides_user_names, scrub, user_dir_at};
use crate::app::start::{first_state, start_tidied, start_told, started, StartFacts};
use crate::app::sync::{
    backoff, failure_noted, failure_told, refresh_polled, retried, signed_out, since, submit_accepted,
    submit_polled, submit_refused, submit_started, unauthorized, SECOND,
};
use crate::app::updates::{install_started, update_check_started};
use crate::app::{logged, requested, valid, AppModel, LOG_LENGTH, RETRIED_FAILURES};
use crate::i18n::{
    active_for, law_resolved_locale_is_supported, law_ui_locales_match_themselves,
    resolved_locale, ui_locales,
};
use crate::launch::HostOs;
use crate::text::{is_separator, join, opt_view, span};

verus! {

// ----- failures in a row ----------------------------------------------------------

/// A failed submission: the error, and when it came.
pub struct Failure {
    pub error: Seq<char>,
    pub at: u64,
}

/// The first `n` failures are noted, one after the other.
pub open spec fn failed_in_a_row(m: AppModel, failures: Seq<Failure>, n: nat) -> AppModel
    decreases n,
{
    if n == 0 {
        m
    } else {
        failure_noted(
            failed_in_a_row(m, failures, (n - 1) as nat),
            failures[n - 1].error,
            failures[n - 1].at,
        )
    }
}

/// An outage cannot keep the client asking: after a success or with a new
/// token, five failures in a row are each followed by a planned retry, and the
/// sixth, or any later one, ends the retries.
pub proof fn law_retries_end(m: AppModel, failures: Seq<Failure>, n: nat)
    requires
        m.submit.failures == 0,
        m.submit.failed_at is None,
        !m.submit.gave_up,
        n <= u32::MAX,
    ensures
        failed_in_a_row(m, failures, n).submit.failures == n,
        failed_in_a_row(m, failures, n).submit.gave_up <==> n > RETRIED_FAILURES,
        failed_in_a_row(m, failures, n).submit.failed_at is Some <==> 1 <= n <= RETRIED_FAILURES,
    decreases n,
{
    if n > 0 {
        law_retries_end(m, failures, (n - 1) as nat);
    }
}

/// Once retries have stopped, time alone starts no submission.
pub proof fn law_no_retry_after_giving_up(m: AppModel, now: u64)
    requires
        valid(m),
        m.submit.gave_up,
    ensures
        retried(m, now) == m,
{
}

/// A retry waits until its delay is over.
pub proof fn law_retry_waits_for_its_delay(m: AppModel, now: u64)
    requires
        retried(m, now).effects != m.effects,
    ensures
        m.submit.failed_at is Some,
        backoff(m.submit.failures) is Some,
        since(m.submit.failed_at->0, now) >= backoff(m.submit.failures)->0 * SECOND,
        !m.submit.token_submitted && !m.submit.pending,
{
}

/// Within a row of failures the sign-in is refreshed at most once: after that,
/// whatever a submission brings but success, nothing is asked for.
pub proof fn law_one_refresh_per_row_of_failures(
    m: AppModel,
    event: Polled<Result<SubmitReceipt, SubmitError>>,
    now: u64,
    clear_error: Option<Seq<char>>,
    unnamed: Seq<char>,
)
    requires
        m.submit.refreshed,
        !(event matches Polled::Value(Ok(receipt)) && receipt.response.success),
    ensures
        submit_polled(m, event, now, clear_error, unnamed).effects == m.effects,
        submit_polled(m, event, now, clear_error, unnamed).submit.refreshed,
{
}

/// A refused sign-in is refreshed, and that is remembered.
pub proof fn law_refusal_is_met_with_a_refresh(
    m: AppModel,
    error: SubmitError,
    now: u64,
    clear_error: Option<Seq<char>>,
)
    requires
        unauthorized(error),
        !m.submit.refreshed,
        m.session.auth_token is Some,
        !m.session.refresh_pending,
    ensures
        submit_refused(m, error, now, clear_error).submit.refreshed,
        submit_refused(m, error, now, clear_error).session.refresh_pending,
        submit_refused(m, error, now, clear_error).session.refresh_after_unauthorized,
        submit_refused(m, error, now, clear_error).effects == m.effects.push(
            EffectModel::StartRefresh(m.session.auth_token->0),
        ),
{
}

/// What the log says when retries stop.
pub open spec fn pause_notice() -> Seq<char> {
    scrub("Sync paused after repeated failures. Use Try again once it's resolved."@)
}

/// The text is in the log at most once.
pub open spec fn at_most_once(messages: Seq<Seq<char>>, text: Seq<char>) -> bool {
    forall|i: int, j: int|
        0 <= i < messages.len() && 0 <= j < messages.len() && #[trigger] messages[i] == text
            && #[trigger] messages[j] == text ==> i == j
}

/// One more event in the log.
proof fn lemma_logged(messages: Seq<Seq<char>>, event: Seq<char>, text: Seq<char>)
    ensures
        at_most_once(messages, text) && (scrub(event) == text ==> !messages.contains(text))
            ==> at_most_once(logged(messages, event), text),
        logged(messages, event).len() <= messages.len() + 1,
        messages.len() < LOG_LENGTH ==> logged(messages, event).contains(scrub(event)),
        messages.len() < LOG_LENGTH && messages.contains(text) ==> logged(messages, event).contains(
            text,
        ),
{
    reveal(logged);
    let after = logged(messages, event);
    assert(after.len() > 0 ==> after[0] == scrub(event));
    assert forall|i: int| 0 < i < after.len() implies #[trigger] after[i] == messages[i - 1] by {}
    if at_most_once(messages, text) && (scrub(event) == text ==> !messages.contains(text)) {
        assert forall|i: int, j: int|
            0 <= i < after.len() && 0 <= j < after.len() && #[trigger] after[i] == text
                && #[trigger] after[j] == text implies i == j by {
            if i > 0 {
                assert(messages[i - 1] == text);
            }
            if j > 0 {
                assert(messages[j - 1] == text);
            }
        }
    }
    if messages.len() < LOG_LENGTH && messages.contains(text) {
        let i = choose|i: int| 0 <= i < messages.len() && messages[i] == text;
        assert(after[i + 1] == text);
    }
}

/// However often failures repeat themselves, and in whatever order they come,
/// they put no error into the log twice.
pub proof fn law_no_error_is_logged_twice(
    m: AppModel,
    failures: Seq<Failure>,
    n: nat,
    error: Seq<char>,
)
    requires
        at_most_once(m.messages, scrub(error)),
        scrub(error) != pause_notice(),
    ensures
        at_most_once(failed_in_a_row(m, failures, n).messages, scrub(error)),
    decreases n,
{
    if n > 0 {
        let before = failed_in_a_row(m, failures, (n - 1) as nat);
        let failure = failures[n - 1];
        let told = failure_told(before, failure.error);
        let notice = "Sync paused after repeated failures. Use Try again once it's resolved."@;
        law_no_error_is_logged_twice(m, failures, (n - 1) as nat, error);
        lemma_logged(before.messages, failure.error, scrub(error));
        lemma_logged(told.messages, notice, scrub(error));
    }
}

/// While the log has room, it has every error of the failures, whatever their
/// order, and last of all the one that is shown.
pub proof fn law_every_error_is_logged(m: AppModel, failures: Seq<Failure>, n: nat)
    requires
        n <= failures.len(),
        m.messages.len() + 2 * n <= LOG_LENGTH,
        m.submit.last_error matches Some(error) ==> m.messages.contains(error),
    ensures
        forall|i: int|
            0 <= i < n ==> failed_in_a_row(m, failures, n).messages.contains(
                scrub((#[trigger] failures[i]).error),
            ),
        n > 0 ==> failed_in_a_row(m, failures, n).submit.last_error == Some(
            scrub(failures[n - 1].error),
        ),
        failed_in_a_row(m, failures, n).messages.len() <= m.messages.len() + 2 * n,
    decreases n,
{
    if n > 0 {
        let before = failed_in_a_row(m, failures, (n - 1) as nat);
        let failure = failures[n - 1];
        law_every_error_is_logged(m, failures, (n - 1) as nat);
        let told = failure_told(before, failure.error);
        let notice = "Sync paused after repeated failures. Use Try again once it's resolved."@;
        lemma_logged(before.messages, failure.error, failure.error);
        lemma_logged(told.messages, notice, failure.error);
        assert forall|i: int| 0 <= i < n implies failed_in_a_row(
            m,
            failures,
            n,
        ).messages.contains(scrub((#[trigger] failures[i]).error)) by {
            let text = scrub(failures[i].error);
            lemma_logged(before.messages, failure.error, text);
            assert(told.messages.contains(text));
            lemma_logged(told.messages, notice, text);
        }
    }
}

/// A new token gets the full number of retries, whatever came before it.
pub proof fn law_new_token_starts_afresh(m: AppModel, observation: TokenObservation)
    requires
        m.submit.fingerprint != Some(observation.fingerprint@),
    ensures
        token_seen(m, observation).submit.failures == 0,
        !token_seen(m, observation).submit.gave_up,
        !token_seen(m, observation).submit.refreshed,
        token_seen(m, observation).submit.failed_at is None,
        m.session.auth_token is Some ==> token_seen(m, observation).submit.pending,
{
}

// ----- the language ---------------------------------------------------------------

/// The language that is active once the requests have been carried out, where
/// `before` was.
pub open spec fn active_after(effects: Seq<EffectModel>, before: Seq<char>) -> Seq<char>
    decreases effects.len(),
{
    if effects.len() == 0 {
        before
    } else {
        match effects.last() {
            EffectModel::SetLocale(locale) => active_for(locale),
            _ => active_after(effects.drop_last(), before),
        }
    }
}

proof fn lemma_active_after(effects: Seq<EffectModel>, effect: EffectModel, before: Seq<char>)
    ensures
        active_after(effects.push(effect), before) == (match effect {
            EffectModel::SetLocale(locale) => active_for(locale),
            _ => active_after(effects, before),
        }),
{
    assert(effects.push(effect).drop_last() =~= effects);
}

proof fn lemma_resolved_is_active(language: Option<Seq<char>>, system: Option<Seq<char>>)
    ensures
        active_for(resolved_locale(language, system)) == resolved_locale(language, system),
{
    law_resolved_locale_is_supported(language, system);
    let i = choose|i: int|
        0 <= i < ui_locales().len() && ui_locales()[i] == resolved_locale(language, system);
    law_ui_locales_match_themselves(i);
}

/// The start makes the language active that the client shows, whatever was
/// active before.
pub proof fn law_start_makes_the_shown_language_active(facts: StartFacts, before: Seq<char>)
    ensures
        active_after(started(facts).effects, before) == started(facts).ui.locale,
{
    let first = first_state(facts);
    let told = start_told(facts);
    let forgot = requested(told, EffectModel::ForgetSignIn);
    lemma_resolved_is_active(facts.config@.language, opt_view(facts.system_language));
    if let Ok(resolution) = facts.sync_key {
        lemma_notices_only_log(first, resolution.skipped@, resolution.skipped@.len());
    }
    assert(told.effects == first.effects);
    lemma_active_after(told.effects, EffectModel::ForgetSignIn, before);
    lemma_active_after(told.effects, EffectModel::RemoveStartupEntry, before);
    lemma_active_after(forgot.effects, EffectModel::RemoveStartupEntry, before);
    let tidied = start_tidied(facts);
    if first.session.auth_token is Some {
        lemma_active_after(
            tidied.effects,
            EffectModel::StartRefresh(first.session.auth_token->0),
            before,
        );
    }
}

/// A change of the language keeps the active language that which the client shows.
pub proof fn law_language_change_is_made_active(
    m: AppModel,
    language: Option<Seq<char>>,
    system: Option<Seq<char>>,
    before: Seq<char>,
)
    requires
        active_after(m.effects, before) == m.ui.locale,
    ensures
        active_after(language_changed(m, language, system).effects, before) == language_changed(
            m,
            language,
            system,
        ).ui.locale,
{
    let locale = resolved_locale(language, system);
    lemma_resolved_is_active(language, system);
    let saved = m.effects.push(EffectModel::SaveConfig);
    let set = saved.push(EffectModel::SetLocale(locale));
    let fonts = EffectModel::ApplyFonts(m.ui.picker_fonts_loaded);
    lemma_active_after(saved, EffectModel::SetLocale(locale), before);
    lemma_active_after(set, fonts, before);
    lemma_active_after(set.push(fonts), EffectModel::RefreshTooltip, before);
}

// ----- one at a time --------------------------------------------------------------

/// One submission at a time.
pub proof fn law_one_submission_at_a_time(m: AppModel)
    requires
        m.submit.pending,
    ensures
        submit_started(m) == m,
{
}

/// A token that was accepted is not submitted again.
pub proof fn law_accepted_token_is_not_resubmitted(
    m: AppModel,
    receipt: SubmitReceipt,
    unnamed: Seq<char>,
)
    requires
        !m.submit.pending,
        m.capture.latest_token matches Some(token) ==> token.fingerprint@
            == receipt.fingerprint@,
    ensures
        !submit_accepted(m, receipt, unnamed).submit.pending,
        submit_started(submit_accepted(m, receipt, unnamed)) == submit_accepted(
            m,
            receipt,
            unnamed,
        ),
{
}

/// While sync is paused, no capture runs and none starts.
pub proof fn law_no_capture_while_paused(m: AppModel, elevated: bool, key_is_file: bool)
    requires
        valid(m),
        m.tray.paused,
    ensures
        !m.capture.active,
        capture_started(m, elevated, key_is_file) == m,
{
}

/// Pausing sync stops the capture.
pub proof fn law_pausing_stops_the_capture(m: AppModel, elevated: bool, key_is_file: bool)
    requires
        !m.tray.paused,
    ensures
        pause_toggled(m, elevated, key_is_file).tray.paused,
        !pause_toggled(m, elevated, key_is_file).capture.active,
{
}

/// A capture that failed is not started again until something changes.
pub proof fn law_blocked_capture_stays_down(m: AppModel, elevated: bool, key_is_file: bool)
    requires
        m.capture.blocked,
    ensures
        capture_started(m, elevated, key_is_file) == m,
        !settings_changed(m).capture.blocked,
        !settings_changed(m).capture.active,
{
}

/// One installation at a time.
pub proof fn law_one_installation_at_a_time(
    m: AppModel,
    first: crate::app::data::ReleaseInfo,
    second: crate::app::data::ReleaseInfo,
)
    ensures
        install_started(install_started(m, first), second) == install_started(m, first),
{
}

/// Where nothing could be installed, nothing is looked for.
pub proof fn law_linux_looks_for_no_update(m: AppModel, now: u64)
    requires
        m.host == HostOs::Linux,
    ensures
        update_check_started(m, now) == m,
{
}

// ----- signing out ----------------------------------------------------------------

/// Signing out leaves nothing of the account behind.
pub proof fn law_sign_out_forgets_the_account(m: AppModel, clear_error: Option<Seq<char>>)
    ensures
        signed_out(m, clear_error).session.auth_token is None,
        signed_out(m, clear_error).session.account_name is None,
        !signed_out(m, clear_error).session.auth_pending,
        signed_out(m, clear_error).capture.latest_token is None,
        signed_out(m, clear_error).submit.fingerprint is None,
        !signed_out(m, clear_error).submit.token_submitted,
        !signed_out(m, clear_error).submit.sync_enabled,
{
}

/// A refresh that fails signs the user out only where a submission was refused
/// before it.
pub proof fn law_failed_refresh_signs_out_only_after_a_refusal(
    m: AppModel,
    error: SubmitError,
    save_error: Option<Seq<char>>,
    clear_error: Option<Seq<char>>,
)
    requires
        m.session.refresh_pending,
        m.session.auth_token is Some,
    ensures
        refresh_polled(
            m,
            Polled::Value(Err(error)),
            save_error,
            clear_error,
        ).session.auth_token is None <==> m.session.refresh_after_unauthorized,
{
}

// ----- the work of a tick ---------------------------------------------------------

/// The parts of a tick come in order, and none that is wanted is left out.
pub proof fn law_steps_come_in_order(m: AppModel, k: nat, now: u64)
    ensures
        match step_from(m, k, now) {
            Some((step, n)) => {
                &&& k <= n < background_steps().len()
                &&& step == background_steps()[n as int]
                &&& step_wanted(m, step, now)
                &&& forall|j: int|
                    k <= j < n ==> !step_wanted(m, #[trigger] background_steps()[j], now)
            },
            None => forall|j: int|
                k <= j < background_steps().len() ==> !step_wanted(
                    m,
                    #[trigger] background_steps()[j],
                    now,
                ),
        },
    decreases background_steps().len() - k,
{
    if k < background_steps().len() && !step_wanted(m, background_steps()[k as int], now) {
        law_steps_come_in_order(m, k + 1, now);
    }
}

// ----- what leaves the client -----------------------------------------------------

/// The report for support names no user: after each `Users` directory in it
/// stands `<user>` or nothing.
pub proof fn law_report_names_no_user(m: AppModel, facts: DiagnosticFacts, i: int)
    requires
        user_dir_at(scrub(join(report_lines(m, facts), "\n"@)), i),
    ensures
        ({
            let report = scrub(join(report_lines(m, facts), "\n"@));
            let rest = report.skip(i + 7);
            let component = rest.take(span(rest, is_separator()) as int);
            component == "<user>"@ || component.len() == 0
        }),
{
    law_scrub_hides_user_names(join(report_lines(m, facts), "\n"@), i);
}

/// Nor does any event of the log.
pub proof fn law_log_names_no_user(m: AppModel, event: int, i: int)
    requires
        valid(m),
        0 <= event < m.messages.len(),
        user_dir_at(m.messages[event], i),
    ensures
        ({
            let rest = m.messages[event].skip(i + 7);
            let component = rest.take(span(rest, is_separator()) as int);
            component == "<user>"@ || component.len() == 0
        }),
{
    reveal(crate::app::tidy);
    assert(scrub(m.messages[event]) == m.messages[event]);
    law_scrub_hides_user_names(m.messages[event], i);
}

} // verus!
