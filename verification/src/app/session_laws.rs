//! What the sign-in and the submissions are for: laws on what each step leaves
//! behind, field by field.

use vstd::prelude::*;

use crate::app::data::{EffectModel, Polled, SubmitError, SubmitReceipt};
use crate::app::law_log_is_newest_first;
use crate::app::redaction::scrub;
use crate::app::sync::{
    auth_polled, backoff, failure_noted, launch_refreshed, refresh_polled, retried, retry_reset,
    sign_in_over, sign_in_started, signed_out, submit_polled, submit_started, timer_refreshed,
    SignInStart,
};
use crate::app::AppModel;

verus! {

/// Nothing changes but the sign-in, the submission, the log and the requests.
pub open spec fn only_sync_differs(m: AppModel, after: AppModel) -> bool {
    &&& after.host == m.host
    &&& after.config == m.config
    &&& after.ui == m.ui
    &&& after.capture == m.capture
    &&& after.launcher == m.launcher
    &&& after.tray == m.tray
    &&& after.update == m.update
}

/// The captured token can be submitted as soon as someone is signed in: there
/// is one, it was not accepted before, and no submission is under way.
pub open spec fn token_waits(m: AppModel) -> bool {
    !m.submit.pending && m.capture.latest_token is Some && m.submit.fingerprint != Some(
        m.capture.latest_token->0.fingerprint@,
    )
}

// ----- refreshing -----------------------------------------------------------------

/// A refresh that brings a sign-in puts it in the place of the old one,
/// whatever the refresh was for. The token that waits is submitted with it
/// exactly where a submission was refused before.
pub proof fn law_refresh_replaces_the_sign_in(
    m: AppModel,
    token: String,
    save_error: Option<Seq<char>>,
    clear_error: Option<Seq<char>>,
)
    requires
        m.session.refresh_pending,
    ensures
        ({
            let after = refresh_polled(m, Polled::Value(Ok(token)), save_error, clear_error);
            &&& after.session.auth_token == Some(token@)
            &&& after.session.account_name == m.session.account_name
            &&& after.session.auth_pending == m.session.auth_pending
            &&& after.session.last_refresh_attempt == m.session.last_refresh_attempt
            &&& !after.session.refresh_pending && !after.session.refresh_after_unauthorized
            &&& only_sync_differs(m, after)
            &&& after.submit.token_submitted == m.submit.token_submitted
            &&& after.submit.fingerprint == m.submit.fingerprint
            &&& after.submit.failures == m.submit.failures
            &&& after.submit.refreshed == m.submit.refreshed
            &&& save_error is None ==> after.messages == m.messages
            &&& save_error matches Some(error) ==> after.messages.len() > 0 && after.messages[0]
                == scrub("Could not remember ARCTracker sign-in: "@ + error)
            &&& if m.session.refresh_after_unauthorized && token_waits(m) {
                &&& after.submit.pending
                &&& after.effects == m.effects.push(
                    EffectModel::StartSubmit(token@, m.capture.latest_token->0),
                )
            } else {
                &&& after.submit == m.submit
                &&& after.effects == m.effects
            }
        }),
{
    if let Some(error) = save_error {
        law_log_is_newest_first(m, "Could not remember ARCTracker sign-in: "@ + error);
    }
}

/// A refresh that brings nothing leaves the sign-in alone, unless a submission
/// was refused before: then the user is signed out.
pub proof fn law_refresh_that_fails(
    m: AppModel,
    event: Polled<Result<String, SubmitError>>,
    save_error: Option<Seq<char>>,
    clear_error: Option<Seq<char>>,
)
    requires
        m.session.refresh_pending,
        event is Disconnected || (event matches Polled::Value(result) && result is Err),
    ensures
        ({
            let after = refresh_polled(m, event, save_error, clear_error);
            &&& !after.session.refresh_pending && !after.session.refresh_after_unauthorized
            &&& after.effects == m.effects
            &&& only_sync_differs(m, after)
            &&& after.submit.pending == m.submit.pending
            &&& after.submit.failures == m.submit.failures
            &&& event matches Polled::Value(Err(error)) ==> after.messages.len() > 0
                && after.messages[0] == scrub(error.message@)
            &&& if m.session.refresh_after_unauthorized {
                &&& after.session.auth_token is None && after.session.account_name is None
                &&& !after.submit.token_submitted && after.submit.fingerprint is None
                &&& !after.submit.sync_enabled
            } else {
                &&& after.session.auth_token == m.session.auth_token
                &&& after.session.account_name == m.session.account_name
                &&& after.submit == m.submit
                &&& event is Disconnected ==> after.messages == m.messages
            }
        }),
{
    if let Polled::Value(Err(error)) = event {
        law_log_is_newest_first(
            crate::app::sync::refresh_failed(m, clear_error),
            error.message@,
        );
    }
}

/// Before its result is there, a refresh changes nothing; nor does a result
/// that nobody waits for.
pub proof fn law_refresh_waits(
    m: AppModel,
    event: Polled<Result<String, SubmitError>>,
    save_error: Option<Seq<char>>,
    clear_error: Option<Seq<char>>,
)
    requires
        !m.session.refresh_pending || event is Empty,
    ensures
        refresh_polled(m, event, save_error, clear_error) == m,
{
}

/// A refresh that starts sends the sign-in that there is, and is remembered
/// with its time; nothing else changes.
pub open spec fn refresh_begun(m: AppModel, after: AppModel, now: u64) -> bool {
    &&& after.effects == m.effects.push(EffectModel::StartRefresh(m.session.auth_token->0))
    &&& after.session.refresh_pending
    &&& after.session.last_refresh_attempt == now
    &&& after.session.auth_token == m.session.auth_token
    &&& after.session.account_name == m.session.account_name
    &&& after.session.refresh_after_unauthorized == m.session.refresh_after_unauthorized
    &&& after.submit == m.submit
    &&& after.messages == m.messages
    &&& only_sync_differs(m, after)
}

/// At the start the sign-in is refreshed exactly where someone is signed in,
/// no refresh is under way, and fewer than seven days remain or nobody can say
/// how many do.
pub proof fn law_refresh_at_the_start(m: AppModel, days: Option<i64>, now: u64)
    ensures
        if m.session.auth_token is Some && !m.session.refresh_pending && (days is None || days->0
            <= 6) {
            refresh_begun(m, launch_refreshed(m, days, now), now)
        } else {
            launch_refreshed(m, days, now) == m
        },
{
}

/// The sign-in is refreshed once 24 hours have passed since the last attempt,
/// and not before.
pub proof fn law_refresh_once_a_day(m: AppModel, now: u64)
    ensures
        if m.session.auth_token is Some && !m.session.refresh_pending && now
            - m.session.last_refresh_attempt >= 24 * 3600 * 1_000_000_000 {
            refresh_begun(m, timer_refreshed(m, now), now)
        } else {
            timer_refreshed(m, now) == m
        },
{
}

// ----- signing in -----------------------------------------------------------------

/// A sign-in that succeeds is the sign-in from then on, and the token that
/// waits is submitted with it.
pub proof fn law_sign_in_is_used(m: AppModel, token: String, save_error: Option<Seq<char>>)
    requires
        m.session.auth_pending,
    ensures
        ({
            let after = auth_polled(m, Polled::Value(Ok(token)), save_error);
            &&& after.session.auth_token == Some(token@)
            &&& !after.session.auth_pending
            &&& after.session.account_name == m.session.account_name
            &&& after.session.refresh_pending == m.session.refresh_pending
            &&& only_sync_differs(m, after)
            &&& after.messages.len() > 0 && after.messages[0] == scrub(
                "ARCTracker sign-in complete"@,
            )
            &&& save_error matches Some(error) ==> after.messages[1] == scrub(
                "Could not remember ARCTracker sign-in: "@ + error,
            )
            &&& if token_waits(m) {
                &&& after.submit.pending
                &&& after.effects == m.effects.push(
                    EffectModel::StartSubmit(token@, m.capture.latest_token->0),
                )
            } else {
                &&& after.submit == m.submit
                &&& after.effects == m.effects
            }
        }),
{
    reveal(crate::app::logged);
}

/// A sign-in that fails leaves what was there, and the log says why.
pub proof fn law_sign_in_that_fails(
    m: AppModel,
    event: Polled<Result<String, String>>,
    save_error: Option<Seq<char>>,
)
    requires
        m.session.auth_pending,
        event is Disconnected || (event matches Polled::Value(result) && result is Err),
    ensures
        ({
            let after = auth_polled(m, event, save_error);
            &&& after.session.auth_token == m.session.auth_token
            &&& after.session.account_name == m.session.account_name
            &&& !after.session.auth_pending
            &&& after.submit == m.submit
            &&& after.effects == m.effects
            &&& only_sync_differs(m, after)
            &&& after.messages.len() > 0 && after.messages[0] == scrub(
                if event is Disconnected {
                    "Sign-in callback stopped unexpectedly"@
                } else {
                    event->Value_0->Err_0@
                },
            )
        }),
{
    reveal(crate::app::logged);
}

/// Nothing happens before a result of the sign-in is there, or without a
/// sign-in under way.
pub proof fn law_sign_in_waits(
    m: AppModel,
    event: Polled<Result<String, String>>,
    save_error: Option<Seq<char>>,
)
    requires
        !m.session.auth_pending || event is Empty,
    ensures
        auth_polled(m, event, save_error) == m,
{
}

/// Starting a sign-in waits for it; where the browser did not open, the log
/// gives the address. A second start while one is under way changes nothing.
pub proof fn law_sign_in_starts(m: AppModel, start: SignInStart)
    ensures
        ({
            let after = sign_in_started(m, start);
            &&& after.session.auth_token == m.session.auth_token
            &&& after.submit == m.submit && after.effects == m.effects
            &&& only_sync_differs(m, after)
            &&& m.session.auth_pending ==> after == m
            &&& after.session.auth_pending <==> m.session.auth_pending || start is Waiting
            &&& !m.session.auth_pending && start is Failed ==> after.messages[0] == scrub(
                "Could not start sign-in: "@ + start->Failed_0@,
            )
            &&& !m.session.auth_pending && start is Waiting && start->browser_error is None
                ==> after.messages == m.messages
            &&& !m.session.auth_pending && start is Waiting && start->browser_error is Some
                ==> after.messages[0] == scrub(
                "Could not open browser: "@ + start->browser_error->0@,
            ) && after.messages[1] == scrub("Open this URL: "@ + start->url@)
        }),
{
    reveal(crate::app::logged);
}

/// Giving a sign-in up keeps everything but the wait for it.
pub proof fn law_sign_in_is_cancelled(m: AppModel)
    ensures
        !sign_in_over(m).session.auth_pending,
        sign_in_over(m).session.auth_token == m.session.auth_token,
        sign_in_over(m).session.account_name == m.session.account_name,
        sign_in_over(m).submit == m.submit,
        sign_in_over(m).effects == m.effects,
        sign_in_over(m).messages == m.messages,
        only_sync_differs(m, sign_in_over(m)),
{
}

/// Signing out takes nothing but the account: settings, launcher and capture
/// stay, the tooltip is worked out anew, and after it nothing is submitted.
pub proof fn law_sign_out_touches_only_the_account(m: AppModel, clear_error: Option<Seq<char>>)
    ensures
        ({
            let after = signed_out(m, clear_error);
            &&& after.host == m.host && after.config == m.config && after.ui == m.ui
            &&& after.launcher == m.launcher && after.tray == m.tray && after.update == m.update
            &&& after.capture.active == m.capture.active
            &&& after.capture.interfaces == m.capture.interfaces
            &&& after.capture.sync_key_source == m.capture.sync_key_source
            &&& after.effects == m.effects.push(EffectModel::RefreshTooltip)
            &&& clear_error is None ==> after.messages == m.messages
            &&& clear_error matches Some(error) ==> after.messages[0] == scrub(
                "Could not clear ARCTracker sign-in: "@ + error,
            )
            &&& submit_started(after) == after
        }),
{
    reveal(crate::app::logged);
}

// ----- submitting -----------------------------------------------------------------

/// What is submitted is the captured token, with the sign-in that there is; it
/// is submitted exactly where one waits and someone is signed in.
pub proof fn law_submission_carries_sign_in_and_token(m: AppModel)
    ensures
        ({
            let after = submit_started(m);
            if m.session.auth_token is Some && token_waits(m) {
                &&& after.effects == m.effects.push(
                    EffectModel::StartSubmit(
                        m.session.auth_token->0,
                        m.capture.latest_token->0,
                    ),
                )
                &&& after.submit.pending
                &&& m.submit.attempts < u32::MAX ==> after.submit.attempts == m.submit.attempts + 1
                &&& after.submit.failures == m.submit.failures
                &&& after.submit.fingerprint == m.submit.fingerprint
                &&& after.submit.token_submitted == m.submit.token_submitted
                &&& after.submit.failed_at == m.submit.failed_at
                &&& after.submit.last_error == m.submit.last_error
                &&& after.session == m.session
                &&& after.messages == m.messages
                &&& only_sync_differs(m, after)
            } else {
                after == m
            }
        }),
{
}

/// A token that the service accepted is the synced one: the account is shown by
/// its name, errors and retries are forgotten, and a token that was captured
/// meanwhile is submitted next.
pub proof fn law_accepted_submission_syncs(
    m: AppModel,
    receipt: SubmitReceipt,
    now: u64,
    clear_error: Option<Seq<char>>,
    unnamed: Seq<char>,
)
    requires
        m.submit.pending,
        receipt.response.success,
    ensures
        ({
            let after = submit_polled(m, Polled::Value(Ok(receipt)), now, clear_error, unnamed);
            let account = after.session.account_name->0;
            &&& after.submit.token_submitted
            &&& after.submit.fingerprint == Some(receipt.fingerprint@)
            &&& after.submit.sync_enabled == receipt.response.sync_enabled
            &&& after.submit.failures == 0 && !after.submit.gave_up && !after.submit.refreshed
            &&& after.submit.failed_at is None && after.submit.last_error is None
            &&& after.session.account_name is Some
            &&& receipt.response.display_name is None ==> account == unnamed
            &&& receipt.response.display_name matches Some(name) ==> (
            match receipt.response.display_name_discriminator {
                Some(number) => account == name@ + "#"@ + number@,
                None => account == name@,
            })
            &&& after.session.auth_token == m.session.auth_token
            &&& after.session.refresh_pending == m.session.refresh_pending
            &&& after.messages[0] == scrub(account + " connected"@)
            &&& only_sync_differs(m, after)
            &&& if m.session.auth_token is Some && m.capture.latest_token is Some
                && m.capture.latest_token->0.fingerprint@ != receipt.fingerprint@ {
                &&& after.submit.pending
                &&& after.effects == m.effects.push(EffectModel::RefreshTooltip).push(
                    EffectModel::StartSubmit(
                        m.session.auth_token->0,
                        m.capture.latest_token->0,
                    ),
                )
            } else {
                &&& !after.submit.pending
                &&& after.effects == m.effects.push(EffectModel::RefreshTooltip)
            }
        }),
{
    reveal(crate::app::logged);
}

/// An answer that the service does not sync the account ends the submission
/// without a retry; an account that is synced already stays so.
pub proof fn law_declined_submission_is_final(
    m: AppModel,
    receipt: SubmitReceipt,
    now: u64,
    clear_error: Option<Seq<char>>,
    unnamed: Seq<char>,
)
    requires
        m.submit.pending,
        !receipt.response.success,
    ensures
        ({
            let after = submit_polled(m, Polled::Value(Ok(receipt)), now, clear_error, unnamed);
            &&& !after.submit.pending
            &&& after.session == m.session
            &&& after.effects == m.effects
            &&& after.submit.token_submitted == m.submit.token_submitted
            &&& after.submit.fingerprint == m.submit.fingerprint
            &&& after.submit.failures == m.submit.failures
            &&& after.submit.gave_up == m.submit.gave_up
            &&& only_sync_differs(m, after)
            &&& if m.submit.token_submitted {
                &&& after.messages == m.messages
                &&& after.submit.sync_enabled == m.submit.sync_enabled
                &&& after.submit.last_error == m.submit.last_error
                &&& after.submit.failed_at == m.submit.failed_at
            } else {
                &&& after.submit.failed_at is None
                &&& after.submit.sync_enabled == receipt.response.sync_enabled
                &&& after.submit.last_error == Some(
                    "ARCTracker answered success=false for the submitted token"@,
                )
                &&& after.messages[0] == scrub("ARCTracker did not enable sync for this account"@)
            }
        }),
{
    reveal(crate::app::logged);
}

/// What a failure leaves: one more in the row, the error kept without user
/// names, and a retry planned from now on, or, from the sixth on, none.
pub open spec fn failure_counted(
    m: AppModel,
    after: AppModel,
    error: Seq<char>,
    now: u64,
) -> bool {
    &&& after.submit.failures == if m.submit.failures < u32::MAX {
        m.submit.failures + 1
    } else {
        u32::MAX as int
    }
    &&& after.submit.last_error == Some(scrub(error))
    &&& if after.submit.failures <= 5 {
        &&& after.submit.failed_at == Some(now)
        &&& after.submit.gave_up == m.submit.gave_up
    } else {
        &&& after.submit.failed_at is None
        &&& after.submit.gave_up
        &&& after.messages.len() > 0 && after.messages[0] == scrub(
            "Sync paused after repeated failures. Use Try again once it's resolved."@,
        )
    }
    &&& only_sync_differs(m, after)
}

/// A failure is counted, whatever it was, and keeps the sign-in, the account
/// and what was synced.
pub proof fn law_failure_is_counted(m: AppModel, error: Seq<char>, now: u64)
    ensures
        failure_counted(m, failure_noted(m, error, now), error, now),
        failure_noted(m, error, now).session == m.session,
        failure_noted(m, error, now).effects == m.effects,
        failure_noted(m, error, now).submit.pending == m.submit.pending,
        failure_noted(m, error, now).submit.token_submitted == m.submit.token_submitted,
        failure_noted(m, error, now).submit.fingerprint == m.submit.fingerprint,
        failure_noted(m, error, now).submit.sync_enabled == m.submit.sync_enabled,
        failure_noted(m, error, now).submit.refreshed == m.submit.refreshed,
        failure_noted(m, error, now).submit.attempts == m.submit.attempts,
{
    reveal(crate::app::logged);
}

/// A submission that fails is over and counted. Only a refusal with status 401
/// does more, and only once per row of failures: who is signed in has the
/// sign-in refreshed for the submission to go on with, and who is not is signed
/// out for good.
pub proof fn law_failed_submission_is_counted(
    m: AppModel,
    error: SubmitError,
    now: u64,
    clear_error: Option<Seq<char>>,
    unnamed: Seq<char>,
)
    requires
        m.submit.pending,
    ensures
        ({
            let after = submit_polled(m, Polled::Value(Err(error)), now, clear_error, unnamed);
            let refused = error.status == Some(401u16) && !m.submit.refreshed;
            &&& !after.submit.pending
            &&& after.submit.failures == if m.submit.failures < u32::MAX {
                m.submit.failures + 1
            } else {
                u32::MAX as int
            }
            &&& after.submit.last_error == Some(scrub(error.message@))
            &&& after.submit.failures <= 5 ==> after.submit.failed_at == Some(now)
            &&& after.submit.failures > 5 ==> after.submit.failed_at is None
                && after.submit.gave_up
            &&& only_sync_differs(m, after)
            &&& !refused ==> {
                &&& after.session == m.session
                &&& after.effects == m.effects
                &&& after.submit.refreshed == m.submit.refreshed
                &&& after.submit.token_submitted == m.submit.token_submitted
                &&& after.submit.fingerprint == m.submit.fingerprint
            }
            &&& refused && m.session.auth_token is Some ==> {
                &&& after.session.auth_token == m.session.auth_token
                &&& after.session.account_name == m.session.account_name
                &&& after.session.refresh_pending && after.session.refresh_after_unauthorized
                &&& after.submit.refreshed
                &&& after.submit.token_submitted == m.submit.token_submitted
                &&& after.effects == if m.session.refresh_pending {
                    m.effects
                } else {
                    m.effects.push(EffectModel::StartRefresh(m.session.auth_token->0))
                }
            }
            &&& refused && m.session.auth_token is None ==> {
                &&& after.session.auth_token is None && after.session.account_name is None
                &&& !after.submit.token_submitted && after.submit.fingerprint is None
                &&& !after.submit.sync_enabled
                &&& after.effects == m.effects
            }
        }),
{
    reveal(crate::app::logged);
}

/// A submission whose worker is gone failed like any other.
pub proof fn law_lost_submission_is_counted(
    m: AppModel,
    now: u64,
    clear_error: Option<Seq<char>>,
    unnamed: Seq<char>,
)
    requires
        m.submit.pending,
    ensures
        ({
            let after = submit_polled(m, Polled::Disconnected, now, clear_error, unnamed);
            &&& failure_counted(m, after, "Submission worker stopped unexpectedly"@, now)
            &&& !after.submit.pending
            &&& after.session == m.session
            &&& after.effects == m.effects
            &&& after.submit.token_submitted == m.submit.token_submitted
            &&& after.submit.fingerprint == m.submit.fingerprint
            &&& after.messages.contains(scrub("Submission worker stopped unexpectedly"@))
        }),
{
    reveal(crate::app::logged);
    let text = scrub("Submission worker stopped unexpectedly"@);
    let told = crate::app::pushed(
        crate::app::sync::submit_over(m),
        "Submission worker stopped unexpectedly"@,
    );
    assert(told.messages[0] == text);
    let after = submit_polled(m, Polled::Disconnected, now, clear_error, unnamed);
    assert(after.messages[0] == text || after.messages[1] == text);
}

/// Nothing happens before a result of the submission is there, or without a
/// submission under way.
pub proof fn law_submission_waits(
    m: AppModel,
    event: Polled<Result<SubmitReceipt, SubmitError>>,
    now: u64,
    clear_error: Option<Seq<char>>,
    unnamed: Seq<char>,
)
    requires
        !m.submit.pending || event is Empty,
    ensures
        submit_polled(m, event, now, clear_error, unnamed) == m,
{
}

// ----- retries --------------------------------------------------------------------

/// The waits before the five retries: half a minute, one, two, five and ten
/// minutes; before the first failure and after the sixth there is none.
pub proof fn law_backoff_schedule(failures: u32)
    ensures
        backoff(failures) == if 1 <= failures <= 5 {
            Some(seq![30u64, 60u64, 120u64, 300u64, 600u64][failures - 1])
        } else {
            None::<u64>
        },
{
}

/// A submission that failed is tried again exactly when its wait is over, and
/// the next wait is counted from then.
pub proof fn law_retry_comes_after_the_wait(m: AppModel, now: u64)
    requires
        !m.submit.token_submitted,
        !m.submit.pending,
        m.submit.failed_at is Some,
        1 <= m.submit.failures <= 5,
    ensures
        ({
            let waits = seq![30int, 60, 120, 300, 600];
            let after = retried(m, now);
            if now - m.submit.failed_at->0 >= waits[m.submit.failures - 1] * 1_000_000_000 {
                &&& after.submit.failed_at == Some(now)
                &&& after.submit.failures == m.submit.failures
                &&& after.session == m.session
                &&& after.messages == m.messages
                &&& only_sync_differs(m, after)
                &&& if m.session.auth_token is Some && token_waits(m) {
                    &&& after.submit.pending
                    &&& after.effects == m.effects.push(
                        EffectModel::StartSubmit(
                            m.session.auth_token->0,
                            m.capture.latest_token->0,
                        ),
                    )
                } else {
                    &&& !after.submit.pending
                    &&& after.effects == m.effects
                }
            } else {
                after == m
            }
        }),
{
    law_backoff_schedule(m.submit.failures);
}

/// Nothing is retried that did not fail, that is under way, or that is synced.
pub proof fn law_nothing_else_is_retried(m: AppModel, now: u64)
    requires
        m.submit.token_submitted || m.submit.pending || m.submit.failed_at is None,
    ensures
        retried(m, now) == m,
{
}

/// Starting the retries over forgets the failures, and nothing that was synced.
pub proof fn law_retry_reset(m: AppModel)
    ensures
        ({
            let after = retry_reset(m);
            &&& after.submit.failures == 0 && !after.submit.gave_up && !after.submit.refreshed
            &&& after.submit.failed_at is None
            &&& after.submit.token_submitted == m.submit.token_submitted
            &&& after.submit.fingerprint == m.submit.fingerprint
            &&& after.submit.pending == m.submit.pending
            &&& after.submit.last_error == m.submit.last_error
            &&& after.submit.attempts == m.submit.attempts
            &&& after.submit.sync_enabled == m.submit.sync_enabled
            &&& after.session == m.session && after.effects == m.effects
            &&& after.messages == m.messages
            &&& only_sync_differs(m, after)
        }),
{
}

} // verus!
