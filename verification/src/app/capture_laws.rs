//! What the capture is for: laws on when it runs, on what, and what becomes of
//! its reports.

use vstd::prelude::*;

use crate::app::capture::{
    capture_polled, capture_started, capture_stopped, ends, event_taken, events_taken,
    interface_chosen, interfaces_refreshed, key_path, key_refreshed, key_unchanged, method_chosen, notice_of, npcap_missing,
    npcap_probed, settings_changed, token_seen,
};
use crate::app::data::{
    CaptureEvent, CaptureMethod, CaptureStats, EffectModel, InterfaceInfo, TokenObservation,
};
use crate::app::interfaces::{law_best_interface_scores_highest, position_of};
use crate::app::redaction::scrub;
use crate::app::state::CaptureModel;
use crate::app::{AppModel, LOG_LENGTH};
use crate::launch::sync_key::SyncKeySourceKind;
use crate::launch::{SkippedSyncKey, SyncKeyResolution};

verus! {

/// Nothing changes but the capture, the submission, the log and the requests.
pub open spec fn only_capture_differs(m: AppModel, after: AppModel) -> bool {
    &&& after.host == m.host
    &&& after.ui == m.ui
    &&& after.launcher == m.launcher
    &&& after.session == m.session
    &&& after.tray == m.tray
    &&& after.update == m.update
}

/// What a capture runs on is what it was.
pub open spec fn same_setup(a: CaptureModel, b: CaptureModel) -> bool {
    &&& a.interfaces == b.interfaces
    &&& a.selected_interface_index == b.selected_interface_index
    &&& a.sync_key_source == b.sync_key_source
    &&& a.sync_key_skipped == b.sync_key_skipped
}

/// Nothing has been counted.
pub open spec fn all_zero(stats: CaptureStats) -> bool {
    &&& stats.packets_seen == 0 && stats.tls_segments_processed == 0
    &&& stats.tls_embark_sni_hellos == 0 && stats.http1_bearer_headers == 0
    &&& stats.sync_key_entries == 0 && stats.tls_client_hellos == 0
    &&& stats.tls_server_hellos == 0 && stats.tls_keys_established == 0
    &&& stats.tls_missing_keys == 0 && stats.embark_missing_key_sessions == 0
    &&& stats.last_embark_missing_key is None && stats.tls_encrypted_no_decrypt == 0
    &&& stats.decrypted_records == 0 && stats.tls_decrypt_errors == 0
    &&& stats.last_tls_decrypt_error is None && stats.tls_inner_app_data_to_server == 0
    &&& stats.tls_inner_app_data_to_client == 0 && stats.http1_candidates == 0
    &&& stats.http1_embark_hosts == 0 && stats.last_http1_method is None
    &&& stats.last_http1_host is None && stats.last_http1_path is None
    &&& stats.packet_truncations == 0 && stats.packet_truncated_bytes == 0
    &&& stats.sync_key_reloads == 0
}

// ----- starting -------------------------------------------------------------------

/// A capture starts exactly where none runs or is blocked, sync goes on, the
/// rights are there, an adapter is selected and the sync key is a file. It is
/// asked for with the method of the settings, the selected adapter and the path
/// of the sync key, and counts from nothing.
pub proof fn law_capture_runs_as_set(m: AppModel, elevated: bool, key_is_file: bool)
    ensures
        ({
            let after = capture_started(m, elevated, key_is_file);
            let index = m.capture.selected_interface_index;
            if !m.capture.active && !m.capture.blocked && !m.tray.paused && elevated && key_is_file
                && index < m.capture.interfaces.len() && m.capture.sync_key_source is Some {
                &&& after.capture.active
                &&& after.effects == m.effects.push(
                    EffectModel::StartCapture(
                        m.config.capture_method,
                        m.capture.interfaces[index as int].name@,
                        m.capture.sync_key_source->0.path,
                    ),
                )
                &&& all_zero(after.capture.stats)
                &&& after.capture.latest_token is None
                &&& !after.capture.blocked
                &&& after.capture.npcap_available == m.capture.npcap_available
                &&& same_setup(after.capture, m.capture)
                &&& after.config == m.config && after.submit == m.submit
                &&& after.messages == m.messages
                &&& only_capture_differs(m, after)
            } else {
                after == m
            }
        }),
{
}

/// A capture that starts after a method was chosen runs with that method.
pub proof fn law_chosen_method_is_used(
    m: AppModel,
    method: CaptureMethod,
    elevated: bool,
    key_is_file: bool,
)
    ensures
        ({
            let chosen = method_chosen(m, method);
            let after = capture_started(chosen, elevated, key_is_file);
            &&& chosen.config.capture_method == method
            &&& after.capture.active && !chosen.capture.active ==> (after.effects.last() matches
                EffectModel::StartCapture(used, _, _) && used == method)
        }),
{
}

/// A capture that starts after an adapter was chosen runs on that adapter.
pub proof fn law_chosen_adapter_is_used(
    m: AppModel,
    index: usize,
    elevated: bool,
    key_is_file: bool,
)
    requires
        index < m.capture.interfaces.len(),
    ensures
        ({
            let chosen = interface_chosen(m, index);
            let after = capture_started(chosen, elevated, key_is_file);
            after.capture.active && !chosen.capture.active ==> (after.effects.last() matches
                EffectModel::StartCapture(_, name, _) && name
                == m.capture.interfaces[index as int].name@)
        }),
{
}

// ----- stopping and starting over -------------------------------------------------

/// A capture that is stopped does not run, and is asked to stop once.
pub proof fn law_capture_stops(m: AppModel)
    ensures
        ({
            let after = capture_stopped(m);
            &&& !after.capture.active
            &&& after.effects == if m.capture.active {
                m.effects.push(EffectModel::StopCapture)
            } else {
                m.effects
            }
            &&& same_setup(after.capture, m.capture)
            &&& after.capture.blocked == m.capture.blocked
            &&& after.capture.latest_token == m.capture.latest_token
            &&& after.config == m.config && after.submit == m.submit
            &&& after.messages == m.messages
            &&& only_capture_differs(m, after)
        }),
{
}

/// What starting over leaves: no capture runs and none is blocked, nothing is
/// counted, captured or synced, and the retries begin anew.
pub open spec fn starts_over(m: AppModel, after: AppModel) -> bool {
    &&& !after.capture.active && !after.capture.blocked
    &&& all_zero(after.capture.stats) && after.capture.latest_token is None
    &&& !after.submit.token_submitted && after.submit.fingerprint is None
    &&& !after.submit.sync_enabled
    &&& after.submit.failures == 0 && !after.submit.gave_up && !after.submit.refreshed
    &&& after.submit.failed_at is None
    &&& after.submit.pending == m.submit.pending
    &&& after.submit.attempts == m.submit.attempts
    &&& after.submit.last_error == m.submit.last_error
    &&& only_capture_differs(m, after)
}

/// A change of what the capture depends on starts it over, and keeps the sign-in.
pub proof fn law_changed_settings_start_over(m: AppModel)
    ensures
        starts_over(m, settings_changed(m)),
        same_setup(settings_changed(m).capture, m.capture),
        settings_changed(m).config == m.config,
        settings_changed(m).messages == m.messages,
        settings_changed(m).effects == if m.capture.active {
            m.effects.push(EffectModel::StopCapture)
        } else {
            m.effects
        },
{
}

/// A capture method that is chosen is kept and saved; where it is another than
/// before, the capture starts over, and Npcap is looked for anew.
pub proof fn law_method_is_kept(m: AppModel, method: CaptureMethod)
    ensures
        ({
            let after = method_chosen(m, method);
            &&& after.config.capture_method == method
            &&& after.config.platform == m.config.platform
            &&& after.config.game_executable_path == m.config.game_executable_path
            &&& after.config.language == m.config.language
            &&& after.config.selected_interface == m.config.selected_interface
            &&& after.config.keep_in_tray == m.config.keep_in_tray
            &&& after.messages == m.messages
            &&& if m.config.capture_method == method {
                after == m
            } else {
                &&& starts_over(m, after)
                &&& same_setup(after.capture, m.capture)
                &&& after.capture.npcap_available is None
                &&& after.effects == if m.capture.active {
                    m.effects.push(EffectModel::SaveConfig).push(EffectModel::StopCapture)
                } else {
                    m.effects.push(EffectModel::SaveConfig)
                }
            }
        }),
{
}

// ----- reports --------------------------------------------------------------------

/// A token that is seen is the one at hand. One that was accepted before changes
/// nothing else; any other starts the retries over and is submitted with the
/// sign-in that there is. The first of a session is announced.
pub proof fn law_token_is_taken_up(m: AppModel, observation: TokenObservation)
    ensures
        ({
            let after = token_seen(m, observation);
            &&& after.capture.latest_token == Some(observation)
            &&& same_setup(after.capture, m.capture)
            &&& after.capture.active == m.capture.active
            &&& after.capture.blocked == m.capture.blocked
            &&& after.capture.stats == m.capture.stats
            &&& after.submit.token_submitted == m.submit.token_submitted
            &&& after.submit.fingerprint == m.submit.fingerprint
            &&& after.config == m.config
            &&& only_capture_differs(m, after)
            &&& if m.submit.fingerprint == Some(observation.fingerprint@) {
                &&& after.submit == m.submit
                &&& after.effects == m.effects
                &&& after.messages == m.messages
            } else {
                &&& after.submit.failures == 0 && !after.submit.gave_up
                &&& !after.submit.refreshed && after.submit.failed_at is None
                &&& after.submit.last_error == m.submit.last_error
                &&& after.submit.sync_enabled == (m.submit.sync_enabled && m.submit.token_submitted)
                &&& if m.submit.token_submitted {
                    after.messages == m.messages
                } else {
                    after.messages.len() > 0 && after.messages[0] == scrub(
                        "Game account connected"@,
                    )
                }
                &&& if m.session.auth_token is Some && !m.submit.pending {
                    &&& after.submit.pending
                    &&& after.effects == m.effects.push(
                        EffectModel::StartSubmit(m.session.auth_token->0, observation),
                    )
                } else {
                    &&& after.submit.pending == m.submit.pending
                    &&& after.effects == m.effects
                }
            }
        }),
{
    reveal(crate::app::logged);
}

/// A status is logged and nothing else; counts replace those before them; an
/// error is logged and blocks the capture; and the end of it changes nothing by
/// itself.
pub proof fn law_reports_are_taken_in(m: AppModel, event: CaptureEvent)
    requires
        !(event is Token),
    ensures
        ({
            let after = event_taken(m, event);
            &&& after.submit == m.submit && after.effects == m.effects
            &&& after.config == m.config
            &&& only_capture_differs(m, after)
            &&& same_setup(after.capture, m.capture)
            &&& after.capture.active == m.capture.active
            &&& after.capture.latest_token == m.capture.latest_token
            &&& after.capture.blocked == (m.capture.blocked || event is Error)
            &&& after.capture.stats == if let CaptureEvent::Stats(stats) = event {
                stats
            } else {
                m.capture.stats
            }
            &&& match event {
                CaptureEvent::Status(text) => after.messages[0] == scrub(text@),
                CaptureEvent::Error(error) => after.messages[0] == scrub(error@),
                _ => after.messages == m.messages,
            }
        }),
{
    reveal(crate::app::logged);
}

/// A token among the reports does what `law_token_is_taken_up` says.
pub proof fn law_reported_token_is_taken_up(m: AppModel, observation: TokenObservation)
    ensures
        event_taken(m, CaptureEvent::Token(observation)) == token_seen(m, observation),
{
}

/// The last of the first `n` reports that carries counts, if one does.
pub open spec fn last_stats(events: Seq<CaptureEvent>, n: nat) -> Option<CaptureStats>
    decreases n,
{
    if n == 0 {
        None
    } else if let CaptureEvent::Stats(stats) = events[n - 1] {
        Some(stats)
    } else {
        last_stats(events, (n - 1) as nat)
    }
}

/// The last of the first `n` reports that carries a token, if one does.
pub open spec fn last_token(events: Seq<CaptureEvent>, n: nat) -> Option<TokenObservation>
    decreases n,
{
    if n == 0 {
        None
    } else if let CaptureEvent::Token(observation) = events[n - 1] {
        Some(observation)
    } else {
        last_token(events, (n - 1) as nat)
    }
}

/// Of any number of reports all are taken in: the last counts and the last token
/// stay, and one error is enough to block the capture.
proof fn lemma_events_taken(m: AppModel, events: Seq<CaptureEvent>, n: nat)
    requires
        n <= events.len(),
    ensures
        ({
            let after = events_taken(m, events, n);
            &&& after.capture.active == m.capture.active
            &&& after.config == m.config
            &&& only_capture_differs(m, after)
            &&& same_setup(after.capture, m.capture)
            &&& after.capture.stats == match last_stats(events, n) {
                Some(stats) => stats,
                None => m.capture.stats,
            }
            &&& after.capture.latest_token == match last_token(events, n) {
                Some(observation) => Some(observation),
                None => m.capture.latest_token,
            }
            &&& after.capture.blocked <==> m.capture.blocked || exists|i: int|
                0 <= i < n && (#[trigger] events[i]) is Error
        }),
    decreases n,
{
    if n > 0 {
        let k = (n - 1) as nat;
        let before = events_taken(m, events, k);
        lemma_events_taken(m, events, k);
        if let CaptureEvent::Token(observation) = events[n - 1] {
            law_token_is_taken_up(before, observation);
        } else {
            law_reports_are_taken_in(before, events[n - 1]);
        }
        if events[n - 1] is Error {
            assert(events[k as int] is Error);
        }
    }
}

/// Of the reports of a running capture none is lost: the last counts and the
/// last token stay, one error blocks the capture, and an error or an end among
/// them, wherever it stands, ends it and lets go of it.
pub proof fn law_no_report_is_lost(m: AppModel, events: Seq<CaptureEvent>)
    requires
        m.capture.active,
    ensures
        ({
            let after = capture_polled(m, events);
            &&& after.capture.active <==> forall|i: int|
                0 <= i < events.len() ==> !((#[trigger] events[i]) is Error || events[i] is Stopped)
            &&& !after.capture.active ==> after.effects.len() > 0 && after.effects.last()
                == EffectModel::DropCapture
            &&& after.capture.blocked <==> m.capture.blocked || exists|i: int|
                0 <= i < events.len() && (#[trigger] events[i]) is Error
            &&& after.capture.stats == match last_stats(events, events.len()) {
                Some(stats) => stats,
                None => m.capture.stats,
            }
            &&& after.capture.latest_token == match last_token(events, events.len()) {
                Some(observation) => Some(observation),
                None => m.capture.latest_token,
            }
            &&& same_setup(after.capture, m.capture)
            &&& after.config == m.config
            &&& only_capture_differs(m, after)
        }),
{
    lemma_events_taken(m, events, events.len());
    if exists|i: int|
        0 <= i < events.len() && ((#[trigger] events[i]) is Error || events[i] is Stopped) {
        assert(ends(events, events.len()));
    }
}

/// One report after the other: what comes later is taken in on top of what came
/// before.
pub proof fn law_reports_come_in_order(
    m: AppModel,
    events: Seq<CaptureEvent>,
    event: CaptureEvent,
)
    requires
        m.capture.active,
        forall|i: int|
            0 <= i < events.len() ==> !((#[trigger] events[i]) is Error || events[i] is Stopped),
        !(event is Error || event is Stopped),
    ensures
        capture_polled(m, events.push(event)) == event_taken(capture_polled(m, events), event),
        capture_polled(m, Seq::empty()) == m,
{
    let all = events.push(event);
    lemma_same_beginning(m, events, all, events.len());
    assert(events_taken(m, all, all.len()) == event_taken(
        events_taken(m, all, events.len()),
        event,
    ));
    assert forall|i: int| 0 <= i < all.len() implies !((#[trigger] all[i]) is Error || all[i]
        is Stopped) by {
        if i < events.len() {
            assert(all[i] == events[i]);
        }
    }
    assert(!ends(all, all.len()));
    assert(!ends(events, events.len()));
    assert(!ends(Seq::<CaptureEvent>::empty(), 0));
    assert(events_taken(m, Seq::<CaptureEvent>::empty(), 0) == m);
}

proof fn lemma_same_beginning(
    m: AppModel,
    a: Seq<CaptureEvent>,
    b: Seq<CaptureEvent>,
    n: nat,
)
    requires
        n <= a.len() <= b.len(),
        forall|i: int| 0 <= i < n ==> a[i] == #[trigger] b[i],
    ensures
        events_taken(m, a, n) == events_taken(m, b, n),
    decreases n,
{
    if n > 0 {
        assert(a[n - 1] == b[n - 1]);
        lemma_same_beginning(m, a, b, (n - 1) as nat);
    }
}

/// Reports count only while a capture runs.
pub proof fn law_stray_reports_change_nothing(m: AppModel, events: Seq<CaptureEvent>)
    requires
        !m.capture.active,
    ensures
        capture_polled(m, events) == m,
{
}

// ----- adapters -------------------------------------------------------------------

/// The first adapter of a name is found, wherever it stands in the list.
pub proof fn law_adapter_is_found_by_name(interfaces: Seq<InterfaceInfo>, name: Seq<char>)
    ensures
        match position_of(interfaces, name) {
            Some(i) => 0 <= i < interfaces.len() && interfaces[i].name@ == name && forall|j: int|
                0 <= j < i ==> (#[trigger] interfaces[j]).name@ != name,
            None => forall|j: int|
                0 <= j < interfaces.len() ==> (#[trigger] interfaces[j]).name@ != name,
        },
    decreases interfaces.len(),
{
    if interfaces.len() > 0 {
        let before = interfaces.drop_last();
        law_adapter_is_found_by_name(before, name);
        let end = match position_of(before, name) {
            Some(i) => i,
            None => before.len() as int,
        };
        assert forall|j: int| 0 <= j < end implies (#[trigger] interfaces[j]).name@ != name by {
            assert(before[j] == interfaces[j]);
        }
    }
}

/// A scan selects the adapter that the settings name, where it is there, and
/// else one that no other outscores.
pub proof fn law_scan_keeps_the_choice(m: AppModel, interfaces: Vec<InterfaceInfo>)
    requires
        interfaces@.len() > 0,
    ensures
        ({
            let after = interfaces_refreshed(m, Ok(interfaces));
            let index = after.capture.selected_interface_index;
            &&& after.capture.interfaces == interfaces@
            &&& index < interfaces@.len()
            &&& if exists|i: int|
                0 <= i < interfaces@.len() && m.config.selected_interface == Some(
                    (#[trigger] interfaces@[i]).name@,
                ) {
                interfaces@[index as int].name@ == m.config.selected_interface->0
            } else {
                forall|j: int|
                    0 <= j < interfaces@.len() ==> crate::app::interfaces::score_of(
                        #[trigger] interfaces@[j],
                    ) <= crate::app::interfaces::score_of(interfaces@[index as int])
            }
            &&& after.config == m.config
            &&& after.messages == m.messages
            &&& only_capture_differs(m, after)
            &&& after.capture.sync_key_source == m.capture.sync_key_source
        }),
{
    law_best_interface_scores_highest(interfaces@);
    if m.config.selected_interface is Some {
        law_adapter_is_found_by_name(interfaces@, m.config.selected_interface->0);
    }
    assert(interfaces@.len() <= usize::MAX) by {
        assert(interfaces.len() == interfaces@.len());
    }
}

/// A scan that finds the selected adapter again lets the capture run on; one
/// that selects another starts it over.
pub proof fn law_scan_restarts_only_for_another_adapter(
    m: AppModel,
    interfaces: Vec<InterfaceInfo>,
)
    requires
        m.capture.selected_interface_index < m.capture.interfaces.len(),
        interfaces@.len() > 0,
    ensures
        ({
            let after = interfaces_refreshed(m, Ok(interfaces));
            let before = m.capture.interfaces[m.capture.selected_interface_index as int].name@;
            let now = interfaces@[after.capture.selected_interface_index as int].name@;
            if now == before {
                &&& after.capture.active == m.capture.active
                &&& after.capture.blocked == m.capture.blocked
                &&& after.capture.latest_token == m.capture.latest_token
                &&& after.capture.stats == m.capture.stats
                &&& after.submit == m.submit
                &&& after.effects == m.effects
            } else {
                &&& starts_over(m, after)
                &&& after.effects == if m.capture.active {
                    m.effects.push(EffectModel::StopCapture)
                } else {
                    m.effects
                }
            }
        }),
{
    law_scan_keeps_the_choice(m, interfaces);
}

/// A scan that fails leaves no adapter and blocks the capture, and the log says why.
pub proof fn law_failed_scan_blocks(m: AppModel, error: String)
    ensures
        ({
            let after = interfaces_refreshed(m, Err(error));
            &&& after.capture.interfaces.len() == 0
            &&& after.capture.blocked && !after.capture.active
            &&& after.effects == if m.capture.active {
                m.effects.push(EffectModel::StopCapture)
            } else {
                m.effects
            }
            &&& after.messages.len() > 0 && after.messages[0] == scrub(
                "Connection setup failed: "@ + error@,
            )
            &&& after.submit == m.submit && after.config == m.config
            &&& only_capture_differs(m, after)
        }),
{
    reveal(crate::app::logged);
}

/// An adapter that is chosen is selected, kept by its name and saved, and the
/// capture starts over; the one that is selected already, or none of the list,
/// is no choice.
pub proof fn law_adapter_is_chosen(m: AppModel, index: usize)
    ensures
        ({
            let after = interface_chosen(m, index);
            if index < m.capture.interfaces.len() && index != m.capture.selected_interface_index {
                &&& after.capture.selected_interface_index == index
                &&& after.config.selected_interface == Some(
                    m.capture.interfaces[index as int].name@,
                )
                &&& after.config.capture_method == m.config.capture_method
                &&& after.config.platform == m.config.platform
                &&& after.config.game_executable_path == m.config.game_executable_path
                &&& after.config.language == m.config.language
                &&& after.config.keep_in_tray == m.config.keep_in_tray
                &&& after.capture.interfaces == m.capture.interfaces
                &&& after.capture.sync_key_source == m.capture.sync_key_source
                &&& starts_over(m, after)
                &&& after.messages == m.messages
                &&& after.effects == if m.capture.active {
                    m.effects.push(EffectModel::SaveConfig).push(EffectModel::StopCapture)
                } else {
                    m.effects.push(EffectModel::SaveConfig)
                }
            } else {
                after == m
            }
        }),
{
}

/// An adapter that was chosen is selected again by every later scan that finds it.
pub proof fn law_choice_survives_a_scan(m: AppModel, index: usize, interfaces: Vec<InterfaceInfo>)
    requires
        index < m.capture.interfaces.len(),
        index != m.capture.selected_interface_index,
        exists|i: int|
            0 <= i < interfaces@.len() && (#[trigger] interfaces@[i]).name@
                == m.capture.interfaces[index as int].name@,
    ensures
        ({
            let after = interfaces_refreshed(interface_chosen(m, index), Ok(interfaces));
            interfaces@[after.capture.selected_interface_index as int].name@
                == m.capture.interfaces[index as int].name@
        }),
{
    law_adapter_is_chosen(m, index);
    law_scan_keeps_the_choice(interface_chosen(m, index), interfaces);
}

// ----- the sync key ---------------------------------------------------------------

/// Notices change nothing but the log, where they stand in their order.
pub proof fn lemma_notices_only_log(m: AppModel, skipped: Seq<SkippedSyncKey>, n: nat)
    requires
        n <= skipped.len(),
    ensures
        ({
            let after = crate::app::capture::notices_pushed(m, skipped, n);
            &&& after == (AppModel { messages: after.messages, ..m })
            &&& after.messages.len() >= if n <= LOG_LENGTH {
                n as int
            } else {
                LOG_LENGTH as int
            }
            &&& forall|j: int|
                0 <= j < n && j < LOG_LENGTH ==> #[trigger] after.messages[j] == scrub(
                    notice_of(skipped[n - 1 - j].path@),
                )
        }),
    decreases n,
{
    reveal(crate::app::logged);
    if n > 0 {
        let k = (n - 1) as nat;
        lemma_notices_only_log(m, skipped, k);
        let before = crate::app::capture::notices_pushed(m, skipped, k);
        let after = crate::app::capture::notices_pushed(m, skipped, n);
        assert forall|j: int| 0 <= j < n && j < LOG_LENGTH implies #[trigger] after.messages[j]
            == scrub(notice_of(skipped[n - 1 - j].path@)) by {
            if j > 0 {
                assert(after.messages[j] == before.messages[j - 1]);
            }
        }
    }
}

/// A sync key that is looked up is the one in use from then on. Where it is
/// another than before, the capture starts over, and the log says which it is
/// and, before that, each override that was passed over for it.
pub proof fn law_key_is_taken_up(m: AppModel, resolution: SyncKeyResolution)
    ensures
        ({
            let after = key_refreshed(m, Ok(resolution));
            &&& after.capture.sync_key_source is Some
            &&& after.capture.sync_key_source->0.path == resolution.source.path@
            &&& after.capture.sync_key_source->0.kind == resolution.source.kind
            &&& after.capture.sync_key_skipped == resolution.skipped@
            &&& after.capture.interfaces == m.capture.interfaces
            &&& after.capture.selected_interface_index == m.capture.selected_interface_index
            &&& after.config == m.config
            &&& only_capture_differs(m, after)
            &&& if m.capture.sync_key_source is Some && m.capture.sync_key_source->0.path
                == resolution.source.path@ && m.capture.sync_key_source->0.kind
                == resolution.source.kind {
                &&& after.capture.active == m.capture.active
                &&& after.capture.latest_token == m.capture.latest_token
                &&& after.submit == m.submit
                &&& after.effects == m.effects && after.messages == m.messages
            } else {
                &&& starts_over(m, after)
                &&& after.effects == if m.capture.active {
                    m.effects.push(EffectModel::StopCapture)
                } else {
                    m.effects
                }
                &&& after.messages.len() > 0 && after.messages[0] == scrub(
                    if resolution.source.kind == SyncKeySourceKind::AppOwned {
                        "Launch from this app"@
                    } else {
                        "Sync setup ready"@
                    },
                )
                &&& forall|j: int|
                    1 <= j <= resolution.skipped@.len() && j < LOG_LENGTH
                        ==> #[trigger] after.messages[j] == scrub(
                        notice_of(resolution.skipped@[resolution.skipped@.len() - j].path@),
                    )
            }
        }),
{
    reveal(crate::app::logged);
    let known = AppModel {
        capture: CaptureModel {
            sync_key_source: Some(resolution.source@),
            sync_key_skipped: resolution.skipped@,
            ..m.capture
        },
        ..m
    };
    lemma_notices_only_log(known, resolution.skipped@, resolution.skipped@.len());
    let notices = crate::app::capture::notices_pushed(
        known,
        resolution.skipped@,
        resolution.skipped@.len(),
    );
    let after = key_refreshed(m, Ok(resolution));
    let n = resolution.skipped@.len() as int;
    if !(m.capture.sync_key_source == Some(resolution.source@)) {
        assert forall|j: int| 1 <= j <= n && j < LOG_LENGTH implies #[trigger] after.messages[j]
            == scrub(notice_of(resolution.skipped@[n - j].path@)) by {
            assert(after.messages[j] == notices.messages[j - 1]);
        }
    }
}

/// A notice of an override that was passed over names its path.
pub proof fn law_notice_names_the_path(path: Seq<char>)
    ensures
        exists|before: Seq<char>, after: Seq<char>|
            notice_of(path) == #[trigger] (before + path + after) && before.len() > 0,
{
    reveal_strlit("Ignoring sync key setting that isn't a usable file: ");
    let before = "Ignoring sync key setting that isn't a usable file: "@;
    let after = " — using the app-managed sync key instead"@;
    assert(notice_of(path) == before + path + after);
}

/// Without a sync key the capture starts over and cannot start, and the log says why.
pub proof fn law_missing_key_stops_the_capture(
    m: AppModel,
    error: String,
    elevated: bool,
    key_is_file: bool,
)
    ensures
        ({
            let after = key_refreshed(m, Err(error));
            &&& after.capture.sync_key_source is None && after.capture.sync_key_skipped.len() == 0
            &&& starts_over(m, after)
            &&& after.config == m.config
            &&& after.messages.len() > 0 && after.messages[0] == scrub(
                "Local sync setup unavailable: "@ + error@,
            )
            &&& !capture_started(after, elevated, key_is_file).capture.active
        }),
{
    reveal(crate::app::logged);
}

// ----- Npcap ----------------------------------------------------------------------

/// Npcap is looked for only while it is the method, and then where nothing is
/// known of it or two seconds have passed; what was found is kept.
pub proof fn law_npcap_is_looked_for(m: AppModel, installed: bool, now: u64)
    ensures
        ({
            let after = npcap_probed(m, installed, now);
            if m.config.capture_method == CaptureMethod::Npcap && (m.capture.npcap_available is None
                || now - m.capture.last_npcap_check >= 2_000_000_000) {
                &&& after.capture.npcap_available == Some(installed)
                &&& after.capture.last_npcap_check == now
                &&& npcap_missing(after) == !installed
                &&& same_setup(after.capture, m.capture)
                &&& after.capture.active == m.capture.active
                &&& after.capture.blocked == m.capture.blocked
                &&& after.config == m.config && after.submit == m.submit
                &&& after.effects == m.effects && after.messages == m.messages
                &&& only_capture_differs(m, after)
            } else {
                after == m
            }
        }),
{
}

/// Npcap is known to be missing only where it is the method, and was looked for
/// in vain.
pub proof fn law_npcap_is_missing(m: AppModel)
    ensures
        npcap_missing(m) <==> m.config.capture_method == CaptureMethod::Npcap
            && m.capture.npcap_available is Some && !m.capture.npcap_available->0,
{
}

/// The key that the capture uses is that of the source, where there is one; and
/// a key counts as another where its path or who chose it is.
pub proof fn law_key_in_use(m: AppModel, resolution: SyncKeyResolution, error: String)
    ensures
        m.capture.sync_key_source matches Some(source) ==> key_path(m.capture) == Some(source.path),
        m.capture.sync_key_source is None ==> key_path(m.capture) is None,
        key_unchanged(m, Ok(resolution)) <==> (m.capture.sync_key_source matches Some(source)
            && source.path == resolution.source.path@ && source.kind == resolution.source.kind),
        !key_unchanged(m, Err(error)),
{
}

} // verus!
