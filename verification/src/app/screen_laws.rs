//! What the window is for: laws on what it shows of a state, and what its
//! controls lead to.

use vstd::prelude::*;

use crate::app::data::{CaptureMethod, EffectModel, InterfaceInfo, LocalTime, UpdateModel};
use crate::app::diagnostics::{report_lines, DiagnosticFacts};
use crate::app::expiry::{lasts, time_text};
use crate::app::hub::{
    accent_of, actions_of, body_of, hub_of, offers_switch, page_of, phase_of, stages_of, title_of, waits,
    HeroModel, HubState, Intent,
};
use crate::app::interfaces::{label_of, score_of, search_text};
use crate::app::launcher::{effective, game_ready, ready, GameFile};

use crate::app::redaction::{redact, scrub};
use crate::app::screens::{
    account_text, adapter_text, close_notice, dialog_answered, dialog_of, header_status,
    choice_says, launcher_picked, location_text, methods_of, session_notice, shown_log, store_toggled,
    synced_account, tray_kept, update_shown, DialogModel, LanguageChoice, TextModel,
};
use crate::app::AppModel;
use crate::i18n::{say, say_with};
use crate::launch::{platform_label, HostOs, LauncherPlatform};
use crate::numerals::decimal;
use crate::text::{contains, has_at};
use crate::widgets::{connector, StageState};

verus! {

// ----- the hub --------------------------------------------------------------------

/// Someone with the rights is signed in, and no sign-in is under way.
pub open spec fn signed_in_with_rights(m: AppModel, elevated: bool) -> bool {
    elevated && !m.session.auth_pending && m.session.auth_token is Some
}

/// Nothing needs attention, is synced or is being submitted.
pub open spec fn still_to_be_captured(m: AppModel) -> bool {
    !m.capture.blocked && !m.submit.gave_up && !m.submit.token_submitted && !m.submit.pending
}

/// The account comes first: the hub asks for the rights, then for a sign-in.
pub proof fn law_hub_asks_for_the_account(m: AppModel, elevated: bool, file: GameFile)
    ensures
        hub_of(m, elevated, file) == HubState::NeedsAdmin <==> !elevated,
        hub_of(m, elevated, file) == HubState::SigningIn <==> elevated && m.session.auth_pending,
        hub_of(m, elevated, file) == HubState::SignedOut <==> elevated && !m.session.auth_pending
            && m.session.auth_token is None,
{
}

/// Then comes what went wrong, what is synced, and what is being submitted.
pub proof fn law_hub_shows_the_sync(m: AppModel, elevated: bool, file: GameFile)
    ensures
        ({
            let state = hub_of(m, elevated, file);
            let signed_in = signed_in_with_rights(m, elevated);
            let wrong = m.capture.blocked || m.submit.gave_up;
            &&& state == HubState::NeedsAttention <==> signed_in && wrong
            &&& state == HubState::Synced <==> signed_in && !wrong && m.submit.token_submitted
                && m.launcher.game_running
            &&& state == HubState::SyncedIdle <==> signed_in && !wrong && m.submit.token_submitted
                && !m.launcher.game_running
            &&& state == HubState::Updating <==> signed_in && !wrong && !m.submit.token_submitted
                && m.submit.pending
        }),
{
}

/// Then the game and its launcher: what is still to be done about them, and
/// whether the game is played.
pub proof fn law_hub_asks_for_the_launcher(m: AppModel, elevated: bool, file: GameFile)
    ensures
        ({
            let state = hub_of(m, elevated, file);
            let open = signed_in_with_rights(m, elevated) && still_to_be_captured(m);
            let game = game_ready(m, file);
            let idle = !m.launcher.force_close_available && !m.launcher.preparing;
            let played = m.launcher.game_running || m.capture.latest_token is Some;
            &&& state == HubState::SelectGame <==> open && !game
            &&& state == HubState::CloseLauncher <==> open && game
                && m.launcher.force_close_available
            &&& state == HubState::PreparingLauncher <==> open && game
                && !m.launcher.force_close_available && m.launcher.preparing
            &&& state == HubState::Connecting <==> open && game && idle && ready(m) && played
            &&& state == HubState::LauncherReady <==> open && game && idle && ready(m) && !played
            &&& state == HubState::NeedsLauncher <==> open && game && idle && !ready(m)
                && m.launcher.was_ready
            &&& state == HubState::PrepareLauncher <==> open && game && idle && !ready(m)
                && !m.launcher.was_ready
        }),
{
}

/// The steps of the hub are those of the account, the launcher, the game and
/// the sync, and what waits is what is under way.
pub proof fn law_phases(m: AppModel, elevated: bool, file: GameFile)
    ensures
        ({
            let state = hub_of(m, elevated, file);
            &&& phase_of(state) == 0 <==> !elevated || m.session.auth_pending
                || m.session.auth_token is None
            &&& phase_of(state) == 3 <==> signed_in_with_rights(m, elevated)
                && !still_to_be_captured(m)
            &&& phase_of(state) == 2 ==> ready(m)
            &&& phase_of(state) == 1 ==> game_ready(m, file) ==> !ready(m)
                || m.launcher.force_close_available || m.launcher.preparing
            &&& waits(state) ==> m.session.auth_pending || m.launcher.preparing || m.submit.pending
                || ready(m)
        }),
{
}

/// A step is done where its own part is, and none is while the one before it is
/// not: nothing counts without a sign-in, a ready launcher and a game.
pub proof fn law_steps_build_on_each_other(m: AppModel, state: HubState)
    ensures
        ({
            let stages = stages_of(m, state);
            let played = m.launcher.game_running || m.capture.latest_token is Some;
            &&& stages.len() == 4
            &&& stages[0] == StageState::Done <==> m.session.auth_token is Some
            &&& stages[1] == StageState::Done <==> m.session.auth_token is Some && ready(m)
            &&& stages[2] == StageState::Done <==> ready(m) && played
            &&& stages[3] == StageState::Done <==> played && m.submit.token_submitted
            &&& m.session.auth_token is None ==> stages[1] == StageState::Pending
            &&& !ready(m) ==> stages[2] == StageState::Pending
            &&& !played ==> stages[3] == StageState::Pending
            &&& stages[0] == StageState::Current <==> m.session.auth_token is None && (state
                == HubState::SignedOut || state == HubState::SigningIn)
        }),
{
}

/// A switch between the stores is offered while the launcher can still be
/// chosen, and never once something is under way or synced.
pub proof fn law_switch_is_offered_in_time(state: HubState)
    ensures
        offers_switch(state) ==> !waits(state),
        offers_switch(state) ==> phase_of(state) == 1 || phase_of(state) == 2,
        offers_switch(HubState::SelectGame) && offers_switch(HubState::PrepareLauncher)
            && offers_switch(HubState::NeedsLauncher) && offers_switch(HubState::LauncherReady),
        !offers_switch(HubState::CloseLauncher),
{
}

/// What the keys of a state begin with.
pub open spec fn state_key(state: HubState) -> Seq<char> {
    match state {
        HubState::NeedsAdmin => "SyncApp.state.needsAdmin."@,
        HubState::SignedOut => "SyncApp.state.signedOut."@,
        HubState::SigningIn => "SyncApp.state.signingIn."@,
        HubState::SelectGame => "SyncApp.state.selectGame."@,
        HubState::PrepareLauncher => "SyncApp.state.prepareLauncher."@,
        HubState::PreparingLauncher => "SyncApp.state.preparingLauncher."@,
        HubState::CloseLauncher => "SyncApp.state.closeLauncher."@,
        HubState::LauncherReady => "SyncApp.state.launcherReady."@,
        HubState::Connecting => "SyncApp.state.connecting."@,
        HubState::Updating => "SyncApp.state.updating."@,
        HubState::Synced | HubState::SyncedIdle => "SyncApp.state.synced"@,
        HubState::NeedsLauncher => "SyncApp.state.needsLauncher."@,
        HubState::NeedsAttention => "SyncApp.state.needsAttention."@,
    }
}

proof fn lemma_begins(s: Seq<char>, p: Seq<char>)
    requires
        p.len() <= s.len(),
        forall|i: int| 0 <= i < p.len() ==> s[i] == p[i],
    ensures
        has_at(s, p, 0),
{
    assert(s.subrange(0, p.len() as int) =~= p);
}

/// Each state speaks of itself: its title is a text of that state.
pub proof fn law_title_is_of_the_state(m: AppModel, state: HubState)
    ensures
        has_at(title_of(m, state).key, state_key(state), 0),
{
    reveal_strlit("SyncApp.state.needsAdmin.");
    reveal_strlit("SyncApp.state.signedOut.");
    reveal_strlit("SyncApp.state.signingIn.");
    reveal_strlit("SyncApp.state.selectGame.");
    reveal_strlit("SyncApp.state.prepareLauncher.");
    reveal_strlit("SyncApp.state.preparingLauncher.");
    reveal_strlit("SyncApp.state.closeLauncher.");
    reveal_strlit("SyncApp.state.launcherReady.");
    reveal_strlit("SyncApp.state.connecting.");
    reveal_strlit("SyncApp.state.updating.");
    reveal_strlit("SyncApp.state.synced");
    reveal_strlit("SyncApp.state.needsLauncher.");
    reveal_strlit("SyncApp.state.needsAttention.");
    reveal_strlit("SyncApp.state.needsAdmin.title");
    reveal_strlit("SyncApp.state.signedOut.title");
    reveal_strlit("SyncApp.state.signingIn.title");
    reveal_strlit("SyncApp.state.selectGame.title");
    reveal_strlit("SyncApp.state.prepareLauncher.title");
    reveal_strlit("SyncApp.state.preparingLauncher.title");
    reveal_strlit("SyncApp.state.closeLauncher.title");
    reveal_strlit("SyncApp.state.launcherReady.title");
    reveal_strlit("SyncApp.state.connecting.title");
    reveal_strlit("SyncApp.state.updating.title");
    reveal_strlit("SyncApp.state.synced.title");
    reveal_strlit("SyncApp.state.needsLauncher.title");
    reveal_strlit("SyncApp.state.needsAttention.title");
    lemma_begins(title_of(m, state).key, state_key(state));
}

/// So is what it explains below.
pub proof fn law_body_is_of_the_state(m: AppModel, state: HubState)
    ensures
        has_at(body_of(m, state).key, state_key(state), 0),
{
    reveal_strlit("SyncApp.state.needsAdmin.");
    reveal_strlit("SyncApp.state.signedOut.");
    reveal_strlit("SyncApp.state.signingIn.");
    reveal_strlit("SyncApp.state.selectGame.");
    reveal_strlit("SyncApp.state.prepareLauncher.");
    reveal_strlit("SyncApp.state.preparingLauncher.");
    reveal_strlit("SyncApp.state.closeLauncher.");
    reveal_strlit("SyncApp.state.launcherReady.");
    reveal_strlit("SyncApp.state.connecting.");
    reveal_strlit("SyncApp.state.updating.");
    reveal_strlit("SyncApp.state.synced");
    reveal_strlit("SyncApp.state.needsLauncher.");
    reveal_strlit("SyncApp.state.needsAttention.");
    reveal_strlit("SyncApp.state.needsAdmin.body");
    reveal_strlit("SyncApp.state.needsAdmin.bodyLinux");
    reveal_strlit("SyncApp.state.signedOut.body");
    reveal_strlit("SyncApp.state.signingIn.body");
    reveal_strlit("SyncApp.state.selectGame.body");
    reveal_strlit("SyncApp.state.prepareLauncher.body");
    reveal_strlit("SyncApp.state.preparingLauncher.body");
    reveal_strlit("SyncApp.state.closeLauncher.body");
    reveal_strlit("SyncApp.state.launcherReady.body");
    reveal_strlit("SyncApp.state.connecting.body");
    reveal_strlit("SyncApp.state.updating.body");
    reveal_strlit("SyncApp.state.synced.body");
    reveal_strlit("SyncApp.state.syncedIdle.body");
    reveal_strlit("SyncApp.state.syncedIdle.bodyLinux");
    reveal_strlit("SyncApp.state.needsLauncher.body");
    reveal_strlit("SyncApp.state.needsAttention.npcapBody");
    reveal_strlit("SyncApp.state.needsAttention.body");
    lemma_begins(body_of(m, state).key, state_key(state));
}

/// A text that names the launcher names the one in effect, and that of a synced
/// account names the account.
pub proof fn law_texts_name_launcher_and_account(m: AppModel, state: HubState)
    ensures
        ({
            let args = title_of(m, state).args + body_of(m, state).args;
            &&& forall|i: int|
                0 <= i < args.len() ==> #[trigger] args[i] == ("launcher"@, platform_label(
                    effective(m),
                )) || (state == HubState::Synced && args[i].0 == "account"@)
            &&& state == HubState::Synced && m.session.account_name is Some ==> body_of(
                m,
                state,
            ).args == seq![("account"@, m.session.account_name->0)]
            &&& state == HubState::PrepareLauncher || state == HubState::CloseLauncher || state
                == HubState::NeedsLauncher || state == HubState::LauncherReady || state
                == HubState::PreparingLauncher ==> title_of(m, state).args.len() == 1 && body_of(
                m,
                state,
            ).args.len() == 1
        }),
{
}

/// What an item asks for, if it asks for something.
pub open spec fn intent_of(item: HeroModel) -> Option<Intent> {
    match item {
        HeroModel::Primary(_, intent) => Some(intent),
        HeroModel::Secondary(_, intent) => Some(intent),
        HeroModel::Link(_, intent) => Some(intent),
        HeroModel::Spinner(_) => None,
    }
}

/// One of the items asks for it.
pub open spec fn asks(items: Seq<HeroModel>, intent: Intent) -> bool {
    exists|i: int| 0 <= i < items.len() && intent_of(#[trigger] items[i]) == Some(intent)
}

/// Each state that the user has to do something about offers just that.
pub proof fn law_state_offers_the_way_on(m: AppModel)
    ensures
        asks(actions_of(m, HubState::NeedsAdmin), Intent::Elevate),
        asks(actions_of(m, HubState::SignedOut), Intent::StartSignIn),
        asks(actions_of(m, HubState::SigningIn), Intent::CancelSignIn),
        asks(actions_of(m, HubState::SelectGame), Intent::BrowseGame),
        asks(
            actions_of(m, HubState::PrepareLauncher),
            Intent::PrepareLauncher { force_close: false },
        ),
        asks(
            actions_of(m, HubState::NeedsLauncher),
            Intent::PrepareLauncher { force_close: false },
        ),
        asks(
            actions_of(m, HubState::CloseLauncher),
            Intent::PrepareLauncher { force_close: true },
        ),
        asks(actions_of(m, HubState::Synced), Intent::OpenStash),
        asks(actions_of(m, HubState::SyncedIdle), Intent::OpenStash),
        asks(actions_of(m, HubState::NeedsAttention), Intent::TryAgain),
        m.config.capture_method == CaptureMethod::Npcap && m.capture.npcap_available == Some(false)
            ==> asks(actions_of(m, HubState::NeedsAttention), Intent::OpenNpcap),
        m.tray.present ==> asks(actions_of(m, HubState::Synced), Intent::HideToTray) && asks(
            actions_of(m, HubState::LauncherReady),
            Intent::HideToTray,
        ),
{
    assert(intent_of(actions_of(m, HubState::NeedsAdmin)[0]) == Some(Intent::Elevate));
    assert(intent_of(actions_of(m, HubState::SignedOut)[0]) == Some(Intent::StartSignIn));
    assert(intent_of(actions_of(m, HubState::SigningIn)[0]) == Some(Intent::CancelSignIn));
    assert(intent_of(actions_of(m, HubState::SelectGame)[0]) == Some(Intent::BrowseGame));
    assert(intent_of(actions_of(m, HubState::PrepareLauncher)[0]) == Some(
        Intent::PrepareLauncher { force_close: false },
    ));
    assert(intent_of(actions_of(m, HubState::NeedsLauncher)[0]) == Some(
        Intent::PrepareLauncher { force_close: false },
    ));
    assert(intent_of(actions_of(m, HubState::CloseLauncher)[0]) == Some(
        Intent::PrepareLauncher { force_close: true },
    ));
    assert(intent_of(actions_of(m, HubState::Synced)[0]) == Some(Intent::OpenStash));
    assert(intent_of(actions_of(m, HubState::SyncedIdle)[0]) == Some(Intent::OpenStash));
    let attention = actions_of(m, HubState::NeedsAttention);
    assert(intent_of(attention[attention.len() - 2]) == Some(Intent::TryAgain));
    if m.config.capture_method == CaptureMethod::Npcap && m.capture.npcap_available == Some(false) {
        assert(intent_of(attention[0]) == Some(Intent::OpenNpcap));
    }
    if m.tray.present {
        assert(intent_of(actions_of(m, HubState::Synced)[1]) == Some(Intent::HideToTray));
        assert(intent_of(actions_of(m, HubState::LauncherReady)[0]) == Some(Intent::HideToTray));
    }
}

/// Nothing is offered out of place: a launcher is closed by force only where it
/// did not close, the window hides only into a tray, and Npcap is offered only
/// where it is missing.
pub proof fn law_nothing_is_offered_out_of_place(m: AppModel, state: HubState)
    ensures
        asks(actions_of(m, state), Intent::PrepareLauncher { force_close: true }) ==> state
            == HubState::CloseLauncher,
        asks(actions_of(m, state), Intent::HideToTray) ==> m.tray.present,
        asks(actions_of(m, state), Intent::OpenNpcap) ==> state == HubState::NeedsAttention
            && m.config.capture_method == CaptureMethod::Npcap && m.capture.npcap_available
            == Some(false),
        asks(actions_of(m, state), Intent::Elevate) ==> state == HubState::NeedsAdmin,
        asks(actions_of(m, state), Intent::StartSignIn) ==> state == HubState::SignedOut,
        asks(actions_of(m, state), Intent::OpenStash) ==> state == HubState::Synced || state
            == HubState::SyncedIdle,
{
}

/// Only help, the stash and Npcap have pages, each its own.
pub proof fn law_pages(intent: Intent)
    ensures
        page_of(intent) is Some <==> intent == Intent::OpenHelp || intent == Intent::OpenStash
            || intent == Intent::OpenNpcap,
        page_of(Intent::OpenStash) == Some("https://arctracker.io/stash"@),
        page_of(Intent::OpenNpcap) == Some("https://npcap.com/#download"@),
        page_of(Intent::OpenHelp) == Some("https://arctracker.io/help/sync"@),
{
}

// ----- the session ----------------------------------------------------------------

/// A time as nanoseconds since the epoch.
pub open spec fn nanoseconds(time: LocalTime) -> int {
    time.seconds * 1_000_000_000 + time.nanos
}

/// A session lasts where it expires more than two minutes from now.
pub proof fn law_session_lasts(exp: LocalTime, now: LocalTime)
    requires
        exp.nanos < 1_000_000_000,
        now.nanos < 1_000_000_000,
    ensures
        lasts(exp, now) <==> nanoseconds(exp) > nanoseconds(now) + 120 * 1_000_000_000,
{
}

/// The panel says until when a synced session lasts, and of no other.
pub proof fn law_session_notice(m: AppModel, state: HubState, now: LocalTime, until: Seq<char>)
    ensures
        state != HubState::Synced || m.capture.latest_token is None ==> session_notice(
            m,
            state,
            now,
        ) is None,
        state == HubState::Synced && (m.capture.latest_token matches Some(token)
            && token.expires_at is Some && lasts(token.expires_at->0, now) && time_text(
            token.expires_at->0.seconds,
            token.expires_at->0.offset,
            "%b %-d, %H:%M"@,
        ) == Some(until)) ==> session_notice(m, state, now) == Some(
            say_with("SyncApp.state.synced.session"@, "time"@, until),
        ),
        state == HubState::Synced && (m.capture.latest_token matches Some(token)
            && token.expires_at is Some && !lasts(token.expires_at->0, now)) ==> session_notice(
            m,
            state,
            now,
        ) is None,
{
}

/// The account is named where it is synced, and only then.
pub proof fn law_account_is_named_where_synced(m: AppModel, account: Seq<char>)
    ensures
        m.submit.token_submitted && m.session.account_name == Some(account) ==> synced_account(m)
            == Some(account) && account_text(m) == say_with(
            "SyncApp.footer.signedInAs"@,
            "account"@,
            account,
        ),
        !m.submit.token_submitted && m.session.auth_token is Some ==> account_text(m) == say(
            "SyncApp.header.signedIn"@,
        ),
        !m.submit.token_submitted && m.session.auth_token is None ==> account_text(m) == say(
            "SyncApp.footer.notSignedIn"@,
        ),
{
}

// ----- settings -------------------------------------------------------------------

/// The adapter that is named is the selected one.
pub proof fn law_selected_adapter_is_named(m: AppModel)
    ensures
        m.capture.selected_interface_index < m.capture.interfaces.len() ==> adapter_text(m.capture)
            == label_of(m.capture.interfaces[m.capture.selected_interface_index as int]),
        m.capture.interfaces.len() == 0 ==> adapter_text(m.capture) == "Automatic"@,
{
}

/// An adapter is called by its description, and by its name where it has none.
pub proof fn law_adapter_label(interface: InterfaceInfo)
    ensures
        interface.description matches Some(text) ==> (text@.len() > 0 ==> label_of(interface)
            == text@),
        interface.description is None || interface.description->0@.len() == 0 ==> label_of(
            interface,
        ) == interface.name@,
{
}

/// Raw sockets can be chosen everywhere, Npcap on Windows only.
pub proof fn law_methods(host: HostOs)
    ensures
        methods_of(host).contains(CaptureMethod::RawSocket),
        methods_of(host).contains(CaptureMethod::Npcap) <==> host == HostOs::Windows,
{
    assert(methods_of(host)[0] == CaptureMethod::RawSocket);
    if host == HostOs::Windows {
        assert(methods_of(host)[1] == CaptureMethod::Npcap);
    }
}

/// The switch for the tray is kept and saved, and nothing else changes.
pub proof fn law_tray_switch_is_kept(m: AppModel, keep: bool)
    ensures
        ({
            let after = tray_kept(m, keep);
            &&& after.config.keep_in_tray == keep
            &&& after.config.platform == m.config.platform
            &&& after.config.language == m.config.language
            &&& after.config.selected_interface == m.config.selected_interface
            &&& after.config.capture_method == m.config.capture_method
            &&& after.config.game_executable_path == m.config.game_executable_path
            &&& after.effects == m.effects.push(EffectModel::SaveConfig)
            &&& after.capture == m.capture && after.tray == m.tray && after.session == m.session
            &&& after.submit == m.submit && after.messages == m.messages
        }),
{
}

/// The log is shown event by event, in order, without token values and user
/// names; where it is empty, a dash stands for it.
pub proof fn law_log_is_shown(messages: Seq<Seq<char>>, i: int)
    ensures
        messages.len() > 0 ==> shown_log(messages).len() == messages.len(),
        0 <= i < messages.len() ==> shown_log(messages)[i] == scrub(redact(messages[i], false)),
        messages.len() == 0 ==> shown_log(messages) == seq!["—"@],
{
}

// ----- the update dialog ----------------------------------------------------------

/// The dialog shows the release that is known, with its notes, and where the
/// last attempt failed, why; a download shows how far it is.
pub proof fn law_update_dialog(m: AppModel)
    ensures
        m.update.current_release matches Some(release) ==> {
            &&& m.update.state is Available ==> dialog_of(m) == DialogModel::Offer(
                say_with("SyncApp.update.title"@, "version"@, release.tag@),
                release.notes@,
                None,
                say("SyncApp.update.install"@),
            )
            &&& m.update.state matches UpdateModel::Failed(error) ==> dialog_of(m)
                == DialogModel::Offer(
                say_with("SyncApp.update.title"@, "version"@, release.tag@),
                release.notes@,
                Some(say_with("SyncApp.update.failed"@, "error"@, error)),
                say("SyncApp.update.retry"@),
            )
        },
        m.update.state matches UpdateModel::Downloading(received, total) ==> dialog_of(m)
            == DialogModel::Download(
            received,
            if total == Some(0u64) {
                None
            } else {
                total
            },
        ),
        m.update.state is Verifying || m.update.state is Installing || m.update.state
            is Relaunching ==> dialog_of(m) is Busy,
        m.update.state is Idle ==> dialog_of(m) is Close,
        (m.update.state is Available || m.update.state is Failed) && m.update.current_release
            is None ==> dialog_of(m) is Close,
{
}

/// To install asks for the release that is shown; to close closes; and a click
/// beside the dialog closes it only while it is an offer.
pub proof fn law_update_dialog_is_answered(m: AppModel, close: bool, dismissed: bool)
    ensures
        ({
            let installed = dialog_answered(m, true, close, dismissed);
            &&& m.update.current_release matches Some(release) ==> (!m.update.progress_pending ==> {
                &&& installed.effects == m.effects.push(EffectModel::StartInstall(release))
                &&& installed.update.progress_pending
            })
            &&& m.update.current_release is None ==> installed == m
            &&& !dialog_answered(m, false, true, dismissed).update.show_modal
            &&& dialog_answered(m, false, close, dismissed).effects == m.effects
            &&& dialog_answered(m, false, close, dismissed).update.state == m.update.state
            &&& (m.update.state is Available || m.update.state is Failed) ==> !dialog_answered(
                m,
                false,
                false,
                true,
            ).update.show_modal
        }),
{
}

// ----- adapters -------------------------------------------------------------------

/// The words that count in what an adapter is called.
pub open spec fn telling_word(k: int) -> Seq<char> {
    if k == 0 {
        "link up"@
    } else if k == 1 {
        "link down"@
    } else if k == 2 {
        "ethernet"@
    } else if k == 3 {
        "wi-fi"@
    } else if k == 4 {
        "wifi"@
    } else if k == 5 {
        "wireless"@
    } else if k == 6 {
        "gigabit"@
    } else if k == 7 {
        "realtek"@
    } else if k == 8 {
        "intel"@
    } else if k == 9 {
        "asix"@
    } else if k == 10 {
        "loopback"@
    } else if k == 11 {
        "bluetooth"@
    } else if k == 12 {
        "virtual"@
    } else if k == 13 {
        "vmware"@
    } else if k == 14 {
        "hyper-v"@
    } else if k == 15 {
        "wintun"@
    } else if k == 16 {
        "tap"@
    } else if k == 17 {
        "zerotier"@
    } else if k == 18 {
        "docker"@
    } else {
        "vethernet"@
    }
}

/// The adapter's text holds the word.
pub open spec fn tells(interface: InterfaceInfo, k: int) -> bool {
    contains(search_text(interface), telling_word(k))
}

/// What a word is worth: a live link a hundred points, a word for hardware
/// twenty; a dead link and anything virtual costs a hundred.
pub open spec fn worth(k: int) -> int {
    if k == 0 {
        100
    } else if 2 <= k <= 9 {
        20
    } else {
        -100
    }
}

/// What a word is worth in what an adapter is called, where it stands there.
pub open spec fn word_worth(interface: InterfaceInfo, k: int) -> int {
    if tells(interface, k) {
        worth(k)
    } else {
        0
    }
}

/// What the first `n` words are worth in what an adapter is called.
pub open spec fn told_worth(interface: InterfaceInfo, n: nat) -> int
    decreases n,
{
    if n == 0 {
        0
    } else {
        told_worth(interface, (n - 1) as nat) + word_worth(interface, n - 1)
    }
}

proof fn lemma_link(interface: InterfaceInfo)
    ensures
        crate::app::interfaces::link_points(search_text(interface)) == told_worth(interface, 2)
            - told_worth(interface, 0),
{
    let text = search_text(interface);
    assert(telling_word(0) == "link up"@);
    assert(told_worth(interface, 1) - told_worth(interface, 0) == word_worth(interface, 0));
    assert(telling_word(1) == "link down"@);
    assert(told_worth(interface, 2) - told_worth(interface, 1) == word_worth(interface, 1));
}

proof fn lemma_hardware(interface: InterfaceInfo)
    ensures
        crate::app::interfaces::hardware_points(search_text(interface)) == told_worth(interface, 10)
            - told_worth(interface, 2),
{
    let text = search_text(interface);
    assert(telling_word(2) == "ethernet"@);
    assert(told_worth(interface, 3) - told_worth(interface, 2) == word_worth(interface, 2));
    assert(telling_word(3) == "wi-fi"@);
    assert(told_worth(interface, 4) - told_worth(interface, 3) == word_worth(interface, 3));
    assert(telling_word(4) == "wifi"@);
    assert(told_worth(interface, 5) - told_worth(interface, 4) == word_worth(interface, 4));
    assert(telling_word(5) == "wireless"@);
    assert(told_worth(interface, 6) - told_worth(interface, 5) == word_worth(interface, 5));
    assert(telling_word(6) == "gigabit"@);
    assert(told_worth(interface, 7) - told_worth(interface, 6) == word_worth(interface, 6));
    assert(telling_word(7) == "realtek"@);
    assert(told_worth(interface, 8) - told_worth(interface, 7) == word_worth(interface, 7));
    assert(telling_word(8) == "intel"@);
    assert(told_worth(interface, 9) - told_worth(interface, 8) == word_worth(interface, 8));
    assert(telling_word(9) == "asix"@);
    assert(told_worth(interface, 10) - told_worth(interface, 9) == word_worth(interface, 9));
}

proof fn lemma_virtual(interface: InterfaceInfo)
    ensures
        -crate::app::interfaces::virtual_points(search_text(interface)) == told_worth(interface, 20)
            - told_worth(interface, 10),
{
    let text = search_text(interface);
    assert(telling_word(10) == "loopback"@);
    assert(told_worth(interface, 11) - told_worth(interface, 10) == word_worth(interface, 10));
    assert(telling_word(11) == "bluetooth"@);
    assert(told_worth(interface, 12) - told_worth(interface, 11) == word_worth(interface, 11));
    assert(telling_word(12) == "virtual"@);
    assert(told_worth(interface, 13) - told_worth(interface, 12) == word_worth(interface, 12));
    assert(telling_word(13) == "vmware"@);
    assert(told_worth(interface, 14) - told_worth(interface, 13) == word_worth(interface, 13));
    assert(telling_word(14) == "hyper-v"@);
    assert(told_worth(interface, 15) - told_worth(interface, 14) == word_worth(interface, 14));
    assert(telling_word(15) == "wintun"@);
    assert(told_worth(interface, 16) - told_worth(interface, 15) == word_worth(interface, 15));
    assert(telling_word(16) == "tap"@);
    assert(told_worth(interface, 17) - told_worth(interface, 16) == word_worth(interface, 16));
    assert(telling_word(17) == "zerotier"@);
    assert(told_worth(interface, 18) - told_worth(interface, 17) == word_worth(interface, 17));
    assert(telling_word(18) == "docker"@);
    assert(told_worth(interface, 19) - told_worth(interface, 18) == word_worth(interface, 18));
    assert(telling_word(19) == "vethernet"@);
    assert(told_worth(interface, 20) - told_worth(interface, 19) == word_worth(interface, 19));
}

proof fn lemma_score(interface: InterfaceInfo)
    ensures
        score_of(interface) == crate::app::interfaces::name_points(interface.name@) + told_worth(
            interface,
            20,
        ),
{
    lemma_link(interface);
    lemma_hardware(interface);
    lemma_virtual(interface);
    assert(told_worth(interface, 0) == 0);
}

proof fn lemma_one_word(a: InterfaceInfo, b: InterfaceInfo, k: int, n: nat)
    requires
        n <= 20,
        forall|j: int| 0 <= j < 20 && j != k ==> #[trigger] tells(a, j) == tells(b, j),
        0 <= k < 20 ==> tells(a, k) && !tells(b, k),
    ensures
        told_worth(a, n) == told_worth(b, n) + if 0 <= k < n {
            worth(k)
        } else {
            0
        },
    decreases n,
{
    if n > 0 {
        lemma_one_word(a, b, k, (n - 1) as nat);
        if n - 1 != k {
            assert(tells(a, n - 1) == tells(b, n - 1));
        }
    }
}

/// Of two adapters of one name that differ in one word, the word decides.
pub proof fn law_one_word_decides(a: InterfaceInfo, b: InterfaceInfo, k: int)
    requires
        0 <= k < 20,
        a.name@ == b.name@,
        forall|j: int| 0 <= j < 20 && j != k ==> #[trigger] tells(a, j) == tells(b, j),
        tells(a, k),
        !tells(b, k),
    ensures
        score_of(a) == score_of(b) + worth(k),
{
    lemma_score(a);
    lemma_score(b);
    lemma_one_word(a, b, k, 20);
}

/// Of two adapters whose texts tell the same, the name decides: wired before
/// wireless, and either before any other.
pub proof fn law_name_decides(a: InterfaceInfo, b: InterfaceInfo)
    requires
        forall|j: int| 0 <= j < 20 ==> #[trigger] tells(a, j) == tells(b, j),
        !has_at(b.name@, "en"@, 0) && !has_at(b.name@, "eth"@, 0) && !has_at(b.name@, "wl"@, 0),
    ensures
        has_at(a.name@, "en"@, 0) ==> score_of(a) == score_of(b) + 20,
        has_at(a.name@, "eth"@, 0) ==> score_of(a) == score_of(b) + 20,
        has_at(a.name@, "wl"@, 0) ==> score_of(a) == score_of(b) + 15,
{
    reveal_strlit("en");
    reveal_strlit("eth");
    reveal_strlit("wl");
    let name = a.name@;
    if has_at(name, "en"@, 0) {
        assert(name.subrange(0, 2)[0] == 'e' && name.subrange(0, 2)[1] == 'n');
        assert(name[0] == 'e' && name[1] == 'n');
    }
    if has_at(name, "eth"@, 0) {
        assert(name.subrange(0, 3)[0] == 'e' && name.subrange(0, 3)[1] == 't');
        assert(name[0] == 'e' && name[1] == 't');
    }
    if has_at(name, "wl"@, 0) {
        assert(name.subrange(0, 2)[0] == 'w');
        assert(name[0] == 'w');
    }
    lemma_score(a);
    lemma_score(b);
    lemma_one_word(a, b, -1, 20);
}

/// What tells of an adapter is its name and its description, in whatever case.
pub proof fn law_name_and_description_tell(interface: InterfaceInfo)
    ensures
        interface.description matches Some(text) ==> search_text(interface) == crate::text::lower(
            interface.name@ + " "@ + text@,
        ),
{
}

// ----- the report -----------------------------------------------------------------

/// Every event of the log is in the report, in order and at its end, and every
/// override that was passed over before them.
pub proof fn law_report_has_every_event(m: AppModel, facts: DiagnosticFacts, i: int)
    ensures
        ({
            let lines = report_lines(m, facts);
            let skipped = m.capture.sync_key_skipped.len() as int;
            let events = m.messages.len() as int;
            &&& lines.len() == 36 + skipped + 1 + events
            &&& lines[36 + skipped] == "Events:"@
            &&& 0 <= i < events ==> lines[37 + skipped + i] == "  "@ + m.messages[i]
            &&& 0 <= i < skipped ==> lines[36 + i] == "Skipped SSLKEYLOGFILE (not a file): "@
                + m.capture.sync_key_skipped[i].path@
        }),
{
}

/// The report tells how things stand with the program, the game and the sync.
pub proof fn law_report_tells_how_things_stand(m: AppModel, facts: DiagnosticFacts)
    ensures
        ({
            let lines = report_lines(m, facts);
            let told = |b: bool|
                if b {
                    "true"@
                } else {
                    "false"@
                };
            &&& lines[0] == "ARCTracker Sync v"@ + facts.version@
            &&& lines[1] == "Locale: "@ + m.ui.locale
            &&& lines[2] == "Platform: "@ + platform_label(m.launcher.readiness.platform)
            &&& lines[4] == "Launcher detail: "@ + m.launcher.readiness.detail
            &&& lines[5] == "Game running: "@ + told(m.launcher.game_running)
            &&& lines[6] == "Capture ready: "@ + told(facts.capture_ready)
            &&& lines[7] == "Capture method: "@ + facts.capture_method@
            &&& facts.npcap matches Some(version) ==> lines[8] == "Npcap: "@ + version@
            &&& lines[9] == "Account synced: "@ + told(m.submit.token_submitted)
            &&& lines[10] == "Inventory sync enabled: "@ + told(m.submit.sync_enabled)
            &&& lines[11] == "Connection active: "@ + told(m.capture.active)
            &&& m.capture.sync_key_source matches Some(source) ==> (exists|kind: Seq<char>|
                lines[29] == "Sync key source: "@ + #[trigger] (kind + " ("@ + source.path + ")"@))
            &&& lines[31] == "Signed in: "@ + told(m.session.auth_token is Some)
            &&& m.capture.latest_token matches Some(token) ==> lines[32] == "Token host: "@
                + token.host@
            &&& lines[33] == "Sync submit attempts: "@ + decimal(m.submit.attempts as nat)
                + " (in flight: "@ + told(m.submit.pending) + ")"@
            &&& m.submit.last_error matches Some(error) ==> lines[35] == "Last sync error: "@
                + error
            &&& m.submit.last_error is None ==> lines[35] == "Last sync error: "@ + "-"@
        }),
{
    let lines = report_lines(m, facts);
    if let Some(source) = m.capture.sync_key_source {
        let kind = crate::app::diagnostics::kind_name(source.kind);
        assert(lines[29] == "Sync key source: "@ + (kind + " ("@ + source.path + ")"@));
    }
}

/// The report gives every count of the capture, each in its own line.
pub proof fn law_report_gives_the_counts(m: AppModel, facts: DiagnosticFacts)
    ensures
        ({
            let lines = report_lines(m, facts);
            let stats = m.capture.stats;
            let n = |count: u64| decimal(count as nat);
            &&& lines[12] == "Activity: "@ + n(stats.packets_seen)
            &&& lines[13] == "Connection activity: "@ + n(stats.tls_segments_processed)
            &&& lines[14] == "Game sessions: "@ + n(stats.tls_embark_sni_hellos)
            &&& lines[15] == "Account matches: "@ + n(stats.http1_bearer_headers)
            &&& lines[16] == "Setup entries: "@ + n(stats.sync_key_entries)
            &&& lines[17] == "TLS hellos client/server: "@ + n(stats.tls_client_hellos) + " / "@
                + n(stats.tls_server_hellos)
            &&& lines[18] == "TLS keys established: "@ + n(stats.tls_keys_established)
            &&& lines[19] == "TLS missing keys: "@ + n(stats.tls_missing_keys)
            &&& has_at(
                lines[20],
                "Embark missing-key sessions: "@ + n(stats.embark_missing_key_sessions),
                0,
            )
            &&& lines[21] == "Encrypted but not decrypted: "@ + n(stats.tls_encrypted_no_decrypt)
            &&& lines[22] == "Decrypted records: "@ + n(stats.decrypted_records)
            &&& has_at(lines[23], "Decrypt errors: "@ + n(stats.tls_decrypt_errors), 0)
            &&& lines[24] == "App data to-server / to-client: "@ + n(
                stats.tls_inner_app_data_to_server,
            ) + " / "@ + n(stats.tls_inner_app_data_to_client)
            &&& lines[25] == "HTTP candidates / embark hosts: "@ + n(stats.http1_candidates)
                + " / "@ + n(stats.http1_embark_hosts)
            &&& lines[28] == "Packet truncations: "@ + n(stats.packet_truncations) + " ("@ + n(
                stats.packet_truncated_bytes,
            ) + " bytes)"@
            &&& lines[30] == "Sync key reloads: "@ + n(stats.sync_key_reloads)
            &&& has_at(lines[34], "Sync retry: "@ + n(m.submit.failures as u64), 0)
        }),
{
    let lines = report_lines(m, facts);
    let stats = m.capture.stats;
    lemma_begins(
        lines[20],
        "Embark missing-key sessions: "@ + decimal(stats.embark_missing_key_sessions as nat),
    );
    lemma_begins(lines[23], "Decrypt errors: "@ + decimal(stats.tls_decrypt_errors as nat));
    lemma_begins(lines[34], "Sync retry: "@ + decimal(m.submit.failures as nat));
}

// ----- the frame of the window ----------------------------------------------------

/// The title bar says whether someone is signed in, and shows a mark while a
/// release is known or something is under way about one.
pub proof fn law_title_bar(m: AppModel)
    ensures
        m.session.auth_token is Some ==> header_status(m) == say("SyncApp.header.signedIn"@),
        m.session.auth_token is None ==> header_status(m) == say("SyncApp.header.signedOut"@),
        m.update.state is Idle ==> !update_shown(m),
        m.update.state is Available || m.update.state is Downloading || m.update.state is Verifying
            || m.update.state is Installing || m.update.state is Relaunching || m.update.state
            is Failed ==> update_shown(m),
{
}

/// That the window can be closed is said only while the game is synced, in the
/// words of the host.
pub proof fn law_closing_is_explained(m: AppModel, state: HubState)
    ensures
        close_notice(m, state) is Some <==> state == HubState::Synced,
        state == HubState::Synced && m.host == HostOs::Windows ==> close_notice(m, state) == Some(
            say("SyncApp.state.synced.canClose"@),
        ),
        state == HubState::Synced && m.host == HostOs::Linux ==> close_notice(m, state) == Some(
            say("SyncApp.state.synced.canCloseLinux"@),
        ),
{
}

/// The row of the game shows the path, or that it is found by itself.
pub proof fn law_location_is_shown(m: AppModel)
    ensures
        crate::text::trim(m.launcher.game_path_text).len() > 0 ==> location_text(m)
            == TextModel::Plain(crate::text::trim(m.launcher.game_path_text)),
        crate::text::trim(m.launcher.game_path_text).len() == 0 ==> location_text(m)
            == TextModel::Catalog(say("SyncApp.settings.autoDetected"@)),
{
}

/// A launcher that is picked, on either screen, is the one of the settings from
/// then on; the one that is there already is no choice.
pub proof fn law_picked_launcher_is_used(
    m: AppModel,
    platform: LauncherPlatform,
    found: Option<Seq<char>>,
)
    ensures
        launcher_picked(m, platform, found).config.platform == platform,
        platform != effective(m) ==> store_toggled(m, platform, found).config.platform == platform,
        platform == effective(m) ==> store_toggled(m, platform, found) == m,
        platform == m.config.platform ==> launcher_picked(m, platform, found) == m,
        platform != m.config.platform ==> launcher_picked(m, platform, found).effects
            == m.effects.push(EffectModel::SaveConfig),
        platform != effective(m) ==> store_toggled(m, platform, found).effects == m.effects.push(
            EffectModel::SaveConfig,
        ),
{
}

/// The report names the status of the launcher, the last request, the last
/// errors, and until when the token lasts.
pub proof fn law_report_tells_what_was_last(m: AppModel, facts: DiagnosticFacts)
    ensures
        ({
            let lines = report_lines(m, facts);
            let stats = m.capture.stats;
            let dash = |text: Option<String>|
                if text is Some {
                    text->0@
                } else {
                    "-"@
                };
            &&& lines[3] == "Launcher: "@ + crate::launch::readiness::status_label(
                m.launcher.readiness.status,
            )
            &&& lines[20] == "Embark missing-key sessions: "@ + decimal(
                stats.embark_missing_key_sessions as nat,
            ) + " (last: "@ + dash(stats.last_embark_missing_key) + ")"@
            &&& lines[23] == "Decrypt errors: "@ + decimal(stats.tls_decrypt_errors as nat)
                + " (last: "@ + dash(stats.last_tls_decrypt_error) + ")"@
            &&& lines[26] == "Last HTTP: "@ + dash(stats.last_http1_method) + " "@ + dash(
                stats.last_http1_host,
            ) + (" "@ + dash(stats.last_http1_path))
            &&& m.capture.latest_token matches Some(token) ==> (token.expires_at matches Some(exp)
                ==> (time_text(exp.seconds, exp.offset, "%Y-%m-%d %H:%M:%S"@) matches Some(text)
                ==> lines[27] == "Token expires: "@ + text))
            &&& m.submit.gave_up ==> lines[34] == "Sync retry: "@ + decimal(
                m.submit.failures as nat,
            ) + " consecutive failures"@ + " (paused — Try again to resume)"@
        }),
{
}

/// A synced account is shown in green, what needs the user in amber.
pub proof fn law_colours_of_states(state: HubState)
    ensures
        accent_of(state) == crate::theme::success_rgb() <==> state == HubState::Synced || state
            == HubState::SyncedIdle,
        accent_of(state) == crate::theme::warning_rgb() <==> state == HubState::NeedsAttention
            || state == HubState::NeedsLauncher || state == HubState::CloseLauncher,
{
}

/// The line below a step is drawn up to the last, in gold once the step is done.
pub proof fn law_line_below_a_step(state: StageState, index: nat, count: nat)
    ensures
        connector(state, index, count) is Some <==> index + 1 < count,
        index + 1 < count ==> (connector(state, index, count) == Some(crate::theme::primary_rgb())
            <==> state == StageState::Done),
{
}

/// The picker offers each language by its own name, and marks the one of the
/// settings.
pub proof fn law_picker_marks_the_choice(
    choice: LanguageChoice,
    locale: Seq<char>,
    language: Option<Seq<char>>,
)
    requires
        choice_says(choice, locale, language),
    ensures
        choice.locale@ == locale,
        choice.name@ == crate::i18n::native_name_of(locale),
        choice.selected <==> language == Some(locale),
{
}

} // verus!
