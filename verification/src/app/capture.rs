//! The capture: when it runs, on which adapter, and what its reports do.

use vstd::prelude::*;

use crate::app::data::{
    CaptureEvent, CaptureMethod, CaptureStats, Effect, InterfaceInfo, TokenObservation,
};
use crate::app::interfaces::{best_index, find_interface};
use crate::app::sync::{elapsed, SECOND};
use crate::app::ArcTrackerSyncApp;
use crate::launch::{SkippedSyncKey, SyncKeyResolution, SyncKeySource};
use crate::text::{cat2, cat3, opt_eq, str_eq};
use crate::app::data::{no_stats, ConfigModel, EffectModel};
use crate::app::interfaces::{best_of, position_of};
use crate::app::state::{CaptureModel, SubmitModel};
use crate::app::sync::{retry_reset, since, submit_started};
use crate::app::{pushed, requested, AppModel};
use crate::launch::sync_key::{opt_source, source_label};
use crate::text::opt_view;

verus! {

// ----- starting and stopping ------------------------------------------------------

/// No capture runs.
pub open spec fn capture_stopped(m: AppModel) -> AppModel {
    if m.capture.active {
        requested(
            AppModel { capture: CaptureModel { active: false, ..m.capture }, ..m },
            EffectModel::StopCapture,
        )
    } else {
        m
    }
}

/// The name of the selected adapter.
pub open spec fn selected_name(capture: CaptureModel) -> Option<Seq<char>> {
    if capture.selected_interface_index < capture.interfaces.len() {
        Some(capture.interfaces[capture.selected_interface_index as int].name@)
    } else {
        None
    }
}

/// Where the game writes its session keys.
pub open spec fn key_path(capture: CaptureModel) -> Option<Seq<char>> {
    match capture.sync_key_source {
        Some(source) => Some(source.path),
        None => None,
    }
}

/// A capture can start: none runs, none is blocked, sync is not paused, the
/// process has the rights, an adapter is selected, and the sync key is a file.
pub open spec fn capture_due(m: AppModel, elevated: bool, key_is_file: bool) -> bool {
    &&& !m.capture.active && !m.capture.blocked && !m.tray.paused
    &&& elevated
    &&& selected_name(m.capture) is Some
    &&& m.capture.sync_key_source is Some
    &&& key_is_file
}

/// A capture runs, if one can start.
pub open spec fn capture_started(m: AppModel, elevated: bool, key_is_file: bool) -> AppModel {
    if capture_due(m, elevated, key_is_file) {
        requested(
            AppModel {
                capture: CaptureModel {
                    stats: no_stats(),
                    latest_token: None,
                    active: true,
                    ..m.capture
                },
                ..m
            },
            EffectModel::StartCapture(
                m.config.capture_method,
                selected_name(m.capture)->0,
                m.capture.sync_key_source->0.path,
            ),
        )
    } else {
        m
    }
}

/// What the capture depends on has changed: it starts over, and so does the sync.
pub open spec fn settings_changed(m: AppModel) -> AppModel {
    let stopped = capture_stopped(
        AppModel { capture: CaptureModel { blocked: false, ..m.capture }, ..m },
    );
    retry_reset(
        AppModel {
            capture: CaptureModel {
                stats: no_stats(),
                latest_token: None,
                ..stopped.capture
            },
            submit: SubmitModel {
                token_submitted: false,
                fingerprint: None,
                sync_enabled: false,
                ..stopped.submit
            },
            ..stopped
        },
    )
}

impl ArcTrackerSyncApp {
    pub(crate) fn stop_capture(&mut self)
        requires
            old(self).wf(),
        ensures
            final(self)@ == capture_stopped(old(self)@),
            final(self).wf(),
    {
        if self.capture.active {
            self.capture.active = false;
            self.request(Effect::StopCapture);
        }
    }

    /// The name of the selected adapter.
    pub fn selected_interface_name(&self) -> (r: Option<String>)
        ensures
            opt_view(r) == selected_name(self@.capture),
    {
        if self.capture.selected_interface_index < self.capture.interfaces.len() {
            Some(self.capture.interfaces[self.capture.selected_interface_index].name.clone())
        } else {
            None
        }
    }

    /// Where the game writes its session keys.
    pub fn active_sync_key_path(&self) -> (r: Option<String>)
        ensures
            opt_view(r) == key_path(self@.capture),
    {
        match &self.capture.sync_key_source {
            Some(source) => Some(source.path.clone()),
            None => None,
        }
    }

    /// Starts a capture where one can start. `key_is_file` says that the sync
    /// key exists and is a file: a directory would open with an error and
    /// block the capture.
    pub fn maybe_start_background_capture(&mut self, elevated: bool, key_is_file: bool)
        requires
            old(self).wf(),
        ensures
            final(self)@ == capture_started(old(self)@, elevated, key_is_file),
            final(self).wf(),
    {
        if self.capture.active || self.capture.blocked || self.tray.paused || !elevated {
            return;
        }
        let interface = match self.selected_interface_name() {
            Some(name) => name,
            None => return,
        };
        let sync_key_path = match self.active_sync_key_path() {
            Some(path) => path,
            None => return,
        };
        if !key_is_file {
            return;
        }
        self.capture.stats = CaptureStats::default();
        self.capture.latest_token = None;
        self.capture.active = true;
        let method = self.config.capture_method;
        self.request(Effect::StartCapture { method, interface, sync_key_path });
    }

    fn unblock_capture(&mut self)
        requires
            old(self).wf(),
        ensures
            final(self)@ == (AppModel {
                capture: CaptureModel { blocked: false, ..old(self)@.capture },
                ..old(self)@
            }),
            final(self).wf(),
    {
        self.capture.blocked = false;
    }

    fn forget_sync(&mut self)
        requires
            old(self).wf(),
        ensures
            final(self)@ == (AppModel {
                capture: CaptureModel {
                    stats: no_stats(),
                    latest_token: None,
                    ..old(self)@.capture
                },
                submit: SubmitModel {
                    token_submitted: false,
                    fingerprint: None,
                    sync_enabled: false,
                    ..old(self)@.submit
                },
                ..old(self)@
            }),
            final(self).wf(),
    {
        self.capture.stats = CaptureStats::default();
        self.capture.latest_token = None;
        self.submit.token_submitted = false;
        self.submit.fingerprint = None;
        self.submit.sync_enabled = false;
    }

    /// Starts over after a change of what the capture depends on.
    pub fn capture_settings_changed(&mut self)
        requires
            old(self).wf(),
        ensures
            final(self)@ == settings_changed(old(self)@),
            final(self).wf(),
    {
        self.unblock_capture();
        self.stop_capture();
        self.forget_sync();
        self.reset_submit_retry_state();
    }
}

// ----- what a capture reports -----------------------------------------------------

/// A token was seen. A new one gets the full number of retries and is
/// submitted; one that was submitted already changes nothing else.
pub open spec fn token_seen(m: AppModel, observation: TokenObservation) -> AppModel {
    let seen = AppModel {
        capture: CaptureModel { latest_token: Some(observation), ..m.capture },
        ..m
    };
    if m.submit.fingerprint == Some(observation.fingerprint@) {
        seen
    } else {
        let fresh = retry_reset(seen);
        submit_started(
            if m.submit.token_submitted {
                fresh
            } else {
                pushed(
                    AppModel {
                        submit: SubmitModel {
                            token_submitted: false,
                            sync_enabled: false,
                            ..fresh.submit
                        },
                        ..fresh
                    },
                    "Game account connected"@,
                )
            },
        )
    }
}

/// One report of a capture is taken in.
pub open spec fn event_taken(m: AppModel, event: CaptureEvent) -> AppModel {
    match event {
        CaptureEvent::Status(text) => pushed(m, text@),
        CaptureEvent::Stats(stats) => AppModel {
            capture: CaptureModel { stats, ..m.capture },
            ..m
        },
        CaptureEvent::Token(observation) => token_seen(m, observation),
        CaptureEvent::Error(error) => pushed(
            AppModel { capture: CaptureModel { blocked: true, ..m.capture }, ..m },
            error@,
        ),
        CaptureEvent::Stopped => m,
    }
}

/// The first `n` reports are taken in, one after the other.
pub open spec fn events_taken(m: AppModel, events: Seq<CaptureEvent>, n: nat) -> AppModel
    decreases n,
{
    if n == 0 {
        m
    } else {
        event_taken(events_taken(m, events, (n - 1) as nat), events[n - 1])
    }
}

/// One of the first `n` reports ends the capture.
pub open spec fn ends(events: Seq<CaptureEvent>, n: nat) -> bool {
    exists|i: int| 0 <= i < n && ((#[trigger] events[i]) is Error || events[i] is Stopped)
}

/// What the running capture reported is taken in.
pub open spec fn capture_polled(m: AppModel, events: Seq<CaptureEvent>) -> AppModel {
    if !m.capture.active {
        m
    } else {
        let taken = events_taken(m, events, events.len());
        if ends(events, events.len()) {
            requested(
                AppModel { capture: CaptureModel { active: false, ..taken.capture }, ..taken },
                EffectModel::DropCapture,
            )
        } else {
            taken
        }
    }
}

impl ArcTrackerSyncApp {
    fn keep_token(&mut self, observation: TokenObservation)
        requires
            old(self).wf(),
        ensures
            final(self)@ == (AppModel {
                capture: CaptureModel {
                    latest_token: Some(observation),
                    ..old(self)@.capture
                },
                ..old(self)@
            }),
            final(self).wf(),
    {
        self.capture.latest_token = Some(observation);
    }

    fn announce_account(&mut self)
        requires
            old(self).wf(),
            !old(self)@.submit.token_submitted,
        ensures
            final(self)@ == pushed(
                AppModel {
                    submit: SubmitModel {
                        token_submitted: false,
                        sync_enabled: false,
                        ..old(self)@.submit
                    },
                    ..old(self)@
                },
                "Game account connected"@,
            ),
            final(self).wf(),
    {
        self.submit.token_submitted = false;
        self.submit.sync_enabled = false;
        self.push_message("Game account connected");
    }

    fn take_token(&mut self, observation: TokenObservation)
        requires
            old(self).wf(),
        ensures
            final(self)@ == token_seen(old(self)@, observation),
            final(self).wf(),
    {
        let already_submitted = match &self.submit.fingerprint {
            Some(fingerprint) => str_eq(fingerprint.as_str(), observation.fingerprint.as_str()),
            None => false,
        };
        let was_synced = self.submit.token_submitted;
        self.keep_token(observation);
        if !already_submitted {
            self.reset_submit_retry_state();
            if !was_synced {
                self.announce_account();
            }
            self.submit_latest_token_if_ready();
        }
    }

    fn keep_stats(&mut self, stats: &CaptureStats)
        requires
            old(self).wf(),
        ensures
            final(self)@ == (AppModel {
                capture: CaptureModel { stats: *stats, ..old(self)@.capture },
                ..old(self)@
            }),
            final(self).wf(),
    {
        self.capture.stats = stats.copy();
    }

    fn block_capture(&mut self, error: &str)
        requires
            old(self).wf(),
        ensures
            final(self)@ == pushed(
                AppModel {
                    capture: CaptureModel { blocked: true, ..old(self)@.capture },
                    ..old(self)@
                },
                error@,
            ),
            final(self).wf(),
    {
        self.capture.blocked = true;
        self.push_message(error);
    }

    fn take_event(&mut self, event: &CaptureEvent)
        requires
            old(self).wf(),
        ensures
            final(self)@ == event_taken(old(self)@, *event),
            final(self).wf(),
    {
        match event {
            CaptureEvent::Status(text) => self.push_message(text.as_str()),
            CaptureEvent::Stats(stats) => self.keep_stats(stats),
            CaptureEvent::Token(observation) => self.take_token(observation.copy()),
            CaptureEvent::Error(error) => self.block_capture(error.as_str()),
            CaptureEvent::Stopped => {},
        }
    }

    fn drop_capture(&mut self)
        requires
            old(self).wf(),
        ensures
            final(self)@ == requested(
                AppModel {
                    capture: CaptureModel { active: false, ..old(self)@.capture },
                    ..old(self)@
                },
                EffectModel::DropCapture,
            ),
            final(self).wf(),
    {
        self.capture.active = false;
        self.request(Effect::DropCapture);
    }

    /// Takes in what the running capture reported.
    pub fn poll_capture(&mut self, events: &Vec<CaptureEvent>)
        requires
            old(self).wf(),
        ensures
            final(self)@ == capture_polled(old(self)@, events@),
            final(self).wf(),
    {
        if !self.capture.active {
            return;
        }
        let ghost start = self@;
        let mut over: bool = false;
        let mut i: usize = 0;
        while i < events.len()
            invariant
                i <= events@.len(),
                self.wf(),
                self@ == events_taken(start, events@, i as nat),
                over == ends(events@, i as nat),
            decreases events.len() - i,
        {
            let event = &events[i];
            let last = match event {
                CaptureEvent::Error(_) | CaptureEvent::Stopped => true,
                _ => false,
            };
            self.take_event(event);
            proof {
                if !last && ends(events@, (i + 1) as nat) {
                    let k = choose|k: int|
                        0 <= k < i + 1 && ((#[trigger] events@[k]) is Error || events@[k] is Stopped);
                }
            }
            over = over || last;
            i += 1;
        }
        if over {
            self.drop_capture();
        }
    }
}

// ----- adapters -------------------------------------------------------------------

/// The index that a scan selects: the adapter of the settings, else the most
/// likely one, else the first.
pub open spec fn scanned_index(
    remembered: Option<Seq<char>>,
    interfaces: Seq<InterfaceInfo>,
) -> int {
    if remembered is Some && position_of(interfaces, remembered->0) is Some {
        position_of(interfaces, remembered->0)->0
    } else if best_of(interfaces) is Some {
        best_of(interfaces)->0
    } else {
        0
    }
}

/// The adapters are those of a scan. Where the selected one is another than
/// before, the capture starts over; where the scan failed, it is blocked.
pub open spec fn interfaces_refreshed(
    m: AppModel,
    scan: Result<Vec<InterfaceInfo>, String>,
) -> AppModel {
    match scan {
        Ok(interfaces) => {
            let scanned = AppModel {
                capture: CaptureModel {
                    interfaces: interfaces@,
                    selected_interface_index: scanned_index(
                        m.config.selected_interface,
                        interfaces@,
                    ) as usize,
                    ..m.capture
                },
                ..m
            };
            if selected_name(scanned.capture) != selected_name(m.capture) {
                settings_changed(scanned)
            } else {
                scanned
            }
        },
        Err(error) => {
            let stopped = capture_stopped(m);
            pushed(
                AppModel {
                    capture: CaptureModel {
                        interfaces: Seq::empty(),
                        selected_interface_index: 0,
                        blocked: true,
                        stats: no_stats(),
                        ..stopped.capture
                    },
                    ..stopped
                },
                "Connection setup failed: "@ + error@,
            )
        },
    }
}

/// The user selected an adapter of the list.
pub open spec fn interface_chosen(m: AppModel, index: usize) -> AppModel {
    if index < m.capture.interfaces.len() && index != m.capture.selected_interface_index {
        settings_changed(
            requested(
                AppModel {
                    config: ConfigModel {
                        selected_interface: Some(m.capture.interfaces[index as int].name@),
                        ..m.config
                    },
                    capture: CaptureModel { selected_interface_index: index, ..m.capture },
                    ..m
                },
                EffectModel::SaveConfig,
            ),
        )
    } else {
        m
    }
}

impl ArcTrackerSyncApp {
    /// The adapter that is most likely the one in use.
    pub fn best_interface_index(&self) -> (r: Option<usize>)
        ensures
            match r {
                Some(i) => best_of(self@.capture.interfaces) == Some(i as int),
                None => best_of(self@.capture.interfaces) is None,
            },
    {
        best_index(&self.capture.interfaces)
    }

    fn adopt_interfaces(&mut self, interfaces: Vec<InterfaceInfo>)
        requires
            old(self).wf(),
        ensures
            final(self)@ == (AppModel {
                capture: CaptureModel {
                    interfaces: interfaces@,
                    selected_interface_index: scanned_index(
                        old(self)@.config.selected_interface,
                        interfaces@,
                    ) as usize,
                    ..old(self)@.capture
                },
                ..old(self)@
            }),
            final(self).wf(),
    {
        let remembered = match &self.config.selected_interface {
            Some(name) => find_interface(&interfaces, name.as_str()),
            None => None,
        };
        let index: usize = match remembered {
            Some(i) => i,
            None => match best_index(&interfaces) {
                Some(i) => i,
                None => 0,
            },
        };
        self.capture.interfaces = interfaces;
        self.capture.selected_interface_index = index;
    }

    fn lose_interfaces(&mut self, error: &str)
        requires
            old(self).wf(),
        ensures
            final(self)@ == pushed(
                AppModel {
                    capture: CaptureModel {
                        interfaces: Seq::empty(),
                        selected_interface_index: 0,
                        blocked: true,
                        stats: no_stats(),
                        ..old(self)@.capture
                    },
                    ..old(self)@
                },
                "Connection setup failed: "@ + error@,
            ),
            final(self).wf(),
    {
        let text = cat2("Connection setup failed: ", error);
        self.capture.interfaces = Vec::new();
        self.capture.selected_interface_index = 0;
        self.capture.blocked = true;
        self.capture.stats = CaptureStats::default();
        self.push_message(text.as_str());
    }

    /// Takes in a scan of the adapters.
    pub fn refresh_interfaces(&mut self, scan: Result<Vec<InterfaceInfo>, String>)
        requires
            old(self).wf(),
        ensures
            final(self)@ == interfaces_refreshed(old(self)@, scan),
            final(self).wf(),
    {
        let previous = self.selected_interface_name();
        match scan {
            Ok(interfaces) => {
                self.adopt_interfaces(interfaces);
                let current = self.selected_interface_name();
                if !opt_eq(&previous, &current) {
                    self.capture_settings_changed();
                }
            },
            Err(error) => {
                self.stop_capture();
                self.lose_interfaces(error.as_str());
            },
        }
    }

    fn remember_interface(&mut self, index: usize)
        requires
            old(self).wf(),
            index < old(self)@.capture.interfaces.len(),
        ensures
            final(self)@ == requested(
                AppModel {
                    config: ConfigModel {
                        selected_interface: Some(
                            old(self)@.capture.interfaces[index as int].name@,
                        ),
                        ..old(self)@.config
                    },
                    capture: CaptureModel {
                        selected_interface_index: index,
                        ..old(self)@.capture
                    },
                    ..old(self)@
                },
                EffectModel::SaveConfig,
            ),
            final(self).wf(),
    {
        let name = self.capture.interfaces[index].name.clone();
        self.config.selected_interface = Some(name);
        self.capture.selected_interface_index = index;
        self.request(Effect::SaveConfig);
    }

    /// Selects an adapter of the list, and remembers it by its name.
    pub fn choose_interface(&mut self, index: usize)
        requires
            old(self).wf(),
        ensures
            final(self)@ == interface_chosen(old(self)@, index),
            final(self).wf(),
    {
        if index < self.capture.interfaces.len() && index != self.capture.selected_interface_index {
            self.remember_interface(index);
            self.capture_settings_changed();
        }
    }
}

// ----- the sync key ---------------------------------------------------------------

/// What the log says of an override of the sync key that was passed over.
pub open spec fn notice_of(path: Seq<char>) -> Seq<char> {
    "Ignoring sync key setting that isn't a usable file: "@ + path
        + " — using the app-managed sync key instead"@
}

/// What the log says of an override of the sync key that was passed over. It
/// speaks of the sync key by its product name, and holds nothing that
/// redaction would take out but the user name in the path.
pub fn skipped_sync_key_notice(path: &str) -> (r: String)
    ensures
        r@ == notice_of(path@),
{
    cat3(
        "Ignoring sync key setting that isn't a usable file: ",
        path,
        " — using the app-managed sync key instead",
    )
}

/// The first `n` overrides that were passed over are in the log.
pub open spec fn notices_pushed(m: AppModel, skipped: Seq<SkippedSyncKey>, n: nat) -> AppModel
    decreases n,
{
    if n == 0 {
        m
    } else {
        pushed(
            notices_pushed(m, skipped, (n - 1) as nat),
            notice_of(skipped[n - 1].path@),
        )
    }
}

/// The sync key in use, and what was passed over for it, is in the log.
pub open spec fn resolution_told(m: AppModel, resolution: SyncKeyResolution) -> AppModel {
    pushed(
        notices_pushed(m, resolution.skipped@, resolution.skipped@.len()),
        source_label(resolution.source.kind),
    )
}

/// The sync key was looked up anew. Where it is another than before, or there
/// is none, the capture starts over.
pub open spec fn key_refreshed(
    m: AppModel,
    result: Result<SyncKeyResolution, String>,
) -> AppModel {
    match result {
        Ok(resolution) => {
            let known = AppModel {
                capture: CaptureModel { sync_key_skipped: resolution.skipped@, ..m.capture },
                ..m
            };
            if m.capture.sync_key_source == Some(resolution.source@) {
                known
            } else {
                settings_changed(
                    resolution_told(
                        AppModel {
                            capture: CaptureModel {
                                sync_key_source: Some(resolution.source@),
                                ..known.capture
                            },
                            ..known
                        },
                        resolution,
                    ),
                )
            }
        },
        Err(error) => pushed(
            settings_changed(
                AppModel {
                    capture: CaptureModel {
                        sync_key_skipped: Seq::empty(),
                        sync_key_source: None,
                        ..m.capture
                    },
                    ..m
                },
            ),
            "Local sync setup unavailable: "@ + error@,
        ),
    }
}

/// The sync key that was looked up is the one in use already.
pub open spec fn key_unchanged(m: AppModel, result: Result<SyncKeyResolution, String>) -> bool {
    result matches Ok(resolution) && m.capture.sync_key_source == Some(resolution.source@)
}

pub(crate) fn copy_skipped(skipped: &Vec<SkippedSyncKey>) -> (r: Vec<SkippedSyncKey>)
    ensures
        r@ == skipped@,
{
    let mut r: Vec<SkippedSyncKey> = Vec::new();
    let mut i: usize = 0;
    while i < skipped.len()
        invariant
            i <= skipped@.len(),
            r@ == skipped@.take(i as int),
        decreases skipped.len() - i,
    {
        r.push(SkippedSyncKey { kind: skipped[i].kind, path: skipped[i].path.clone() });
        i += 1;
    }
    r
}

impl ArcTrackerSyncApp {
    pub(crate) fn tell_resolution(&mut self, resolution: &SyncKeyResolution)
        requires
            old(self).wf(),
        ensures
            final(self)@ == resolution_told(old(self)@, *resolution),
            final(self).wf(),
    {
        let ghost start = self@;
        let mut i: usize = 0;
        while i < resolution.skipped.len()
            invariant
                i <= resolution.skipped@.len(),
                self.wf(),
                self@ == notices_pushed(start, resolution.skipped@, i as nat),
            decreases resolution.skipped.len() - i,
        {
            let notice = skipped_sync_key_notice(resolution.skipped[i].path.as_str());
            self.push_message(notice.as_str());
            i += 1;
        }
        self.push_message(resolution.source.label());
    }

    fn adopt_key(&mut self, source: Option<SyncKeySource>)
        requires
            old(self).wf(),
        ensures
            final(self)@ == (AppModel {
                capture: CaptureModel {
                    sync_key_source: opt_source(source),
                    ..old(self)@.capture
                },
                ..old(self)@
            }),
            final(self).wf(),
    {
        self.capture.sync_key_source = source;
    }

    fn adopt_skipped(&mut self, skipped: Vec<SkippedSyncKey>)
        requires
            old(self).wf(),
        ensures
            final(self)@ == (AppModel {
                capture: CaptureModel { sync_key_skipped: skipped@, ..old(self)@.capture },
                ..old(self)@
            }),
            final(self).wf(),
    {
        self.capture.sync_key_skipped = skipped;
    }

    fn has_key(&self, source: &SyncKeySource) -> (r: bool)
        ensures
            r == (self@.capture.sync_key_source == Some(source@)),
    {
        match &self.capture.sync_key_source {
            Some(current) => current.kind == source.kind && str_eq(
                current.path.as_str(),
                source.path.as_str(),
            ),
            None => false,
        }
    }

    /// Takes in a lookup of the sync key; returns whether the launcher's
    /// readiness has to be looked into as well.
    pub fn refresh_sync_key_source(
        &mut self,
        result: &Result<SyncKeyResolution, String>,
    ) -> (r: bool)
        requires
            old(self).wf(),
        ensures
            final(self)@ == key_refreshed(old(self)@, *result),
            r == !key_unchanged(old(self)@, *result),
            final(self).wf(),
    {
        match result {
            Ok(resolution) => {
                let same = self.has_key(&resolution.source);
                self.adopt_skipped(copy_skipped(&resolution.skipped));
                if same {
                    return false;
                }
                self.adopt_key(Some(resolution.source.copy()));
                self.tell_resolution(resolution);
                self.capture_settings_changed();
                true
            },
            Err(error) => {
                self.adopt_skipped(Vec::new());
                self.adopt_key(None);
                self.capture_settings_changed();
                let text = cat2("Local sync setup unavailable: ", error.as_str());
                self.push_message(text.as_str());
                true
            },
        }
    }
}

// ----- the capture method ---------------------------------------------------------

/// Npcap was selected but is not there: the one cause of a blocked capture
/// that can be named.
pub open spec fn npcap_missing(m: AppModel) -> bool {
    m.config.capture_method == CaptureMethod::Npcap && m.capture.npcap_available == Some(false)
}

/// It is time to look for Npcap: it is in use, and was not looked for lately.
pub open spec fn npcap_probe_due(m: AppModel, now: u64) -> bool {
    m.config.capture_method == CaptureMethod::Npcap && (m.capture.npcap_available is None || since(
        m.capture.last_npcap_check,
        now,
    ) >= 2 * SECOND)
}

/// Npcap was looked for, where it was time to.
pub open spec fn npcap_probed(m: AppModel, installed: bool, now: u64) -> AppModel {
    if npcap_probe_due(m, now) {
        AppModel {
            capture: CaptureModel {
                npcap_available: Some(installed),
                last_npcap_check: now,
                ..m.capture
            },
            ..m
        }
    } else {
        m
    }
}

/// The user chose a capture method.
pub open spec fn method_chosen(m: AppModel, method: CaptureMethod) -> AppModel {
    if m.config.capture_method == method {
        m
    } else {
        settings_changed(
            requested(
                AppModel {
                    config: ConfigModel { capture_method: method, ..m.config },
                    capture: CaptureModel { npcap_available: None, ..m.capture },
                    ..m
                },
                EffectModel::SaveConfig,
            ),
        )
    }
}

impl ArcTrackerSyncApp {
    /// Whether Npcap was selected but is known to be missing.
    pub fn npcap_known_missing(&self) -> (r: bool)
        ensures
            r == npcap_missing(self@),
    {
        match self.capture.npcap_available {
            Some(available) => !available && self.config.capture_method == CaptureMethod::Npcap,
            None => false,
        }
    }

    /// Whether it is time to look for Npcap.
    pub fn npcap_check_due(&self, now: u64) -> (r: bool)
        ensures
            r == npcap_probe_due(self@, now),
    {
        self.config.capture_method == CaptureMethod::Npcap && (self.capture.npcap_available.is_none()
            || elapsed(self.capture.last_npcap_check, now) >= 2 * SECOND)
    }

    /// Takes in whether Npcap is installed, where it was time to look.
    pub fn refresh_npcap_available_if_needed(&mut self, installed: bool, now: u64)
        requires
            old(self).wf(),
        ensures
            final(self)@ == npcap_probed(old(self)@, installed, now),
            final(self).wf(),
    {
        if self.npcap_check_due(now) {
            self.capture.npcap_available = Some(installed);
            self.capture.last_npcap_check = now;
        }
    }

    /// Npcap is looked for again at the next occasion.
    pub fn forget_npcap(&mut self)
        requires
            old(self).wf(),
        ensures
            final(self)@ == (AppModel {
                capture: CaptureModel { npcap_available: None, ..old(self)@.capture },
                ..old(self)@
            }),
            final(self).wf(),
    {
        self.capture.npcap_available = None;
    }

    fn adopt_method(&mut self, method: CaptureMethod)
        requires
            old(self).wf(),
        ensures
            final(self)@ == requested(
                AppModel {
                    config: ConfigModel {
                        capture_method: method,
                        ..old(self)@.config
                    },
                    capture: CaptureModel { npcap_available: None, ..old(self)@.capture },
                    ..old(self)@
                },
                EffectModel::SaveConfig,
            ),
            final(self).wf(),
    {
        self.config.capture_method = method;
        self.capture.npcap_available = None;
        self.request(Effect::SaveConfig);
    }

    /// Chooses a capture method.
    pub fn choose_capture_method(&mut self, method: CaptureMethod)
        requires
            old(self).wf(),
        ensures
            final(self)@ == method_chosen(old(self)@, method),
            final(self).wf(),
    {
        if self.config.capture_method != method {
            self.adopt_method(method);
            self.capture_settings_changed();
        }
    }
}

} // verus!
