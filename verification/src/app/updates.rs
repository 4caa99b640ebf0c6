//! Looking for a newer release, and installing it.

use vstd::prelude::*;

use crate::app::data::{Effect, InstallProgress, Polled, ReleaseInfo, UpdateState};
use crate::app::sync::elapsed;
use crate::app::ArcTrackerSyncApp;
use crate::launch::HostOs;
use crate::app::data::{EffectModel, UpdateModel};
use crate::app::state::UpdaterModel;
use crate::app::sync::since;
use crate::app::{pushed, requested, AppModel};

verus! {

/// A newer release is looked for once an hour.
pub const UPDATE_CHECK_INTERVAL: u64 = 3_600_000_000_000;

/// It is time to look for a newer release. Only Windows has releases that can
/// be installed; and a release that is known, or being installed, is enough.
pub open spec fn update_check_due(m: AppModel, now: u64) -> bool {
    &&& m.host == HostOs::Windows
    &&& !m.update.check_pending && !m.update.progress_pending
    &&& m.update.state is Idle || m.update.state is Failed
    &&& since(m.update.last_check, now) >= UPDATE_CHECK_INTERVAL
}

/// A newer release is being looked for, if it is time.
pub open spec fn update_check_started(m: AppModel, now: u64) -> AppModel {
    if update_check_due(m, now) {
        requested(
            AppModel {
                update: UpdaterModel { last_check: now, check_pending: true, ..m.update },
                ..m
            },
            EffectModel::StartUpdateCheck,
        )
    } else {
        m
    }
}

/// The search came to an end, or not yet. A failed search is nothing to speak
/// of: it is repeated at its time.
pub open spec fn update_check_polled(
    m: AppModel,
    event: Polled<Result<ReleaseInfo, String>>,
    newer: bool,
) -> AppModel {
    if !m.update.check_pending || event is Empty {
        m
    } else {
        let over = UpdaterModel { check_pending: false, ..m.update };
        match event {
            Polled::Value(Ok(release)) => AppModel {
                update: if newer {
                    UpdaterModel {
                        current_release: Some(release),
                        state: UpdateModel::Available,
                        ..over
                    }
                } else {
                    over
                },
                ..m
            },
            _ => AppModel { update: over, ..m },
        }
    }
}

/// A size that is known: nothing is no size.
pub open spec fn known_size(size: u64) -> Option<u64> {
    if size > 0 {
        Some(size)
    } else {
        None
    }
}

/// A release is being installed; one at a time.
pub open spec fn install_started(m: AppModel, release: ReleaseInfo) -> AppModel {
    if m.update.progress_pending {
        m
    } else {
        requested(
            AppModel {
                update: UpdaterModel {
                    state: UpdateModel::Downloading(0, known_size(release.size)),
                    progress_pending: true,
                    done_pending: true,
                    ..m.update
                },
                ..m
            },
            EffectModel::StartInstall(release),
        )
    }
}

/// The state that a report of the installation leads to.
pub open spec fn progress_state(progress: InstallProgress) -> UpdateModel {
    match progress {
        InstallProgress::Downloading { received, total } => UpdateModel::Downloading(
            received,
            total,
        ),
        InstallProgress::Verifying => UpdateModel::Verifying,
        InstallProgress::Installing => UpdateModel::Installing,
    }
}

/// Of the reports that came in only the last one counts.
pub open spec fn progress_taken(m: AppModel, progress: Seq<InstallProgress>) -> AppModel {
    if m.update.progress_pending && progress.len() > 0 {
        AppModel {
            update: UpdaterModel { state: progress_state(progress.last()), ..m.update },
            ..m
        }
    } else {
        m
    }
}

/// The updater in a state in which nothing is under way.
pub open spec fn install_over(m: AppModel, state: UpdateModel) -> AppModel {
    AppModel {
        update: UpdaterModel { state, progress_pending: false, done_pending: false, ..m.update },
        ..m
    }
}

/// The installation came to an end, or not yet.
pub open spec fn install_polled(
    m: AppModel,
    progress: Seq<InstallProgress>,
    done: Polled<Result<(), String>>,
) -> AppModel {
    let taken = progress_taken(m, progress);
    if !m.update.done_pending {
        taken
    } else {
        match done {
            Polled::Value(Ok(())) => install_over(taken, UpdateModel::Relaunching),
            Polled::Value(Err(error)) => install_over(
                pushed(taken, "Update could not be installed."@),
                UpdateModel::Failed(error@),
            ),
            Polled::Empty => taken,
            Polled::Disconnected => install_over(
                taken,
                UpdateModel::Failed("The update stopped unexpectedly."@),
            ),
        }
    }
}

/// The new version is in place.
pub open spec fn install_done(m: AppModel, done: Polled<Result<(), String>>) -> bool {
    m.update.done_pending && (done matches Polled::Value(result) && result is Ok)
}

/// The new version is in place, but could not be started.
pub open spec fn relaunch_told(m: AppModel, error: Seq<char>) -> AppModel {
    let told = pushed(m, "Update installed, but the app couldn't restart automatically."@);
    AppModel {
        update: UpdaterModel { state: UpdateModel::Failed(error), ..told.update },
        ..told
    }
}

impl ArcTrackerSyncApp {
    /// Whether there is something to say about updates.
    pub fn update_indicator_visible(&self) -> (r: bool)
        ensures
            r == !(self@.update.state is Idle),
    {
        match &self.update.state {
            UpdateState::Idle => false,
            _ => true,
        }
    }

    /// Looks for a newer release, if it is time.
    pub fn maybe_check_for_update(&mut self, now: u64)
        requires
            old(self).wf(),
        ensures
            final(self)@ == update_check_started(old(self)@, now),
            final(self).wf(),
    {
        if self.host != HostOs::Windows || self.update.check_pending || self.update.progress_pending {
            return;
        }
        let open = match &self.update.state {
            UpdateState::Idle | UpdateState::Failed(_) => true,
            _ => false,
        };
        if !open || elapsed(self.update.last_check, now) < UPDATE_CHECK_INTERVAL {
            return;
        }
        self.update.last_check = now;
        self.update.check_pending = true;
        self.request(Effect::StartUpdateCheck);
    }

    /// Takes in what the search brought; `newer` says whether the release that
    /// came is newer than this program.
    pub fn poll_update_check(
        &mut self,
        event: Polled<Result<ReleaseInfo, String>>,
        newer: bool,
    )
        requires
            old(self).wf(),
        ensures
            final(self)@ == update_check_polled(old(self)@, event, newer),
            final(self).wf(),
    {
        if !self.update.check_pending {
            return;
        }
        match event {
            Polled::Value(Ok(release)) => {
                self.update.check_pending = false;
                if newer {
                    self.update.current_release = Some(release);
                    self.update.state = UpdateState::Available;
                }
            },
            Polled::Value(Err(_)) => {
                self.update.check_pending = false;
            },
            Polled::Empty => {},
            Polled::Disconnected => {
                self.update.check_pending = false;
            },
        }
    }

    /// Installs a release; one at a time.
    pub fn start_update_install(&mut self, release: ReleaseInfo)
        requires
            old(self).wf(),
        ensures
            final(self)@ == install_started(old(self)@, release),
            final(self).wf(),
    {
        if self.update.progress_pending {
            return;
        }
        let total = if release.size > 0 {
            Some(release.size)
        } else {
            None
        };
        self.update.state = UpdateState::Downloading { received: 0, total };
        self.update.progress_pending = true;
        self.update.done_pending = true;
        self.request(Effect::StartInstall(release));
    }

    fn take_progress(&mut self, progress: &Vec<InstallProgress>)
        requires
            old(self).wf(),
        ensures
            final(self)@ == progress_taken(old(self)@, progress@),
            final(self).wf(),
    {
        if self.update.progress_pending && progress.len() > 0 {
            self.update.state = match progress[progress.len() - 1] {
                InstallProgress::Downloading { received, total } => UpdateState::Downloading {
                    received,
                    total,
                },
                InstallProgress::Verifying => UpdateState::Verifying,
                InstallProgress::Installing => UpdateState::Installing,
            };
        }
    }

    fn end_install(&mut self, state: UpdateState)
        requires
            old(self).wf(),
        ensures
            final(self)@ == install_over(old(self)@, state@),
            final(self).wf(),
    {
        self.update.state = state;
        self.update.progress_pending = false;
        self.update.done_pending = false;
    }

    /// Takes in what the installation reported; returns whether the new version
    /// is in place and is to be started.
    pub fn poll_update_install(
        &mut self,
        progress: &Vec<InstallProgress>,
        done: Polled<Result<(), String>>,
    ) -> (r: bool)
        requires
            old(self).wf(),
        ensures
            final(self)@ == install_polled(old(self)@, progress@, done),
            r == install_done(old(self)@, done),
            final(self).wf(),
    {
        self.take_progress(progress);
        if !self.update.done_pending {
            return false;
        }
        match done {
            Polled::Value(Ok(())) => {
                self.end_install(UpdateState::Relaunching);
                true
            },
            Polled::Value(Err(error)) => {
                self.push_message("Update could not be installed.");
                self.end_install(UpdateState::Failed(error));
                false
            },
            Polled::Empty => false,
            Polled::Disconnected => {
                self.end_install(
                    UpdateState::Failed("The update stopped unexpectedly.".to_owned()),
                );
                false
            },
        }
    }

    /// Takes in that the new version could not be started.
    pub fn relaunch_failed(&mut self, error: String)
        requires
            old(self).wf(),
        ensures
            final(self)@ == relaunch_told(old(self)@, error@),
            final(self).wf(),
    {
        self.push_message("Update installed, but the app couldn't restart automatically.");
        self.update.state = UpdateState::Failed(error);
    }
}

} // verus!
