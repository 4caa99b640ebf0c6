//! The game, its launcher, and getting the launcher ready.

use vstd::prelude::*;

use crate::app::data::Effect;
use crate::app::sync::{elapsed, SECOND};
use crate::app::ArcTrackerSyncApp;
use crate::launch::{
    launcher_readiness, resolve_platform, validate_game_executable, EnvReading, LauncherPlatform,
    LauncherReadiness, LauncherScan, LauncherSetupPlan, LauncherStatus, PathProbe, PrepareOutcome,
};
use crate::process_env::LauncherProcess;
use crate::text::{cat2, copy_opt, opt_eq, trimmed};
use crate::app::capture::capture_started;
use crate::app::data::{ConfigModel, EffectModel};
use crate::app::state::{CaptureModel, LauncherModel};
use crate::app::sync::since;
use crate::app::{pushed, requested, AppModel};
use crate::launch::discovery::{game_path_fault, launch_error_text};
use crate::launch::paths::resolved_platform;
use crate::launch::platform_label;
use crate::launch::prepare::{is_plan, launcher_missing};
use crate::launch::readiness::{readiness_of, ReadinessModel};
use crate::text::{opt_str_view, opt_view, trim};

verus! {

// ----- the game's path and the platform -------------------------------------------

/// The path that the text of the settings names, if any.
pub open spec fn selected_path(launcher: LauncherModel) -> Option<Seq<char>> {
    let text = trim(launcher.game_path_text);
    if text.len() > 0 {
        Some(text)
    } else {
        None
    }
}

/// What starts the game.
pub open spec fn effective(m: AppModel) -> LauncherPlatform {
    resolved_platform(
        m.config.platform,
        selected_path(m.launcher),
        m.launcher.install_locations,
    )
}

/// What the file system says of the game's path.
#[derive(Debug, Clone, PartialEq, Eq)]
pub struct GameFile {
    pub exists: bool,
    pub is_file: bool,
    pub extension: Option<String>,
}

/// A path is named, and it is that of a program.
pub open spec fn path_valid(m: AppModel, file: GameFile) -> bool {
    selected_path(m.launcher) is Some && game_path_fault(
        file.exists,
        file.is_file,
        opt_view(file.extension),
    ) is None
}

/// The game can be started: Steam does so by a number, everything else needs its program.
pub open spec fn game_ready(m: AppModel, file: GameFile) -> bool {
    effective(m) == LauncherPlatform::Steam || path_valid(m, file)
}

/// The launcher hands the sync key to the game.
pub open spec fn ready(m: AppModel) -> bool {
    m.launcher.readiness.status == LauncherStatus::Ready || effective(m) == LauncherPlatform::Direct
}

/// The other store, if it has the game too: what a switch between the two leads to.
pub open spec fn switch_target(m: AppModel) -> Option<LauncherPlatform> {
    if effective(m) == LauncherPlatform::Steam && m.launcher.detected_epic_exe is Some {
        Some(LauncherPlatform::Epic)
    } else if effective(m) == LauncherPlatform::Epic && m.launcher.detected_steam {
        Some(LauncherPlatform::Steam)
    } else {
        None
    }
}

impl ArcTrackerSyncApp {
    /// The path that the text of the settings names, if any.
    pub fn selected_game_path(&self) -> (r: Option<String>)
        ensures
            opt_view(r) == selected_path(self@.launcher),
    {
        let text = trimmed(self.launcher.game_path_text.as_str());
        if text.as_str().is_empty() {
            None
        } else {
            Some(text)
        }
    }

    /// What starts the game.
    pub fn effective_platform(&self) -> (r: LauncherPlatform)
        ensures
            r == effective(self@),
    {
        match self.selected_game_path() {
            Some(path) => resolve_platform(
                self.config.platform,
                Some(path.as_str()),
                &self.launcher.install_locations,
            ),
            None => resolve_platform(
                self.config.platform,
                None,
                &self.launcher.install_locations,
            ),
        }
    }

    /// Whether a path is named and is that of a program.
    pub fn game_path_is_valid(&self, file: &GameFile) -> (r: bool)
        ensures
            r == path_valid(self@, *file),
    {
        if self.selected_game_path().is_none() {
            return false;
        }
        let extension = match &file.extension {
            Some(extension) => Some(extension.as_str()),
            None => None,
        };
        validate_game_executable(file.exists, file.is_file, extension).is_ok()
    }

    /// Whether the game can be started on the platform in effect.
    pub fn game_ready_for_platform(&self, file: &GameFile) -> (r: bool)
        ensures
            r == game_ready(self@, *file),
    {
        self.effective_platform() == LauncherPlatform::Steam || self.game_path_is_valid(file)
    }

    /// Whether the launcher hands the sync key to the game.
    pub fn launcher_ready(&self) -> (r: bool)
        ensures
            r == ready(self@),
    {
        self.launcher.readiness.status == LauncherStatus::Ready || self.effective_platform()
            == LauncherPlatform::Direct
    }

    /// The store that a switch would lead to, if a switch is to be offered: the
    /// other one of the two has the game as well.
    pub fn launcher_switch_target(&self) -> (r: Option<LauncherPlatform>)
        ensures
            r == switch_target(self@),
    {
        match self.effective_platform() {
            LauncherPlatform::Steam => if self.launcher.detected_epic_exe.is_some() {
                Some(LauncherPlatform::Epic)
            } else {
                None
            },
            LauncherPlatform::Epic => if self.launcher.detected_steam {
                Some(LauncherPlatform::Steam)
            } else {
                None
            },
            _ => None,
        }
    }
}

// ----- settings -------------------------------------------------------------------

/// The settings are to be written.
pub open spec fn configured(m: AppModel, config: ConfigModel) -> AppModel {
    requested(AppModel { config, ..m }, EffectModel::SaveConfig)
}

/// The path of the settings is what the text names. Where the platform was
/// left open, it is settled by the path.
pub open spec fn path_applied(m: AppModel) -> AppModel {
    let path = selected_path(m.launcher);
    configured(
        m,
        ConfigModel {
            game_executable_path: path,
            platform: resolved_platform(
                m.config.platform,
                path,
                m.launcher.install_locations,
            ),
            ..m.config
        },
    )
}

/// The text names another path.
pub open spec fn path_typed(m: AppModel, text: Seq<char>) -> AppModel {
    AppModel { launcher: LauncherModel { game_path_text: text, ..m.launcher }, ..m }
}

/// The path that a switch to `platform` fills in: Epic's copy of the game, as
/// found at the start or now, where no path is named yet.
pub open spec fn filled_path(
    m: AppModel,
    platform: LauncherPlatform,
    found: Option<Seq<char>>,
) -> Option<Seq<char>> {
    if platform == LauncherPlatform::Epic && selected_path(m.launcher) is None {
        match m.launcher.detected_epic_exe {
            Some(exe) => Some(exe),
            None => found,
        }
    } else {
        None
    }
}

/// The user chose a launcher.
pub open spec fn launcher_set(
    m: AppModel,
    platform: LauncherPlatform,
    found: Option<Seq<char>>,
) -> AppModel {
    let launcher = LauncherModel { force_close_available: false, ..m.launcher };
    match filled_path(m, platform, found) {
        Some(exe) => configured(
            AppModel { launcher: LauncherModel { game_path_text: exe, ..launcher }, ..m },
            ConfigModel { platform, game_executable_path: Some(exe), ..m.config },
        ),
        None => configured(
            AppModel { launcher, ..m },
            ConfigModel { platform, ..m.config },
        ),
    }
}

/// The path of the settings is what the text names.
pub open spec fn path_persisted(m: AppModel) -> AppModel {
    if selected_path(m.launcher) == m.config.game_executable_path {
        m
    } else {
        configured(
            m,
            ConfigModel { game_executable_path: selected_path(m.launcher), ..m.config },
        )
    }
}

/// The user asked for a file dialog.
pub open spec fn browsed(m: AppModel, dialogs: bool, picked: Option<Seq<char>>) -> AppModel {
    if !dialogs {
        pushed(
            m,
            "File dialogs cannot open while this binary carries CAP_NET_RAW (the desktop portal cannot identify the process). Type the game path under Settings instead."@,
        )
    } else {
        match picked {
            Some(path) => path_applied(path_typed(m, path)),
            None => m,
        }
    }
}

/// The settings were written, or the log says why not.
pub open spec fn save_told(m: AppModel, error: Option<Seq<char>>) -> AppModel {
    match error {
        Some(error) => pushed(m, "Could not save settings: "@ + error),
        None => m,
    }
}

impl ArcTrackerSyncApp {
    /// Takes in where Epic has installed games.
    pub fn refresh_install_locations(&mut self, locations: Vec<String>)
        requires
            old(self).wf(),
        ensures
            final(self)@ == (AppModel {
                launcher: LauncherModel {
                    install_locations: crate::text::views(locations@),
                    ..old(self)@.launcher
                },
                ..old(self)@
            }),
            final(self).wf(),
    {
        self.launcher.install_locations = locations;
    }

    /// Takes in whether the settings could be written.
    pub fn config_saved(&mut self, error: &Option<String>)
        requires
            old(self).wf(),
        ensures
            final(self)@ == save_told(old(self)@, opt_view(*error)),
            final(self).wf(),
    {
        if let Some(error) = error {
            let text = cat2("Could not save settings: ", error.as_str());
            self.push_message(text.as_str());
        }
    }

    /// Takes in what the user typed as the game's path.
    pub fn type_game_path(&mut self, text: &str)
        requires
            old(self).wf(),
        ensures
            final(self)@ == path_typed(old(self)@, text@),
            final(self).wf(),
    {
        self.launcher.game_path_text = text.to_owned();
    }

    /// Adopts the path that the text names, whether it was picked or typed.
    pub fn apply_game_path(&mut self)
        requires
            old(self).wf(),
        ensures
            final(self)@ == path_applied(old(self)@),
            final(self).wf(),
    {
        let platform = self.effective_platform();
        let path = self.selected_game_path();
        self.config.game_executable_path = path;
        if self.config.platform == LauncherPlatform::Auto {
            self.config.platform = platform;
        }
        self.request(Effect::SaveConfig);
    }

    fn fill_path(&mut self, exe: String)
        requires
            old(self).wf(),
        ensures
            final(self)@ == (AppModel {
                config: ConfigModel {
                    game_executable_path: Some(exe@),
                    ..old(self)@.config
                },
                launcher: LauncherModel { game_path_text: exe@, ..old(self)@.launcher },
                ..old(self)@
            }),
            final(self).wf(),
    {
        self.launcher.game_path_text = exe.clone();
        self.config.game_executable_path = Some(exe);
    }

    fn adopt_platform(&mut self, platform: LauncherPlatform)
        requires
            old(self).wf(),
        ensures
            final(self)@ == (AppModel {
                config: ConfigModel { platform, ..old(self)@.config },
                launcher: LauncherModel {
                    force_close_available: false,
                    ..old(self)@.launcher
                },
                ..old(self)@
            }),
            final(self).wf(),
    {
        self.config.platform = platform;
        self.launcher.force_close_available = false;
    }

    /// Switches to a launcher. Epic needs the game's program: where no path is
    /// named, `found` is filled in unless the start found one already.
    pub fn set_launcher(&mut self, platform: LauncherPlatform, found: &Option<String>)
        requires
            old(self).wf(),
        ensures
            final(self)@ == launcher_set(old(self)@, platform, opt_view(*found)),
            final(self).wf(),
    {
        let fill = platform == LauncherPlatform::Epic && self.selected_game_path().is_none();
        let exe = if !fill {
            None
        } else if self.launcher.detected_epic_exe.is_some() {
            copy_opt(&self.launcher.detected_epic_exe)
        } else {
            copy_opt(found)
        };
        self.adopt_platform(platform);
        if let Some(exe) = exe {
            self.fill_path(exe);
        }
        self.request(Effect::SaveConfig);
    }

    /// Keeps the path that the text names in the settings.
    pub fn persist_game_path(&mut self)
        requires
            old(self).wf(),
        ensures
            final(self)@ == path_persisted(old(self)@),
            final(self).wf(),
    {
        let next = self.selected_game_path();
        if opt_eq(&next, &self.config.game_executable_path) {
            return;
        }
        self.config.game_executable_path = next;
        self.request(Effect::SaveConfig);
    }

    /// Takes in what a file dialog brought. Where no dialog can open, the log
    /// says so: the button would else look broken.
    pub fn browse_game_executable(&mut self, dialogs: bool, picked: Option<&str>)
        requires
            old(self).wf(),
        ensures
            final(self)@ == browsed(old(self)@, dialogs, opt_str_view(picked)),
            final(self).wf(),
    {
        if !dialogs {
            self.push_message(
                "File dialogs cannot open while this binary carries CAP_NET_RAW (the desktop portal cannot identify the process). Type the game path under Settings instead.",
            );
            return;
        }
        if let Some(path) = picked {
            self.type_game_path(path);
            self.apply_game_path();
        }
    }
}

// ----- readiness ------------------------------------------------------------------

/// What was found of the processes that matter for readiness.
#[derive(Debug, Clone, PartialEq, Eq)]
pub struct ProcessFacts {
    /// The sync key variable in each process of the game.
    pub game: Vec<EnvReading>,
    /// The processes of the launcher in effect.
    pub launcher: LauncherScan,
}

/// Whether the launcher hands the sync key over, as far as is known.
pub open spec fn current_readiness(m: AppModel, facts: ProcessFacts) -> ReadinessModel {
    match m.capture.sync_key_source {
        Some(source) => readiness_of(effective(m), source.path, facts.game@, facts.launcher),
        None => ReadinessModel {
            platform: effective(m),
            status: LauncherStatus::Unknown,
            process_count: 0,
            detail: "Launch setup unavailable"@,
        },
    }
}

/// The launcher's readiness was looked into.
pub open spec fn readiness_refreshed(m: AppModel, facts: ProcessFacts, now: u64) -> AppModel {
    let known = AppModel {
        launcher: LauncherModel { readiness: current_readiness(m, facts), ..m.launcher },
        ..m
    };
    AppModel {
        launcher: LauncherModel {
            was_ready: m.launcher.was_ready || ready(known),
            last_check: now,
            ..known.launcher
        },
        ..known
    }
}

/// One of the searches found a process.
pub open spec fn some_found(found: Seq<Option<Vec<LauncherProcess>>>) -> bool {
    exists|i: int|
        0 <= i < found.len() && ((#[trigger] found[i]) matches Some(processes) && processes@.len()
            > 0)
}

/// The game was looked for under each of its names.
pub open spec fn game_checked(
    m: AppModel,
    found: Seq<Option<Vec<LauncherProcess>>>,
    now: u64,
) -> AppModel {
    AppModel {
        launcher: LauncherModel {
            game_running: some_found(found),
            last_game_check: now,
            ..m.launcher
        },
        ..m
    }
}

/// It is time to look into the launcher's readiness.
pub open spec fn launcher_due(m: AppModel, now: u64) -> bool {
    since(m.launcher.last_check, now) >= 2 * SECOND
}

/// It is time to look for the game.
pub open spec fn game_due(m: AppModel, now: u64) -> bool {
    since(m.launcher.last_game_check, now) >= 3 * SECOND
}

impl ArcTrackerSyncApp {
    fn find_readiness(&self, facts: &ProcessFacts) -> (r: LauncherReadiness)
        ensures
            r@ == current_readiness(self@, *facts),
    {
        let path = self.selected_game_path();
        let game = match &path {
            Some(path) => Some(path.as_str()),
            None => None,
        };
        match &self.capture.sync_key_source {
            Some(source) => launcher_readiness(
                self.config.platform,
                game,
                &self.launcher.install_locations,
                source.path.as_str(),
                &facts.game,
                &facts.launcher,
            ),
            None => LauncherReadiness {
                platform: self.effective_platform(),
                status: LauncherStatus::Unknown,
                process_count: 0,
                detail: "Launch setup unavailable".to_owned(),
            },
        }
    }

    fn adopt_readiness(&mut self, readiness: LauncherReadiness)
        requires
            old(self).wf(),
        ensures
            final(self)@ == (AppModel {
                launcher: LauncherModel { readiness: readiness@, ..old(self)@.launcher },
                ..old(self)@
            }),
            final(self).wf(),
    {
        self.launcher.readiness = readiness;
    }

    /// Takes in what was found of the launcher's and the game's processes.
    pub fn refresh_launcher_readiness(&mut self, facts: &ProcessFacts, now: u64)
        requires
            old(self).wf(),
        ensures
            final(self)@ == readiness_refreshed(old(self)@, *facts, now),
            final(self).wf(),
    {
        let readiness = self.find_readiness(facts);
        self.adopt_readiness(readiness);
        let is_ready = self.launcher_ready();
        if is_ready {
            self.launcher.was_ready = true;
        }
        self.launcher.last_check = now;
    }

    /// Whether it is time to look into the launcher's readiness.
    pub fn launcher_check_due(&self, now: u64) -> (r: bool)
        ensures
            r == launcher_due(self@, now),
    {
        elapsed(self.launcher.last_check, now) >= 2 * SECOND
    }

    /// Takes in the processes found under each of the game's names; a search
    /// that failed found none.
    pub fn refresh_game_running(
        &mut self,
        found: &Vec<Option<Vec<LauncherProcess>>>,
        now: u64,
    )
        requires
            old(self).wf(),
        ensures
            final(self)@ == game_checked(old(self)@, found@, now),
            final(self).wf(),
    {
        self.launcher.game_running = any_process(found);
        self.launcher.last_game_check = now;
    }

    /// Whether it is time to look for the game.
    pub fn game_check_due(&self, now: u64) -> (r: bool)
        ensures
            r == game_due(self@, now),
    {
        elapsed(self.launcher.last_game_check, now) >= 3 * SECOND
    }
}

/// Whether one of the searches found a process.
pub fn any_process(found: &Vec<Option<Vec<LauncherProcess>>>) -> (r: bool)
    ensures
        r == some_found(found@),
{
    let mut i: usize = 0;
    while i < found.len()
        invariant
            i <= found@.len(),
            forall|k: int|
                0 <= k < i ==> !((#[trigger] found@[k]) matches Some(processes)
                    && processes@.len() > 0),
        decreases found.len() - i,
    {
        if let Some(processes) = &found[i] {
            if processes.len() > 0 {
                return true;
            }
        }
        i += 1;
    }
    false
}

// ----- preparing the launcher -----------------------------------------------------

/// Why no plan can be made.
pub open spec fn plan_fault(
    m: AppModel,
    steam: Seq<PathProbe>,
    epic: Seq<PathProbe>,
) -> Option<Seq<char>> {
    if m.capture.sync_key_source is None {
        Some("Launch setup unavailable"@)
    } else {
        match launcher_missing(effective(m), m.host, steam, epic) {
            Some(error) => Some(launch_error_text(error)),
            None => None,
        }
    }
}

/// The path of the game is kept in the settings, and a preparation begins, if
/// the game can be started and a plan can be made.
pub open spec fn prepare_begun(
    m: AppModel,
    file: GameFile,
    steam: Seq<PathProbe>,
    epic: Seq<PathProbe>,
) -> AppModel {
    let kept = path_persisted(m);
    if !game_ready(m, file) {
        kept
    } else {
        match plan_fault(m, steam, epic) {
            Some(error) => pushed(kept, "Launcher setup failed: "@ + error),
            None => AppModel {
                launcher: LauncherModel { preparing: true, ..kept.launcher },
                ..kept
            },
        }
    }
}

/// What the end of a preparation depends on.
#[derive(Debug, Clone, PartialEq, Eq)]
pub struct PrepareFacts {
    pub processes: ProcessFacts,
    pub now: u64,
    pub elevated: bool,
    /// The sync key of the plan exists and is a file.
    pub key_is_file: bool,
}

/// The launcher runs with the sync key.
pub open spec fn prepare_succeeded(
    m: AppModel,
    plan: LauncherSetupPlan,
    facts: PrepareFacts,
) -> AppModel {
    let done = readiness_refreshed(
        AppModel {
            launcher: LauncherModel {
                preparing: false,
                force_close_available: false,
                ..m.launcher
            },
            capture: CaptureModel {
                sync_key_source: Some(plan.setup_source@),
                ..m.capture
            },
            ..m
        },
        facts.processes,
        facts.now,
    );
    capture_started(
        pushed(
            AppModel { launcher: LauncherModel { was_ready: true, ..done.launcher }, ..done },
            platform_label(plan.platform) + " is ready"@,
        ),
        facts.elevated,
        facts.key_is_file,
    )
}

/// A preparation ended: the launcher runs with the sync key, it did not close
/// when asked to, or something failed.
pub open spec fn prepare_ended(
    m: AppModel,
    plan: LauncherSetupPlan,
    outcome: Result<PrepareOutcome, String>,
    facts: PrepareFacts,
) -> AppModel {
    match outcome {
        Ok(PrepareOutcome::Ready) => prepare_succeeded(m, plan, facts),
        Ok(PrepareOutcome::StillRunning) => readiness_refreshed(
            pushed(
                AppModel {
                    launcher: LauncherModel {
                        preparing: false,
                        force_close_available: true,
                        ..m.launcher
                    },
                    ..m
                },
                platform_label(plan.platform) + " needs to close"@,
            ),
            facts.processes,
            facts.now,
        ),
        Err(error) => readiness_refreshed(
            pushed(
                AppModel { launcher: LauncherModel { preparing: false, ..m.launcher }, ..m },
                "Launcher setup failed: "@ + error@,
            ),
            facts.processes,
            facts.now,
        ),
    }
}

impl ArcTrackerSyncApp {
    /// The plan for the launch, or why there is none.
    pub fn selected_setup_plan(
        &self,
        steam_candidates: &Vec<PathProbe>,
        epic_candidates: &Vec<PathProbe>,
    ) -> (r: Result<LauncherSetupPlan, String>)
        ensures
            match r {
                Ok(plan) => {
                    &&& plan_fault(self@, steam_candidates@, epic_candidates@) is None
                    &&& self@.capture.sync_key_source == Some(plan.setup_source@)
                    &&& is_plan(
                        Ok(plan),
                        effective(self@),
                        selected_path(self@.launcher),
                        plan.setup_source,
                        self@.host,
                        steam_candidates@,
                        epic_candidates@,
                    )
                },
                Err(error) => plan_fault(self@, steam_candidates@, epic_candidates@) == Some(
                    error@,
                ),
            },
    {
        let source = match &self.capture.sync_key_source {
            Some(source) => source.copy(),
            None => return Err("Launch setup unavailable".to_owned()),
        };
        let path = self.selected_game_path();
        let game = match &path {
            Some(path) => Some(path.as_str()),
            None => None,
        };
        let plan = LauncherSetupPlan::build(
            self.config.platform,
            game,
            &self.launcher.install_locations,
            source,
            self.host,
            steam_candidates,
            epic_candidates,
        );
        match plan {
            Ok(plan) => Ok(plan),
            Err(error) => Err(error.message().to_owned()),
        }
    }

    /// Keeps the path of the game in the settings and begins a preparation;
    /// `None` where it does not come to that.
    pub fn begin_preparing_launcher(
        &mut self,
        file: &GameFile,
        steam_candidates: &Vec<PathProbe>,
        epic_candidates: &Vec<PathProbe>,
    ) -> (r: Option<LauncherSetupPlan>)
        requires
            old(self).wf(),
        ensures
            final(self)@ == prepare_begun(
                old(self)@,
                *file,
                steam_candidates@,
                epic_candidates@,
            ),
            final(self).wf(),
            match r {
                Some(plan) => {
                    &&& game_ready(old(self)@, *file)
                    &&& old(self)@.capture.sync_key_source == Some(plan.setup_source@)
                    &&& is_plan(
                        Ok(plan),
                        effective(old(self)@),
                        selected_path(old(self)@.launcher),
                        plan.setup_source,
                        old(self)@.host,
                        steam_candidates@,
                        epic_candidates@,
                    )
                },
                None => !game_ready(old(self)@, *file) || plan_fault(
                    old(self)@,
                    steam_candidates@,
                    epic_candidates@,
                ) is Some,
            },
    {
        self.persist_game_path();
        if !self.game_ready_for_platform(file) {
            return None;
        }
        match self.selected_setup_plan(steam_candidates, epic_candidates) {
            Ok(plan) => {
                self.launcher.preparing = true;
                Some(plan)
            },
            Err(error) => {
                let text = cat2("Launcher setup failed: ", error.as_str());
                self.push_message(text.as_str());
                None
            },
        }
    }

    fn stop_preparing(&mut self, force_close: Option<bool>)
        requires
            old(self).wf(),
        ensures
            final(self)@ == (AppModel {
                launcher: LauncherModel {
                    preparing: false,
                    force_close_available: match force_close {
                        Some(available) => available,
                        None => old(self)@.launcher.force_close_available,
                    },
                    ..old(self)@.launcher
                },
                ..old(self)@
            }),
            final(self).wf(),
    {
        self.launcher.preparing = false;
        if let Some(available) = force_close {
            self.launcher.force_close_available = available;
        }
    }

    fn adopt_planned_key(&mut self, plan: &LauncherSetupPlan)
        requires
            old(self).wf(),
        ensures
            final(self)@ == (AppModel {
                capture: CaptureModel {
                    sync_key_source: Some(plan.setup_source@),
                    ..old(self)@.capture
                },
                ..old(self)@
            }),
            final(self).wf(),
    {
        self.capture.sync_key_source = Some(plan.setup_source.copy());
    }

    fn remember_ready(&mut self)
        requires
            old(self).wf(),
        ensures
            final(self)@ == (AppModel {
                launcher: LauncherModel { was_ready: true, ..old(self)@.launcher },
                ..old(self)@
            }),
            final(self).wf(),
    {
        self.launcher.was_ready = true;
    }

    fn succeed_preparing(&mut self, plan: &LauncherSetupPlan, facts: &PrepareFacts)
        requires
            old(self).wf(),
        ensures
            final(self)@ == prepare_succeeded(old(self)@, *plan, *facts),
            final(self).wf(),
    {
        let text = cat2(plan.platform.label(), " is ready");
        self.stop_preparing(Some(false));
        self.adopt_planned_key(plan);
        self.refresh_launcher_readiness(&facts.processes, facts.now);
        self.remember_ready();
        self.push_message(text.as_str());
        self.maybe_start_background_capture(facts.elevated, facts.key_is_file);
    }

    /// Takes in how a preparation ended. A launcher that runs with the sync key
    /// lets the capture start; one that did not close may be forced to.
    pub fn prepare_launcher(
        &mut self,
        plan: &LauncherSetupPlan,
        outcome: &Result<PrepareOutcome, String>,
        facts: &PrepareFacts,
    )
        requires
            old(self).wf(),
        ensures
            final(self)@ == prepare_ended(old(self)@, *plan, *outcome, *facts),
            final(self).wf(),
    {
        match outcome {
            Ok(PrepareOutcome::Ready) => self.succeed_preparing(plan, facts),
            Ok(PrepareOutcome::StillRunning) => {
                let text = cat2(plan.platform.label(), " needs to close");
                self.stop_preparing(Some(true));
                self.push_message(text.as_str());
                self.refresh_launcher_readiness(&facts.processes, facts.now);
            },
            Err(error) => {
                let text = cat2("Launcher setup failed: ", error.as_str());
                self.stop_preparing(None);
                self.push_message(text.as_str());
                self.refresh_launcher_readiness(&facts.processes, facts.now);
            },
        }
    }
}

} // verus!
