//! Getting a launcher to run with the sync key: what it takes, in which order.

use vstd::prelude::*;

use crate::launch::discovery::{first_present, steam_missing, steam_program};
use crate::launch::paths::resolved_platform;
use crate::launch::sync_key::told_to_launcher;
use crate::launch::{
    find_epic_launcher_exe, find_steam_exe, resolve_platform, HostOs, LaunchError,
    LauncherPlatform, PathProbe, SyncKeySource,
};
use crate::process_env::LauncherProcess;
use crate::text::{cat2, cat3};
use crate::text::{opt_str_view, opt_view, views};

verus! {

/// Everything that starting a launcher takes.
#[derive(Debug, Clone, PartialEq, Eq)]
pub struct LauncherSetupPlan {
    pub platform: LauncherPlatform,
    pub setup_source: SyncKeySource,
    pub game_executable: Option<String>,
    pub steam_exe: Option<String>,
    pub epic_launcher_exe: Option<String>,
}

/// The launcher program that a platform needs is missing.
pub open spec fn launcher_missing(
    platform: LauncherPlatform,
    host: HostOs,
    steam: Seq<PathProbe>,
    epic: Seq<PathProbe>,
) -> Option<LaunchError> {
    if platform == LauncherPlatform::Steam && steam_program(host, steam) is None {
        Some(steam_missing(host))
    } else if platform == LauncherPlatform::Epic && first_present(epic) is None {
        Some(LaunchError::EpicLauncherNotFound)
    } else {
        None
    }
}

/// The plan for a launch on `platform`, or the error where its launcher is missing.
pub open spec fn is_plan(
    r: Result<LauncherSetupPlan, LaunchError>,
    platform: LauncherPlatform,
    game_executable: Option<Seq<char>>,
    setup_source: SyncKeySource,
    host: HostOs,
    steam: Seq<PathProbe>,
    epic: Seq<PathProbe>,
) -> bool {
    let fault = launcher_missing(platform, host, steam, epic);
    match r {
        Ok(plan) => {
            &&& fault is None
            &&& plan.platform == platform
            &&& plan.setup_source == setup_source
            &&& opt_view(plan.game_executable) == game_executable
            &&& opt_view(plan.steam_exe) == (if platform == LauncherPlatform::Steam {
                steam_program(host, steam)
            } else {
                None
            })
            &&& opt_view(plan.epic_launcher_exe) == (if platform == LauncherPlatform::Epic {
                first_present(epic)
            } else {
                None
            })
        },
        Err(error) => fault == Some(error),
    }
}

impl LauncherSetupPlan {
    /// Plans the launch on the platform in effect; fails where its launcher is
    /// not found.
    pub fn build(
        selected_platform: LauncherPlatform,
        game_executable: Option<&str>,
        install_locations: &Vec<String>,
        setup_source: SyncKeySource,
        host: HostOs,
        steam_candidates: &Vec<PathProbe>,
        epic_candidates: &Vec<PathProbe>,
    ) -> (r: Result<Self, LaunchError>)
        ensures
            is_plan(
                r,
                resolved_platform(
                    selected_platform,
                    opt_str_view(game_executable),
                    views(install_locations@),
                ),
                opt_str_view(game_executable),
                setup_source,
                host,
                steam_candidates@,
                epic_candidates@,
            ),
    {
        let platform = resolve_platform(selected_platform, game_executable, install_locations);
        let game_executable = match game_executable {
            Some(path) => Some(path.to_owned()),
            None => None,
        };
        let steam_exe = if platform == LauncherPlatform::Steam {
            match find_steam_exe(host, steam_candidates) {
                Ok(path) => Some(path),
                Err(error) => return Err(error),
            }
        } else {
            None
        };
        let epic_launcher_exe = if platform == LauncherPlatform::Epic {
            match find_epic_launcher_exe(epic_candidates) {
                Ok(path) => Some(path),
                Err(error) => return Err(error),
            }
        } else {
            None
        };
        Ok(
            LauncherSetupPlan {
                platform,
                setup_source,
                game_executable,
                steam_exe,
                epic_launcher_exe,
            },
        )
    }

    /// The sync key path that has to be put into the launcher's environment;
    /// `None` where the launcher inherits it.
    pub fn explicit_sync_key_path(&self) -> (r: Option<&str>)
        ensures
            opt_str_view(r) == explicit_path(*self),
    {
        if self.setup_source.needs_explicit_child_env() {
            Some(self.setup_source.path.as_str())
        } else {
            None
        }
    }
}

/// The sync key path that has to be put into the launcher's environment.
pub open spec fn explicit_path(plan: LauncherSetupPlan) -> Option<Seq<char>> {
    if told_to_launcher(plan.setup_source.kind) {
        Some(plan.setup_source.path@)
    } else {
        None
    }
}

/// How a preparation ends.
#[derive(Debug, Clone, Copy, PartialEq, Eq, Structural)]
pub enum PrepareOutcome {
    Ready,
    StillRunning,
}

/// What is to be done next while a launcher is prepared.
#[derive(Debug, Clone, Copy, PartialEq, Eq, Structural)]
pub enum PrepareStep {
    /// Look for running processes of the launcher.
    Scan,
    /// End those processes.
    ForceClose,
    /// Ask the launcher to end them.
    AskToClose,
    /// Wait until they are gone, or for too long.
    AwaitExit,
    /// Empty the sync key file, if it is the program's own.
    EmptySyncKey,
    /// Start the launcher.
    StartLauncher,
    /// Nothing is left to do.
    Finished(PrepareOutcome),
}

/// How long the launcher may take to close, in milliseconds.
pub const CLOSE_TIMEOUT_MS: u64 = 20000;

/// The pause between two looks at a closing launcher, in milliseconds.
pub const CLOSE_POLL_MS: u64 = 500;

/// A platform without a launcher process.
pub open spec fn has_no_launcher(platform: LauncherPlatform) -> bool {
    platform == LauncherPlatform::Auto || platform == LauncherPlatform::Direct
}

/// The first step of a preparation.
pub open spec fn first_prepare_step(platform: LauncherPlatform) -> PrepareStep {
    if has_no_launcher(platform) {
        PrepareStep::EmptySyncKey
    } else {
        PrepareStep::Scan
    }
}

/// The step after `step`. `found` is what `Scan` and `AwaitExit` found: that
/// the launcher runs, that it is gone.
pub open spec fn next_prepare_step(
    platform: LauncherPlatform,
    force_close: bool,
    step: PrepareStep,
    found: bool,
) -> PrepareStep {
    match step {
        PrepareStep::Scan => if !found {
            PrepareStep::EmptySyncKey
        } else if force_close {
            PrepareStep::ForceClose
        } else {
            PrepareStep::AskToClose
        },
        PrepareStep::ForceClose | PrepareStep::AskToClose => PrepareStep::AwaitExit,
        PrepareStep::AwaitExit => if found {
            PrepareStep::EmptySyncKey
        } else {
            PrepareStep::Finished(PrepareOutcome::StillRunning)
        },
        PrepareStep::EmptySyncKey => if has_no_launcher(platform) {
            PrepareStep::Finished(PrepareOutcome::Ready)
        } else {
            PrepareStep::StartLauncher
        },
        PrepareStep::StartLauncher => PrepareStep::Finished(PrepareOutcome::Ready),
        PrepareStep::Finished(outcome) => PrepareStep::Finished(outcome),
    }
}

/// Begins to prepare a launcher: the first thing to do.
pub fn prepare_launcher(plan: &LauncherSetupPlan) -> (r: PrepareStep)
    ensures
        r == first_prepare_step(plan.platform),
{
    match plan.platform {
        LauncherPlatform::Auto | LauncherPlatform::Direct => PrepareStep::EmptySyncKey,
        LauncherPlatform::Steam | LauncherPlatform::Epic => PrepareStep::Scan,
    }
}

/// Goes on with a preparation: what to do once `step` is done and has found
/// what it found. A step that fails ends the preparation with its error.
pub fn continue_preparing(
    plan: &LauncherSetupPlan,
    force_close: bool,
    step: PrepareStep,
    found: bool,
) -> (r: PrepareStep)
    ensures
        r == next_prepare_step(plan.platform, force_close, step, found),
{
    match step {
        PrepareStep::Scan => if !found {
            PrepareStep::EmptySyncKey
        } else if force_close {
            PrepareStep::ForceClose
        } else {
            PrepareStep::AskToClose
        },
        PrepareStep::ForceClose | PrepareStep::AskToClose => PrepareStep::AwaitExit,
        PrepareStep::AwaitExit => if found {
            PrepareStep::EmptySyncKey
        } else {
            PrepareStep::Finished(PrepareOutcome::StillRunning)
        },
        PrepareStep::EmptySyncKey => match plan.platform {
            LauncherPlatform::Auto | LauncherPlatform::Direct => PrepareStep::Finished(
                PrepareOutcome::Ready,
            ),
            LauncherPlatform::Steam | LauncherPlatform::Epic => PrepareStep::StartLauncher,
        },
        PrepareStep::StartLauncher => PrepareStep::Finished(PrepareOutcome::Ready),
        PrepareStep::Finished(outcome) => PrepareStep::Finished(outcome),
    }
}

/// How many steps at most are still to come.
pub open spec fn steps_left(step: PrepareStep) -> nat {
    match step {
        PrepareStep::Scan => 5,
        PrepareStep::ForceClose | PrepareStep::AskToClose => 4,
        PrepareStep::AwaitExit => 3,
        PrepareStep::EmptySyncKey => 2,
        PrepareStep::StartLauncher => 1,
        PrepareStep::Finished(_) => 0,
    }
}

/// Every preparation ends, after five steps at most.
pub proof fn law_preparation_ends(
    platform: LauncherPlatform,
    force_close: bool,
    step: PrepareStep,
    found: bool,
)
    ensures
        step !is Finished ==> steps_left(next_prepare_step(platform, force_close, step, found))
            < steps_left(step),
        steps_left(first_prepare_step(platform)) <= 5,
{
}

/// The sync key file is emptied only where no launcher runs: there is none,
/// none was found, or the one that was found is gone.
pub proof fn law_key_is_emptied_only_without_launcher(
    platform: LauncherPlatform,
    force_close: bool,
    step: PrepareStep,
    found: bool,
)
    requires
        next_prepare_step(platform, force_close, step, found) == PrepareStep::EmptySyncKey,
    ensures
        (step == PrepareStep::Scan && !found) || (step == PrepareStep::AwaitExit && found),
        first_prepare_step(platform) == PrepareStep::EmptySyncKey ==> has_no_launcher(platform),
{
}

/// The launcher is started only after the sync key file was emptied, and
/// `Ready` is reported only after that, too.
pub proof fn law_launcher_starts_with_a_fresh_key(
    platform: LauncherPlatform,
    force_close: bool,
    step: PrepareStep,
    found: bool,
)
    ensures
        ({
            let next = next_prepare_step(platform, force_close, step, found);
            &&& next == PrepareStep::StartLauncher ==> step == PrepareStep::EmptySyncKey
            &&& next == PrepareStep::Finished(PrepareOutcome::Ready) && step !is Finished ==> step
                == PrepareStep::EmptySyncKey || step == PrepareStep::StartLauncher
            &&& next == PrepareStep::Finished(PrepareOutcome::StillRunning) && step !is Finished
                ==> step == PrepareStep::AwaitExit && !found
        }),
{
}

// ----- waiting --------------------------------------------------------------------

/// What to do after a look at a closing launcher.
#[derive(Debug, Clone, Copy, PartialEq, Eq, Structural)]
pub enum WaitDecision {
    Gone,
    LookAgain,
    GaveUp,
}

/// What is decided after a look that began so long after the wait did.
pub open spec fn wait_decision(elapsed_ms: u64, timeout_ms: u64, gone: bool) -> WaitDecision {
    if gone {
        WaitDecision::Gone
    } else if elapsed_ms < timeout_ms {
        WaitDecision::LookAgain
    } else {
        WaitDecision::GaveUp
    }
}

/// Decides after each look: `elapsed_ms` is how long the wait had lasted when
/// the look began, `gone` what it found. A look that began in time is repeated
/// after a pause, a later one is the last.
pub fn wait_until_process_exits(elapsed_ms: u64, timeout_ms: u64, gone: bool) -> (r: WaitDecision)
    ensures
        r == wait_decision(elapsed_ms, timeout_ms, gone),
{
    if gone {
        WaitDecision::Gone
    } else if elapsed_ms < timeout_ms {
        WaitDecision::LookAgain
    } else {
        WaitDecision::GaveUp
    }
}

// ----- commands -------------------------------------------------------------------

/// A program to start.
#[derive(Debug, Clone, PartialEq, Eq)]
pub struct SpawnCommand {
    pub program: String,
    pub args: Vec<String>,
    /// The value of the sync key variable, if it is set for the program.
    pub sync_key: Option<String>,
    /// Whether the program gets no input and shows no output.
    pub quiet: bool,
    /// What a failure to start is called.
    pub context: String,
}

/// What a command says.
#[verifier::ext_equal]
pub struct CommandModel {
    pub program: Seq<char>,
    pub args: Seq<Seq<char>>,
    pub sync_key: Option<Seq<char>>,
    pub quiet: bool,
    pub context: Seq<char>,
}

impl View for SpawnCommand {
    type V = CommandModel;

    open spec fn view(&self) -> CommandModel {
        CommandModel {
            program: self.program@,
            args: views(self.args@),
            sync_key: opt_view(self.sync_key),
            quiet: self.quiet,
            context: self.context@,
        }
    }
}

/// What an optional command says.
pub open spec fn opt_command(command: Option<SpawnCommand>) -> Option<CommandModel> {
    match command {
        Some(command) => Some(command@),
        None => None,
    }
}

/// Starts a launcher program with the sync key of the plan.
pub open spec fn start_command(program: Seq<char>, plan: LauncherSetupPlan) -> CommandModel {
    CommandModel {
        program,
        args: Seq::empty(),
        sync_key: explicit_path(plan),
        quiet: false,
        context: "starting "@ + program,
    }
}

/// How the plan's launcher is started, or why it cannot be.
pub open spec fn start_of(plan: LauncherSetupPlan) -> Result<Option<CommandModel>, LaunchError> {
    match plan.platform {
        LauncherPlatform::Steam => match plan.steam_exe {
            Some(exe) => Ok(Some(start_command(exe@, plan))),
            None => Err(LaunchError::SteamPathUnavailable),
        },
        LauncherPlatform::Epic => match plan.epic_launcher_exe {
            Some(exe) => Ok(Some(start_command(exe@, plan))),
            None => Err(LaunchError::EpicPathUnavailable),
        },
        LauncherPlatform::Direct | LauncherPlatform::Auto => Ok(None),
    }
}

fn start_program(program: &String, plan: &LauncherSetupPlan) -> (r: SpawnCommand)
    ensures
        r@ == start_command(program@, *plan),
{
    let sync_key = match plan.explicit_sync_key_path() {
        Some(path) => Some(path.to_owned()),
        None => None,
    };
    let args: Vec<String> = Vec::new();
    SpawnCommand {
        program: program.clone(),
        args,
        sync_key,
        quiet: false,
        context: cat2("starting ", program.as_str()),
    }
}

pub fn start_launcher_with_setup(plan: &LauncherSetupPlan) -> (r: Result<
    Option<SpawnCommand>,
    LaunchError,
>)
    ensures
        match r {
            Ok(command) => start_of(*plan) == Ok::<Option<CommandModel>, LaunchError>(
                opt_command(command),
            ),
            Err(error) => start_of(*plan) == Err::<Option<CommandModel>, LaunchError>(error),
        },
{
    match plan.platform {
        LauncherPlatform::Steam => match &plan.steam_exe {
            Some(exe) => Ok(Some(start_program(exe, plan))),
            None => Err(LaunchError::SteamPathUnavailable),
        },
        LauncherPlatform::Epic => match &plan.epic_launcher_exe {
            Some(exe) => Ok(Some(start_program(exe, plan))),
            None => Err(LaunchError::EpicPathUnavailable),
        },
        LauncherPlatform::Direct | LauncherPlatform::Auto => Ok(None),
    }
}

/// How the plan's launcher is asked to close, or why it cannot be.
pub open spec fn close_of(plan: LauncherSetupPlan) -> Result<Option<CommandModel>, LaunchError> {
    match plan.platform {
        LauncherPlatform::Steam => match plan.steam_exe {
            Some(exe) => Ok(
                Some(
                    CommandModel {
                        program: exe@,
                        args: seq!["-shutdown"@],
                        sync_key: None,
                        quiet: true,
                        context: "asking "@ + exe@ + " to close"@,
                    },
                ),
            ),
            None => Err(LaunchError::SteamPathUnavailable),
        },
        LauncherPlatform::Epic => Ok(
            Some(
                CommandModel {
                    program: "taskkill"@,
                    args: seq!["/IM"@, "EpicGamesLauncher.exe"@, "/T"@],
                    sync_key: None,
                    quiet: true,
                    context: "asking Epic Games Launcher to close"@,
                },
            ),
        ),
        LauncherPlatform::Auto | LauncherPlatform::Direct => Ok(None),
    }
}

pub fn graceful_close_launcher(plan: &LauncherSetupPlan) -> (r: Result<
    Option<SpawnCommand>,
    LaunchError,
>)
    ensures
        match r {
            Ok(command) => close_of(*plan) == Ok::<Option<CommandModel>, LaunchError>(
                opt_command(command),
            ),
            Err(error) => close_of(*plan) == Err::<Option<CommandModel>, LaunchError>(error),
        },
{
    match plan.platform {
        LauncherPlatform::Steam => match &plan.steam_exe {
            Some(exe) => {
                let args: Vec<String> = vec!["-shutdown".to_owned()];
                assert(views(args@) =~= seq!["-shutdown"@]);
                Ok(
                    Some(
                        SpawnCommand {
                            program: exe.clone(),
                            args,
                            sync_key: None,
                            quiet: true,
                            context: cat3("asking ", exe.as_str(), " to close"),
                        },
                    ),
                )
            },
            None => Err(LaunchError::SteamPathUnavailable),
        },
        LauncherPlatform::Epic => {
            let args: Vec<String> = vec![
                "/IM".to_owned(),
                "EpicGamesLauncher.exe".to_owned(),
                "/T".to_owned(),
            ];
            assert(views(args@) =~= seq!["/IM"@, "EpicGamesLauncher.exe"@, "/T"@]);
            Ok(
                Some(
                    SpawnCommand {
                        program: "taskkill".to_owned(),
                        args,
                        sync_key: None,
                        quiet: true,
                        context: "asking Epic Games Launcher to close".to_owned(),
                    },
                ),
            )
        },
        LauncherPlatform::Auto | LauncherPlatform::Direct => Ok(None),
    }
}

/// How Windows ends the processes that were found: all that share the first one's name.
pub open spec fn task_kill_of(processes: Seq<LauncherProcess>) -> Option<CommandModel> {
    if processes.len() == 0 {
        None
    } else {
        let name = processes[0].name@;
        Some(
            CommandModel {
                program: "taskkill"@,
                args: seq!["/F"@, "/IM"@, name, "/T"@],
                sync_key: None,
                quiet: true,
                context: "force closing "@ + name,
            },
        )
    }
}

/// The command that ends the processes on Windows.
pub fn force_close_command(processes: &Vec<LauncherProcess>) -> (r: Option<SpawnCommand>)
    ensures
        opt_command(r) == task_kill_of(processes@),
{
    if processes.len() == 0 {
        return None;
    }
    let name = &processes[0].name;
    let args: Vec<String> = vec![
        "/F".to_owned(),
        "/IM".to_owned(),
        name.clone(),
        "/T".to_owned(),
    ];
    Some(
        SpawnCommand {
            program: "taskkill".to_owned(),
            args,
            sync_key: None,
            quiet: true,
            context: cat2("force closing ", name.as_str()),
        },
    )
}

/// The numbers of the processes, in order.
pub open spec fn pids_of(processes: Seq<LauncherProcess>) -> Seq<u32> {
    processes.map_values(|p: LauncherProcess| p.pid)
}

/// The processes that are sent a kill signal on Linux: each of those found.
pub fn force_close_pids(processes: &Vec<LauncherProcess>) -> (r: Vec<u32>)
    ensures
        r@ == pids_of(processes@),
{
    let ghost all = processes@.map_values(|p: LauncherProcess| p.pid);
    let mut r: Vec<u32> = Vec::new();
    let mut i: usize = 0;
    while i < processes.len()
        invariant
            i <= processes@.len(),
            all == processes@.map_values(|p: LauncherProcess| p.pid),
            r@ == all.take(i as int),
        decreases processes.len() - i,
    {
        r.push(processes[i].pid);
        i += 1;
    }
    r
}

} // verus!
