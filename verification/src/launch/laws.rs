//! What a launch is for: laws on the plan, the commands, the order of the steps
//! and what tells a launcher ready.

use vstd::prelude::*;

use crate::launch::discovery::{first_present, steam_missing, steam_program};
use crate::launch::paths::{
    epic_path, normalized_path, resolved_platform, same_path, steam_path, under,
};
use crate::launch::prepare::{
    close_of, explicit_path, first_prepare_step, is_plan, next_prepare_step, pids_of, start_of,
    task_kill_of, wait_decision, CommandModel, LauncherSetupPlan, PrepareOutcome, PrepareStep, WaitDecision,
    CLOSE_POLL_MS, CLOSE_TIMEOUT_MS,
};
use crate::launch::readiness::{first_failure, holds_key, readiness_of, some_holds_key};
use crate::launch::sync_key::{emptied_file, resolves_to, SyncKeyResolution};
use crate::launch::{
    game_process_names, platform_label, platform_process, EnvReading, HostOs, LaunchError,
    LauncherPlatform, LauncherScan, LauncherStatus, PathProbe, SyncKeySource, SyncKeySourceKind,
};
use crate::process_env::LauncherProcess;
use crate::text::{contains, has_at, lower, lower_char, opt_view, replaced, trim, white_space};
use crate::text_laws::{law_lower, law_trim_finds_the_text, lemma_trim_keeps};

verus! {

// ----- the plan -------------------------------------------------------------------

/// A plan for Steam or Epic has the program of its launcher, and none is made
/// without; a direct launch needs none. The plan keeps the game's path and the
/// sync key as they were given.
pub proof fn law_plan_has_its_launcher(
    r: Result<LauncherSetupPlan, LaunchError>,
    platform: LauncherPlatform,
    game: Option<Seq<char>>,
    source: SyncKeySource,
    host: HostOs,
    steam: Seq<PathProbe>,
    epic: Seq<PathProbe>,
)
    requires
        is_plan(r, platform, game, source, host, steam, epic),
    ensures
        platform == LauncherPlatform::Direct || platform == LauncherPlatform::Auto ==> r is Ok,
        platform == LauncherPlatform::Steam ==> (r is Ok <==> steam_program(host, steam) is Some),
        platform == LauncherPlatform::Epic ==> (r is Ok <==> exists|i: int|
            0 <= i < epic.len() && (#[trigger] epic[i]).exists),
        r matches Ok(plan) ==> {
            &&& plan.platform == platform
            &&& plan.setup_source.path@ == source.path@ && plan.setup_source.kind == source.kind
            &&& opt_view(plan.game_executable) == game
            &&& platform == LauncherPlatform::Steam ==> plan.steam_exe is Some && Some(
                plan.steam_exe->0@,
            ) == steam_program(host, steam)
            &&& platform == LauncherPlatform::Epic ==> plan.epic_launcher_exe is Some && exists|
                i: int,
            |
                0 <= i < epic.len() && (#[trigger] epic[i]).exists && epic[i].path@
                    == plan.epic_launcher_exe->0@
        },
        r matches Err(error) ==> error == if platform == LauncherPlatform::Epic {
            LaunchError::EpicLauncherNotFound
        } else {
            steam_missing(host)
        },
{
    law_first_present(epic);
}

/// The first path that exists is taken, wherever it stands in the list.
pub proof fn law_first_present(probes: Seq<PathProbe>)
    ensures
        match first_present(probes) {
            Some(path) => exists|i: int|
                0 <= i < probes.len() && (#[trigger] probes[i]).exists && probes[i].path@ == path
                    && forall|j: int| 0 <= j < i ==> !(#[trigger] probes[j]).exists,
            None => forall|i: int| 0 <= i < probes.len() ==> !(#[trigger] probes[i]).exists,
        },
    decreases probes.len(),
{
    if probes.len() > 0 && !probes[0].exists {
        let rest = probes.drop_first();
        law_first_present(rest);
        match first_present(rest) {
            Some(path) => {
                let i = choose|i: int|
                    0 <= i < rest.len() && (#[trigger] rest[i]).exists && rest[i].path@ == path
                        && forall|j: int| 0 <= j < i ==> !(#[trigger] rest[j]).exists;
                assert(probes[i + 1].exists && probes[i + 1].path@ == path);
                assert forall|j: int| 0 <= j < i + 1 implies !(#[trigger] probes[j]).exists by {
                    if j > 0 {
                        assert(!rest[j - 1].exists);
                    }
                }
            },
            None => {
                assert forall|i: int| 0 <= i < probes.len() implies !(
                #[trigger] probes[i]).exists by {
                    if i > 0 {
                        assert(!rest[i - 1].exists);
                    }
                }
            },
        }
    }
}

/// Steam that is missing is told in the words of the host.
pub proof fn law_missing_steam_is_told(host: HostOs)
    ensures
        steam_missing(HostOs::Linux) == LaunchError::SteamNotOnPath,
        steam_missing(HostOs::Windows) == LaunchError::SteamNotFound,
{
}

// ----- the commands ---------------------------------------------------------------

/// Starting the launcher of a plan runs the program that the plan names for the
/// platform, with nothing behind it, and with the sync key set to the path of
/// the source unless the launcher inherits it. Only where no launcher is
/// involved is there nothing to start, and only without its program an error.
pub proof fn law_start_runs_the_launcher(plan: LauncherSetupPlan)
    ensures
        ({
            let program = if plan.platform == LauncherPlatform::Steam {
                plan.steam_exe
            } else {
                plan.epic_launcher_exe
            };
            if plan.platform == LauncherPlatform::Steam || plan.platform == LauncherPlatform::Epic {
                if program is Some {
                    &&& start_of(plan) is Ok && start_of(plan)->Ok_0 is Some
                    &&& ({
                        let command = start_of(plan)->Ok_0->0;
                        &&& command.program == program->0@
                        &&& command.args.len() == 0
                        &&& !command.quiet
                        &&& command.sync_key == if plan.setup_source.kind
                            == SyncKeySourceKind::ProcessEnv {
                            None
                        } else {
                            Some(plan.setup_source.path@)
                        }
                        &&& command.context == "starting "@ + program->0@
                    })
                } else {
                    start_of(plan) == Err::<Option<CommandModel>, LaunchError>(
                        if plan.platform == LauncherPlatform::Steam {
                            LaunchError::SteamPathUnavailable
                        } else {
                            LaunchError::EpicPathUnavailable
                        },
                    )
                }
            } else {
                start_of(plan) is Ok && start_of(plan)->Ok_0 is None
            }
        }),
{
}

/// The launcher is told of the sync key unless it is in this process's own
/// environment, which it inherits.
pub proof fn law_key_reaches_the_launcher(plan: LauncherSetupPlan)
    ensures
        plan.setup_source.kind == SyncKeySourceKind::AppOwned || plan.setup_source.kind
            == SyncKeySourceKind::Registry ==> explicit_path(plan) == Some(
            plan.setup_source.path@,
        ),
        plan.setup_source.kind == SyncKeySourceKind::ProcessEnv ==> explicit_path(plan) is None,
{
}

/// Closing asks the launcher of the plan and no other: Steam by its own program,
/// Epic by the name of its process. It sets no sync key and shows no output.
pub proof fn law_close_asks_the_launcher(plan: LauncherSetupPlan)
    ensures
        match plan.platform {
            LauncherPlatform::Steam => match plan.steam_exe {
                Some(exe) => close_of(plan) is Ok && close_of(plan)->Ok_0 is Some && ({
                    let command = close_of(plan)->Ok_0->0;
                    &&& command.program == exe@
                    &&& command.args == seq!["-shutdown"@]
                    &&& command.sync_key is None && command.quiet
                }),
                None => close_of(plan) == Err::<Option<CommandModel>, LaunchError>(
                    LaunchError::SteamPathUnavailable,
                ),
            },
            LauncherPlatform::Epic => close_of(plan) is Ok && close_of(plan)->Ok_0 is Some && ({
                let command = close_of(plan)->Ok_0->0;
                &&& command.program == "taskkill"@
                &&& command.args.contains(platform_process(LauncherPlatform::Epic)->0)
                &&& command.args.contains("/IM"@) && command.args.contains("/T"@)
                &&& !command.args.contains("/F"@)
                &&& command.sync_key is None && command.quiet
            }),
            _ => close_of(plan) is Ok && close_of(plan)->Ok_0 is None,
        },
{
    reveal_strlit("/F");
    reveal_strlit("/T");
    reveal_strlit("/IM");
    reveal_strlit("EpicGamesLauncher.exe");
    if plan.platform == LauncherPlatform::Epic {
        let args = close_of(plan)->Ok_0->0.args;
        assert(args[0] == "/IM"@ && args[1] == "EpicGamesLauncher.exe"@ && args[2] == "/T"@);
        assert("/T"@[1] == 'T' && "/F"@[1] == 'F' && "/IM"@.len() == 3);
        assert("EpicGamesLauncher.exe"@.len() > 2);
    }
}

/// Every process that was found is ended, each by its own number.
pub proof fn law_every_process_is_killed(processes: Seq<LauncherProcess>)
    ensures
        pids_of(processes).len() == processes.len(),
        forall|i: int|
            0 <= i < processes.len() ==> #[trigger] pids_of(processes)[i] == processes[i].pid,
{
}

/// On Windows the processes are ended by force and by the name of the first,
/// with their children; without processes there is nothing to do.
pub proof fn law_processes_are_ended_by_name(processes: Seq<LauncherProcess>)
    ensures
        task_kill_of(processes) is None <==> processes.len() == 0,
        task_kill_of(processes) matches Some(command) ==> {
            &&& command.program == "taskkill"@
            &&& command.args == seq!["/F"@, "/IM"@, processes[0].name@, "/T"@]
            &&& command.sync_key is None && command.quiet
        },
{
}

/// The program's own sync key file is emptied before a launch, and a file that
/// the user set is never touched.
pub proof fn law_only_the_own_key_is_emptied(source: SyncKeySource)
    ensures
        match source.kind {
            SyncKeySourceKind::AppOwned => emptied_file(source) == Some(source.path),
            _ => emptied_file(source) is None,
        },
{
}

// ----- the steps ------------------------------------------------------------------

/// Where a launcher is involved, it is looked for first. One that does not run
/// is started on an emptied key; one that runs is closed first, by force only
/// where that is asked for, and if it does not go, the preparation says so.
pub proof fn law_preparation_closes_empties_and_starts(
    platform: LauncherPlatform,
    force_close: bool,
    found: bool,
)
    requires
        platform == LauncherPlatform::Steam || platform == LauncherPlatform::Epic,
    ensures
        first_prepare_step(platform) == PrepareStep::Scan,
        next_prepare_step(platform, force_close, PrepareStep::Scan, false)
            == PrepareStep::EmptySyncKey,
        next_prepare_step(platform, true, PrepareStep::Scan, true) == PrepareStep::ForceClose,
        next_prepare_step(platform, false, PrepareStep::Scan, true) == PrepareStep::AskToClose,
        next_prepare_step(platform, force_close, PrepareStep::ForceClose, found)
            == PrepareStep::AwaitExit,
        next_prepare_step(platform, force_close, PrepareStep::AskToClose, found)
            == PrepareStep::AwaitExit,
        next_prepare_step(platform, force_close, PrepareStep::AwaitExit, true)
            == PrepareStep::EmptySyncKey,
        next_prepare_step(platform, force_close, PrepareStep::AwaitExit, false)
            == PrepareStep::Finished(PrepareOutcome::StillRunning),
        next_prepare_step(platform, force_close, PrepareStep::EmptySyncKey, found)
            == PrepareStep::StartLauncher,
        next_prepare_step(platform, force_close, PrepareStep::StartLauncher, found)
            == PrepareStep::Finished(PrepareOutcome::Ready),
{
}

/// Without a launcher nothing is closed or started: the key is emptied, and
/// that is all.
pub proof fn law_direct_preparation_only_empties(force_close: bool, found: bool)
    ensures
        first_prepare_step(LauncherPlatform::Direct) == PrepareStep::EmptySyncKey,
        next_prepare_step(LauncherPlatform::Direct, force_close, PrepareStep::EmptySyncKey, found)
            == PrepareStep::Finished(PrepareOutcome::Ready),
{
}

/// What has ended stays as it ended.
pub proof fn law_finished_is_finished(
    platform: LauncherPlatform,
    force_close: bool,
    outcome: PrepareOutcome,
    found: bool,
)
    ensures
        next_prepare_step(platform, force_close, PrepareStep::Finished(outcome), found)
            == PrepareStep::Finished(outcome),
{
}

/// A launcher that is gone is gone at whatever time; one that is not is given
/// up exactly when the time is over.
pub proof fn law_wait_ends_in_time(elapsed_ms: u64, timeout_ms: u64, gone: bool)
    ensures
        wait_decision(elapsed_ms, timeout_ms, gone) == WaitDecision::Gone <==> gone,
        wait_decision(elapsed_ms, timeout_ms, gone) == WaitDecision::GaveUp <==> !gone
            && timeout_ms <= elapsed_ms,
{
}

// ----- paths ----------------------------------------------------------------------

/// Two characters that are the same in a path: both separators, or the same
/// letter in whatever case.
pub open spec fn same_in_path(a: char, b: char) -> bool {
    ||| (a == '/' || a == '\\') && (b == '/' || b == '\\')
    ||| a == b
    ||| 'A' <= a <= 'Z' && b as u32 == a as u32 + 32
    ||| 'A' <= b <= 'Z' && a as u32 == b as u32 + 32
}

/// Two texts are the same in a path, character by character.
pub open spec fn same_text_in_path(a: Seq<char>, b: Seq<char>) -> bool {
    a.len() == b.len() && forall|i: int| 0 <= i < a.len() ==> same_in_path(#[trigger] a[i], b[i])
}

/// A character as it is compared.
pub open spec fn compared(c: char) -> char {
    lower_char(if c == '/' {
        '\\'
    } else {
        c
    })
}

proof fn lemma_compared(a: char, b: char)
    ensures
        compared(a) == compared(b) <==> same_in_path(a, b),
{
    vstd::utf8::char_u32_cast(a, a as u32);
    vstd::utf8::char_u32_cast(b, b as u32);
    let (x, y) = (
        if a == '/' {
            '\\'
        } else {
            a
        },
        if b == '/' {
            '\\'
        } else {
            b
        },
    );
    let s = seq![x, y];
    law_lower(s, 0);
    law_lower(s, 1);
    assert(lower(s)[0] == compared(a) && lower(s)[1] == compared(b));
    vstd::utf8::char_u32_cast(compared(a), compared(a) as u32);
    vstd::utf8::char_u32_cast(compared(b), compared(b) as u32);
}

proof fn lemma_normalized(path: Seq<char>)
    ensures
        normalized_path(path).len() == trim(path).len(),
        forall|i: int|
            0 <= i < trim(path).len() ==> #[trigger] normalized_path(path)[i] == compared(
                trim(path)[i],
            ),
{
    let swapped = replaced(trim(path), '/', '\\');
    assert forall|i: int| 0 <= i < trim(path).len() implies #[trigger] normalized_path(path)[i]
        == compared(trim(path)[i]) by {
        assert(normalized_path(path)[i] == lower_char(swapped[i]));
    }
}

/// Two paths are the same exactly where, white space around them aside, they
/// agree character by character, slash style and case aside.
pub proof fn law_same_path(a: Seq<char>, b: Seq<char>)
    ensures
        same_path(a, b) <==> same_text_in_path(trim(a), trim(b)),
{
    lemma_normalized(a);
    lemma_normalized(b);
    let (x, y) = (trim(a), trim(b));
    if same_path(a, b) {
        assert forall|i: int| 0 <= i < x.len() implies same_in_path(#[trigger] x[i], y[i]) by {
            assert(normalized_path(a)[i] == normalized_path(b)[i]);
            lemma_compared(x[i], y[i]);
        }
    }
    if same_text_in_path(x, y) {
        assert forall|i: int| 0 <= i < x.len() implies normalized_path(a)[i] == normalized_path(
            b,
        )[i] by {
            assert(same_in_path(x[i], y[i]));
            lemma_compared(x[i], y[i]);
        }
        assert(normalized_path(a) =~= normalized_path(b));
    }
}

/// White space around a path does not count, nor do slash style and case.
pub proof fn law_paths_that_are_the_same(a: Seq<char>, path: Seq<char>, b: Seq<char>, other: Seq<char>)
    requires
        forall|i: int| 0 <= i < a.len() ==> white_space(#[trigger] a[i]),
        forall|i: int| 0 <= i < b.len() ==> white_space(#[trigger] b[i]),
        path.len() > 0 ==> !white_space(path[0]) && !white_space(path.last()),
        same_text_in_path(path, other),
    ensures
        same_path(a + path + b, other),
{
    law_trim_finds_the_text(a, path, b);
    if path.len() > 0 {
        assert(same_in_path(path[0], other[0]));
        assert(same_in_path(path[path.len() - 1], other[path.len() - 1]));
        assert(other.last() == other[path.len() - 1]);
    }
    let none = Seq::<char>::empty();
    law_trim_finds_the_text(none, other, none);
    assert(none + other + none =~= other);
    law_same_path(a + path + b, other);
}

/// A part without white space at its ends is found in the form in which a path
/// is compared, wherever it stands.
proof fn lemma_part_is_found(a: Seq<char>, part: Seq<char>, b: Seq<char>, pattern: Seq<char>)
    requires
        part.len() > 0,
        !white_space(part[0]) && !white_space(part.last()),
        part.len() == pattern.len(),
        forall|i: int| 0 <= i < part.len() ==> compared(#[trigger] part[i]) == pattern[i],
    ensures
        contains(normalized_path(a + part + b), pattern),
        a.len() == 0 ==> has_at(normalized_path(a + part + b), pattern, 0),
{
    let s = a + part + b;
    assert(s[a.len() as int] == part[0]);
    assert(s[a.len() + part.len() - 1] == part.last());
    let at = lemma_trim_keeps(s, a.len() as int, (a.len() + part.len()) as int);
    let r = trim(s);
    lemma_normalized(s);
    let k = a.len() - at;
    let n = normalized_path(s);
    assert(n.subrange(k, k + pattern.len()) =~= pattern) by {
        assert forall|i: int| 0 <= i < pattern.len() implies n[k + i] == pattern[i] by {
            assert(r[k + i] == s[at + k + i]);
            assert(s[a.len() + i] == part[i]);
            assert(n[k + i] == compared(r[k + i]));
        }
    }
    assert(has_at(n, pattern, k));
}

/// A game in a Steam library is started by Steam, and Epic's own directories and
/// locations do not change that.
pub proof fn law_steam_library_tells_steam(
    a: Seq<char>,
    part: Seq<char>,
    b: Seq<char>,
    locations: Seq<Seq<char>>,
)
    requires
        same_text_in_path(part, "\\steamapps\\common\\"@),
    ensures
        steam_path(a + part + b),
        resolved_platform(LauncherPlatform::Auto, Some(a + part + b), locations)
            == LauncherPlatform::Steam,
{
    reveal_strlit("\\steamapps\\common\\");
    let pattern = "\\steamapps\\common\\"@;
    assert forall|i: int| 0 <= i < part.len() implies compared(#[trigger] part[i]) == pattern[i] by {
        assert(same_in_path(part[i], pattern[i]));
        lemma_compared(part[i], pattern[i]);
        assert(compared(pattern[i]) == pattern[i]);
    }
    assert(same_in_path(part[0], pattern[0]));
    assert(same_in_path(part[part.len() - 1], pattern[part.len() - 1]));
    lemma_part_is_found(a, part, b, pattern);
}

/// A game in an Epic Games directory, and in no Steam library, is started by Epic.
pub proof fn law_epic_directory_tells_epic(
    a: Seq<char>,
    part: Seq<char>,
    b: Seq<char>,
    locations: Seq<Seq<char>>,
)
    requires
        same_text_in_path(part, "\\epic games\\"@),
        !steam_path(a + part + b),
    ensures
        epic_path(a + part + b, locations),
        resolved_platform(LauncherPlatform::Auto, Some(a + part + b), locations)
            == LauncherPlatform::Epic,
{
    reveal_strlit("\\epic games\\");
    let pattern = "\\epic games\\"@;
    assert forall|i: int| 0 <= i < part.len() implies compared(#[trigger] part[i]) == pattern[i] by {
        assert(same_in_path(part[i], pattern[i]));
        lemma_compared(part[i], pattern[i]);
        assert(compared(pattern[i]) == pattern[i]);
    }
    assert(same_in_path(part[0], pattern[0]));
    assert(same_in_path(part[part.len() - 1], pattern[part.len() - 1]));
    lemma_part_is_found(a, part, b, pattern);
}

/// So is a game below any of the locations that Epic's manifests name.
pub proof fn law_epic_location_tells_epic(
    part: Seq<char>,
    b: Seq<char>,
    locations: Seq<Seq<char>>,
    i: int,
)
    requires
        0 <= i < locations.len(),
        locations[i].len() > 0,
        !white_space(locations[i][0]) && !white_space(locations[i].last()),
        same_text_in_path(part, locations[i]),
        !steam_path(part + b),
    ensures
        under(part + b, locations[i]),
        resolved_platform(LauncherPlatform::Auto, Some(part + b), locations)
            == LauncherPlatform::Epic,
{
    let base = locations[i];
    let none = Seq::<char>::empty();
    let pattern = normalized_path(base);
    law_trim_finds_the_text(none, base, none);
    assert(none + base + none =~= base);
    lemma_normalized(base);
    assert forall|k: int| 0 <= k < part.len() implies compared(#[trigger] part[k]) == pattern[k] by {
        assert(same_in_path(part[k], base[k]));
        lemma_compared(part[k], base[k]);
    }
    assert(same_in_path(part[0], base[0]));
    assert(same_in_path(part[part.len() - 1], base[part.len() - 1]));
    assert(base.last() == base[part.len() - 1]);
    lemma_part_is_found(none, part, b, pattern);
    assert(none + part + b =~= part + b);
}

/// Where the path of the game tells nothing, or there is none, Steam starts it.
pub proof fn law_steam_by_default(game: Option<Seq<char>>, locations: Seq<Seq<char>>)
    requires
        game matches Some(path) ==> steam_path(path) || !epic_path(path, locations),
    ensures
        resolved_platform(LauncherPlatform::Auto, game, locations) == LauncherPlatform::Steam,
{
}

/// What is selected is what is used, whatever the path says.
pub proof fn law_selection_is_used(game: Option<Seq<char>>, locations: Seq<Seq<char>>)
    ensures
        resolved_platform(LauncherPlatform::Steam, game, locations) == LauncherPlatform::Steam,
        resolved_platform(LauncherPlatform::Epic, game, locations) == LauncherPlatform::Epic,
        resolved_platform(LauncherPlatform::Direct, game, locations) == LauncherPlatform::Direct,
{
}

/// The game is looked for under the name of its stub and under both names of
/// the game itself, and the launchers under theirs.
pub proof fn law_process_names()
    ensures
        game_process_names().contains("PioneerGame.exe"@),
        game_process_names().contains("PioneerGame-e.exe"@),
        game_process_names().contains("PioneerGame-d.exe"@),
        platform_process(LauncherPlatform::Steam) == Some("steam.exe"@),
        platform_process(LauncherPlatform::Epic) == Some("EpicGamesLauncher.exe"@),
        platform_process(LauncherPlatform::Direct) is None,
{
    let names = game_process_names();
    assert(names[0] == "PioneerGame.exe"@);
    assert(names[1] == "PioneerGame-e.exe"@);
    assert(names[2] == "PioneerGame-d.exe"@);
}

// ----- readiness ------------------------------------------------------------------

/// The key counts where any one of the processes holds it, wherever it stands
/// among them.
pub proof fn law_any_process_holds_the_key(
    readings: Seq<EnvReading>,
    i: int,
    value: String,
    path: Seq<char>,
)
    requires
        0 <= i < readings.len(),
        readings[i] == EnvReading::Value(value),
        same_text_in_path(trim(value@), trim(path)),
    ensures
        some_holds_key(readings, path),
{
    law_same_path(value@, path);
    assert(holds_key(readings[i], path));
}

/// Nothing but such a process makes it count.
pub proof fn law_key_is_held_by_a_process(readings: Seq<EnvReading>, path: Seq<char>)
    requires
        some_holds_key(readings, path),
    ensures
        exists|i: int|
            0 <= i < readings.len() && (#[trigger] readings[i]) is Value && same_text_in_path(
                trim(readings[i]->Value_0@),
                trim(path),
            ),
{
    let i = choose|i: int| 0 <= i < readings.len() && holds_key(#[trigger] readings[i], path);
    law_same_path(readings[i]->Value_0@, path);
}

/// The first reading that failed is told of.
pub proof fn law_first_failure(readings: Seq<EnvReading>)
    ensures
        match first_failure(readings) {
            Some(error) => exists|i: int|
                0 <= i < readings.len() && (#[trigger] readings[i]) is Failed
                    && readings[i]->Failed_0@ == error && forall|j: int|
                    0 <= j < i ==> !((#[trigger] readings[j]) is Failed),
            None => forall|i: int| 0 <= i < readings.len() ==> !((#[trigger] readings[i]) is Failed),
        },
    decreases readings.len(),
{
    if readings.len() > 0 && !(readings[0] is Failed) {
        let rest = readings.drop_first();
        law_first_failure(rest);
        match first_failure(rest) {
            Some(error) => {
                let i = choose|i: int|
                    0 <= i < rest.len() && (#[trigger] rest[i]) is Failed && rest[i]->Failed_0@
                        == error && forall|j: int|
                        0 <= j < i ==> !((#[trigger] rest[j]) is Failed);
                assert(readings[i + 1] is Failed && readings[i + 1]->Failed_0@ == error);
                assert forall|j: int| 0 <= j < i + 1 implies !((#[trigger] readings[j])
                    is Failed) by {
                    if j > 0 {
                        assert(!(rest[j - 1] is Failed));
                    }
                }
            },
            None => {
                assert forall|i: int| 0 <= i < readings.len() implies !((#[trigger] readings[i])
                    is Failed) by {
                    if i > 0 {
                        assert(!(rest[i - 1] is Failed));
                    }
                }
            },
        }
    }
}

/// What the processes of a launcher tell, where neither they nor the game hold
/// the key: none runs; it must restart; or, where one could not be looked into,
/// nobody knows, and the report says what failed. The processes are counted.
pub proof fn law_launcher_without_the_key(
    platform: LauncherPlatform,
    path: Seq<char>,
    game: Seq<EnvReading>,
    readings: Vec<EnvReading>,
)
    requires
        platform == LauncherPlatform::Steam || platform == LauncherPlatform::Epic,
        !some_holds_key(game, path),
        !some_holds_key(readings@, path),
    ensures
        ({
            let r = readiness_of(platform, path, game, LauncherScan::Found(readings));
            let failed = exists|i: int|
                0 <= i < readings@.len() && (#[trigger] readings@[i]) is Failed;
            &&& r.platform == platform
            &&& r.process_count == readings@.len()
            &&& r.status == if readings@.len() == 0 {
                LauncherStatus::NotRunning
            } else if failed {
                LauncherStatus::Unknown
            } else {
                LauncherStatus::NeedsRestart
            }
            &&& readings@.len() == 0 ==> r.detail == platform_label(platform) + " is not running"@
            &&& failed ==> r.detail == "Could not confirm "@ + platform_label(platform)
                + " setup: "@ + first_failure(readings@)->0
            &&& readings@.len() > 0 && !failed ==> r.detail == platform_label(platform)
                + " needs to restart"@
        }),
{
    law_first_failure(readings@);
}

/// Where the key is held, the report is `Ready` and says by what; where the
/// processes could not be listed, it is `Unknown` and says why.
pub proof fn law_launcher_readiness(
    platform: LauncherPlatform,
    path: Seq<char>,
    game: Seq<EnvReading>,
    scan: LauncherScan,
)
    requires
        platform == LauncherPlatform::Steam || platform == LauncherPlatform::Epic,
    ensures
        ({
            let r = readiness_of(platform, path, game, scan);
            &&& r.platform == platform
            &&& some_holds_key(game, path) ==> r.status == LauncherStatus::Ready && r.detail
                == "ARC Raiders is running with the sync key set"@
            &&& !some_holds_key(game, path) ==> (scan matches LauncherScan::Failed(error) ==> {
                &&& r.status == LauncherStatus::Unknown
                &&& r.process_count == 0
                &&& r.detail == "Could not inspect "@ + platform_label(platform) + ": "@ + error@
            })
            &&& !some_holds_key(game, path) ==> (scan matches LauncherScan::Found(readings) ==> (
            some_holds_key(readings@, path) ==> {
                &&& r.status == LauncherStatus::Ready
                &&& r.process_count == readings@.len()
                &&& r.detail == platform_label(platform) + " is ready"@
            }))
        }),
{
}

// ----- the sync key ---------------------------------------------------------------

/// The override of the process comes before that of the registry, and either
/// before the program's own path; each that is not usable is reported.
pub proof fn law_overrides_come_in_order<F: Fn(&String) -> bool>(
    process_env: Option<String>,
    registry_env: Option<String>,
    app_owned: String,
    usable: F,
    r: SyncKeyResolution,
)
    requires
        resolves_to(process_env, registry_env, app_owned, usable, r),
        forall|path: String| !(call_ensures(usable, (&path,), true) && call_ensures(
            usable,
            (&path,),
            false,
        )),
    ensures
        process_env matches Some(path) && call_ensures(usable, (&process_env->0,), true) ==> {
            &&& r.source.kind == SyncKeySourceKind::ProcessEnv
            &&& r.source.path == process_env->0
            &&& r.skipped@.len() == 0
        },
        r.source.kind == SyncKeySourceKind::Registry ==> {
            &&& registry_env is Some && r.source.path == registry_env->0
            &&& process_env matches Some(path) ==> r.skipped@.len() == 1 && r.skipped@[0].path
                == path && r.skipped@[0].kind == SyncKeySourceKind::ProcessEnv
            &&& process_env is None ==> r.skipped@.len() == 0
        },
        r.source.kind == SyncKeySourceKind::AppOwned ==> {
            &&& r.source.path == app_owned
            &&& process_env matches Some(path) ==> r.skipped@.len() > 0 && r.skipped@[0].path
                == path
            &&& registry_env matches Some(path) ==> r.skipped@.len() > 0 && r.skipped@.last().path
                == path && r.skipped@.last().kind == SyncKeySourceKind::Registry
        },
        process_env is None && registry_env is None ==> r.source.path == app_owned
            && r.source.kind == SyncKeySourceKind::AppOwned && r.skipped@.len() == 0,
{
}

/// A launcher has twenty seconds to close, and is looked at twice a second.
pub proof fn law_launcher_has_twenty_seconds(elapsed_ms: u64)
    ensures
        wait_decision(elapsed_ms, CLOSE_TIMEOUT_MS, false) == WaitDecision::LookAgain <==> elapsed_ms
            < 20 * 1000,
        2 * CLOSE_POLL_MS == 1000,
{
}

/// An override of the registry is used where it is usable and that of the
/// process is not.
pub proof fn law_registry_override_is_used<F: Fn(&String) -> bool>(
    process_env: Option<String>,
    registry_env: Option<String>,
    app_owned: String,
    usable: F,
    r: SyncKeyResolution,
)
    requires
        resolves_to(process_env, registry_env, app_owned, usable, r),
        registry_env is Some,
        call_ensures(usable, (&registry_env->0,), true),
        !call_ensures(usable, (&registry_env->0,), false),
        process_env is Some ==> !call_ensures(usable, (&process_env->0,), true),
    ensures
        r.source.kind == SyncKeySourceKind::Registry,
        r.source.path == registry_env->0,
{
}

} // verus!
