//! Whether the launcher will hand the sync key to the game.

use vstd::prelude::*;

use crate::launch::paths::{resolved_platform, same_path};
use crate::launch::{
    platform_label, platform_process, resolve_platform, same_path_text, LauncherPlatform,
};
use crate::text::{cat2, cat4};
use crate::text::{opt_str_view, views};

verus! {

#[derive(Debug, Clone, Copy, PartialEq, Eq, Structural)]
pub enum LauncherStatus {
    NotRunning,
    Ready,
    NeedsRestart,
    Unknown,
}

pub open spec fn status_label(status: LauncherStatus) -> Seq<char> {
    match status {
        LauncherStatus::NotRunning => "Not running"@,
        LauncherStatus::Ready => "Ready"@,
        LauncherStatus::NeedsRestart => "Needs restart"@,
        LauncherStatus::Unknown => "Unknown"@,
    }
}

impl LauncherStatus {
    pub fn label(self) -> (r: &'static str)
        ensures
            r@ == status_label(self),
    {
        match self {
            LauncherStatus::NotRunning => "Not running",
            LauncherStatus::Ready => "Ready",
            LauncherStatus::NeedsRestart => "Needs restart",
            LauncherStatus::Unknown => "Unknown",
        }
    }
}

#[derive(Debug, Clone, PartialEq, Eq)]
pub struct LauncherReadiness {
    pub platform: LauncherPlatform,
    pub status: LauncherStatus,
    pub process_count: usize,
    pub detail: String,
}

/// What a readiness report says.
#[verifier::ext_equal]
pub struct ReadinessModel {
    pub platform: LauncherPlatform,
    pub status: LauncherStatus,
    pub process_count: nat,
    pub detail: Seq<char>,
}

impl View for LauncherReadiness {
    type V = ReadinessModel;

    open spec fn view(&self) -> ReadinessModel {
        ReadinessModel {
            platform: self.platform,
            status: self.status,
            process_count: self.process_count as nat,
            detail: self.detail@,
        }
    }
}

/// What came of reading the sync key variable of one process.
#[derive(Debug, Clone, PartialEq, Eq)]
pub enum EnvReading {
    Value(String),
    Absent,
    Failed(String),
}

/// What came of looking for the launcher's processes, each with its reading.
#[derive(Debug, Clone, PartialEq, Eq)]
pub enum LauncherScan {
    Found(Vec<EnvReading>),
    Failed(String),
}

/// The process has the sync key variable set to the path.
pub open spec fn holds_key(reading: EnvReading, path: Seq<char>) -> bool {
    reading matches EnvReading::Value(value) && same_path(value@, path)
}

/// One of the processes has the sync key variable set to the path.
pub open spec fn some_holds_key(readings: Seq<EnvReading>, path: Seq<char>) -> bool {
    exists|i: int| 0 <= i < readings.len() && holds_key(#[trigger] readings[i], path)
}

/// The first failure among the readings.
pub open spec fn first_failure(readings: Seq<EnvReading>) -> Option<Seq<char>>
    decreases readings.len(),
{
    if readings.len() == 0 {
        None
    } else if readings[0] is Failed {
        Some(readings[0]->Failed_0@)
    } else {
        first_failure(readings.drop_first())
    }
}

/// Whether a running game process already holds the sync key at `setup_path`.
pub fn game_has_sync_key(readings: &Vec<EnvReading>, setup_path: &str) -> (r: bool)
    ensures
        r == some_holds_key(readings@, setup_path@),
{
    let mut i: usize = 0;
    while i < readings.len()
        invariant
            i <= readings@.len(),
            forall|k: int| 0 <= k < i ==> !holds_key(#[trigger] readings@[k], setup_path@),
        decreases readings.len() - i,
    {
        if let EnvReading::Value(value) = &readings[i] {
            if same_path_text(value.as_str(), setup_path) {
                return true;
            }
        }
        i += 1;
    }
    false
}

fn first_failed_reading(readings: &Vec<EnvReading>) -> (r: Option<String>)
    ensures
        crate::text::opt_view(r) == first_failure(readings@),
{
    let mut i: usize = 0;
    assert(readings@.skip(0) =~= readings@);
    while i < readings.len()
        invariant
            i <= readings@.len(),
            first_failure(readings@) == first_failure(readings@.skip(i as int)),
        decreases readings.len() - i,
    {
        assert(readings@.skip(i as int).drop_first() =~= readings@.skip(i + 1));
        if let EnvReading::Failed(error) = &readings[i] {
            return Some(error.clone());
        }
        i += 1;
    }
    None
}

/// What the launcher's processes say, once neither direct launch nor the game settles it.
pub open spec fn scanned_readiness(
    platform: LauncherPlatform,
    scan: LauncherScan,
    path: Seq<char>,
) -> ReadinessModel {
    let label = platform_label(platform);
    match scan {
        LauncherScan::Failed(error) => ReadinessModel {
            platform,
            status: LauncherStatus::Unknown,
            process_count: 0,
            detail: "Could not inspect "@ + label + ": "@ + error@,
        },
        LauncherScan::Found(readings) => {
            let process_count = readings@.len();
            if process_count == 0 {
                ReadinessModel {
                    platform,
                    status: LauncherStatus::NotRunning,
                    process_count,
                    detail: label + " is not running"@,
                }
            } else if some_holds_key(readings@, path) {
                ReadinessModel {
                    platform,
                    status: LauncherStatus::Ready,
                    process_count,
                    detail: label + " is ready"@,
                }
            } else if first_failure(readings@) is Some {
                ReadinessModel {
                    platform,
                    status: LauncherStatus::Unknown,
                    process_count,
                    detail: "Could not confirm "@ + label + " setup: "@ + first_failure(
                        readings@,
                    )->0,
                }
            } else {
                ReadinessModel {
                    platform,
                    status: LauncherStatus::NeedsRestart,
                    process_count,
                    detail: label + " needs to restart"@,
                }
            }
        },
    }
}

/// Whether the launcher in effect will hand the sync key at `path` to the game.
pub open spec fn readiness_of(
    platform: LauncherPlatform,
    path: Seq<char>,
    game: Seq<EnvReading>,
    scan: LauncherScan,
) -> ReadinessModel {
    if platform == LauncherPlatform::Direct {
        ReadinessModel {
            platform,
            status: LauncherStatus::Ready,
            process_count: 0,
            detail: "Direct launch selected"@,
        }
    } else if some_holds_key(game, path) {
        ReadinessModel {
            platform,
            status: LauncherStatus::Ready,
            process_count: 0,
            detail: "ARC Raiders is running with the sync key set"@,
        }
    } else if platform_process(platform) is None {
        ReadinessModel {
            platform,
            status: LauncherStatus::Unknown,
            process_count: 0,
            detail: "Choose Steam or Epic Games"@,
        }
    } else {
        scanned_readiness(platform, scan, path)
    }
}

/// The launcher matters only as what puts the sync key into the game's
/// environment: a direct launch needs none, and a game that already holds the
/// key settles the question. Else the launcher's own processes decide.
pub fn launcher_readiness(
    selected_platform: LauncherPlatform,
    game_executable: Option<&str>,
    install_locations: &Vec<String>,
    setup_path: &str,
    game: &Vec<EnvReading>,
    scan: &LauncherScan,
) -> (r: LauncherReadiness)
    ensures
        r@ == readiness_of(
            resolved_platform(
                selected_platform,
                opt_str_view(game_executable),
                views(install_locations@),
            ),
            setup_path@,
            game@,
            *scan,
        ),
{
    let platform = resolve_platform(selected_platform, game_executable, install_locations);
    if platform == LauncherPlatform::Direct {
        return LauncherReadiness {
            platform,
            status: LauncherStatus::Ready,
            process_count: 0,
            detail: "Direct launch selected".to_owned(),
        };
    }
    if game_has_sync_key(game, setup_path) {
        return LauncherReadiness {
            platform,
            status: LauncherStatus::Ready,
            process_count: 0,
            detail: "ARC Raiders is running with the sync key set".to_owned(),
        };
    }
    if platform.process_name().is_none() {
        return LauncherReadiness {
            platform,
            status: LauncherStatus::Unknown,
            process_count: 0,
            detail: "Choose Steam or Epic Games".to_owned(),
        };
    }
    let readings = match scan {
        LauncherScan::Failed(error) => {
            return LauncherReadiness {
                platform,
                status: LauncherStatus::Unknown,
                process_count: 0,
                detail: cat4("Could not inspect ", platform.label(), ": ", error.as_str()),
            };
        },
        LauncherScan::Found(readings) => readings,
    };
    if readings.len() == 0 {
        return LauncherReadiness {
            platform,
            status: LauncherStatus::NotRunning,
            process_count: 0,
            detail: cat2(platform.label(), " is not running"),
        };
    }
    if game_has_sync_key(readings, setup_path) {
        return LauncherReadiness {
            platform,
            status: LauncherStatus::Ready,
            process_count: readings.len(),
            detail: cat2(platform.label(), " is ready"),
        };
    }
    match first_failed_reading(readings) {
        Some(error) => LauncherReadiness {
            platform,
            status: LauncherStatus::Unknown,
            process_count: readings.len(),
            detail: cat4("Could not confirm ", platform.label(), " setup: ", error.as_str()),
        },
        None => LauncherReadiness {
            platform,
            status: LauncherStatus::NeedsRestart,
            process_count: readings.len(),
            detail: cat2(platform.label(), " needs to restart"),
        },
    }
}

/// A direct launch is always ready.
pub proof fn law_direct_launch_is_ready(
    game_path: Option<Seq<char>>,
    locations: Seq<Seq<char>>,
    path: Seq<char>,
    game: Seq<EnvReading>,
    scan: LauncherScan,
)
    ensures
        readiness_of(
            resolved_platform(LauncherPlatform::Direct, game_path, locations),
            path,
            game,
            scan,
        ).status == LauncherStatus::Ready,
{
}

/// A launcher is reported ready exactly where the launch is direct, or a
/// running game or launcher process holds the sync key.
pub proof fn law_ready_means_the_key_is_held(
    platform: LauncherPlatform,
    path: Seq<char>,
    game: Seq<EnvReading>,
    scan: LauncherScan,
)
    requires
        platform != LauncherPlatform::Auto,
    ensures
        readiness_of(platform, path, game, scan).status == LauncherStatus::Ready <==> {
            ||| platform == LauncherPlatform::Direct
            ||| some_holds_key(game, path)
            ||| (scan matches LauncherScan::Found(readings) && some_holds_key(readings@, path))
        },
{
}

} // verus!
