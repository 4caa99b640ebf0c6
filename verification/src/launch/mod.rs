//! Game launchers: which one starts the game, whether it passes the sync key
//! on, and what has to happen before it does.

use vstd::prelude::*;

pub mod discovery;
pub mod discovery_laws;
pub mod files;
pub mod laws;
pub mod paths;
pub mod prepare;
pub mod readiness;
pub mod sync_key;

pub use self::discovery::{
    detect_installed_launchers, epic_manifest_install_locations, find_epic_game_executable,
    find_epic_launcher_exe, find_steam_exe, validate_game_executable, EpicCandidate, EpicManifest,
    HostOs, LaunchError, PathProbe,
};
pub use self::paths::{
    is_epic_game_path, is_steam_game_path, path_starts_with, resolve_platform, same_path_text,
};
pub use self::prepare::{
    prepare_launcher, LauncherSetupPlan, PrepareOutcome, PrepareStep, SpawnCommand,
};
pub use self::readiness::{
    game_has_sync_key, launcher_readiness, EnvReading, LauncherReadiness, LauncherScan,
    LauncherStatus,
};
pub use self::sync_key::{
    prepare_sync_key_for_launch, resolve_current_sync_key_source, resolve_sync_key_source,
    SkippedSyncKey, SyncKeyResolution, SyncKeySource, SyncKeySourceKind,
};

verus! {

/// The game's number in the Steam store.
pub const ARC_RAIDERS_STEAM_APP_ID: u32 = 1808500;

/// What starts the game.
#[derive(Debug, Clone, Copy, PartialEq, Eq, Structural)]
pub enum LauncherPlatform {
    Auto,
    Steam,
    Epic,
    Direct,
}

impl Default for LauncherPlatform {
    fn default() -> (r: Self)
        ensures
            r == LauncherPlatform::Auto,
    {
        LauncherPlatform::Auto
    }
}

/// What a platform is called.
pub open spec fn platform_label(platform: LauncherPlatform) -> Seq<char> {
    match platform {
        LauncherPlatform::Auto => "Auto"@,
        LauncherPlatform::Steam => "Steam"@,
        LauncherPlatform::Epic => "Epic Games"@,
        LauncherPlatform::Direct => "Direct"@,
    }
}

/// The process a platform's launcher runs as.
pub open spec fn platform_process(platform: LauncherPlatform) -> Option<Seq<char>> {
    match platform {
        LauncherPlatform::Steam => Some("steam.exe"@),
        LauncherPlatform::Epic => Some("EpicGamesLauncher.exe"@),
        LauncherPlatform::Auto | LauncherPlatform::Direct => None,
    }
}

impl LauncherPlatform {
    pub fn label(self) -> (r: &'static str)
        ensures
            r@ == platform_label(self),
    {
        match self {
            LauncherPlatform::Auto => "Auto",
            LauncherPlatform::Steam => "Steam",
            LauncherPlatform::Epic => "Epic Games",
            LauncherPlatform::Direct => "Direct",
        }
    }

    pub fn process_name(self) -> (r: Option<&'static str>)
        ensures
            crate::text::opt_str_view(r) == platform_process(self),
    {
        match self {
            LauncherPlatform::Steam => Some("steam.exe"),
            LauncherPlatform::Epic => Some("EpicGamesLauncher.exe"),
            LauncherPlatform::Auto | LauncherPlatform::Direct => None,
        }
    }
}

/// The processes the game runs as: its launcher stub, and the two it hands off to.
pub open spec fn game_process_names() -> Seq<Seq<char>> {
    seq!["PioneerGame.exe"@, "PioneerGame-e.exe"@, "PioneerGame-d.exe"@]
}

pub fn game_process_name_list() -> (r: Vec<&'static str>)
    ensures
        crate::text::str_views(r@) == game_process_names(),
{
    let r: Vec<&'static str> = vec!["PioneerGame.exe", "PioneerGame-e.exe", "PioneerGame-d.exe"];
    r
}

} // verus!
