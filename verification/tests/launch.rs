use arctracker_sync::launch::discovery::{
    epic_launcher_candidates, epic_program_path, is_epic_manifest_extension,
    linux_steam_candidates, parse_epic_manifest, quoted_tokens, read_epic_manifests,
    search_path_candidates, steam_game_installed, steam_library_paths, steam_manifest_name,
    steam_manifest_paths, windows_steam_candidates,
};
use arctracker_sync::launch::files::{file_name, join_path};
use arctracker_sync::launch::paths::normalize_slashes;
use arctracker_sync::launch::prepare::{
    continue_preparing, force_close_command, force_close_pids, graceful_close_launcher,
    start_launcher_with_setup, wait_until_process_exits, WaitDecision,
};
use arctracker_sync::launch::{
    detect_installed_launchers, epic_manifest_install_locations, find_epic_game_executable,
    find_epic_launcher_exe, find_steam_exe, game_has_sync_key, game_process_name_list,
    is_epic_game_path, is_steam_game_path, launcher_readiness, path_starts_with, prepare_launcher,
    prepare_sync_key_for_launch, resolve_current_sync_key_source, resolve_platform,
    resolve_sync_key_source, same_path_text, validate_game_executable, EnvReading, EpicCandidate,
    EpicManifest, HostOs, LaunchError, LauncherPlatform, LauncherScan, LauncherSetupPlan,
    LauncherStatus, PathProbe, PrepareOutcome, PrepareStep, SkippedSyncKey, SyncKeySource,
    SyncKeySourceKind, ARC_RAIDERS_STEAM_APP_ID,
};
use arctracker_sync::process_env::LauncherProcess;

fn s(text: &str) -> String {
    text.to_string()
}

fn probe(path: &str, exists: bool) -> PathProbe {
    PathProbe { path: s(path), exists }
}

#[test]
fn config_platform_default_is_auto() {
    assert_eq!(LauncherPlatform::default(), LauncherPlatform::Auto);
}

#[test]
fn sync_key_resolution_prefers_process_then_registry_then_app_owned() {
    let process = s("C:\\temp\\process.log");
    let registry = s("C:\\temp\\registry.log");
    let app_owned = s("C:\\temp\\app-owned.log");

    let resolution = resolve_sync_key_source(
        Some(process.clone()),
        Some(registry.clone()),
        app_owned.clone(),
        |_| true,
    );
    assert_eq!(resolution.source.kind, SyncKeySourceKind::ProcessEnv);
    assert_eq!(resolution.source.path, process);
    assert!(resolution.skipped.is_empty());

    let resolution =
        resolve_sync_key_source(None, Some(registry.clone()), app_owned.clone(), |_| true);
    assert_eq!(resolution.source.kind, SyncKeySourceKind::Registry);
    assert_eq!(resolution.source.path, registry);
    assert!(resolution.skipped.is_empty());

    let resolution = resolve_sync_key_source(None, None, app_owned.clone(), |_| true);
    assert_eq!(resolution.source.kind, SyncKeySourceKind::AppOwned);
    assert_eq!(resolution.source.path, app_owned);
    assert!(resolution.skipped.is_empty());
}

#[test]
fn sync_key_resolution_skips_unusable_overrides() {
    let process = s("C:\\Users\\someone\\Documents");
    let registry = s("C:\\temp\\registry.log");
    let app_owned = s("C:\\temp\\app-owned.log");

    let resolution = resolve_sync_key_source(
        Some(process.clone()),
        Some(registry.clone()),
        app_owned.clone(),
        |path: &String| *path != process,
    );
    assert_eq!(resolution.source.kind, SyncKeySourceKind::Registry);
    assert_eq!(resolution.source.path, registry);
    assert_eq!(
        resolution.skipped,
        vec![SkippedSyncKey { kind: SyncKeySourceKind::ProcessEnv, path: process.clone() }]
    );

    let resolution = resolve_sync_key_source(
        Some(process.clone()),
        Some(registry.clone()),
        app_owned.clone(),
        |_| false,
    );
    assert_eq!(resolution.source.kind, SyncKeySourceKind::AppOwned);
    assert_eq!(resolution.source.path, app_owned);
    assert_eq!(
        resolution.skipped,
        vec![
            SkippedSyncKey { kind: SyncKeySourceKind::ProcessEnv, path: process },
            SkippedSyncKey { kind: SyncKeySourceKind::Registry, path: registry },
        ]
    );
}

#[test]
fn sync_key_resolution_never_skips_app_owned() {
    let app_owned = s("C:\\temp\\app-owned.log");

    let resolution = resolve_sync_key_source(None, None, app_owned.clone(), |_| false);
    assert_eq!(resolution.source.kind, SyncKeySourceKind::AppOwned);
    assert_eq!(resolution.source.path, app_owned);
    assert!(resolution.skipped.is_empty());
}

#[test]
fn sync_key_lookup_fails_only_without_a_path_of_its_own() {
    let found = resolve_current_sync_key_source(Ok(s("own")), Some(s("env")), None, |_| true);
    assert_eq!(found.map(|r| r.source.path), Ok(s("env")));
    let lost = resolve_current_sync_key_source(Err(s("no home")), Some(s("env")), None, |_| true);
    assert_eq!(lost, Err(s("no home")));
}

#[test]
fn detects_steam_paths() {
    assert!(is_steam_game_path(
        "F:\\SteamLibrary\\steamapps\\common\\Arc Raiders\\PioneerGame.exe"
    ));
    assert_eq!(
        resolve_platform(
            LauncherPlatform::Auto,
            Some("F:\\SteamLibrary\\steamapps\\common\\Arc Raiders\\PioneerGame.exe"),
            &Vec::new()
        ),
        LauncherPlatform::Steam
    );
}

#[test]
fn launcher_status_labels_are_stable() {
    assert_eq!(LauncherStatus::Ready.label(), "Ready");
    assert_eq!(LauncherStatus::NeedsRestart.label(), "Needs restart");
    assert_eq!(LauncherStatus::NotRunning.label(), "Not running");
    assert_eq!(LauncherStatus::Unknown.label(), "Unknown");
}

#[test]
fn steam_launch_plan_uses_app_id() {
    assert_eq!(ARC_RAIDERS_STEAM_APP_ID, 1808500);
}

#[test]
fn setup_plan_sets_child_env_only_when_needed() {
    let process_plan = LauncherSetupPlan {
        platform: LauncherPlatform::Direct,
        setup_source: SyncKeySource {
            kind: SyncKeySourceKind::ProcessEnv,
            path: s("launch-env/process.log"),
        },
        game_executable: None,
        steam_exe: None,
        epic_launcher_exe: None,
    };
    assert!(process_plan.explicit_sync_key_path().is_none());

    let app_plan = LauncherSetupPlan {
        platform: LauncherPlatform::Steam,
        setup_source: SyncKeySource {
            kind: SyncKeySourceKind::AppOwned,
            path: s("launch-env/app.log"),
        },
        game_executable: None,
        steam_exe: Some(s("launch-env/steam.exe")),
        epic_launcher_exe: None,
    };
    assert_eq!(app_plan.explicit_sync_key_path(), Some("launch-env/app.log"));
}

#[test]
fn prepare_sync_key_truncates_only_app_owned_file() {
    assert_eq!(
        prepare_sync_key_for_launch(&SyncKeySource {
            kind: SyncKeySourceKind::Registry,
            path: s("prepare-sync-key/global.log"),
        }),
        None
    );
    assert_eq!(
        prepare_sync_key_for_launch(&SyncKeySource {
            kind: SyncKeySourceKind::ProcessEnv,
            path: s("prepare-sync-key/global.log"),
        }),
        None
    );
    assert_eq!(
        prepare_sync_key_for_launch(&SyncKeySource {
            kind: SyncKeySourceKind::AppOwned,
            path: s("prepare-sync-key/app.log"),
        }),
        Some(s("prepare-sync-key/app.log"))
    );
}

#[test]
fn platforms_have_labels_and_processes() {
    assert_eq!(LauncherPlatform::Auto.label(), "Auto");
    assert_eq!(LauncherPlatform::Steam.label(), "Steam");
    assert_eq!(LauncherPlatform::Epic.label(), "Epic Games");
    assert_eq!(LauncherPlatform::Direct.label(), "Direct");
    assert_eq!(LauncherPlatform::Steam.process_name(), Some("steam.exe"));
    assert_eq!(LauncherPlatform::Epic.process_name(), Some("EpicGamesLauncher.exe"));
    assert_eq!(LauncherPlatform::Auto.process_name(), None);
    assert_eq!(LauncherPlatform::Direct.process_name(), None);
    assert_eq!(
        game_process_name_list(),
        vec!["PioneerGame.exe", "PioneerGame-e.exe", "PioneerGame-d.exe"]
    );
}

#[test]
fn paths_are_compared_whatever_the_slashes_and_the_case() {
    assert_eq!(normalize_slashes(" C:/Temp/A "), "c:\\temp\\a");
    assert!(same_path_text("C:/temp/keys.log ", "c:\\TEMP\\keys.log"));
    assert!(!same_path_text("C:/temp/keys.log", "C:/temp/keys.txt"));
    assert!(path_starts_with("D:/Games/Arc/x.exe", "d:\\games\\arc"));
    assert!(!path_starts_with("D:/Games", "D:/Games/Arc"));
    assert!(is_epic_game_path("C:\\Program Files\\Epic Games\\ARC\\a.exe", &Vec::new()));
    assert!(is_epic_game_path("E:/Arc/a.exe", &vec![s("X:\\y"), s("e:\\ARC")]));
    assert!(!is_epic_game_path("E:/Arc/a.exe", &vec![s("X:\\y")]));
    assert!(!is_steam_game_path("C:/steamapps/arc"));
}

#[test]
fn platform_follows_the_selection_then_the_path() {
    let none: Vec<String> = Vec::new();
    let epic = "C:\\Epic Games\\a.exe";
    assert_eq!(resolve_platform(LauncherPlatform::Direct, Some(epic), &none), LauncherPlatform::Direct);
    assert_eq!(resolve_platform(LauncherPlatform::Auto, Some(epic), &none), LauncherPlatform::Epic);
    assert_eq!(
        resolve_platform(
            LauncherPlatform::Auto,
            Some("C:\\Epic Games\\steamapps\\common\\a.exe"),
            &none
        ),
        LauncherPlatform::Steam
    );
    assert_eq!(resolve_platform(LauncherPlatform::Auto, Some("D:\\a.exe"), &none), LauncherPlatform::Steam);
    assert_eq!(resolve_platform(LauncherPlatform::Auto, None, &none), LauncherPlatform::Steam);
}

#[test]
fn sources_have_labels() {
    let own = SyncKeySource { kind: SyncKeySourceKind::AppOwned, path: s("a") };
    let registry = SyncKeySource { kind: SyncKeySourceKind::Registry, path: s("b") };
    let process = SyncKeySource { kind: SyncKeySourceKind::ProcessEnv, path: s("c") };
    assert_eq!(own.label(), "Launch from this app");
    assert_eq!(registry.label(), "Sync setup ready");
    assert!(own.is_app_owned() && !registry.is_app_owned() && !process.is_app_owned());
    assert!(own.needs_explicit_child_env() && registry.needs_explicit_child_env());
    assert!(!process.needs_explicit_child_env());
}

fn readiness(
    platform: LauncherPlatform,
    game: Vec<EnvReading>,
    scan: LauncherScan,
) -> (LauncherStatus, usize, String) {
    let r = launcher_readiness(platform, None, &Vec::new(), "C:\\keys.log", &game, &scan);
    (r.status, r.process_count, r.detail)
}

#[test]
fn readiness_follows_the_key_through_the_processes() {
    let held = EnvReading::Value(s("c:/KEYS.log"));
    let other = EnvReading::Value(s("c:/other.log"));
    let failed = EnvReading::Failed(s("denied"));
    let none = || LauncherScan::Found(Vec::new());
    assert_eq!(
        readiness(LauncherPlatform::Direct, vec![], none()),
        (LauncherStatus::Ready, 0, s("Direct launch selected"))
    );
    assert_eq!(
        readiness(LauncherPlatform::Steam, vec![other.clone(), held.clone()], none()),
        (LauncherStatus::Ready, 0, s("ARC Raiders is running with the sync key set"))
    );
    assert_eq!(
        readiness(LauncherPlatform::Steam, vec![], none()),
        (LauncherStatus::NotRunning, 0, s("Steam is not running"))
    );
    assert_eq!(
        readiness(
            LauncherPlatform::Epic,
            vec![],
            LauncherScan::Found(vec![failed.clone(), held.clone()])
        ),
        (LauncherStatus::Ready, 2, s("Epic Games is ready"))
    );
    assert_eq!(
        readiness(
            LauncherPlatform::Steam,
            vec![],
            LauncherScan::Found(vec![EnvReading::Absent, failed.clone()])
        ),
        (LauncherStatus::Unknown, 2, s("Could not confirm Steam setup: denied"))
    );
    assert_eq!(
        readiness(
            LauncherPlatform::Steam,
            vec![],
            LauncherScan::Found(vec![EnvReading::Absent, other.clone()])
        ),
        (LauncherStatus::NeedsRestart, 2, s("Steam needs to restart"))
    );
    assert_eq!(
        readiness(LauncherPlatform::Steam, vec![failed], LauncherScan::Failed(s("no /proc"))),
        (LauncherStatus::Unknown, 0, s("Could not inspect Steam: no /proc"))
    );
    assert!(game_has_sync_key(&vec![other, held], "C:\\keys.log"));
    assert!(!game_has_sync_key(&Vec::new(), "C:\\keys.log"));
}

#[test]
fn steam_is_looked_for_on_the_path_and_in_flatpak() {
    assert_eq!(
        linux_steam_candidates("/usr/bin::/opt/"),
        vec![
            "/usr/bin/steam",
            "/opt/steam",
            "/var/lib/flatpak/exports/bin/com.valvesoftware.Steam"
        ]
    );
    assert_eq!(search_path_candidates("/a:", "x", false), vec!["/a/x", "x"]);
    assert_eq!(windows_steam_candidates(None).len(), 2);
    assert_eq!(windows_steam_candidates(Some("D:\\steam.exe"))[0], "D:\\steam.exe");
    let flatpak = "/var/lib/flatpak/exports/bin/com.valvesoftware.Steam";
    let probes = vec![probe("/a/steam", false), probe("/b/steam", true), probe(flatpak, true)];
    assert_eq!(find_steam_exe(HostOs::Linux, &probes), Ok(s("steam")));
    let exported = vec![probe("/a/steam", false), probe(flatpak, true)];
    assert_eq!(find_steam_exe(HostOs::Linux, &exported), Ok(s(flatpak)));
    let none = vec![probe("/a/steam", false), probe(flatpak, false)];
    assert_eq!(find_steam_exe(HostOs::Linux, &none), Err(LaunchError::SteamNotOnPath));
    assert_eq!(find_steam_exe(HostOs::Linux, &Vec::new()), Err(LaunchError::SteamNotOnPath));
    assert_eq!(find_steam_exe(HostOs::Windows, &probes), Ok(s("/b/steam")));
    assert_eq!(find_steam_exe(HostOs::Windows, &none), Err(LaunchError::SteamNotFound));
    assert_eq!(epic_launcher_candidates().len(), 2);
    assert_eq!(find_epic_launcher_exe(&probes), Ok(s("/b/steam")));
    assert_eq!(find_epic_launcher_exe(&Vec::new()), Err(LaunchError::EpicLauncherNotFound));
}

#[test]
fn game_paths_are_checked() {
    assert_eq!(validate_game_executable(true, true, Some("EXE")), Ok(()));
    assert_eq!(validate_game_executable(false, false, Some("exe")), Err(LaunchError::GameMissing));
    assert_eq!(validate_game_executable(true, false, Some("exe")), Err(LaunchError::GameNotAFile));
    assert_eq!(validate_game_executable(true, true, Some("sh")), Err(LaunchError::GameNotAnExe));
    assert_eq!(validate_game_executable(true, true, None), Err(LaunchError::GameNotAnExe));
    assert_eq!(LaunchError::SteamNotFound.message(), "Steam was not found");
    assert_eq!(LaunchError::SteamNotOnPath.message(), "Steam was not found on PATH");
    assert_eq!(LaunchError::EpicLauncherNotFound.message(), "Epic Games Launcher was not found");
    assert_eq!(LaunchError::SteamPathUnavailable.message(), "Steam path is unavailable");
    assert_eq!(
        LaunchError::EpicPathUnavailable.message(),
        "Epic Games Launcher path is unavailable"
    );
}

#[test]
fn epic_manifests_are_read() {
    let text = "{\"InstallLocation\":\"D:\\\\Epic\\\\Arc\",\"LaunchExecutable\":\"PioneerGame.exe\",\
                \"DisplayName\":\"ARC Raiders\",\"FormatVersion\":0}";
    let manifest = parse_epic_manifest(text).unwrap();
    assert_eq!(manifest.install_location.as_deref(), Some("D:\\Epic\\Arc"));
    assert_eq!(manifest.launch_executable.as_deref(), Some("PioneerGame.exe"));
    assert_eq!(manifest.display_name.as_deref(), Some("ARC Raiders"));
    assert_eq!(parse_epic_manifest("not json"), None);
    let bare = parse_epic_manifest("[1]").unwrap();
    assert_eq!(bare.install_location, None);
    let odd = parse_epic_manifest("{\"InstallLocation\":7}").unwrap();
    assert_eq!(odd.install_location, None);
    let all = read_epic_manifests(&vec![s(text), s("{"), s("{}")]);
    assert_eq!(all.len(), 2);
    assert_eq!(epic_manifest_install_locations(&all), vec!["D:\\Epic\\Arc"]);
    assert!(is_epic_manifest_extension(Some("ITEM")));
    assert!(!is_epic_manifest_extension(Some("json")));
    assert!(!is_epic_manifest_extension(None));
}

fn candidate(exe: &str, display: &str, exists: bool) -> EpicCandidate {
    EpicCandidate {
        manifest: EpicManifest {
            install_location: Some(s("D:\\Epic")),
            launch_executable: Some(s(exe)),
            display_name: Some(s(display)),
        },
        program_exists: exists,
    }
}

#[test]
fn epic_game_is_told_by_its_names() {
    let other = candidate("other.exe", "Other", true);
    let gone = candidate("PioneerGame.exe", "x", false);
    let by_exe = candidate("pioneergame-e.exe", "x", true);
    let by_name = candidate("start.exe", "The ARC Raiders demo", true);
    assert_eq!(
        find_epic_game_executable(
            HostOs::Windows,
            &vec![other.clone(), gone.clone(), by_exe.clone()]
        ),
        Some(s("D:\\Epic\\pioneergame-e.exe"))
    );
    assert_eq!(
        find_epic_game_executable(HostOs::Windows, &vec![by_name, by_exe.clone()]),
        Some(s("D:\\Epic\\start.exe"))
    );
    let deep = candidate("Arc\\Binaries/PioneerGame.exe", "x", true);
    assert_eq!(
        find_epic_game_executable(HostOs::Windows, &vec![deep]),
        Some(s("D:\\Epic\\Arc\\Binaries/PioneerGame.exe"))
    );
    let above = candidate("pioneergame\\start.exe", "x", true);
    let mut nowhere = by_exe.clone();
    nowhere.manifest.install_location = None;
    assert_eq!(epic_program_path(HostOs::Windows, &nowhere.manifest), None);
    let mut unnamed = candidate("", "ARC Raiders", true);
    unnamed.manifest.launch_executable = None;
    assert_eq!(epic_program_path(HostOs::Windows, &unnamed.manifest), None);
    assert_eq!(
        find_epic_game_executable(
            HostOs::Windows,
            &vec![other.clone(), gone, above, nowhere, unnamed]
        ),
        None
    );
    let place = s("/games/steamapps/appmanifest_1808500.acf");
    let libraries = vec![s("/steam"), s("/games")];
    assert_eq!(
        detect_installed_launchers(
            HostOs::Linux,
            &libraries,
            &vec![probe(&place, true)],
            &vec![other]
        ),
        (true, None)
    );
    assert!(!steam_game_installed(HostOs::Linux, &libraries, &vec![probe(&place, false)]));
    assert!(!steam_game_installed(HostOs::Linux, &libraries, &vec![probe("/games", true)]));
    assert!(!steam_game_installed(HostOs::Linux, &Vec::new(), &vec![probe(&place, true)]));
}

#[test]
fn paths_are_joined_as_the_host_joins_them() {
    let linux = |dir: &str, path: &str| join_path(HostOs::Linux, dir, path);
    assert_eq!(linux("/a", "b/c"), "/a/b/c");
    assert_eq!(linux("/a/", "b"), "/a/b");
    assert_eq!(linux("/a", "/b"), "/b");
    assert_eq!(linux("", "b"), "b");
    assert_eq!(linux("/a", ""), "/a/");
    assert_eq!(linux("/a", "C:\\b"), "/a/C:\\b");
    let windows = |dir: &str, path: &str| join_path(HostOs::Windows, dir, path);
    assert_eq!(windows("D:\\Epic", "a.exe"), "D:\\Epic\\a.exe");
    assert_eq!(windows("D:\\Epic/", "a.exe"), "D:\\Epic/a.exe");
    assert_eq!(windows("D:\\Epic", "\\a.exe"), "D:\\a.exe");
    assert_eq!(windows("D:\\Epic", "E:a.exe"), "E:a.exe");
    assert_eq!(windows("D:", "a.exe"), "D:a.exe");
    assert_eq!(windows("\\\\host\\share", "a.exe"), "\\\\host\\share\\a.exe");
    assert_eq!(windows("\\\\host\\share\\x", "/a.exe"), "\\\\host\\share/a.exe");
    assert_eq!(windows("D:\\Epic", "\\\\host\\share\\a"), "\\\\host\\share\\a");
}

#[test]
fn verbatim_directories_are_followed_by_component() {
    let joined = |dir: &str, path: &str| join_path(HostOs::Windows, dir, path);
    assert_eq!(
        joined("\\\\?\\D:\\Epic", "Arc/Binaries/PioneerGame.exe"),
        "\\\\?\\D:\\Epic\\Arc\\Binaries\\PioneerGame.exe"
    );
    assert_eq!(joined("\\\\?\\D:\\Epic\\", "./a/../b"), "\\\\?\\D:\\Epic\\b");
    assert_eq!(joined("\\\\?\\D:\\Epic", "../../../b"), "\\\\?\\D:\\b");
    assert_eq!(joined("\\\\?\\D:\\Epic", "/b"), "\\\\?\\D:\\b");
    assert_eq!(joined("\\\\?\\D:/Epic", "b"), "\\\\?\\D:\\Epic\\b");
    assert_eq!(joined("\\\\?\\D:", "b"), "\\\\?\\D:\\b");
    assert_eq!(joined("\\\\?\\D:", "."), "\\\\?\\D:");
    assert_eq!(joined("\\\\?\\D:", ""), "\\\\?\\D:\\");
    assert_eq!(joined("\\\\?\\D:\\Epic", "E:b"), "E:b");
    assert_eq!(joined("\\\\?\\pics\\x", "/b"), "\\\\?\\pics\\b");
    assert_eq!(
        joined("\\\\?\\UNC\\host\\share\\x", "../y/z"),
        "\\\\?\\UNC\\host\\share\\y\\z"
    );
    assert_eq!(joined("\\\\?\\UNC\\host", "y"), "\\\\?\\UNC\\host\\y");
    assert_eq!(joined("\\\\.\\COM1", "y"), "\\\\.\\COM1\\y");
    assert_eq!(joined("\\\\.\\COM1\\x", "\\y"), "\\\\.\\COM1\\y");
    assert_eq!(joined("//?/D:/Epic", "a/b"), "//?/D:/Epic\\a/b");
    let name = |path: &str| file_name(HostOs::Windows, path);
    assert_eq!(name("\\\\?\\D:\\Epic\\a/b.exe"), Some(s("a/b.exe")));
    assert_eq!(name("\\\\?\\D:/b.exe\\"), Some(s("b.exe")));
    assert_eq!(name("\\\\?\\D:\\Epic\\."), None);
    assert_eq!(name("\\\\?\\UNC\\host\\share"), None);
    assert_eq!(name("\\\\?\\pics"), None);
    assert_eq!(name("\\\\.\\COM1"), None);
}

#[test]
fn file_names_end_a_path() {
    let linux = |path: &str| file_name(HostOs::Linux, path);
    assert_eq!(linux("/usr/bin/a"), Some(s("a")));
    assert_eq!(linux("bin/a/./"), Some(s("a")));
    assert_eq!(linux("a\\b"), Some(s("a\\b")));
    assert_eq!(linux("a/.."), None);
    assert_eq!(linux("/"), None);
    assert_eq!(linux("."), None);
    assert_eq!(linux(""), None);
    let windows = |path: &str| file_name(HostOs::Windows, path);
    assert_eq!(windows("C:\\x\\a.exe"), Some(s("a.exe")));
    assert_eq!(windows("x/a.exe\\"), Some(s("a.exe")));
    assert_eq!(windows("C:a.exe"), Some(s("a.exe")));
    assert_eq!(windows("C:"), None);
    assert_eq!(windows("\\\\host\\share"), None);
}

#[test]
fn steam_libraries_are_listed() {
    let list = "\"libraryfolders\"\n{\n\t\"0\"\n\t{\n\t\t\"path\"\t\t\"C:\\\\Steam\"\n\t\t\"label\"\t\t\"\"\n\
                \t}\n\t\"1\"\t\t\"D:\\\\Games\"\n}\n";
    assert_eq!(
        steam_library_paths(Some("/steam"), Some(list)),
        vec!["/steam", "C:\\Steam", "D:\\Games"]
    );
    assert_eq!(steam_library_paths(Some("/steam"), None), vec!["/steam"]);
    assert_eq!(steam_library_paths(None, Some(list)), Vec::<String>::new());
    assert_eq!(quoted_tokens("a \"b\" c \"d e\" \"f"), vec!["b", "d e"]);
    assert_eq!(steam_manifest_name(), "appmanifest_1808500.acf");
    assert_eq!(
        steam_manifest_paths(HostOs::Windows, &vec![s("C:\\Steam"), s("D:\\Games\\")]),
        vec![
            "C:\\Steam\\steamapps\\appmanifest_1808500.acf",
            "D:\\Games\\steamapps\\appmanifest_1808500.acf"
        ]
    );
}

fn plan(platform: LauncherPlatform, kind: SyncKeySourceKind) -> LauncherSetupPlan {
    LauncherSetupPlan {
        platform,
        setup_source: SyncKeySource { kind, path: s("/keys") },
        game_executable: None,
        steam_exe: Some(s("steam")),
        epic_launcher_exe: None,
    }
}

#[test]
fn plans_are_built_for_the_platform_in_effect() {
    let source = SyncKeySource { kind: SyncKeySourceKind::AppOwned, path: s("/keys") };
    let built = LauncherSetupPlan::build(
        LauncherPlatform::Auto,
        Some("/games/a.exe"),
        &Vec::new(),
        source.clone(),
        HostOs::Linux,
        &vec![probe("/usr/bin/steam", true)],
        &Vec::new(),
    )
    .unwrap();
    assert_eq!(built.platform, LauncherPlatform::Steam);
    assert_eq!(built.steam_exe.as_deref(), Some("steam"));
    assert_eq!(built.epic_launcher_exe, None);
    assert_eq!(built.game_executable.as_deref(), Some("/games/a.exe"));
    assert_eq!(built.setup_source, source);
    let missing = LauncherSetupPlan::build(
        LauncherPlatform::Epic,
        None,
        &Vec::new(),
        source,
        HostOs::Linux,
        &Vec::new(),
        &Vec::new(),
    );
    assert_eq!(missing, Err(LaunchError::EpicLauncherNotFound));
}

fn steps(platform: LauncherPlatform, force: bool, found: &[bool]) -> Vec<PrepareStep> {
    let plan = plan(platform, SyncKeySourceKind::AppOwned);
    let mut step = prepare_launcher(&plan);
    let mut all = vec![step];
    for answer in found {
        step = continue_preparing(&plan, force, step, *answer);
        all.push(step);
    }
    all
}

#[test]
fn preparation_closes_the_launcher_before_the_key_is_emptied() {
    assert_eq!(
        steps(LauncherPlatform::Direct, false, &[false]),
        vec![PrepareStep::EmptySyncKey, PrepareStep::Finished(PrepareOutcome::Ready)]
    );
    assert_eq!(
        steps(LauncherPlatform::Steam, false, &[false, false, false]),
        vec![
            PrepareStep::Scan,
            PrepareStep::EmptySyncKey,
            PrepareStep::StartLauncher,
            PrepareStep::Finished(PrepareOutcome::Ready)
        ]
    );
    assert_eq!(
        steps(LauncherPlatform::Steam, false, &[true, false, false]),
        vec![
            PrepareStep::Scan,
            PrepareStep::AskToClose,
            PrepareStep::AwaitExit,
            PrepareStep::Finished(PrepareOutcome::StillRunning)
        ]
    );
    assert_eq!(
        steps(LauncherPlatform::Epic, true, &[true, false, true])[1..],
        [PrepareStep::ForceClose, PrepareStep::AwaitExit, PrepareStep::EmptySyncKey]
    );
    assert_eq!(wait_until_process_exits(0, 20000, false), WaitDecision::LookAgain);
    assert_eq!(wait_until_process_exits(20000, 20000, false), WaitDecision::GaveUp);
    assert_eq!(wait_until_process_exits(20000, 20000, true), WaitDecision::Gone);
}

#[test]
fn launchers_are_started_and_closed_by_command() {
    let own = plan(LauncherPlatform::Steam, SyncKeySourceKind::AppOwned);
    let start = start_launcher_with_setup(&own).unwrap().unwrap();
    assert_eq!(start.program, "steam");
    assert_eq!(start.sync_key.as_deref(), Some("/keys"));
    assert_eq!(start.context, "starting steam");
    assert!(start.args.is_empty() && !start.quiet);
    let inherited = plan(LauncherPlatform::Steam, SyncKeySourceKind::ProcessEnv);
    assert_eq!(start_launcher_with_setup(&inherited).unwrap().unwrap().sync_key, None);
    let close = graceful_close_launcher(&own).unwrap().unwrap();
    assert_eq!(close.args, vec!["-shutdown"]);
    assert!(close.quiet);
    let epic = plan(LauncherPlatform::Epic, SyncKeySourceKind::AppOwned);
    assert_eq!(start_launcher_with_setup(&epic), Err(LaunchError::EpicPathUnavailable));
    assert_eq!(
        graceful_close_launcher(&epic).unwrap().unwrap().args,
        vec!["/IM", "EpicGamesLauncher.exe", "/T"]
    );
    let direct = plan(LauncherPlatform::Direct, SyncKeySourceKind::AppOwned);
    assert_eq!(start_launcher_with_setup(&direct), Ok(None));
    assert_eq!(graceful_close_launcher(&direct), Ok(None));
    let mut lost = plan(LauncherPlatform::Steam, SyncKeySourceKind::AppOwned);
    lost.steam_exe = None;
    assert_eq!(start_launcher_with_setup(&lost), Err(LaunchError::SteamPathUnavailable));
    assert_eq!(graceful_close_launcher(&lost), Err(LaunchError::SteamPathUnavailable));
}

#[test]
fn processes_are_closed_by_force() {
    let process = |pid: u32| LauncherProcess {
        pid,
        parent_pid: 1,
        name: s("steam.exe"),
        executable_path: None,
    };
    assert_eq!(force_close_command(&Vec::new()), None);
    let command = force_close_command(&vec![process(7), process(8)]).unwrap();
    assert_eq!(command.program, "taskkill");
    assert_eq!(command.args, vec!["/F", "/IM", "steam.exe", "/T"]);
    assert_eq!(command.context, "force closing steam.exe");
    assert_eq!(force_close_pids(&vec![process(7), process(8)]), vec![7, 8]);
}
