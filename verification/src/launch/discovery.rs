//! What is installed: launchers, the game, and the libraries it may be in.

use vstd::prelude::*;

use crate::launch::files::{file_name, join_path};
use crate::numerals::to_decimal;
use crate::text::{
    cat2, cat3, chars_of, contains_str, eq_ignore_ascii_case, is_ascii_digit, lines_of,
    replaced_all, split_on, starts_with, str_eq, string_of, to_lower,
};
use crate::launch::files::{file_name_of, joined_path};
use crate::launch::ARC_RAIDERS_STEAM_APP_ID;
use crate::numerals::decimal;
use crate::text::{
    ascii_digit, contains, equal_to, has_at, lemma_span_is, lines, lower, opt_str_view, opt_view,
    replace_all, span, split, views,
};

verus! {

// ----- errors ---------------------------------------------------------------------

/// Why a launcher cannot be set up or started.
#[derive(Debug, Clone, Copy, PartialEq, Eq, Structural)]
pub enum LaunchError {
    SteamNotFound,
    SteamNotOnPath,
    EpicLauncherNotFound,
    SteamPathUnavailable,
    EpicPathUnavailable,
    GameMissing,
    GameNotAFile,
    GameNotAnExe,
}

pub open spec fn launch_error_text(error: LaunchError) -> Seq<char> {
    match error {
        LaunchError::SteamNotFound => "Steam was not found"@,
        LaunchError::SteamNotOnPath => "Steam was not found on PATH"@,
        LaunchError::EpicLauncherNotFound => "Epic Games Launcher was not found"@,
        LaunchError::SteamPathUnavailable => "Steam path is unavailable"@,
        LaunchError::EpicPathUnavailable => "Epic Games Launcher path is unavailable"@,
        LaunchError::GameMissing => "Select the ARC Raiders PioneerGame.exe file."@,
        LaunchError::GameNotAFile => "The selected ARC Raiders path is not a file."@,
        LaunchError::GameNotAnExe => "Select a Windows .exe file for ARC Raiders."@,
    }
}

impl LaunchError {
    /// The error in words.
    pub fn message(self) -> (r: &'static str)
        ensures
            r@ == launch_error_text(self),
    {
        match self {
            LaunchError::SteamNotFound => "Steam was not found",
            LaunchError::SteamNotOnPath => "Steam was not found on PATH",
            LaunchError::EpicLauncherNotFound => "Epic Games Launcher was not found",
            LaunchError::SteamPathUnavailable => "Steam path is unavailable",
            LaunchError::EpicPathUnavailable => "Epic Games Launcher path is unavailable",
            LaunchError::GameMissing => "Select the ARC Raiders PioneerGame.exe file.",
            LaunchError::GameNotAFile => "The selected ARC Raiders path is not a file.",
            LaunchError::GameNotAnExe => "Select a Windows .exe file for ARC Raiders.",
        }
    }
}

// ----- files that may be there ----------------------------------------------------

/// The operating systems whose launchers are looked for in different places.
#[derive(Debug, Clone, Copy, PartialEq, Eq, Structural)]
pub enum HostOs {
    Linux,
    Windows,
}

/// A path, and whether something is there.
#[derive(Debug, Clone, PartialEq, Eq)]
pub struct PathProbe {
    pub path: String,
    pub exists: bool,
}

/// The first of the paths at which something is.
pub open spec fn first_present(probes: Seq<PathProbe>) -> Option<Seq<char>>
    decreases probes.len(),
{
    if probes.len() == 0 {
        None
    } else if probes[0].exists {
        Some(probes[0].path@)
    } else {
        first_present(probes.drop_first())
    }
}

pub fn first_existing(probes: &Vec<PathProbe>) -> (r: Option<String>)
    ensures
        opt_view(r) == first_present(probes@),
{
    let mut i: usize = 0;
    assert(probes@.skip(0) =~= probes@);
    while i < probes.len()
        invariant
            i <= probes@.len(),
            first_present(probes@) == first_present(probes@.skip(i as int)),
        decreases probes.len() - i,
    {
        assert(probes@.skip(i as int).drop_first() =~= probes@.skip(i + 1));
        if probes[i].exists {
            return Some(probes[i].path.clone());
        }
        i += 1;
    }
    None
}

/// A file name in a directory, with slashes; the name alone where the
/// directory is the empty path.
pub open spec fn slash_join(dir: Seq<char>, name: Seq<char>) -> Seq<char> {
    if dir.len() == 0 || dir.last() == '/' {
        dir + name
    } else {
        dir + "/"@ + name
    }
}

pub fn join_with_slash(dir: &str, name: &str) -> (r: String)
    ensures
        r@ == slash_join(dir@, name@),
{
    let v = chars_of(dir);
    let n: usize = v.len();
    if n == 0 || v[n - 1] == '/' {
        cat2(dir, name)
    } else {
        cat3(dir, "/", name)
    }
}

/// The name in each directory of a search path; `skip_empty` leaves empty entries out.
pub open spec fn in_each_dir(
    dirs: Seq<Seq<char>>,
    name: Seq<char>,
    skip_empty: bool,
) -> Seq<Seq<char>>
    decreases dirs.len(),
{
    if dirs.len() == 0 {
        Seq::empty()
    } else {
        let before = in_each_dir(dirs.drop_last(), name, skip_empty);
        if skip_empty && dirs.last().len() == 0 {
            before
        } else {
            before.push(slash_join(dirs.last(), name))
        }
    }
}

/// The name in each directory of a search path with colons between entries.
pub fn search_path_candidates(path_var: &str, name: &str, skip_empty: bool) -> (r: Vec<String>)
    ensures
        views(r@) == in_each_dir(split(path_var@, ':'), name@, skip_empty),
{
    let dirs = split_on(path_var, ':');
    let ghost all = split(path_var@, ':');
    let mut r: Vec<String> = Vec::new();
    let mut i: usize = 0;
    while i < dirs.len()
        invariant
            i <= dirs@.len(),
            views(dirs@) == all,
            views(r@) == in_each_dir(all.take(i as int), name@, skip_empty),
        decreases dirs.len() - i,
    {
        assert(all.take(i + 1).drop_last() =~= all.take(i as int));
        if !(skip_empty && dirs[i].as_str().is_empty()) {
            r.push(join_with_slash(dirs[i].as_str(), name));
        }
        i += 1;
    }
    assert(all.take(i as int) =~= all);
    r
}

/// Where Flatpak puts the command that starts Steam.
pub open spec fn flatpak_steam() -> Seq<char> {
    "/var/lib/flatpak/exports/bin/com.valvesoftware.Steam"@
}

/// Where Steam may be on Linux: `steam` in each directory of `PATH`, and last
/// the Flatpak export.
pub open spec fn linux_steam_places(path_var: Seq<char>) -> Seq<Seq<char>> {
    in_each_dir(split(path_var, ':'), "steam"@, true).push(flatpak_steam())
}

pub fn linux_steam_candidates(path_var: &str) -> (r: Vec<String>)
    ensures
        views(r@) == linux_steam_places(path_var@),
{
    let mut r = search_path_candidates(path_var, "steam", true);
    r.push("/var/lib/flatpak/exports/bin/com.valvesoftware.Steam".to_owned());
    r
}

/// Where Steam may be on Windows: where it is registered, and the two default
/// directories.
pub open spec fn windows_steam_places(registered: Option<Seq<char>>) -> Seq<Seq<char>> {
    let defaults = seq![
        "C:\\Program Files (x86)\\Steam\\steam.exe"@,
        "C:\\Program Files\\Steam\\steam.exe"@,
    ];
    match registered {
        Some(path) => seq![path] + defaults,
        None => defaults,
    }
}

pub fn windows_steam_candidates(registered: Option<&str>) -> (r: Vec<String>)
    ensures
        views(r@) == windows_steam_places(opt_str_view(registered)),
{
    let mut r: Vec<String> = Vec::new();
    if let Some(path) = registered {
        r.push(path.to_owned());
    }
    r.push("C:\\Program Files (x86)\\Steam\\steam.exe".to_owned());
    r.push("C:\\Program Files\\Steam\\steam.exe".to_owned());
    r
}

/// What is reported where Steam is nowhere.
pub open spec fn steam_missing(host: HostOs) -> LaunchError {
    match host {
        HostOs::Linux => LaunchError::SteamNotOnPath,
        HostOs::Windows => LaunchError::SteamNotFound,
    }
}

/// One of the paths other than the Flatpak export exists.
pub open spec fn steam_on_path(probes: Seq<PathProbe>) -> bool {
    exists|i: int|
        0 <= i < probes.len() && (#[trigger] probes[i]).exists && probes[i].path@ != flatpak_steam()
}

/// What starts Steam. On Windows that is the first candidate that exists. On
/// Linux it is the bare command where `PATH` has it, so that whoever runs it
/// finds it there, and else the Flatpak export.
pub open spec fn steam_program(host: HostOs, probes: Seq<PathProbe>) -> Option<Seq<char>> {
    match host {
        HostOs::Windows => first_present(probes),
        HostOs::Linux => if steam_on_path(probes) {
            Some("steam"@)
        } else if first_present(probes) is Some {
            Some(flatpak_steam())
        } else {
            None
        },
    }
}

fn is_steam_on_path(probes: &Vec<PathProbe>) -> (r: bool)
    ensures
        r == steam_on_path(probes@),
{
    let mut i: usize = 0;
    while i < probes.len()
        invariant
            i <= probes@.len(),
            forall|k: int|
                0 <= k < i ==> !((#[trigger] probes@[k]).exists && probes@[k].path@
                    != flatpak_steam()),
        decreases probes.len() - i,
    {
        if probes[i].exists && !str_eq(
            probes[i].path.as_str(),
            "/var/lib/flatpak/exports/bin/com.valvesoftware.Steam",
        ) {
            return true;
        }
        i += 1;
    }
    false
}

/// What starts Steam, by which of the candidates exist.
pub fn find_steam_exe(host: HostOs, candidates: &Vec<PathProbe>) -> (r: Result<String, LaunchError>)
    ensures
        match r {
            Ok(path) => steam_program(host, candidates@) == Some(path@),
            Err(error) => steam_program(host, candidates@) is None && error == steam_missing(host),
        },
{
    match host {
        HostOs::Linux => if is_steam_on_path(candidates) {
            Ok("steam".to_owned())
        } else if first_existing(candidates).is_some() {
            Ok("/var/lib/flatpak/exports/bin/com.valvesoftware.Steam".to_owned())
        } else {
            Err(LaunchError::SteamNotOnPath)
        },
        HostOs::Windows => match first_existing(candidates) {
            Some(path) => Ok(path),
            None => Err(LaunchError::SteamNotFound),
        },
    }
}

/// Each path in a search for `steam` ends with that name.
proof fn lemma_steam_places(dirs: Seq<Seq<char>>, i: int)
    requires
        0 <= i < in_each_dir(dirs, "steam"@, true).len(),
    ensures
        in_each_dir(dirs, "steam"@, true)[i] != flatpak_steam(),
    decreases dirs.len(),
{
    let before = in_each_dir(dirs.drop_last(), "steam"@, true);
    if i < before.len() {
        lemma_steam_places(dirs.drop_last(), i);
    } else {
        reveal_strlit("steam");
        reveal_strlit("/");
        reveal_strlit("/var/lib/flatpak/exports/bin/com.valvesoftware.Steam");
        let place = slash_join(dirs.last(), "steam"@);
        assert(place[place.len() - 5] == 's');
        assert(flatpak_steam()[flatpak_steam().len() - 5] == 'S');
    }
}

/// Where `PATH` has Steam, the bare command starts it; where only the Flatpak
/// export is there, that does; and where neither is, nothing does.
pub proof fn law_steam_on_path_is_the_bare_command(path_var: Seq<char>, probes: Seq<PathProbe>)
    requires
        probes.len() == linux_steam_places(path_var).len(),
        forall|i: int|
            0 <= i < probes.len() ==> (#[trigger] probes[i]).path@ == linux_steam_places(
                path_var,
            )[i],
    ensures
        steam_program(HostOs::Linux, probes) == (if exists|i: int|
            0 <= i < probes.len() - 1 && (#[trigger] probes[i]).exists {
            Some("steam"@)
        } else if probes.last().exists {
            Some(flatpak_steam())
        } else {
            None
        }),
{
    let dirs = split(path_var, ':');
    assert forall|i: int| 0 <= i < probes.len() - 1 implies (#[trigger] probes[i]).path@
        != flatpak_steam() by {
        lemma_steam_places(dirs, i);
    }
    assert(probes.last().path@ == flatpak_steam());
    lemma_first_present(probes);
}

/// Something is there exactly where a path exists.
proof fn lemma_first_present(probes: Seq<PathProbe>)
    ensures
        first_present(probes) is Some <==> exists|i: int|
            0 <= i < probes.len() && (#[trigger] probes[i]).exists,
    decreases probes.len(),
{
    if probes.len() > 0 && !probes[0].exists {
        let rest = probes.drop_first();
        lemma_first_present(rest);
        if first_present(rest) is Some {
            let i = choose|i: int| 0 <= i < rest.len() && (#[trigger] rest[i]).exists;
            assert(probes[i + 1].exists);
        } else {
            assert forall|i: int| 0 <= i < probes.len() implies !(#[trigger] probes[i]).exists by {
                if i > 0 {
                    assert(probes[i] == rest[i - 1]);
                }
            }
        }
    }
}

pub open spec fn epic_launcher_places() -> Seq<Seq<char>> {
    seq![
        "C:\\Program Files (x86)\\Epic Games\\Launcher\\Portal\\Binaries\\Win64\\EpicGamesLauncher.exe"@,
        "C:\\Program Files\\Epic Games\\Launcher\\Portal\\Binaries\\Win64\\EpicGamesLauncher.exe"@,
    ]
}

/// Where the Epic Games Launcher may be.
pub fn epic_launcher_candidates() -> (r: Vec<String>)
    ensures
        views(r@) == epic_launcher_places(),
{
    let mut r: Vec<String> = Vec::new();
    r.push(
        "C:\\Program Files (x86)\\Epic Games\\Launcher\\Portal\\Binaries\\Win64\\EpicGamesLauncher.exe".to_owned(),
    );
    r.push(
        "C:\\Program Files\\Epic Games\\Launcher\\Portal\\Binaries\\Win64\\EpicGamesLauncher.exe".to_owned(),
    );
    r
}

/// The Epic Games Launcher: the first candidate that exists.
pub fn find_epic_launcher_exe(candidates: &Vec<PathProbe>) -> (r: Result<String, LaunchError>)
    ensures
        match r {
            Ok(path) => first_present(candidates@) == Some(path@),
            Err(error) => first_present(candidates@) is None && error
                == LaunchError::EpicLauncherNotFound,
        },
{
    match first_existing(candidates) {
        Some(path) => Ok(path),
        None => Err(LaunchError::EpicLauncherNotFound),
    }
}

/// What is wrong with a game path: nothing is there, no file is, or the
/// extension is another than `exe`.
pub open spec fn game_path_fault(
    exists: bool,
    is_file: bool,
    extension: Option<Seq<char>>,
) -> Option<LaunchError> {
    if !exists {
        Some(LaunchError::GameMissing)
    } else if !is_file {
        Some(LaunchError::GameNotAFile)
    } else if extension is Some && lower(extension->0) == lower("exe"@) {
        None
    } else {
        Some(LaunchError::GameNotAnExe)
    }
}

/// Checks a game path by what the file system says of it and by its extension.
pub fn validate_game_executable(
    exists: bool,
    is_file: bool,
    extension: Option<&str>,
) -> (r: Result<(), LaunchError>)
    ensures
        match r {
            Ok(()) => game_path_fault(exists, is_file, opt_str_view(extension)) is None,
            Err(error) => game_path_fault(exists, is_file, opt_str_view(extension)) == Some(error),
        },
{
    if !exists {
        return Err(LaunchError::GameMissing);
    }
    if !is_file {
        return Err(LaunchError::GameNotAFile);
    }
    if let Some(extension) = extension {
        if eq_ignore_ascii_case(extension, "exe") {
            return Ok(());
        }
    }
    Err(LaunchError::GameNotAnExe)
}

// ----- Epic's manifests -----------------------------------------------------------

/// A JSON document of `serde_json`.
#[verifier::external_type_specification]
#[verifier::external_body]
pub struct ExJsonValue(serde_json::Value);

/// The members of a JSON object whose values are strings; nothing where the
/// document is no object.
pub uninterp spec fn string_members(value: serde_json::Value) -> Map<Seq<char>, Seq<char>>;

/// The string members of the object that a text spells as JSON; `None` where
/// the text is no JSON.
pub uninterp spec fn parsed_members(text: Seq<char>) -> Option<Map<Seq<char>, Seq<char>>>;

/// `serde_json::from_str` parses a text into a document, or fails; which texts
/// it takes and what they hold is named by `parsed_members`.
#[verifier::external_body]
fn parse_json(text: &str) -> (r: Option<serde_json::Value>)
    ensures
        match r {
            Some(value) => parsed_members(text@) == Some(string_members(value)),
            None => parsed_members(text@) is None,
        },
{
    serde_json::from_str::<serde_json::Value>(text).ok()
}

/// `serde_json::Value::get` with a string key, followed by
/// `serde_json::Value::as_str`: the string under the key of an object, `None`
/// where the document is no object, has no such key or holds no string there.
#[verifier::external_body]
fn json_string(value: &serde_json::Value, key: &str) -> (r: Option<String>)
    ensures
        match r {
            Some(s) => string_members(*value).dom().contains(key@) && string_members(
                *value,
            )[key@] == s@,
            None => !string_members(*value).dom().contains(key@),
        },
{
    value.get(key).and_then(|member| member.as_str()).map(|s| s.to_string())
}

/// What a manifest of an installed game says.
#[derive(Debug, Clone, PartialEq, Eq)]
pub struct EpicManifest {
    pub install_location: Option<String>,
    pub launch_executable: Option<String>,
    pub display_name: Option<String>,
}

/// The member of an object, if it has it.
pub open spec fn member(
    members: Map<Seq<char>, Seq<char>>,
    key: Seq<char>,
) -> Option<Seq<char>> {
    if members.dom().contains(key) {
        Some(members[key])
    } else {
        None
    }
}

/// The manifest says what the members say.
pub open spec fn manifest_says(
    manifest: EpicManifest,
    members: Map<Seq<char>, Seq<char>>,
) -> bool {
    &&& opt_view(manifest.install_location) == member(members, "InstallLocation"@)
    &&& opt_view(manifest.launch_executable) == member(members, "LaunchExecutable"@)
    &&& opt_view(manifest.display_name) == member(members, "DisplayName"@)
}

/// Reads a manifest; `None` where the text is no JSON.
pub fn parse_epic_manifest(text: &str) -> (r: Option<EpicManifest>)
    ensures
        match r {
            Some(manifest) => parsed_members(text@) is Some && manifest_says(
                manifest,
                parsed_members(text@)->0,
            ),
            None => parsed_members(text@) is None,
        },
{
    match parse_json(text) {
        Some(value) => Some(
            EpicManifest {
                install_location: json_string(&value, "InstallLocation"),
                launch_executable: json_string(&value, "LaunchExecutable"),
                display_name: json_string(&value, "DisplayName"),
            },
        ),
        None => None,
    }
}

/// Reads the manifests among the texts, in order; a text that is no JSON is passed over.
pub open spec fn manifests_of(texts: Seq<Seq<char>>) -> Seq<Map<Seq<char>, Seq<char>>>
    decreases texts.len(),
{
    if texts.len() == 0 {
        Seq::empty()
    } else {
        let before = manifests_of(texts.drop_last());
        match parsed_members(texts.last()) {
            Some(members) => before.push(members),
            None => before,
        }
    }
}

pub fn read_epic_manifests(texts: &Vec<String>) -> (r: Vec<EpicManifest>)
    ensures
        r@.len() == manifests_of(views(texts@)).len(),
        forall|i: int|
            0 <= i < r@.len() ==> manifest_says(
                #[trigger] r@[i],
                manifests_of(views(texts@))[i],
            ),
{
    let ghost all = views(texts@);
    let mut r: Vec<EpicManifest> = Vec::new();
    let mut i: usize = 0;
    while i < texts.len()
        invariant
            i <= texts@.len(),
            all == views(texts@),
            r@.len() == manifests_of(all.take(i as int)).len(),
            forall|k: int|
                0 <= k < r@.len() ==> manifest_says(
                    #[trigger] r@[k],
                    manifests_of(all.take(i as int))[k],
                ),
        decreases texts.len() - i,
    {
        assert(all.take(i + 1).drop_last() =~= all.take(i as int));
        if let Some(manifest) = parse_epic_manifest(texts[i].as_str()) {
            r.push(manifest);
        }
        i += 1;
    }
    assert(all.take(i as int) =~= all);
    r
}

/// A manifest file has the extension `item`.
pub fn is_epic_manifest_extension(extension: Option<&str>) -> (r: bool)
    ensures
        r == (extension is Some && lower(extension->0@) == lower("item"@)),
{
    match extension {
        Some(extension) => eq_ignore_ascii_case(extension, "item"),
        None => false,
    }
}

/// The install locations that the manifests name, in order.
pub open spec fn install_locations(manifests: Seq<EpicManifest>) -> Seq<Seq<char>>
    decreases manifests.len(),
{
    if manifests.len() == 0 {
        Seq::empty()
    } else {
        let before = install_locations(manifests.drop_last());
        match manifests.last().install_location {
            Some(location) => before.push(location@),
            None => before,
        }
    }
}

pub fn epic_manifest_install_locations(manifests: &Vec<EpicManifest>) -> (r: Vec<String>)
    ensures
        views(r@) == install_locations(manifests@),
{
    let mut r: Vec<String> = Vec::new();
    let mut i: usize = 0;
    while i < manifests.len()
        invariant
            i <= manifests@.len(),
            views(r@) == install_locations(manifests@.take(i as int)),
        decreases manifests.len() - i,
    {
        assert(manifests@.take(i + 1).drop_last() =~= manifests@.take(i as int));
        if let Some(location) = &manifests[i].install_location {
            r.push(location.clone());
        }
        i += 1;
    }
    assert(manifests@.take(i as int) =~= manifests@);
    r
}

/// The program that a manifest names: `LaunchExecutable` under `InstallLocation`.
pub open spec fn manifest_program(host: HostOs, manifest: EpicManifest) -> Option<Seq<char>> {
    if manifest.install_location is Some && manifest.launch_executable is Some {
        Some(
            joined_path(
                host,
                manifest.install_location->0@,
                manifest.launch_executable->0@,
            ),
        )
    } else {
        None
    }
}

/// Where the program is that a manifest names, if it names one.
pub fn epic_program_path(host: HostOs, manifest: &EpicManifest) -> (r: Option<String>)
    ensures
        opt_view(r) == manifest_program(host, *manifest),
{
    match &manifest.install_location {
        Some(install) => match &manifest.launch_executable {
            Some(launch) => Some(join_path(host, install.as_str(), launch.as_str())),
            None => None,
        },
        None => None,
    }
}

/// A manifest, and whether something is where its program should be.
#[derive(Debug, Clone, PartialEq, Eq)]
pub struct EpicCandidate {
    pub manifest: EpicManifest,
    pub program_exists: bool,
}

/// The text, or nothing where there is none.
pub open spec fn or_empty(text: Option<Seq<char>>) -> Seq<char> {
    match text {
        Some(text) => text,
        None => Seq::empty(),
    }
}

/// A program or display name of the game.
pub open spec fn names_the_game(exe: Option<Seq<char>>, display: Option<Seq<char>>) -> bool {
    has_at(lower(or_empty(exe)), "pioneergame"@, 0) || contains(
        lower(or_empty(display)),
        "arc raiders"@,
    )
}

/// The candidate is the installed game: it names a program that is there, and
/// the file name of the program or the name on display is the game's.
pub open spec fn is_installed_game(host: HostOs, c: EpicCandidate) -> bool {
    &&& manifest_program(host, c.manifest) is Some
    &&& names_the_game(
        file_name_of(host, c.manifest.launch_executable->0@),
        opt_view(c.manifest.display_name),
    )
    &&& c.program_exists
}

/// The program of the first candidate that is the installed game.
pub open spec fn first_installed_game(
    host: HostOs,
    candidates: Seq<EpicCandidate>,
) -> Option<Seq<char>>
    decreases candidates.len(),
{
    if candidates.len() == 0 {
        None
    } else if is_installed_game(host, candidates[0]) {
        manifest_program(host, candidates[0].manifest)
    } else {
        first_installed_game(host, candidates.drop_first())
    }
}

fn lower_or_empty(text: &Option<String>) -> (r: String)
    ensures
        r@ == lower(or_empty(opt_view(*text))),
{
    match text {
        Some(text) => to_lower(text.as_str()),
        None => {
            let r: String = String::new();
            r
        },
    }
}

fn is_game_candidate(host: HostOs, c: &EpicCandidate) -> (r: bool)
    ensures
        r == is_installed_game(host, *c),
{
    if c.manifest.install_location.is_none() {
        return false;
    }
    let launch = match &c.manifest.launch_executable {
        Some(launch) => launch,
        None => return false,
    };
    let exe = lower_or_empty(&file_name(host, launch.as_str()));
    let display = lower_or_empty(&c.manifest.display_name);
    (starts_with(exe.as_str(), "pioneergame") || contains_str(display.as_str(), "arc raiders"))
        && c.program_exists
}

/// The game's program by Epic's manifests, so that nobody has to pick the file
/// by hand. A manifest that lacks something, or whose program is not there, is
/// passed over.
pub fn find_epic_game_executable(host: HostOs, candidates: &Vec<EpicCandidate>) -> (r: Option<
    String,
>)
    ensures
        opt_view(r) == first_installed_game(host, candidates@),
{
    let mut i: usize = 0;
    assert(candidates@.skip(0) =~= candidates@);
    while i < candidates.len()
        invariant
            i <= candidates@.len(),
            first_installed_game(host, candidates@) == first_installed_game(
                host,
                candidates@.skip(i as int),
            ),
        decreases candidates.len() - i,
    {
        assert(candidates@.skip(i as int).drop_first() =~= candidates@.skip(i + 1));
        if is_game_candidate(host, &candidates[i]) {
            return epic_program_path(host, &candidates[i].manifest);
        }
        i += 1;
    }
    None
}

// ----- Steam's libraries ----------------------------------------------------------

/// The tokens between double quotes, in order. A quote that is never closed
/// opens nothing.
pub open spec fn quoted(s: Seq<char>) -> Seq<Seq<char>>
    decreases s.len(),
{
    let open = span(s, equal_to('"'));
    if open >= s.len() {
        Seq::empty()
    } else {
        let rest = s.skip(open as int + 1);
        let n = span(rest, equal_to('"'));
        if n >= rest.len() {
            Seq::empty()
        } else {
            seq![rest.take(n as int)] + quoted(rest.skip(n as int + 1))
        }
    }
}

fn index_of_quote(v: &Vec<char>, from: usize) -> (r: usize)
    requires
        from <= v@.len(),
    ensures
        from <= r <= v@.len(),
        r - from == span(v@.skip(from as int), equal_to('"')),
{
    let mut r: usize = from;
    while r < v.len() && v[r] != '"'
        invariant
            from <= r <= v@.len(),
            forall|k: int| from <= k < r ==> v@[k] != '"',
        decreases v.len() - r,
    {
        r += 1;
    }
    proof {
        let rest = v@.skip(from as int);
        assert forall|k: int| 0 <= k < r - from implies !equal_to('"')(#[trigger] rest[k]) by {}
        lemma_span_is(rest, equal_to('"'), r - from);
    }
    r
}

/// Each double-quoted token on a line, in order.
pub fn quoted_tokens(line: &str) -> (r: Vec<String>)
    ensures
        views(r@) == quoted(line@),
{
    let v = chars_of(line);
    let mut r: Vec<String> = Vec::new();
    let mut i: usize = 0;
    assert(line@.skip(0) =~= line@);
    while i < v.len()
        invariant
            i <= v@.len(),
            v@ == line@,
            quoted(line@) == views(r@) + quoted(line@.skip(i as int)),
        decreases v.len() - i,
    {
        let ghost rest = line@.skip(i as int);
        let open = index_of_quote(&v, i);
        if open == v.len() {
            return r;
        }
        let start: usize = open + 1;
        let close = index_of_quote(&v, start);
        assert(rest.skip(open - i + 1) =~= line@.skip(start as int));
        if close == v.len() {
            return r;
        }
        let token = string_of(vstd::slice::slice_subrange(v.as_slice(), start, close));
        assert(token@ =~= line@.skip(start as int).take(close - start));
        assert(line@.skip(start as int).skip(close - start + 1) =~= line@.skip(close + 1));
        r.push(token);
        i = close + 1;
    }
    r
}

/// Every character is a digit.
pub open spec fn all_ascii_digits(s: Seq<char>) -> bool {
    forall|i: int| 0 <= i < s.len() ==> ascii_digit(#[trigger] s[i])
}

fn is_all_ascii_digits(s: &str) -> (r: bool)
    ensures
        r == all_ascii_digits(s@),
{
    let v = chars_of(s);
    let mut i: usize = 0;
    while i < v.len()
        invariant
            i <= v@.len(),
            v@ == s@,
            forall|k: int| 0 <= k < i ==> ascii_digit(#[trigger] s@[k]),
        decreases v.len() - i,
    {
        if !is_ascii_digit(v[i]) {
            return false;
        }
        i += 1;
    }
    true
}

/// The library that a line of the library list names: the second quoted token,
/// where the first is `path` or an index, with its escaped backslashes undone.
pub open spec fn library_of_line(line: Seq<char>) -> Option<Seq<char>> {
    let tokens = quoted(line);
    if tokens.len() >= 2 && (tokens[0] == "path"@ || all_ascii_digits(tokens[0])) {
        Some(replace_all(tokens[1], "\\\\"@, "\\"@))
    } else {
        None
    }
}

fn library_on_line(line: &str) -> (r: Option<String>)
    ensures
        opt_view(r) == library_of_line(line@),
{
    let tokens = quoted_tokens(line);
    if tokens.len() < 2 {
        return None;
    }
    if str_eq(tokens[0].as_str(), "path") || is_all_ascii_digits(tokens[0].as_str()) {
        proof {
            reveal_strlit("\\\\");
        }
        Some(replaced_all(tokens[1].as_str(), "\\\\", "\\"))
    } else {
        None
    }
}

/// The libraries that the lines name, in order.
pub open spec fn libraries_of_lines(all: Seq<Seq<char>>) -> Seq<Seq<char>>
    decreases all.len(),
{
    if all.len() == 0 {
        Seq::empty()
    } else {
        let before = libraries_of_lines(all.drop_last());
        match library_of_line(all.last()) {
            Some(library) => before.push(library),
            None => before,
        }
    }
}

/// Steam's libraries: its own directory, and those that its library list names.
pub open spec fn steam_libraries(
    steam: Option<Seq<char>>,
    list: Option<Seq<char>>,
) -> Seq<Seq<char>> {
    match steam {
        Some(steam) => match list {
            Some(list) => seq![steam] + libraries_of_lines(lines(list)),
            None => seq![steam],
        },
        None => Seq::empty(),
    }
}

/// Steam's libraries, from its directory and the text of `libraryfolders.vdf`
/// in it. That file lists a library as `"path" "<dir>"`, or under an index
/// (`"1" "<dir>"`) where it is an old one.
pub fn steam_library_paths(steam: Option<&str>, library_list: Option<&str>) -> (r: Vec<String>)
    ensures
        views(r@) == steam_libraries(opt_str_view(steam), opt_str_view(library_list)),
{
    let mut r: Vec<String> = Vec::new();
    let steam = match steam {
        Some(steam) => steam,
        None => {
            return r;
        },
    };
    r.push(steam.to_owned());
    if let Some(list) = library_list {
        let all = lines_of(list);
        let ghost view = lines(list@);
        let mut i: usize = 0;
        while i < all.len()
            invariant
                i <= all@.len(),
                views(all@) == view,
                views(r@) == seq![steam@] + libraries_of_lines(view.take(i as int)),
            decreases all.len() - i,
        {
            assert(view.take(i + 1).drop_last() =~= view.take(i as int));
            if let Some(library) = library_on_line(all[i].as_str()) {
                let ghost before = r@;
                r.push(library);
                assert(views(r@) =~= views(before).push(library@));
            }
            i += 1;
        }
        assert(view.take(i as int) =~= view);
    }
    r
}

/// The name of the file that a Steam library holds for the installed game.
pub open spec fn manifest_name() -> Seq<char> {
    "appmanifest_"@ + decimal(ARC_RAIDERS_STEAM_APP_ID as nat) + ".acf"@
}

pub fn steam_manifest_name() -> (r: String)
    ensures
        r@ == manifest_name(),
{
    let number = to_decimal(ARC_RAIDERS_STEAM_APP_ID as u64);
    cat3("appmanifest_", number.as_str(), ".acf")
}

/// Where a Steam library has that file: in its `steamapps` directory.
pub open spec fn manifest_place(host: HostOs, library: Seq<char>) -> Seq<char> {
    joined_path(host, joined_path(host, library, "steamapps"@), manifest_name())
}

/// Where each of the libraries has the file of the installed game.
pub fn steam_manifest_paths(host: HostOs, libraries: &Vec<String>) -> (r: Vec<String>)
    ensures
        r@.len() == libraries@.len(),
        forall|i: int|
            0 <= i < r@.len() ==> (#[trigger] r@[i])@ == manifest_place(host, libraries@[i]@),
{
    let name = steam_manifest_name();
    let mut r: Vec<String> = Vec::new();
    let mut i: usize = 0;
    while i < libraries.len()
        invariant
            i <= libraries@.len(),
            name@ == manifest_name(),
            r@.len() == i,
            forall|k: int|
                0 <= k < i ==> (#[trigger] r@[k])@ == manifest_place(host, libraries@[k]@),
        decreases libraries.len() - i,
    {
        let apps = join_path(host, libraries[i].as_str(), "steamapps");
        r.push(join_path(host, apps.as_str(), name.as_str()));
        i += 1;
    }
    r
}

/// The probes have found something at the path.
pub open spec fn found_at(probes: Seq<PathProbe>, path: Seq<char>) -> bool {
    exists|i: int| 0 <= i < probes.len() && (#[trigger] probes[i]).exists && probes[i].path@ == path
}

/// One of the libraries holds the game.
pub open spec fn game_in_libraries(
    host: HostOs,
    libraries: Seq<String>,
    probes: Seq<PathProbe>,
) -> bool {
    exists|i: int|
        0 <= i < libraries.len() && found_at(
            probes,
            manifest_place(host, (#[trigger] libraries[i])@),
        )
}

fn is_found_at(probes: &Vec<PathProbe>, path: &str) -> (r: bool)
    ensures
        r == found_at(probes@, path@),
{
    let mut i: usize = 0;
    while i < probes.len()
        invariant
            i <= probes@.len(),
            forall|k: int|
                0 <= k < i ==> !((#[trigger] probes@[k]).exists && probes@[k].path@ == path@),
        decreases probes.len() - i,
    {
        if probes[i].exists && str_eq(probes[i].path.as_str(), path) {
            return true;
        }
        i += 1;
    }
    false
}

/// Whether one of the libraries holds the game's manifest, by what was found
/// at the paths that `steam_manifest_paths` gives.
pub fn steam_game_installed(
    host: HostOs,
    libraries: &Vec<String>,
    probes: &Vec<PathProbe>,
) -> (r: bool)
    ensures
        r == game_in_libraries(host, libraries@, probes@),
{
    let paths = steam_manifest_paths(host, libraries);
    let mut i: usize = 0;
    while i < paths.len()
        invariant
            i <= paths@.len(),
            paths@.len() == libraries@.len(),
            forall|k: int|
                0 <= k < paths@.len() ==> (#[trigger] paths@[k])@ == manifest_place(
                    host,
                    libraries@[k]@,
                ),
            forall|k: int|
                0 <= k < i ==> !found_at(
                    probes@,
                    manifest_place(host, (#[trigger] libraries@[k])@),
                ),
        decreases paths.len() - i,
    {
        if is_found_at(probes, paths[i].as_str()) {
            assert(found_at(probes@, manifest_place(host, libraries@[i as int]@)));
            return true;
        }
        i += 1;
    }
    false
}

/// Which stores have the game installed right now: Steam, and Epic with its program.
pub fn detect_installed_launchers(
    host: HostOs,
    libraries: &Vec<String>,
    steam_probes: &Vec<PathProbe>,
    epic_candidates: &Vec<EpicCandidate>,
) -> (r: (bool, Option<String>))
    ensures
        r.0 == game_in_libraries(host, libraries@, steam_probes@),
        opt_view(r.1) == first_installed_game(host, epic_candidates@),
{
    (
        steam_game_installed(host, libraries, steam_probes),
        find_epic_game_executable(host, epic_candidates),
    )
}

} // verus!
