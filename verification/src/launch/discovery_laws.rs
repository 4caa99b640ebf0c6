//! What the search for launchers and the game is for: laws on where it looks,
//! what it takes for the game, and how paths are put together.

use vstd::prelude::*;

use crate::launch::discovery::{
    epic_launcher_places, first_installed_game, found_at, game_in_libraries, game_path_fault,
    in_each_dir, install_locations, is_installed_game, libraries_of_lines, library_of_line,
    linux_steam_places, manifest_place, manifests_of, names_the_game, parsed_members, quoted,
    steam_libraries, steam_program, windows_steam_places, EpicCandidate, EpicManifest,
};
use crate::launch::files::{
    components, file_name_of, joined_path, last_name, prefix_len, tail_name, walked,
    windows_split,
};
use crate::launch::laws::law_first_present;
use crate::launch::{HostOs, LaunchError, PathProbe};
use crate::numerals::decimal;
use crate::text::{
    contains, equal_to, has_at, lemma_span_is, lines, lower, opt_view, replace_all, split,
};
use crate::text_laws::{law_begins_with, law_contains};

verus! {

// ----- Steam's program ------------------------------------------------------------

/// A search path is gone through directory by directory, in order: each that is
/// named gives the program in it, behind a slash unless it ends with one. An
/// empty one is passed over where that is asked for, and else stands for the
/// current directory.
pub proof fn law_search_path_in_order(
    dirs: Seq<Seq<char>>,
    dir: Seq<char>,
    name: Seq<char>,
    skip_empty: bool,
)
    ensures
        ({
            let before = in_each_dir(dirs, name, skip_empty);
            let after = in_each_dir(dirs.push(dir), name, skip_empty);
            &&& dir.len() > 0 && dir.last() != '/' ==> after == before.push(dir + "/"@ + name)
            &&& dir.len() > 0 && dir.last() == '/' ==> after == before.push(dir + name)
            &&& dir.len() == 0 && skip_empty ==> after == before
            &&& dir.len() == 0 && !skip_empty ==> after == before.push(name)
            &&& in_each_dir(Seq::empty(), name, skip_empty) == Seq::<Seq<char>>::empty()
        }),
{
    assert(dirs.push(dir).drop_last() =~= dirs);
    if dir.len() == 0 {
        assert(dir + name =~= name);
    }
}

/// Wherever a directory stands in the search path, the program in it is looked at.
pub proof fn law_no_directory_is_left_out(
    dirs: Seq<Seq<char>>,
    i: int,
    name: Seq<char>,
    skip_empty: bool,
)
    requires
        0 <= i < dirs.len(),
        dirs[i].len() > 0,
        dirs[i].last() != '/',
    ensures
        in_each_dir(dirs, name, skip_empty).contains(dirs[i] + "/"@ + name),
    decreases dirs.len(),
{
    let before = dirs.drop_last();
    let all = in_each_dir(dirs, name, skip_empty);
    let some = in_each_dir(before, name, skip_empty);
    if i < before.len() {
        law_no_directory_is_left_out(before, i, name, skip_empty);
        let k = choose|k: int| 0 <= k < some.len() && some[k] == before[i] + "/"@ + name;
        assert(all[k] == some[k]);
    } else {
        assert(all.last() == dirs[i] + "/"@ + name);
        assert(all[all.len() - 1] == all.last());
    }
}

/// On Linux Steam is looked for as `steam` in each directory of `PATH`, and last
/// where Flatpak exports it.
pub proof fn law_linux_steam_places(path_var: Seq<char>)
    ensures
        linux_steam_places(path_var).last()
            == "/var/lib/flatpak/exports/bin/com.valvesoftware.Steam"@,
        linux_steam_places(path_var).drop_last() == in_each_dir(
            split(path_var, ':'),
            "steam"@,
            true,
        ),
{
    assert(linux_steam_places(path_var).drop_last() =~= in_each_dir(
        split(path_var, ':'),
        "steam"@,
        true,
    ));
}

/// On Windows Steam is looked for where it is registered, before the default
/// directories.
pub proof fn law_windows_steam_places(path: Seq<char>)
    ensures
        windows_steam_places(Some(path)).len() == 3,
        windows_steam_places(Some(path))[0] == path,
        windows_steam_places(Some(path)).skip(1) == windows_steam_places(None),
        windows_steam_places(None).contains("C:\\Program Files (x86)\\Steam\\steam.exe"@),
        windows_steam_places(None).contains("C:\\Program Files\\Steam\\steam.exe"@),
{
    let none = windows_steam_places(None);
    assert(none[0] == "C:\\Program Files (x86)\\Steam\\steam.exe"@);
    assert(none[1] == "C:\\Program Files\\Steam\\steam.exe"@);
    assert(windows_steam_places(Some(path)).skip(1) =~= none);
}

/// Epic's launcher is looked for in both program directories.
pub proof fn law_epic_launcher_places()
    ensures
        epic_launcher_places().contains(
            "C:\\Program Files (x86)\\Epic Games\\Launcher\\Portal\\Binaries\\Win64\\EpicGamesLauncher.exe"@,
        ),
        epic_launcher_places().contains(
            "C:\\Program Files\\Epic Games\\Launcher\\Portal\\Binaries\\Win64\\EpicGamesLauncher.exe"@,
        ),
        epic_launcher_places().len() == 2,
{
    let places = epic_launcher_places();
    assert(places[0]
        == "C:\\Program Files (x86)\\Epic Games\\Launcher\\Portal\\Binaries\\Win64\\EpicGamesLauncher.exe"@);
    assert(places[1]
        == "C:\\Program Files\\Epic Games\\Launcher\\Portal\\Binaries\\Win64\\EpicGamesLauncher.exe"@);
}

/// Steam is what was found first on Windows; on Linux any find on `PATH` is the
/// bare command; and without a find there is none on either.
pub proof fn law_steam_program(probes: Seq<PathProbe>, i: int)
    ensures
        0 <= i < probes.len() && probes[i].exists && (forall|j: int|
            0 <= j < i ==> !(#[trigger] probes[j]).exists) ==> steam_program(
            HostOs::Windows,
            probes,
        ) == Some(probes[i].path@),
        0 <= i < probes.len() && probes[i].exists && probes[i].path@
            != "/var/lib/flatpak/exports/bin/com.valvesoftware.Steam"@ ==> steam_program(
            HostOs::Linux,
            probes,
        ) == Some("steam"@),
        (forall|j: int| 0 <= j < probes.len() ==> !(#[trigger] probes[j]).exists) ==> steam_program(
            HostOs::Linux,
            probes,
        ) is None && steam_program(HostOs::Windows, probes) is None,
{
    law_first_present(probes);
}

/// What is wrong with a game path is told in this order: that nothing is there,
/// that it is no file, that it is no program.
pub proof fn law_game_path_fault(exists: bool, is_file: bool, extension: Option<Seq<char>>)
    ensures
        game_path_fault(exists, is_file, extension) is None <==> exists && is_file && extension
            is Some && lower(extension->0) == lower("exe"@),
        !exists ==> game_path_fault(exists, is_file, extension) == Some(LaunchError::GameMissing),
        exists && !is_file ==> game_path_fault(exists, is_file, extension) == Some(
            LaunchError::GameNotAFile,
        ),
        exists && is_file && extension is None ==> game_path_fault(exists, is_file, extension)
            == Some(LaunchError::GameNotAnExe),
{
}

// ----- Epic's manifests -----------------------------------------------------------

/// Every text that is JSON gives a manifest, in order, and no other does.
pub proof fn law_manifests_in_order(texts: Seq<Seq<char>>, text: Seq<char>)
    ensures
        parsed_members(text) matches Some(members) ==> manifests_of(texts.push(text))
            == manifests_of(texts).push(members),
        parsed_members(text) is None ==> manifests_of(texts.push(text)) == manifests_of(texts),
        manifests_of(Seq::empty()).len() == 0,
{
    assert(texts.push(text).drop_last() =~= texts);
}

/// Every location that a manifest names is listed, in order.
pub proof fn law_install_locations_in_order(
    manifests: Seq<EpicManifest>,
    manifest: EpicManifest,
)
    ensures
        manifest.install_location matches Some(location) ==> install_locations(
            manifests.push(manifest),
        ) == install_locations(manifests).push(location@),
        manifest.install_location is None ==> install_locations(manifests.push(manifest))
            == install_locations(manifests),
        install_locations(Seq::empty()).len() == 0,
{
    assert(manifests.push(manifest).drop_last() =~= manifests);
}

/// The game is told by a program name that begins with `PioneerGame`, or by a
/// display name with `ARC Raiders` in it, in whatever case.
pub proof fn law_game_is_told_by_its_names(
    start: Seq<char>,
    rest: Seq<char>,
    a: Seq<char>,
    title: Seq<char>,
    b: Seq<char>,
    other: Option<Seq<char>>,
)
    ensures
        lower(start) == "pioneergame"@ ==> names_the_game(Some(start + rest), other),
        lower(title) == "arc raiders"@ ==> names_the_game(other, Some(a + title + b)),
        !names_the_game(None, None),
{
    assert(lower(start + rest) =~= lower(start) + lower(rest));
    law_begins_with(lower(start + rest), lower(start));
    assert(lower(a + title + b) =~= lower(a) + lower(title) + lower(b));
    law_contains(lower(a + title + b), lower(title));
    reveal_strlit("pioneergame");
    reveal_strlit("arc raiders");
    let none = lower(Seq::<char>::empty());
    assert(none.len() == 0);
    assert(!contains(none, "arc raiders"@)) by {
        if contains(none, "arc raiders"@) {
            let i = choose|i: int| has_at(none, "arc raiders"@, i);
            assert(has_at(none, "arc raiders"@, i));
        }
    }
}

/// The first manifest that names the game, and whose program is there, gives
/// the program: what it launches, under where it is installed. Those before it
/// are passed over.
pub proof fn law_first_manifest_of_the_game(
    host: HostOs,
    candidates: Seq<EpicCandidate>,
    i: int,
)
    requires
        0 <= i < candidates.len(),
        candidates[i].program_exists,
        candidates[i].manifest.install_location is Some,
        candidates[i].manifest.launch_executable is Some,
        names_the_game(
            file_name_of(host, candidates[i].manifest.launch_executable->0@),
            opt_view(candidates[i].manifest.display_name),
        ),
        forall|j: int| 0 <= j < i ==> !is_installed_game(host, #[trigger] candidates[j]),
    ensures
        first_installed_game(host, candidates) == Some(
            joined_path(
                host,
                candidates[i].manifest.install_location->0@,
                candidates[i].manifest.launch_executable->0@,
            ),
        ),
    decreases candidates.len(),
{
    if i > 0 {
        let rest = candidates.drop_first();
        assert(!is_installed_game(host, candidates[0]));
        assert forall|j: int| 0 <= j < i - 1 implies !is_installed_game(host, #[trigger] rest[j]) by {
            assert(rest[j] == candidates[j + 1]);
        }
        law_first_manifest_of_the_game(host, rest, i - 1);
    }
}

/// No manifest stands for the game that lacks its program or its name, and
/// without one that does, no program is found.
pub proof fn law_no_manifest_of_the_game(host: HostOs, candidates: Seq<EpicCandidate>)
    requires
        forall|i: int|
            0 <= i < candidates.len() ==> !(#[trigger] candidates[i]).program_exists
                || candidates[i].manifest.install_location is None
                || candidates[i].manifest.launch_executable is None || !names_the_game(
                file_name_of(host, candidates[i].manifest.launch_executable->0@),
                opt_view(candidates[i].manifest.display_name),
            ),
    ensures
        first_installed_game(host, candidates) is None,
    decreases candidates.len(),
{
    if candidates.len() > 0 {
        let rest = candidates.drop_first();
        assert(!is_installed_game(host, candidates[0]));
        assert forall|i: int| 0 <= i < rest.len() implies !(#[trigger] rest[i]).program_exists
            || rest[i].manifest.install_location is None
            || rest[i].manifest.launch_executable is None || !names_the_game(
            file_name_of(host, rest[i].manifest.launch_executable->0@),
            opt_view(rest[i].manifest.display_name),
        ) by {
            assert(rest[i] == candidates[i + 1]);
        }
        law_no_manifest_of_the_game(host, rest);
    }
}

// ----- Steam's libraries ----------------------------------------------------------

/// What stands between two quotes is a token, whatever stands before them; a
/// quote that nothing closes opens none.
pub proof fn law_quoted_tokens(a: Seq<char>, token: Seq<char>, rest: Seq<char>)
    requires
        !a.contains('"'),
        !token.contains('"'),
    ensures
        quoted(a + seq!['"'] + token + seq!['"'] + rest) == seq![token] + quoted(rest),
        quoted(a + seq!['"'] + token) == Seq::<Seq<char>>::empty(),
        quoted(a) == Seq::<Seq<char>>::empty(),
{
    let stop = equal_to('"');
    let s = a + seq!['"'] + token + seq!['"'] + rest;
    assert forall|i: int| 0 <= i < a.len() implies !stop(#[trigger] s[i]) by {
        assert(a.contains(a[i]));
    }
    lemma_span_is(s, stop, a.len() as int);
    let inner = s.skip(a.len() as int + 1);
    assert(inner =~= token + seq!['"'] + rest);
    assert forall|i: int| 0 <= i < token.len() implies !stop(#[trigger] inner[i]) by {
        assert(token.contains(token[i]));
    }
    lemma_span_is(inner, stop, token.len() as int);
    assert(inner.take(token.len() as int) =~= token);
    assert(inner.skip(token.len() as int + 1) =~= rest);
    let t = a + seq!['"'] + token;
    assert forall|i: int| 0 <= i < a.len() implies !stop(#[trigger] t[i]) by {
        assert(a.contains(a[i]));
    }
    lemma_span_is(t, stop, a.len() as int);
    assert(t.skip(a.len() as int + 1) =~= token);
    assert forall|i: int| 0 <= i < token.len() implies !stop(#[trigger] token[i]) by {
        assert(token.contains(token[i]));
    }
    lemma_span_is(token, stop, token.len() as int);
    assert forall|i: int| 0 <= i < a.len() implies !stop(#[trigger] a[i]) by {
        assert(a.contains(a[i]));
    }
    lemma_span_is(a, stop, a.len() as int);
}

/// A line names a library where its first token is `path` or a number: the
/// second token, with each pair of backslashes for one.
pub proof fn law_library_line(line: Seq<char>, key: Seq<char>, dir: Seq<char>, more: Seq<Seq<char>>)
    requires
        quoted(line) == seq![key, dir] + more,
    ensures
        key == "path"@ || (forall|i: int| 0 <= i < key.len() ==> '0' <= #[trigger] key[i] <= '9')
            ==> library_of_line(line) == Some(replace_all(dir, "\\\\"@, "\\"@)),
        key != "path"@ && (exists|i: int|
            0 <= i < key.len() && !('0' <= #[trigger] key[i] <= '9')) ==> library_of_line(line)
            is None,
{
    let tokens = quoted(line);
    assert(tokens[0] == key && tokens[1] == dir);
    if forall|i: int| 0 <= i < key.len() ==> '0' <= #[trigger] key[i] <= '9' {
        assert(crate::launch::discovery::all_ascii_digits(key));
    }
    if exists|i: int| 0 <= i < key.len() && !('0' <= #[trigger] key[i] <= '9') {
        let i = choose|i: int| 0 <= i < key.len() && !('0' <= #[trigger] key[i] <= '9');
        assert(!crate::text::ascii_digit(key[i]));
    }
}

/// A line with fewer than two tokens names none.
pub proof fn law_other_lines_name_no_library(line: Seq<char>)
    requires
        quoted(line).len() < 2,
    ensures
        library_of_line(line) is None,
{
}

/// Every line that names a library adds it, in order.
pub proof fn law_libraries_in_order(all: Seq<Seq<char>>, line: Seq<char>)
    ensures
        library_of_line(line) matches Some(library) ==> libraries_of_lines(all.push(line))
            == libraries_of_lines(all).push(library),
        library_of_line(line) is None ==> libraries_of_lines(all.push(line)) == libraries_of_lines(
            all,
        ),
        libraries_of_lines(Seq::empty()).len() == 0,
{
    assert(all.push(line).drop_last() =~= all);
}

/// Steam's own directory is a library and comes first; the others are those of
/// the list. Without Steam there is none.
pub proof fn law_steam_libraries(steam: Seq<char>, list: Seq<char>)
    ensures
        steam_libraries(Some(steam), Some(list)).len() > 0,
        steam_libraries(Some(steam), Some(list))[0] == steam,
        steam_libraries(Some(steam), Some(list)).skip(1) == libraries_of_lines(lines(list)),
        steam_libraries(Some(steam), None) == seq![steam],
        steam_libraries(None, Some(list)).len() == 0,
        steam_libraries(None, None).len() == 0,
{
    assert(steam_libraries(Some(steam), Some(list)).skip(1) =~= libraries_of_lines(lines(list)));
}

/// Steam has the game where any one of its libraries holds the game's file.
pub proof fn law_game_in_any_library(
    host: HostOs,
    libraries: Seq<String>,
    probes: Seq<PathProbe>,
    i: int,
    k: int,
)
    requires
        0 <= i < libraries.len(),
        0 <= k < probes.len(),
        probes[k].exists,
        probes[k].path@ == joined_path(
            host,
            joined_path(host, libraries[i]@, "steamapps"@),
            "appmanifest_"@ + decimal(1808500) + ".acf"@,
        ),
    ensures
        game_in_libraries(host, libraries, probes),
{
    assert(found_at(probes, manifest_place(host, libraries[i]@)));
}

/// Steam does not have it where no such file was found.
pub proof fn law_game_in_no_library(
    host: HostOs,
    libraries: Seq<String>,
    probes: Seq<PathProbe>,
)
    requires
        forall|i: int, k: int|
            0 <= i < libraries.len() && 0 <= k < probes.len() && (#[trigger] probes[k]).exists
                ==> probes[k].path@ != joined_path(
                host,
                joined_path(host, (#[trigger] libraries[i])@, "steamapps"@),
                "appmanifest_"@ + decimal(1808500) + ".acf"@,
            ),
    ensures
        !game_in_libraries(host, libraries, probes),
{
}

// ----- paths ----------------------------------------------------------------------

/// On Linux a relative path goes below the directory, and an absolute one takes
/// its place.
pub proof fn law_linux_paths_join(dir: Seq<char>, path: Seq<char>)
    ensures
        path.len() > 0 && path[0] == '/' ==> joined_path(HostOs::Linux, dir, path) == path,
        !(path.len() > 0 && path[0] == '/') && dir.len() > 0 && dir.last() != '/' ==> joined_path(
            HostOs::Linux,
            dir,
            path,
        ) == dir + "/"@ + path,
        !(path.len() > 0 && path[0] == '/') && (dir.len() == 0 || dir.last() == '/')
            ==> joined_path(HostOs::Linux, dir, path) == dir + path,
{
    assert(dir.take(0) + path =~= path);
}

/// On Windows a path with a drive of its own takes the place of the directory,
/// one that only begins with a separator keeps the drive, and any other goes
/// below.
pub proof fn law_windows_paths_join(drive: char, rest: Seq<char>, path: Seq<char>)
    requires
        'a' <= drive <= 'z' || 'A' <= drive <= 'Z',
        rest.len() > 0,
    ensures
        ({
            let dir = seq![drive, ':'] + rest;
            &&& path.len() >= 2 && ('a' <= path[0] <= 'z' || 'A' <= path[0] <= 'Z') && path[1]
                == ':' ==> joined_path(HostOs::Windows, dir, path) == path
            &&& path.len() > 0 && (path[0] == '/' || path[0] == '\\') && (path.len() == 1 || (
            path[1] != '/' && path[1] != '\\')) ==> joined_path(HostOs::Windows, dir, path)
                == seq![drive, ':'] + path
            &&& path.len() > 0 && path[0] != '/' && path[0] != '\\' && (path.len() == 1 || path[1]
                != ':') ==> joined_path(HostOs::Windows, dir, path) == if rest.last() == '/'
                || rest.last() == '\\' {
                dir + path
            } else {
                dir + "\\"@ + path
            }
        }),
{
    let dir = seq![drive, ':'] + rest;
    assert(dir[0] == drive && dir[1] == ':');
    assert(dir.take(2) =~= seq![drive, ':']);
    assert(dir.last() == rest.last());
}

proof fn lemma_tail_is(host: HostOs, verbatim: bool, s: Seq<char>, i: int)
    requires
        0 < i <= s.len(),
        crate::launch::files::splits(host, verbatim, s[i - 1]),
        forall|k: int|
            i <= k < s.len() ==> !crate::launch::files::splits(host, verbatim, #[trigger] s[k]),
    ensures
        tail_name(host, verbatim, s) == s.skip(i),
    decreases s.len() - i,
{
    if i < s.len() {
        lemma_tail_is(host, verbatim, s.drop_last(), i);
        assert(s.drop_last().skip(i).push(s.last()) =~= s.skip(i));
    } else {
        assert(s.skip(i) =~= Seq::<char>::empty());
    }
}

/// The file name of a path is what follows its last separator: a slash on Linux,
/// on Windows a backslash too.
pub proof fn law_file_name_ends_the_path(host: HostOs, dir: Seq<char>, sep: char, name: Seq<char>)
    requires
        sep == '/' || (host == HostOs::Windows && sep == '\\'),
        !name.contains('/') && !name.contains('\\'),
        name.len() > 0,
        name != "."@ && name != ".."@,
        host == HostOs::Windows ==> dir.len() > 2 && ('a' <= dir[0] <= 'z' || 'A' <= dir[0]
            <= 'Z'),
    ensures
        file_name_of(host, dir + seq![sep] + name) == Some(name),
{
    let path = dir + seq![sep] + name;
    let p = crate::launch::files::prefix_len(host, path);
    if host == HostOs::Windows {
        assert(path[0] == dir[0]);
    }
    assert(p == 0 || p == 2);
    let body = path.skip(p as int);
    let i = dir.len() + 1 - p;
    assert(body[i - 1] == sep);
    assert forall|k: int| i <= k < body.len() implies !crate::launch::files::splits(
        host,
        false,
        #[trigger] body[k],
    ) by {
        assert(body[k] == name[k - i]);
        assert(name.contains(name[k - i]));
    }
    lemma_tail_is(host, false, body, i as int);
    assert(body.skip(i as int) =~= name);
    assert(body.last() == name.last());
    assert(name.contains(name.last())) by {
        assert(name[name.len() - 1] == name.last());
    }
}

/// A separator at the end of a path, or `.` behind one, does not change its file
/// name; `..` has none.
pub proof fn law_file_name_passes_over_the_end(host: HostOs, body: Seq<char>, sep: char)
    requires
        sep == '/' || (host == HostOs::Windows && sep == '\\'),
        body.len() > 0,
    ensures
        last_name(host, false, body.push(sep)) == last_name(host, false, body),
        last_name(host, false, body + seq![sep, '.']) == last_name(host, false, body),
        last_name(host, false, body + seq![sep, '.', '.']) is None,
        last_name(host, false, Seq::empty()) is None,
{
    reveal_strlit(".");
    reveal_strlit("..");
    let ended = body.push(sep);
    assert(ended.drop_last() =~= body);
    let dot = body + seq![sep, '.'];
    assert(dot.drop_last() =~= ended);
    lemma_tail_is(host, false, dot, body.len() as int + 1);
    assert(dot.skip(body.len() as int + 1) =~= "."@);
    let dots = body + seq![sep, '.', '.'];
    lemma_tail_is(host, false, dots, body.len() as int + 1);
    assert(dots.skip(body.len() as int + 1) =~= ".."@);
    assert("."@.len() != ".."@.len());
}

/// The file name of a path on Linux is that of the whole; on Windows a drive in
/// front of it is no part of it.
pub proof fn law_drive_is_no_part_of_the_name(drive: char, rest: Seq<char>, path: Seq<char>)
    requires
        'a' <= drive <= 'z' || 'A' <= drive <= 'Z',
    ensures
        file_name_of(HostOs::Linux, path) == last_name(HostOs::Linux, false, path),
        file_name_of(HostOs::Windows, seq![drive, ':'] + rest) == last_name(
            HostOs::Windows,
            false,
            rest,
        ),
{
    assert(path.skip(0) =~= path);
    let whole = seq![drive, ':'] + rest;
    assert(whole[0] == drive && whole[1] == ':');
    assert(whole.skip(2) =~= rest);
}

/// Along a path `.` stays where it is, `..` leaves the last directory that has a
/// name, and a name goes down.
pub proof fn law_walking_a_path(above: Seq<Seq<char>>, name: Seq<char>, below: Seq<Seq<char>>)
    requires
        name != "."@ && name != ".."@,
    ensures
        walked(above, seq!["."@] + below) == walked(above, below),
        walked(above.push(name), seq![".."@] + below) == walked(above, below),
        walked(above, seq![name] + below) == walked(above.push(name), below),
        walked(Seq::empty(), seq![".."@] + below) == walked(Seq::empty(), below),
        walked(above, Seq::empty()) == above,
{
    reveal_strlit(".");
    reveal_strlit("..");
    assert("."@.len() != ".."@.len());
    assert((seq!["."@] + below).drop_first() =~= below);
    assert((seq![".."@] + below).drop_first() =~= below);
    assert((seq![name] + below).drop_first() =~= below);
    assert(above.push(name).drop_last() =~= above);
}

/// A text falls into its components at each separator; what is empty between two
/// of them is none. In a verbatim path a slash is an ordinary character.
pub proof fn law_components(part: Seq<char>, rest: Seq<char>, verbatim: bool)
    requires
        !part.contains('\\'),
        verbatim || !part.contains('/'),
        part.len() > 0,
    ensures
        components(part + seq!['\\'] + rest, verbatim) == seq![part] + components(rest, verbatim),
        !verbatim ==> components(part + seq!['/'] + rest, verbatim) == seq![part] + components(
            rest,
            verbatim,
        ),
        components(seq!['\\'] + rest, verbatim) == components(rest, verbatim),
        components(part, verbatim) == seq![part],
{
    lemma_first_component(part, '\\', rest, verbatim);
    if !verbatim {
        lemma_first_component(part, '/', rest, verbatim);
    }
    let s = seq!['\\'] + rest;
    lemma_span_is(s, windows_split(verbatim), 0);
    assert(s.skip(1) =~= rest);
    assert(Seq::<Seq<char>>::empty() + components(rest, verbatim) =~= components(rest, verbatim));
    assert forall|i: int| 0 <= i < part.len() implies !windows_split(verbatim)(
        #[trigger] part[i],
    ) by {
        assert(part.contains(part[i]));
    }
    lemma_span_is(part, windows_split(verbatim), part.len() as int);
    assert(part.take(part.len() as int) =~= part);
}

proof fn lemma_first_component(part: Seq<char>, sep: char, rest: Seq<char>, verbatim: bool)
    requires
        !part.contains('\\'),
        verbatim || !part.contains('/'),
        part.len() > 0,
        sep == '\\' || (sep == '/' && !verbatim),
    ensures
        components(part + seq![sep] + rest, verbatim) == seq![part] + components(rest, verbatim),
{
    let s = part + seq![sep] + rest;
    assert forall|i: int| 0 <= i < part.len() implies !windows_split(verbatim)(#[trigger] s[i]) by {
        assert(part.contains(part[i]));
    }
    lemma_span_is(s, windows_split(verbatim), part.len() as int);
    assert(s.take(part.len() as int) =~= part);
    assert(s.skip(part.len() as int + 1) =~= rest);
}

/// A path with a root, seen from a directory on a share, stays on the share.
pub proof fn law_root_stays_on_the_share(
    server: Seq<char>,
    share: Seq<char>,
    below: Seq<char>,
    path: Seq<char>,
)
    requires
        server.len() > 0 && !server.contains('\\') && !server.contains('/'),
        share.len() > 0 && !share.contains('\\') && !share.contains('/'),
        server != "?"@ && server != "."@,
        below.len() > 0 ==> below[0] == '\\' || below[0] == '/',
        path.len() > 1,
        path[0] == '\\' || path[0] == '/',
        path[1] != '\\' && path[1] != '/',
    ensures
        ({
            let root = seq!['\\', '\\'] + server + seq!['\\'] + share;
            joined_path(HostOs::Windows, root + below, path) == root + path
        }),
{
    let root = seq!['\\', '\\'] + server + seq!['\\'] + share;
    let dir = root + below;
    let stop = windows_split(false);
    let rest = dir.skip(2);
    reveal_strlit("?");
    reveal_strlit(".");
    assert(rest =~= server + seq!['\\'] + share + below);
    assert forall|i: int| 0 <= i < server.len() implies !stop(#[trigger] rest[i]) by {
        assert(rest[i] == server[i]);
        assert(server.contains(server[i]));
    }
    lemma_span_is(rest, stop, server.len() as int);
    let tail = rest.skip(server.len() as int + 1);
    assert(tail =~= share + below);
    assert forall|i: int| 0 <= i < share.len() implies !stop(#[trigger] tail[i]) by {
        assert(tail[i] == share[i]);
        assert(share.contains(share[i]));
    }
    lemma_span_is(tail, stop, share.len() as int);
    assert(dir[0] == '\\' && dir[1] == '\\' && dir[2] == server[0]);
    assert(server.contains(server[0]));
    if server.len() > 1 {
        assert(dir[3] == server[1]);
        assert(server.contains(server[1]));
    } else {
        assert(server =~= seq![server[0]]);
        assert("?"@ =~= seq!['?']);
        assert("."@ =~= seq!['.']);
    }
    assert(dir.take(root.len() as int) =~= root);
}

/// A verbatim path begins with its mark and a drive, with its mark, `UNC` and a
/// share, or, as a device, with its own mark and a name.
pub proof fn law_prefixes(
    drive: char,
    server: Seq<char>,
    share: Seq<char>,
    rest: Seq<char>,
)
    requires
        'a' <= drive <= 'z' || 'A' <= drive <= 'Z',
        !server.contains('\\') && !server.contains('/') && server.len() > 0,
        !share.contains('\\') && !share.contains('/') && share.len() > 0,
        rest.len() > 0 ==> rest[0] == '\\',
    ensures
        prefix_len(HostOs::Windows, seq!['\\', '\\', '?', '\\', drive, ':'] + rest) == 6,
        prefix_len(
            HostOs::Windows,
            seq!['\\', '\\', '?', '\\', 'U', 'N', 'C', '\\'] + server + seq!['\\'] + share + rest,
        ) == 8 + server.len() + 1 + share.len(),
        prefix_len(HostOs::Windows, seq!['\\', '\\', '.', '\\'] + server + rest) == 4 + server.len(),
        prefix_len(HostOs::Windows, seq![drive, ':'] + rest) == 2,
        prefix_len(HostOs::Linux, seq![drive, ':'] + rest) == 0,
{
    let a = seq!['\\', '\\', '?', '\\', drive, ':'] + rest;
    let inner = a.skip(4);
    assert(inner[0] == drive && inner[1] == ':');
    assert(a[4] == drive && a[5] == ':');
    if rest.len() > 0 {
        assert(a[6] == rest[0]);
    }
    let b = seq!['\\', '\\', '?', '\\', 'U', 'N', 'C', '\\'] + server + seq!['\\'] + share + rest;
    assert(b[4] == 'U' && b[5] == 'N' && b[6] == 'C' && b[7] == '\\');
    let named = b.skip(8);
    assert(named =~= server + seq!['\\'] + share + rest);
    lemma_run(server, seq!['\\'] + share + rest, true);
    assert(named =~= server + (seq!['\\'] + share + rest));
    let shared = named.skip(server.len() as int + 1);
    assert(shared =~= share + rest);
    lemma_run(share, rest, true);
    let c = seq!['\\', '\\', '.', '\\'] + server + rest;
    assert(c[0] == '\\' && c[1] == '\\' && c[2] == '.' && c[3] == '\\');
    assert(c.skip(4) =~= server + rest);
    lemma_run(server, rest, false);
    let d = seq![drive, ':'] + rest;
    assert(d[0] == drive && d[1] == ':');
}

proof fn lemma_run(part: Seq<char>, rest: Seq<char>, verbatim: bool)
    requires
        !part.contains('\\') && !part.contains('/'),
        rest.len() > 0 ==> rest[0] == '\\',
    ensures
        crate::text::span(part + rest, windows_split(verbatim)) == part.len(),
{
    let s = part + rest;
    assert forall|i: int| 0 <= i < part.len() implies !windows_split(verbatim)(#[trigger] s[i]) by {
        assert(part.contains(part[i]));
    }
    lemma_span_is(s, windows_split(verbatim), part.len() as int);
}

/// In a verbatim path a slash is part of a name.
pub proof fn law_verbatim_names(body: Seq<char>, name: Seq<char>)
    requires
        !name.contains('\\'),
        name.len() > 0,
    ensures
        name != "."@ && name != ".."@ ==> last_name(
            HostOs::Windows,
            true,
            body + seq!['\\'] + name,
        ) == Some(name),
        name == "."@ ==> last_name(HostOs::Windows, true, body + seq!['\\'] + name) is None,
{
    let path = body + seq!['\\'] + name;
    let i = body.len() as int + 1;
    assert forall|k: int| i <= k < path.len() implies !crate::launch::files::splits(
        HostOs::Windows,
        true,
        #[trigger] path[k],
    ) by {
        assert(path[k] == name[k - i]);
        assert(name.contains(name[k - i]));
    }
    lemma_tail_is(HostOs::Windows, true, path, i);
    assert(path.skip(i) =~= name);
    assert(path.last() == path[path.len() - 1]);
}

} // verus!
