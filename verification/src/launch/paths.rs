//! Paths as text: how they are compared, and what they say of the launcher.

use vstd::prelude::*;

use crate::launch::LauncherPlatform;
use crate::text::{contains_str, replace_char, starts_with, to_lower, trimmed};
use crate::text::{
    contains, has_at, lower, lower_char, opt_str_view, replaced, trim, trim_end_by, trim_start_by,
    views, white_space,
};

verus! {

/// A path as it is compared: without white space around it, with backslashes,
/// in lower case.
pub open spec fn normalized_path(path: Seq<char>) -> Seq<char> {
    lower(replaced(trim(path), '/', '\\'))
}

pub fn normalize_slashes(value: &str) -> (r: String)
    ensures
        r@ == normalized_path(value@),
{
    let bare = trimmed(value);
    let slashes = replace_char(bare.as_str(), '/', '\\');
    to_lower(slashes.as_str())
}

/// Two paths name the same file.
pub open spec fn same_path(a: Seq<char>, b: Seq<char>) -> bool {
    normalized_path(a) == normalized_path(b)
}

/// Whether an environment value names the expected path.
pub fn same_path_text(value: &str, expected: &str) -> (r: bool)
    ensures
        r == same_path(value@, expected@),
{
    normalize_slashes(value) == normalize_slashes(expected)
}

/// The path begins with the base.
pub open spec fn under(path: Seq<char>, base: Seq<char>) -> bool {
    has_at(normalized_path(path), normalized_path(base), 0)
}

pub fn path_starts_with(path: &str, base: &str) -> (r: bool)
    ensures
        r == under(path@, base@),
{
    starts_with(normalize_slashes(path).as_str(), normalize_slashes(base).as_str())
}

/// The path runs through a Steam library.
pub open spec fn steam_path(path: Seq<char>) -> bool {
    contains(normalized_path(path), "\\steamapps\\common\\"@)
}

pub fn is_steam_game_path(path: &str) -> (r: bool)
    ensures
        r == steam_path(path@),
{
    contains_str(normalize_slashes(path).as_str(), "\\steamapps\\common\\")
}

/// The path runs through an Epic Games directory, or begins with one of the
/// locations that Epic's manifests name.
pub open spec fn epic_path(path: Seq<char>, locations: Seq<Seq<char>>) -> bool {
    ||| contains(normalized_path(path), "\\epic games\\"@)
    ||| exists|i: int| 0 <= i < locations.len() && under(path, #[trigger] locations[i])
}

pub fn is_epic_game_path(path: &str, install_locations: &Vec<String>) -> (r: bool)
    ensures
        r == epic_path(path@, views(install_locations@)),
{
    if contains_str(normalize_slashes(path).as_str(), "\\epic games\\") {
        return true;
    }
    let ghost locations = views(install_locations@);
    let mut i: usize = 0;
    while i < install_locations.len()
        invariant
            i <= install_locations@.len(),
            locations == views(install_locations@),
            !contains(normalized_path(path@), "\\epic games\\"@),
            forall|k: int| 0 <= k < i ==> !under(path@, #[trigger] locations[k]),
        decreases install_locations.len() - i,
    {
        assert(locations[i as int] == install_locations@[i as int]@);
        if path_starts_with(path, install_locations[i].as_str()) {
            return true;
        }
        i += 1;
    }
    false
}

/// The platform in effect: the one that was selected; without a selection, the
/// one the game's path tells of, and Steam where it tells nothing.
pub open spec fn resolved_platform(
    selected: LauncherPlatform,
    game: Option<Seq<char>>,
    locations: Seq<Seq<char>>,
) -> LauncherPlatform {
    if selected != LauncherPlatform::Auto {
        selected
    } else if game is Some && !steam_path(game->0) && epic_path(game->0, locations) {
        LauncherPlatform::Epic
    } else {
        LauncherPlatform::Steam
    }
}

pub fn resolve_platform(
    selected_platform: LauncherPlatform,
    game_executable: Option<&str>,
    install_locations: &Vec<String>,
) -> (r: LauncherPlatform)
    ensures
        r == resolved_platform(
            selected_platform,
            opt_str_view(game_executable),
            views(install_locations@),
        ),
{
    if selected_platform != LauncherPlatform::Auto {
        return selected_platform;
    }
    if let Some(path) = game_executable {
        if is_steam_game_path(path) {
            return LauncherPlatform::Steam;
        }
        if is_epic_game_path(path, install_locations) {
            return LauncherPlatform::Epic;
        }
    }
    LauncherPlatform::Steam
}

/// A selection is final, and without one a launcher is named all the same.
pub proof fn law_platform_is_always_named(
    selected: LauncherPlatform,
    game: Option<Seq<char>>,
    locations: Seq<Seq<char>>,
)
    ensures
        resolved_platform(selected, game, locations) != LauncherPlatform::Auto,
        selected != LauncherPlatform::Auto ==> resolved_platform(selected, game, locations)
            == selected,
{
}

proof fn lemma_trim_start(s: Seq<char>, drop: spec_fn(char) -> bool)
    ensures
        trim_start_by(s, drop).len() > 0 ==> !drop(trim_start_by(s, drop)[0]),
    decreases s.len(),
{
    if s.len() > 0 && drop(s[0]) {
        lemma_trim_start(s.drop_first(), drop);
    }
}

proof fn lemma_trim_end(s: Seq<char>, drop: spec_fn(char) -> bool)
    ensures
        trim_end_by(s, drop).len() <= s.len(),
        trim_end_by(s, drop).len() > 0 ==> !drop(trim_end_by(s, drop).last()) && trim_end_by(
            s,
            drop,
        )[0] == s[0],
    decreases s.len(),
{
    if s.len() > 0 && drop(s.last()) {
        lemma_trim_end(s.drop_last(), drop);
    }
}

proof fn lemma_trimmed_ends(s: Seq<char>)
    ensures
        trim(s).len() > 0 ==> !white_space(trim(s)[0]) && !white_space(trim(s).last()),
{
    let drop = |c: char| white_space(c);
    lemma_trim_start(s, drop);
    lemma_trim_end(trim_start_by(s, drop), drop);
}

/// The form in which paths are compared is a fixed point.
pub proof fn law_normalized_path_is_stable(path: Seq<char>)
    ensures
        normalized_path(normalized_path(path)) == normalized_path(path),
{
    lemma_trimmed_ends(path);
    let n = normalized_path(path);
    assert forall|i: int| 0 <= i < n.len() implies #[trigger] n[i] != '/' && lower_char(n[i])
        == n[i] by {}
}

/// Paths that differ only in case, slash style or surrounding white space name
/// the same file, and that is an equivalence.
pub proof fn law_same_path_is_an_equivalence(a: Seq<char>, b: Seq<char>, c: Seq<char>)
    ensures
        same_path(a, a),
        same_path(a, b) ==> same_path(b, a),
        same_path(a, b) && same_path(b, c) ==> same_path(a, c),
        same_path(a, normalized_path(a)),
{
    law_normalized_path_is_stable(a);
}

} // verus!
