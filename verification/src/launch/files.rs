//! Paths as the host system puts them together and takes them apart.

use vstd::prelude::*;

use crate::launch::discovery::HostOs;
use crate::text::{cat2, cat3, chars_of, is_separator_char, joined, str_eq, string_of};
use crate::text::{join, lemma_span_is, opt_view, separator, span, views};

verus! {

/// The character stands between two components: a slash; on Windows a backslash
/// too, and in a verbatim path nothing but a backslash.
pub open spec fn splits(host: HostOs, verbatim: bool, c: char) -> bool {
    match host {
        HostOs::Linux => c == '/',
        HostOs::Windows => c == '\\' || (c == '/' && !verbatim),
    }
}

/// Holds of what stands between two components on Windows.
pub open spec fn windows_split(verbatim: bool) -> spec_fn(char) -> bool {
    |c: char| splits(HostOs::Windows, verbatim, c)
}

fn is_split(host: HostOs, verbatim: bool, c: char) -> (r: bool)
    ensures
        r == splits(host, verbatim, c),
{
    match host {
        HostOs::Linux => c == '/',
        HostOs::Windows => c == '\\' || (c == '/' && !verbatim),
    }
}

/// Where the component that begins at `from` ends.
fn component_end(v: &Vec<char>, from: usize, verbatim: bool) -> (r: usize)
    requires
        from <= v@.len(),
    ensures
        from <= r <= v@.len(),
        r - from == span(v@.skip(from as int), windows_split(verbatim)),
{
    let mut r: usize = from;
    while r < v.len() && !is_split(HostOs::Windows, verbatim, v[r])
        invariant
            from <= r <= v@.len(),
            forall|k: int| from <= k < r ==> !splits(HostOs::Windows, verbatim, #[trigger] v@[k]),
        decreases v.len() - r,
    {
        r += 1;
    }
    proof {
        lemma_span_is(v@.skip(from as int), windows_split(verbatim), r - from);
    }
    r
}

// ----- prefixes -------------------------------------------------------------------

/// The path begins with a drive, such as `C:`.
pub open spec fn has_drive(path: Seq<char>) -> bool {
    path.len() >= 2 && ('a' <= path[0] <= 'z' || 'A' <= path[0] <= 'Z') && path[1] == ':'
}

/// The path is verbatim: on Windows, one that begins with `\\?\` is taken by
/// the letter.
pub open spec fn verbatim(host: HostOs, path: Seq<char>) -> bool {
    &&& host == HostOs::Windows
    &&& path.len() >= 4
    &&& path[0] == '\\' && path[1] == '\\' && path[2] == '?' && path[3] == '\\'
}

/// The path names a device, such as `\\.\COM1`.
pub open spec fn names_device(path: Seq<char>) -> bool {
    path.len() >= 4 && separator(path[0]) && separator(path[1]) && path[2] == '.' && separator(
        path[3],
    )
}

/// A verbatim path names a share, such as `\\?\UNC\server\share`.
pub open spec fn names_verbatim_share(path: Seq<char>) -> bool {
    path.len() >= 8 && path[4] == 'U' && path[5] == 'N' && path[6] == 'C' && separator(path[7])
}

/// A verbatim path names a drive and nothing else, such as `\\?\C:`.
pub open spec fn names_verbatim_drive(path: Seq<char>) -> bool {
    has_drive(path.skip(4)) && (path.len() == 6 || separator(path[6]))
}

/// How long the server and the share are that a text begins with, with what
/// stands between them; the share may be missing.
pub open spec fn server_and_share(text: Seq<char>, verbatim: bool) -> (nat, nat) {
    let server = span(text, windows_split(verbatim));
    if server < text.len() {
        (server, span(text.skip(server as int + 1), windows_split(verbatim)))
    } else {
        (server, 0)
    }
}

/// How long the share is that the path begins with, such as `\\server\share`;
/// 0 where it begins with none.
pub open spec fn share_len(path: Seq<char>) -> nat {
    if path.len() >= 2 && separator(path[0]) && separator(path[1]) {
        let (server, share) = server_and_share(path.skip(2), false);
        if server > 0 && share > 0 {
            2 + server + 1 + share
        } else {
            0
        }
    } else {
        0
    }
}

/// How long the prefix of a verbatim path is: the mark and a share, a drive or
/// any other component.
pub open spec fn verbatim_len(path: Seq<char>) -> nat {
    if names_verbatim_share(path) {
        let (server, share) = server_and_share(path.skip(8), true);
        if share > 0 {
            8 + server + 1 + share
        } else {
            8 + server
        }
    } else if names_verbatim_drive(path) {
        6
    } else {
        4 + span(path.skip(4), windows_split(true))
    }
}

/// How much of the path comes before its root: on Windows a drive, a share, a
/// device, or what a verbatim path has in their place.
pub open spec fn prefix_len(host: HostOs, path: Seq<char>) -> nat {
    match host {
        HostOs::Linux => 0,
        HostOs::Windows => if has_drive(path) {
            2
        } else if verbatim(host, path) {
            verbatim_len(path)
        } else if names_device(path) {
            4 + span(path.skip(4), windows_split(false))
        } else {
            share_len(path)
        },
    }
}

fn begins_with_drive(v: &Vec<char>, from: usize) -> (r: bool)
    requires
        from <= v@.len(),
    ensures
        r == has_drive(v@.skip(from as int)),
{
    v.len() - from >= 2 && (('a' <= v[from] && v[from] <= 'z') || ('A' <= v[from] && v[from]
        <= 'Z')) && v[from + 1] == ':'
}

fn is_verbatim(host: HostOs, v: &Vec<char>) -> (r: bool)
    ensures
        r == verbatim(host, v@),
{
    match host {
        HostOs::Linux => false,
        HostOs::Windows => v.len() >= 4 && v[0] == '\\' && v[1] == '\\' && v[2] == '?' && v[3]
            == '\\',
    }
}

/// Where the server ends that begins at `from`, and how long the share behind it is.
fn share_parts(v: &Vec<char>, from: usize, verbatim: bool) -> (r: (usize, usize))
    requires
        from <= v@.len(),
    ensures
        (
            (r.0 - from) as nat,
            r.1 as nat,
        ) == server_and_share(v@.skip(from as int), verbatim),
        from <= r.0 <= v@.len(),
        r.1 > 0 ==> r.0 + 1 + r.1 <= v@.len(),
{
    let server = component_end(v, from, verbatim);
    if server == v.len() {
        return (server, 0);
    }
    let share = component_end(v, server + 1, verbatim);
    assert(v@.skip(from as int).skip(server - from + 1) =~= v@.skip(server + 1));
    (server, share - server - 1)
}

fn verbatim_end(v: &Vec<char>) -> (r: usize)
    requires
        v@.len() >= 4,
    ensures
        r == verbatim_len(v@),
        r <= v@.len(),
{
    if v.len() >= 8 && v[4] == 'U' && v[5] == 'N' && v[6] == 'C' && is_separator_char(v[7]) {
        let (server, share) = share_parts(v, 8, true);
        if share > 0 {
            return server + 1 + share;
        }
        return server;
    }
    if begins_with_drive(v, 4) && (v.len() == 6 || is_separator_char(v[6])) {
        return 6;
    }
    component_end(v, 4, true)
}

fn prefix_end(host: HostOs, v: &Vec<char>) -> (r: usize)
    ensures
        r == prefix_len(host, v@),
        r <= v@.len(),
{
    if let HostOs::Linux = host {
        return 0;
    }
    assert(v@.skip(0) =~= v@);
    if begins_with_drive(v, 0) {
        return 2;
    }
    if is_verbatim(host, v) {
        return verbatim_end(v);
    }
    if v.len() < 2 || !is_separator_char(v[0]) || !is_separator_char(v[1]) {
        return 0;
    }
    if v.len() >= 4 && v[2] == '.' && is_separator_char(v[3]) {
        return component_end(v, 4, false);
    }
    let (server, share) = share_parts(v, 2, false);
    if server > 2 && share > 0 {
        server + 1 + share
    } else {
        0
    }
}

// ----- components -----------------------------------------------------------------

/// What stands between separators, without what is empty.
pub open spec fn components(text: Seq<char>, verbatim: bool) -> Seq<Seq<char>>
    decreases text.len(),
{
    let n = span(text, windows_split(verbatim));
    let first = if n > 0 {
        seq![text.take(n as int)]
    } else {
        Seq::empty()
    };
    if n < text.len() {
        first + components(text.skip(n as int + 1), verbatim)
    } else {
        first
    }
}

fn components_of(v: &Vec<char>, from: usize, verbatim: bool) -> (r: Vec<String>)
    requires
        from <= v@.len(),
    ensures
        views(r@) == components(v@.skip(from as int), verbatim),
{
    let mut r: Vec<String> = Vec::new();
    let mut i: usize = from;
    assert(views(r@) =~= Seq::<Seq<char>>::empty());
    loop
        invariant
            i <= v@.len(),
            components(v@.skip(from as int), verbatim) == views(r@) + components(
                v@.skip(i as int),
                verbatim,
            ),
        decreases v.len() - i,
    {
        let ghost rest = v@.skip(i as int);
        let ghost before = r@;
        let n = component_end(v, i, verbatim);
        if n > i {
            r.push(string_of(vstd::slice::slice_subrange(v.as_slice(), i, n)));
            assert(v@.subrange(i as int, n as int) =~= rest.take(n - i));
            assert(views(r@) =~= views(before).push(rest.take(n - i)));
        }
        if n == v.len() {
            return r;
        }
        assert(rest.skip(n - i + 1) =~= v@.skip(n + 1));
        i = n + 1;
    }
}

/// The component is a name, and no reference to a directory.
pub open spec fn plain(component: Seq<char>) -> bool {
    component != "."@ && component != ".."@
}

/// The components that one comes to from `above` along `below`: `.` stays, and
/// `..` leaves a directory that has a name.
pub open spec fn walked(above: Seq<Seq<char>>, below: Seq<Seq<char>>) -> Seq<Seq<char>>
    decreases below.len(),
{
    if below.len() == 0 {
        above
    } else {
        let next = if plain(below[0]) {
            above.push(below[0])
        } else if below[0] == ".."@ && above.len() > 0 && plain(above.last()) {
            above.drop_last()
        } else {
            above
        };
        walked(next, below.drop_first())
    }
}

fn is_plain(component: &str) -> (r: bool)
    ensures
        r == plain(component@),
{
    !str_eq(component, ".") && !str_eq(component, "..")
}

fn walk(above: Vec<String>, below: &Vec<String>) -> (r: Vec<String>)
    ensures
        views(r@) == walked(views(above@), views(below@)),
{
    let ghost steps = views(below@);
    let mut r: Vec<String> = above;
    let mut i: usize = 0;
    assert(steps.skip(0) =~= steps);
    while i < below.len()
        invariant
            i <= below@.len(),
            steps == views(below@),
            walked(views(above@), steps) == walked(views(r@), steps.skip(i as int)),
        decreases below.len() - i,
    {
        let ghost before = r@;
        assert(steps.skip(i as int).drop_first() =~= steps.skip(i + 1));
        if is_plain(below[i].as_str()) {
            r.push(below[i].clone());
            assert(views(r@) =~= views(before).push(steps[i as int]));
        } else if str_eq(below[i].as_str(), "..") && r.len() > 0 && is_plain(
            r[r.len() - 1].as_str(),
        ) {
            r.pop();
            assert(views(r@) =~= views(before).drop_last());
        }
        i += 1;
    }
    r
}

// ----- joining --------------------------------------------------------------------

/// What stands between a directory and a name in it.
pub open spec fn split_mark(host: HostOs) -> Seq<char> {
    match host {
        HostOs::Linux => "/"@,
        HostOs::Windows => "\\"@,
    }
}

/// The text begins with a separator of Windows.
pub open spec fn rooted(text: Seq<char>) -> bool {
    text.len() > 0 && separator(text[0])
}

/// What follows the root, if there is one.
pub open spec fn below_root(text: Seq<char>) -> Seq<char> {
    if rooted(text) {
        text.drop_first()
    } else {
        text
    }
}

/// The components of a verbatim path behind its prefix.
pub open spec fn verbatim_components(path: Seq<char>) -> Seq<Seq<char>> {
    components(below_root(path.skip(verbatim_len(path) as int)), true)
}

/// A path as it is seen from a verbatim directory: the prefix of the directory,
/// and the components that one comes to, each behind a backslash.
pub open spec fn verbatim_joined(dir: Seq<char>, path: Seq<char>) -> Seq<char> {
    let prefix = dir.take(verbatim_len(dir) as int);
    let above = if rooted(path) {
        Seq::empty()
    } else {
        verbatim_components(dir)
    };
    let all = walked(above, components(path, false));
    if rooted(path) || rooted(dir.skip(verbatim_len(dir) as int)) || all.len() > 0 {
        prefix + "\\"@ + join(all, "\\"@)
    } else {
        prefix
    }
}

/// A path as it is seen from a directory. One with a prefix of its own stands
/// for itself. From a verbatim directory any other is followed component by
/// component. Elsewhere one with a root takes the place of all but the
/// directory's prefix, and any other goes behind the directory, with a separator
/// between them where the directory neither is empty, nor ends with one, nor is
/// a bare drive.
pub open spec fn joined_path(host: HostOs, dir: Seq<char>, path: Seq<char>) -> Seq<char> {
    if prefix_len(host, path) > 0 {
        path
    } else if verbatim(host, dir) && path.len() > 0 {
        verbatim_joined(dir, path)
    } else if path.len() > 0 && splits(host, false, path[0]) {
        dir.take(prefix_len(host, dir) as int) + path
    } else if dir.len() == 0 || splits(host, false, dir.last()) || (dir.len() == 2 && prefix_len(
        host,
        dir,
    ) == 2) {
        dir + path
    } else {
        dir + split_mark(host) + path
    }
}

fn join_verbatim(dir: &Vec<char>, path: &Vec<char>) -> (r: String)
    requires
        dir@.len() >= 4,
        path@.len() > 0,
    ensures
        r@ == verbatim_joined(dir@, path@),
{
    let end = verbatim_end(dir);
    let prefix = string_of(vstd::slice::slice_subrange(dir.as_slice(), 0, end));
    assert(prefix@ =~= dir@.take(end as int));
    let anew = is_separator_char(path[0]);
    let root = end < dir.len() && is_separator_char(dir[end]);
    let above: Vec<String> = if anew {
        Vec::new()
    } else if root {
        assert(dir@.skip(end as int).drop_first() =~= dir@.skip(end + 1));
        components_of(dir, end + 1, true)
    } else {
        components_of(dir, end, true)
    };
    assert(anew ==> views(above@) =~= Seq::<Seq<char>>::empty());
    assert(path@.skip(0) =~= path@);
    let below = components_of(path, 0, false);
    let all = walk(above, &below);
    if anew || root || all.len() > 0 {
        let tail = joined(&all, "\\");
        cat3(prefix.as_str(), "\\", tail.as_str())
    } else {
        prefix
    }
}

/// Joins a path to a directory.
pub fn join_path(host: HostOs, dir: &str, path: &str) -> (r: String)
    ensures
        r@ == joined_path(host, dir@, path@),
{
    let below = chars_of(path);
    if prefix_end(host, &below) > 0 {
        return path.to_owned();
    }
    let above = chars_of(dir);
    if is_verbatim(host, &above) && below.len() > 0 {
        return join_verbatim(&above, &below);
    }
    let prefix = prefix_end(host, &above);
    if below.len() > 0 && is_split(host, false, below[0]) {
        let kept = string_of(vstd::slice::slice_subrange(above.as_slice(), 0, prefix));
        return cat2(kept.as_str(), path);
    }
    let n: usize = above.len();
    if n == 0 || is_split(host, false, above[n - 1]) || (n == 2 && prefix == 2) {
        return cat2(dir, path);
    }
    match host {
        HostOs::Linux => cat3(dir, "/", path),
        HostOs::Windows => cat3(dir, "\\", path),
    }
}

/// A plain name goes behind a directory that ends in one, with a separator
/// between them.
pub proof fn law_plain_name_goes_below(host: HostOs, dir: Seq<char>, name: Seq<char>)
    requires
        dir.len() > 2,
        !verbatim(host, dir),
        !splits(host, false, dir.last()),
        name.len() > 0,
        forall|i: int| 0 <= i < name.len() ==> !separator(#[trigger] name[i]) && name[i] != ':',
    ensures
        joined_path(host, dir, name) == dir + split_mark(host) + name,
{
    assert(!separator(name[0]));
    if name.len() > 1 {
        assert(name[1] != ':');
    }
}

/// A plain name goes behind the components of a verbatim directory.
pub proof fn law_plain_name_goes_below_verbatim(dir: Seq<char>, name: Seq<char>)
    requires
        verbatim(HostOs::Windows, dir),
        name.len() > 0,
        plain(name),
        forall|i: int| 0 <= i < name.len() ==> !separator(#[trigger] name[i]) && name[i] != ':',
    ensures
        joined_path(HostOs::Windows, dir, name) == dir.take(verbatim_len(dir) as int) + "\\"@ + join(
            verbatim_components(dir).push(name),
            "\\"@,
        ),
{
    assert(!separator(name[0]));
    if name.len() > 1 {
        assert(name[1] != ':');
    }
    assert forall|k: int| 0 <= k < name.len() implies !windows_split(false)(#[trigger] name[k]) by {
        assert(!separator(name[k]));
    }
    lemma_span_is(name, windows_split(false), name.len() as int);
    let below = components(name, false);
    assert(name.take(name.len() as int) =~= name);
    assert(below =~= seq![name]);
    assert(below.drop_first() =~= Seq::<Seq<char>>::empty());
    let above = verbatim_components(dir);
    assert(walked(above.push(name), Seq::<Seq<char>>::empty()) == above.push(name));
}

// ----- file names -----------------------------------------------------------------

/// What follows the last separator.
pub open spec fn tail_name(host: HostOs, verbatim: bool, path: Seq<char>) -> Seq<char>
    decreases path.len(),
{
    if path.len() == 0 || splits(host, verbatim, path.last()) {
        Seq::empty()
    } else {
        tail_name(host, verbatim, path.drop_last()).push(path.last())
    }
}

/// The last component that is a name. Separators at the end are passed over,
/// and so is `.` but in a verbatim path; `..` is none.
pub open spec fn last_name(host: HostOs, verbatim: bool, path: Seq<char>) -> Option<Seq<char>>
    decreases path.len(),
{
    if path.len() == 0 {
        None
    } else {
        let name = tail_name(host, verbatim, path);
        if splits(host, verbatim, path.last()) || (name == "."@ && !verbatim) {
            last_name(host, verbatim, path.drop_last())
        } else if plain(name) {
            Some(name)
        } else {
            None
        }
    }
}

/// The name of the file that a path leads to.
pub open spec fn file_name_of(host: HostOs, path: Seq<char>) -> Option<Seq<char>> {
    let body = path.skip(prefix_len(host, path) as int);
    if verbatim(host, path) {
        last_name(host, true, below_root(body))
    } else {
        last_name(host, false, body)
    }
}

proof fn lemma_tail_name(host: HostOs, verbatim: bool, path: Seq<char>, i: int)
    requires
        0 <= i <= path.len(),
        i > 0 ==> splits(host, verbatim, path[i - 1]),
        forall|k: int| i <= k < path.len() ==> !splits(host, verbatim, #[trigger] path[k]),
    ensures
        tail_name(host, verbatim, path) == path.skip(i),
    decreases path.len() - i,
{
    if i < path.len() {
        lemma_tail_name(host, verbatim, path.drop_last(), i);
        assert(path.drop_last().skip(i).push(path.last()) =~= path.skip(i));
    } else {
        assert(path.skip(i) =~= Seq::<char>::empty());
    }
}

/// Where the name begins that ends at `end`; it does not reach before `from`.
fn name_start(host: HostOs, verbatim: bool, v: &Vec<char>, from: usize, end: usize) -> (r: usize)
    requires
        from <= end <= v@.len(),
    ensures
        from <= r <= end,
        v@.subrange(r as int, end as int) == tail_name(
            host,
            verbatim,
            v@.subrange(from as int, end as int),
        ),
{
    let mut r: usize = end;
    while r > from && !is_split(host, verbatim, v[r - 1])
        invariant
            from <= r <= end <= v@.len(),
            forall|k: int| r <= k < end ==> !splits(host, verbatim, #[trigger] v@[k]),
        decreases r,
    {
        r -= 1;
    }
    proof {
        let part = v@.subrange(from as int, end as int);
        lemma_tail_name(host, verbatim, part, r - from);
        assert(part.skip(r - from) =~= v@.subrange(r as int, end as int));
    }
    r
}

/// The name of the file that a path leads to, if it leads to one.
pub fn file_name(host: HostOs, path: &str) -> (r: Option<String>)
    ensures
        opt_view(r) == file_name_of(host, path@),
{
    let v = chars_of(path);
    let verbatim = is_verbatim(host, &v);
    let prefix = prefix_end(host, &v);
    let from: usize = if verbatim && prefix < v.len() && is_separator_char(v[prefix]) {
        prefix + 1
    } else {
        prefix
    };
    let mut end: usize = v.len();
    assert(from > prefix ==> path@.skip(prefix as int).drop_first() =~= path@.skip(from as int));
    assert(v@.subrange(from as int, end as int) =~= path@.skip(from as int));
    while end > from
        invariant
            from <= end <= v@.len(),
            file_name_of(host, path@) == last_name(
                host,
                verbatim,
                v@.subrange(from as int, end as int),
            ),
        decreases end,
    {
        let ghost part = v@.subrange(from as int, end as int);
        assert(part.drop_last() =~= v@.subrange(from as int, end - 1));
        assert(part.last() == v@[end - 1]);
        if !is_split(host, verbatim, v[end - 1]) {
            let start = name_start(host, verbatim, &v, from, end);
            let name = string_of(vstd::slice::slice_subrange(v.as_slice(), start, end));
            if is_plain(name.as_str()) {
                return Some(name);
            }
            if verbatim || str_eq(name.as_str(), "..") {
                proof {
                    reveal_strlit(".");
                    reveal_strlit("..");
                    assert("."@.len() != ".."@.len());
                }
                return None;
            }
        }
        end -= 1;
    }
    None
}

} // verus!
