//! Network adapters: what they are called, and which one is most likely the
//! one in use.

use vstd::prelude::*;

use crate::app::data::InterfaceInfo;
use crate::app::ArcTrackerSyncApp;
use crate::text::{cat3, contains_str, starts_with, str_eq, to_lower};
use crate::text::{contains, has_at, lower};

verus! {

/// What an adapter is called: its description, where it has one.
pub open spec fn label_of(interface: InterfaceInfo) -> Seq<char> {
    match interface.description {
        Some(text) => if text@.len() > 0 {
            text@
        } else {
            interface.name@
        },
        None => interface.name@,
    }
}

/// An adapter's name and description, in lower case.
pub open spec fn search_text(interface: InterfaceInfo) -> Seq<char> {
    let description = match interface.description {
        Some(text) => text@,
        None => Seq::empty(),
    };
    lower(interface.name@ + " "@ + description)
}

/// `n` where `holds`, else nothing.
pub open spec fn if_so(holds: bool, n: int) -> int {
    if holds {
        n
    } else {
        0
    }
}

/// The link is up or down, where the description says so.
pub open spec fn link_points(text: Seq<char>) -> int {
    if_so(contains(text, "link up"@), 100) - if_so(contains(text, "link down"@), 100)
}

/// A name of a wired or a wireless adapter, as Linux gives them.
pub open spec fn name_points(name: Seq<char>) -> int {
    if_so(has_at(name, "en"@, 0), 20) + if_so(has_at(name, "eth"@, 0), 20) + if_so(
        has_at(name, "wl"@, 0),
        15,
    )
}

/// Words that stand in the descriptions of physical adapters.
pub open spec fn hardware_points(text: Seq<char>) -> int {
    if_so(contains(text, "ethernet"@), 20) + if_so(contains(text, "wi-fi"@), 20) + if_so(
        contains(text, "wifi"@),
        20,
    ) + if_so(contains(text, "wireless"@), 20) + if_so(contains(text, "gigabit"@), 20) + if_so(
        contains(text, "realtek"@),
        20,
    ) + if_so(contains(text, "intel"@), 20) + if_so(contains(text, "asix"@), 20)
}

/// Words that stand in the descriptions of adapters that exist in software
/// only, or reach no network.
pub open spec fn virtual_points(text: Seq<char>) -> int {
    if_so(contains(text, "loopback"@), 100) + if_so(contains(text, "bluetooth"@), 100) + if_so(
        contains(text, "virtual"@),
        100,
    ) + if_so(contains(text, "vmware"@), 100) + if_so(contains(text, "hyper-v"@), 100) + if_so(
        contains(text, "wintun"@),
        100,
    ) + if_so(contains(text, "tap"@), 100) + if_so(contains(text, "zerotier"@), 100) + if_so(
        contains(text, "docker"@),
        100,
    ) + if_so(contains(text, "vethernet"@), 100)
}

/// How likely an adapter is the one in use.
pub open spec fn score_of(interface: InterfaceInfo) -> int {
    let text = search_text(interface);
    link_points(text) + name_points(interface.name@) + hardware_points(text) - virtual_points(text)
}

/// The index of the adapter with the highest score, the last one of several.
pub open spec fn best_of(interfaces: Seq<InterfaceInfo>) -> Option<int>
    decreases interfaces.len(),
{
    if interfaces.len() == 0 {
        None
    } else {
        match best_of(interfaces.drop_last()) {
            Some(i) => if score_of(interfaces[i]) > score_of(interfaces.last()) {
                Some(i)
            } else {
                Some(interfaces.len() - 1)
            },
            None => Some(interfaces.len() - 1),
        }
    }
}

/// The index of the first adapter of that name.
pub open spec fn position_of(interfaces: Seq<InterfaceInfo>, name: Seq<char>) -> Option<int>
    decreases interfaces.len(),
{
    if interfaces.len() == 0 {
        None
    } else {
        match position_of(interfaces.drop_last(), name) {
            Some(i) => Some(i),
            None => if interfaces.last().name@ == name {
                Some(interfaces.len() - 1)
            } else {
                None
            },
        }
    }
}

/// The adapter that is picked has the highest score of all.
pub proof fn law_best_interface_scores_highest(interfaces: Seq<InterfaceInfo>)
    ensures
        best_of(interfaces) is None <==> interfaces.len() == 0,
        best_of(interfaces) matches Some(i) ==> 0 <= i < interfaces.len() && (forall|j: int|
            0 <= j < interfaces.len() ==> score_of(#[trigger] interfaces[j]) <= score_of(
                interfaces[i],
            )) && (forall|j: int|
            i < j < interfaces.len() ==> score_of(#[trigger] interfaces[j]) < score_of(
                interfaces[i],
            )),
    decreases interfaces.len(),
{
    if interfaces.len() > 0 {
        let front = interfaces.drop_last();
        law_best_interface_scores_highest(front);
        assert forall|j: int| 0 <= j < front.len() implies interfaces[j] == #[trigger] front[j] by {}
        if best_of(front) is Some {
            let i = best_of(front)->0;
            let k = best_of(interfaces)->0;
            assert forall|j: int| 0 <= j < interfaces.len() implies score_of(
                #[trigger] interfaces[j],
            ) <= score_of(interfaces[k]) by {
                if j < front.len() {
                    assert(front[j] == interfaces[j]);
                }
            }
            assert forall|j: int| k < j < interfaces.len() implies score_of(
                #[trigger] interfaces[j],
            ) < score_of(interfaces[k]) by {
                if j < front.len() {
                    assert(score_of(front[j]) < score_of(front[i]));
                }
            }
        }
    }
}

/// Link state dominates: an adapter whose link is up, and which exists in
/// hardware, scores higher than any adapter whose link is down.
pub proof fn law_live_link_beats_dead_link(live: InterfaceInfo, dead: InterfaceInfo)
    requires
        contains(search_text(live), "link up"@),
        !contains(search_text(live), "link down"@),
        virtual_points(search_text(live)) == 0,
        contains(search_text(dead), "link down"@),
        !contains(search_text(dead), "link up"@),
    ensures
        score_of(live) > score_of(dead),
{
    reveal_strlit("en");
    reveal_strlit("eth");
    let name = dead.name@;
    if has_at(name, "en"@, 0) {
        assert(name[1] == name.subrange(0, 2)[1]);
    }
}

fn points(holds: bool, n: i32) -> (r: i32)
    ensures
        r == if_so(holds, n as int),
{
    if holds {
        n
    } else {
        0
    }
}

fn link_score(text: &str) -> (r: i32)
    ensures
        r == link_points(text@),
        -100 <= r <= 100,
{
    let up: i32 = points(contains_str(text, "link up"), 100);
    let down: i32 = points(contains_str(text, "link down"), 100);
    up - down
}

fn name_score(name: &str) -> (r: i32)
    ensures
        r == name_points(name@),
        0 <= r <= 55,
{
    let p0: i32 = points(starts_with(name, "en"), 20);
    let p1: i32 = points(starts_with(name, "eth"), 20);
    let p2: i32 = points(starts_with(name, "wl"), 15);
    p0 + p1 + p2
}

fn hardware_score(text: &str) -> (r: i32)
    ensures
        r == hardware_points(text@),
        0 <= r <= 160,
{
    let p0: i32 = points(contains_str(text, "ethernet"), 20);
    let p1: i32 = points(contains_str(text, "wi-fi"), 20);
    let p2: i32 = points(contains_str(text, "wifi"), 20);
    let p3: i32 = points(contains_str(text, "wireless"), 20);
    let p4: i32 = points(contains_str(text, "gigabit"), 20);
    let p5: i32 = points(contains_str(text, "realtek"), 20);
    let p6: i32 = points(contains_str(text, "intel"), 20);
    let p7: i32 = points(contains_str(text, "asix"), 20);
    p0 + p1 + p2 + p3 + p4 + p5 + p6 + p7
}

fn virtual_score(text: &str) -> (r: i32)
    ensures
        r == virtual_points(text@),
        0 <= r <= 1000,
{
    let p0: i32 = points(contains_str(text, "loopback"), 100);
    let p1: i32 = points(contains_str(text, "bluetooth"), 100);
    let p2: i32 = points(contains_str(text, "virtual"), 100);
    let p3: i32 = points(contains_str(text, "vmware"), 100);
    let p4: i32 = points(contains_str(text, "hyper-v"), 100);
    let p5: i32 = points(contains_str(text, "wintun"), 100);
    let p6: i32 = points(contains_str(text, "tap"), 100);
    let p7: i32 = points(contains_str(text, "zerotier"), 100);
    let p8: i32 = points(contains_str(text, "docker"), 100);
    let p9: i32 = points(contains_str(text, "vethernet"), 100);
    p0 + p1 + p2 + p3 + p4 + p5 + p6 + p7 + p8 + p9
}

impl ArcTrackerSyncApp {
    /// The friendly name of an adapter; the raw name is noise where there is one.
    pub fn interface_label(interface: &InterfaceInfo) -> (r: String)
        ensures
            r@ == label_of(*interface),
    {
        match &interface.description {
            Some(text) => if text.as_str().is_empty() {
                interface.name.clone()
            } else {
                text.clone()
            },
            None => interface.name.clone(),
        }
    }

    /// How likely an adapter is the one in use.
    pub fn interface_score(interface: &InterfaceInfo) -> (r: i32)
        ensures
            r == score_of(*interface),
    {
        let description = match &interface.description {
            Some(text) => text.clone(),
            None => String::new(),
        };
        let all = cat3(interface.name.as_str(), " ", description.as_str());
        let lowered = to_lower(all.as_str());
        let text = lowered.as_str();
        let name = interface.name.as_str();
        link_score(text) + name_score(name) + hardware_score(text) - virtual_score(text)
    }
}

/// The index of the adapter that is most likely the one in use.
pub fn best_index(interfaces: &Vec<InterfaceInfo>) -> (r: Option<usize>)
    ensures
        match r {
            Some(i) => best_of(interfaces@) == Some(i as int),
            None => best_of(interfaces@) is None,
        },
{
    let mut best: Option<usize> = None;
    let mut i: usize = 0;
    while i < interfaces.len()
        invariant
            i <= interfaces@.len(),
            best is None <==> i == 0,
            best matches Some(b) ==> b < i && best_of(interfaces@.take(i as int)) == Some(b as int),
        decreases interfaces.len() - i,
    {
        let ghost next = interfaces@.take(i + 1);
        assert(next.drop_last() =~= interfaces@.take(i as int));
        match best {
            Some(b) => {
                if ArcTrackerSyncApp::interface_score(&interfaces[b])
                    <= ArcTrackerSyncApp::interface_score(&interfaces[i]) {
                    best = Some(i);
                }
            },
            None => {
                best = Some(i);
            },
        }
        i += 1;
    }
    assert(interfaces@.take(i as int) =~= interfaces@);
    best
}

/// The index of the first adapter of that name.
pub fn find_interface(interfaces: &Vec<InterfaceInfo>, name: &str) -> (r: Option<usize>)
    ensures
        match r {
            Some(i) => position_of(interfaces@, name@) == Some(i as int) && i < interfaces@.len(),
            None => position_of(interfaces@, name@) is None,
        },
{
    let mut found: Option<usize> = None;
    let mut i: usize = 0;
    while i < interfaces.len()
        invariant
            i <= interfaces@.len(),
            match found {
                Some(f) => f < i && position_of(interfaces@.take(i as int), name@) == Some(
                    f as int,
                ),
                None => position_of(interfaces@.take(i as int), name@) is None,
            },
        decreases interfaces.len() - i,
    {
        assert(interfaces@.take(i + 1).drop_last() =~= interfaces@.take(i as int));
        if found.is_none() && str_eq(interfaces[i].name.as_str(), name) {
            found = Some(i);
        }
        i += 1;
    }
    assert(interfaces@.take(i as int) =~= interfaces@);
    found
}

} // verus!
