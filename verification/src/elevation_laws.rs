//! What the rights are for: laws on who may capture, how the rights are got, and
//! where dialogs open.

use vstd::prelude::*;

use crate::elevation::{
    after_consent, after_grant, after_start, dialogs_open, first_relaunch_step, may_capture,
    permitted_capabilities, permitted_field, setcap_places, GrantOutcome, RelaunchModel,
    RightsProbe,
};
use crate::launch::discovery::in_each_dir;
use crate::launch::HostOs;
use crate::numerals::parse_number;
use crate::text::{has_at, lines, split, trim};
use crate::text_laws::law_begins_with;

verus! {

/// The field is that of the first line that begins with `CapPrm:`, wherever the
/// line stands.
pub proof fn law_permitted_field(status: Seq<Seq<char>>, i: int, field: Seq<char>)
    requires
        0 <= i < status.len(),
        status[i] == "CapPrm:"@ + field,
        forall|j: int| 0 <= j < i ==> !has_at(#[trigger] status[j], "CapPrm:"@, 0),
    ensures
        permitted_field(status) == Some(field),
    decreases status.len(),
{
    let label = "CapPrm:"@;
    if i == 0 {
        law_begins_with(status[0], label);
        assert(status[0].skip(label.len() as int) =~= field);
    } else {
        let rest = status.drop_first();
        assert(!has_at(status[0], label, 0));
        assert forall|j: int| 0 <= j < i - 1 implies !has_at(#[trigger] rest[j], label, 0) by {
            assert(rest[j] == status[j + 1]);
        }
        law_permitted_field(rest, i - 1, field);
    }
}

/// On Linux any capability, whichever it is, keeps dialogs from opening; a
/// process without one, or whose status does not say, has them, and so has
/// Windows.
pub proof fn law_any_capability_blocks_dialogs(
    status: Seq<char>,
    i: int,
    field: Seq<char>,
    mask: u64,
)
    requires
        0 <= i < lines(status).len(),
        lines(status)[i] == "CapPrm:"@ + field,
        forall|j: int| 0 <= j < i ==> !has_at(#[trigger] lines(status)[j], "CapPrm:"@, 0),
        parse_number(trim(field), 16, u64::MAX as nat) == Some(mask as nat),
    ensures
        permitted_capabilities(status) == Some(mask as nat),
        dialogs_open(HostOs::Linux, Some(status)) <==> mask == 0,
{
    law_permitted_field(lines(status), i, field);
}

/// Where the status cannot be read or does not name capabilities, dialogs open.
pub proof fn law_dialogs_open_by_default(status: Seq<char>)
    ensures
        dialogs_open(HostOs::Linux, None),
        permitted_capabilities(status) is None ==> dialogs_open(HostOs::Linux, Some(status)),
        dialogs_open(HostOs::Windows, Some(status)),
        dialogs_open(HostOs::Windows, None),
{
}

/// Root may capture without a socket, and anyone else with one; on Windows only
/// a token that was asked and says so counts.
pub proof fn law_who_may_capture(
    user: u32,
    socket: i32,
    opened: bool,
    queried: bool,
    elevated: u32,
)
    ensures
        may_capture(RightsProbe::Linux { effective_user: 0, socket }),
        user != 0 ==> (may_capture(RightsProbe::Linux { effective_user: user, socket }) <==> socket
            >= 0),
        may_capture(
            RightsProbe::Windows { opened, queried, token_is_elevated: elevated },
        ) <==> opened && queried && elevated > 0,
        may_capture(RightsProbe::Other),
{
}

/// Who has the rights is asked for nothing; who lacks them gets them for this
/// program and no other: on Windows by consent, on Linux by giving its file the
/// one capability that it needs.
pub proof fn law_rights_are_asked_for(
    probe: RightsProbe,
    exe: String,
    setcap: Option<Seq<char>>,
    error: String,
)
    ensures
        probe is Other ==> first_relaunch_step(probe, Ok(exe), setcap) is Fail,
        !(probe is Other) && may_capture(probe) ==> first_relaunch_step(probe, Ok(exe), setcap)
            is Done && first_relaunch_step(probe, Err(error), setcap) is Done,
        probe is Windows && !may_capture(probe) ==> first_relaunch_step(probe, Ok(exe), setcap)
            == RelaunchModel::RunAsAdministrator(exe@),
        probe is Linux && !may_capture(probe) && setcap is Some ==> first_relaunch_step(
            probe,
            Ok(exe),
            setcap,
        ) == RelaunchModel::RunAsRoot("pkexec"@, seq![setcap->0, "cap_net_raw+ep"@, exe@]),
        probe is Linux && !may_capture(probe) && setcap is None ==> first_relaunch_step(
            probe,
            Ok(exe),
            setcap,
        ) is Fail,
        !(probe is Other) && !may_capture(probe) ==> first_relaunch_step(probe, Err(error), setcap)
            == RelaunchModel::Fail(error@),
{
}

/// The program starts anew only where the capability was granted, and leaves
/// only where the new copy started; whatever fails is told.
pub proof fn law_new_copy_takes_over(exe: Seq<char>, error: String, code: i64)
    ensures
        after_grant(exe, GrantOutcome::Ended(true)) == RelaunchModel::Start(exe),
        after_grant(exe, GrantOutcome::Ended(false)) is Fail,
        after_grant(exe, GrantOutcome::NotRun(error)) is Fail,
        after_start(None) is Exit,
        after_start(Some(error@)) == RelaunchModel::Fail(
            "restarting after granting capability: "@ + error@,
        ),
        after_consent(code) is Done <==> code > 32,
        after_consent(code) is Fail <==> code <= 32,
{
}

/// `setcap` is looked for in the usual places before the search path.
pub proof fn law_setcap_places(path: Seq<char>)
    ensures
        setcap_places(None).len() == 4,
        setcap_places(None).contains("/usr/sbin/setcap"@),
        setcap_places(None).contains("/sbin/setcap"@),
        setcap_places(None).contains("/usr/bin/setcap"@),
        setcap_places(None).contains("/bin/setcap"@),
        setcap_places(Some(path)).take(4) == setcap_places(None),
        setcap_places(Some(path)).skip(4) == in_each_dir(split(path, ':'), "setcap"@, false),
{
    let usual = setcap_places(None);
    assert(usual[0] == "/usr/sbin/setcap"@);
    assert(usual[1] == "/sbin/setcap"@);
    assert(usual[2] == "/usr/bin/setcap"@);
    assert(usual[3] == "/bin/setcap"@);
    assert(setcap_places(Some(path)).take(4) =~= usual);
    assert(setcap_places(Some(path)).skip(4) =~= in_each_dir(split(path, ':'), "setcap"@, false));
}

} // verus!
