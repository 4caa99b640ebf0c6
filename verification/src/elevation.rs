//! Whether the process may capture traffic, and how it gets to.

use vstd::prelude::*;

use crate::launch::discovery::{first_existing, search_path_candidates};
use crate::launch::{HostOs, PathProbe};
use crate::numerals::{parse_u64, to_signed_decimal};
use crate::text::{cat2, cat3, lines_of, strip_prefix, trimmed};
use crate::launch::discovery::{first_present, in_each_dir};
use crate::numerals::{parse_number, signed_decimal};
use crate::text::{has_at, lines, opt_str_view, opt_view, split, trim, views};

verus! {

// ----- dialogs --------------------------------------------------------------------

/// What follows `CapPrm:` on the first line that begins so.
pub open spec fn permitted_field(status: Seq<Seq<char>>) -> Option<Seq<char>>
    decreases status.len(),
{
    if status.len() == 0 {
        None
    } else if has_at(status[0], "CapPrm:"@, 0) {
        Some(status[0].skip("CapPrm:"@.len() as int))
    } else {
        permitted_field(status.drop_first())
    }
}

/// The capabilities that a process may take up, out of its `status`; `None`
/// where that does not say.
pub open spec fn permitted_capabilities(status: Seq<char>) -> Option<nat> {
    match permitted_field(lines(status)) {
        Some(field) => parse_number(trim(field), 16, u64::MAX as nat),
        None => None,
    }
}

/// Dialogs of the desktop portal open unless the process holds a capability.
pub open spec fn dialogs_open(host: HostOs, status: Option<Seq<char>>) -> bool {
    match host {
        HostOs::Windows => true,
        HostOs::Linux => match status {
            Some(text) => match permitted_capabilities(text) {
                Some(mask) => mask == 0,
                None => true,
            },
            None => true,
        },
    }
}

fn permitted_text(status: &str) -> (r: Option<String>)
    ensures
        opt_view(r) == permitted_field(lines(status@)),
{
    let all = lines_of(status);
    let ghost texts = lines(status@);
    let mut i: usize = 0;
    assert(texts.skip(0) =~= texts);
    while i < all.len()
        invariant
            i <= all@.len(),
            views(all@) == texts,
            texts == lines(status@),
            permitted_field(texts) == permitted_field(texts.skip(i as int)),
        decreases all.len() - i,
    {
        assert(texts.skip(i as int).drop_first() =~= texts.skip(i + 1));
        if let Some(rest) = strip_prefix(all[i].as_str(), "CapPrm:") {
            return Some(rest);
        }
        i += 1;
    }
    None
}

/// Whether desktop-portal dialogs, that is the file picker, can work in this
/// process, from what `/proc/self/status` holds.
///
/// The portal identifies who asks by opening `/proc/<pid>/root`, which the
/// kernel refuses where the process holds any permitted capability that the
/// portal does not hold. The portal holds none. So with a capability the
/// picker is unavailable, and the path is typed instead. A status that could
/// not be read, or does not say, leaves the picker available, and so does
/// Windows, where rights do not come with the file.
pub fn portal_dialogs_available(host: HostOs, status: Option<&str>) -> (r: bool)
    ensures
        r == dialogs_open(host, opt_str_view(status)),
{
    match (host, status) {
        (HostOs::Linux, Some(text)) => match permitted_text(text) {
            Some(field) => match parse_u64(trimmed(field.as_str()).as_str(), 16, u64::MAX) {
                Some(mask) => mask == 0,
                None => true,
            },
            None => true,
        },
        _ => true,
    }
}

// ----- rights ---------------------------------------------------------------------

/// What was found out about the rights of the process.
#[derive(Debug, Clone, Copy, PartialEq, Eq, Structural)]
pub enum RightsProbe {
    /// Whether the process token could be opened and asked, and what it said.
    Windows { opened: bool, queried: bool, token_is_elevated: u32 },
    /// The effective user, and the descriptor of a packet socket, negative
    /// where none could be opened.
    Linux { effective_user: u32, socket: i32 },
    /// A system without such rights.
    Other,
}

/// The rights suffice for capture: Administrator on Windows; on Linux root, or
/// the capability to open a packet socket.
pub open spec fn may_capture(probe: RightsProbe) -> bool {
    match probe {
        RightsProbe::Windows { opened, queried, token_is_elevated } => opened && queried
            && token_is_elevated != 0,
        RightsProbe::Linux { effective_user, socket } => effective_user == 0 || socket >= 0,
        RightsProbe::Other => true,
    }
}

/// Whether the rights of the process suffice for capture.
pub fn is_elevated(probe: RightsProbe) -> (r: bool)
    ensures
        r == may_capture(probe),
{
    match probe {
        RightsProbe::Windows { opened, queried, token_is_elevated } => opened && queried
            && token_is_elevated != 0,
        RightsProbe::Linux { effective_user, socket } => effective_user == 0 || socket >= 0,
        RightsProbe::Other => true,
    }
}

// ----- getting them ---------------------------------------------------------------

/// Where `setcap` may be: the usual places, then each directory of the search path.
pub open spec fn setcap_places(path_var: Option<Seq<char>>) -> Seq<Seq<char>> {
    let usual = seq!["/usr/sbin/setcap"@, "/sbin/setcap"@, "/usr/bin/setcap"@, "/bin/setcap"@];
    match path_var {
        Some(path) => usual + in_each_dir(split(path, ':'), "setcap"@, false),
        None => usual,
    }
}

pub fn setcap_candidates(path_var: Option<&str>) -> (r: Vec<String>)
    ensures
        views(r@) == setcap_places(opt_str_view(path_var)),
{
    let mut r: Vec<String> = Vec::new();
    r.push("/usr/sbin/setcap".to_owned());
    r.push("/sbin/setcap".to_owned());
    r.push("/usr/bin/setcap".to_owned());
    r.push("/bin/setcap".to_owned());
    if let Some(path) = path_var {
        let mut more = search_path_candidates(path, "setcap", false);
        r.append(&mut more);
    }
    r
}

/// The `setcap` program: the first candidate that exists.
pub fn find_setcap(candidates: &Vec<PathProbe>) -> (r: Option<String>)
    ensures
        opt_view(r) == first_present(candidates@),
{
    first_existing(candidates)
}

/// What is done next to get the rights.
#[derive(Debug, Clone, PartialEq, Eq)]
pub enum RelaunchStep {
    /// Nothing is left to do.
    Done,
    /// Run this program of the system with a prompt for a password.
    RunAsRoot { program: String, args: Vec<String> },
    /// Start this program with a prompt for consent.
    RunAsAdministrator { program: String },
    /// Start this program.
    Start { program: String },
    /// Leave, the new copy has taken over.
    Exit,
    /// Tell the user that it did not work.
    Fail(String),
}

/// What a step says.
pub enum RelaunchModel {
    Done,
    RunAsRoot(Seq<char>, Seq<Seq<char>>),
    RunAsAdministrator(Seq<char>),
    Start(Seq<char>),
    Exit,
    Fail(Seq<char>),
}

impl View for RelaunchStep {
    type V = RelaunchModel;

    open spec fn view(&self) -> RelaunchModel {
        match *self {
            RelaunchStep::Done => RelaunchModel::Done,
            RelaunchStep::RunAsRoot { program, args } => RelaunchModel::RunAsRoot(
                program@,
                views(args@),
            ),
            RelaunchStep::RunAsAdministrator { program } => RelaunchModel::RunAsAdministrator(
                program@,
            ),
            RelaunchStep::Start { program } => RelaunchModel::Start(program@),
            RelaunchStep::Exit => RelaunchModel::Exit,
            RelaunchStep::Fail(text) => RelaunchModel::Fail(text@),
        }
    }
}

/// The first step towards the rights: none where they are there. On Linux the
/// program's file is given the capability, which the next start picks up; the
/// window itself never runs as root, which would lose the user's display.
pub open spec fn first_relaunch_step(
    probe: RightsProbe,
    exe: Result<String, String>,
    setcap: Option<Seq<char>>,
) -> RelaunchModel {
    if probe == RightsProbe::Other {
        RelaunchModel::Fail("elevation is only supported on Windows"@)
    } else if may_capture(probe) {
        RelaunchModel::Done
    } else {
        match exe {
            Err(error) => RelaunchModel::Fail(error@),
            Ok(exe) => if probe is Windows {
                RelaunchModel::RunAsAdministrator(exe@)
            } else {
                match setcap {
                    Some(setcap) => RelaunchModel::RunAsRoot(
                        "pkexec"@,
                        seq![setcap, "cap_net_raw+ep"@, exe@],
                    ),
                    None => RelaunchModel::Fail(
                        "setcap not found — install libcap (it provides setcap)"@,
                    ),
                }
            },
        }
    }
}

pub fn relaunch_elevated(
    probe: RightsProbe,
    exe: &Result<String, String>,
    setcap: &Option<String>,
) -> (r: RelaunchStep)
    ensures
        r@ == first_relaunch_step(probe, *exe, opt_view(*setcap)),
{
    if let RightsProbe::Other = probe {
        return RelaunchStep::Fail("elevation is only supported on Windows".to_owned());
    }
    if is_elevated(probe) {
        return RelaunchStep::Done;
    }
    let program = match exe {
        Ok(exe) => exe,
        Err(error) => return RelaunchStep::Fail(error.clone()),
    };
    if let RightsProbe::Windows { .. } = probe {
        return RelaunchStep::RunAsAdministrator { program: program.clone() };
    }
    match setcap {
        Some(setcap) => {
            let mut args: Vec<String> = Vec::new();
            args.push(setcap.clone());
            args.push("cap_net_raw+ep".to_owned());
            args.push(program.clone());
            assert(views(args@) =~= seq![setcap@, "cap_net_raw+ep"@, program@]);
            RelaunchStep::RunAsRoot { program: "pkexec".to_owned(), args }
        },
        None => RelaunchStep::Fail(
            "setcap not found — install libcap (it provides setcap)".to_owned(),
        ),
    }
}

/// What came of running the program that grants the capability.
#[derive(Debug, Clone, PartialEq, Eq)]
pub enum GrantOutcome {
    /// It could not be run.
    NotRun(String),
    /// It ended, successfully or not. A prompt that the user closed is no success.
    Ended(bool),
}

/// The step after the capability was asked for.
pub open spec fn after_grant(exe: Seq<char>, outcome: GrantOutcome) -> RelaunchModel {
    match outcome {
        GrantOutcome::NotRun(error) => RelaunchModel::Fail(
            "could not run pkexec (install polkit, or run `sudo setcap cap_net_raw+ep "@ + exe
                + "`): "@ + error@,
        ),
        GrantOutcome::Ended(false) => RelaunchModel::Fail(
            "granting the capture capability was cancelled or failed"@,
        ),
        GrantOutcome::Ended(true) => RelaunchModel::Start(exe),
    }
}

pub fn continue_after_grant(exe: &str, outcome: &GrantOutcome) -> (r: RelaunchStep)
    ensures
        r@ == after_grant(exe@, *outcome),
{
    match outcome {
        GrantOutcome::NotRun(error) => RelaunchStep::Fail(
            crate::text::cat4(
                "could not run pkexec (install polkit, or run `sudo setcap cap_net_raw+ep ",
                exe,
                "`): ",
                error.as_str(),
            ),
        ),
        GrantOutcome::Ended(granted) => if *granted {
            RelaunchStep::Start { program: exe.to_owned() }
        } else {
            RelaunchStep::Fail(
                "granting the capture capability was cancelled or failed".to_owned(),
            )
        },
    }
}

/// The step after the new copy was started, or failed to.
pub open spec fn after_start(error: Option<Seq<char>>) -> RelaunchModel {
    match error {
        Some(error) => RelaunchModel::Fail("restarting after granting capability: "@ + error),
        None => RelaunchModel::Exit,
    }
}

/// The step after Windows answered with the code.
pub open spec fn after_consent(code: i64) -> RelaunchModel {
    if code <= 32 {
        RelaunchModel::Fail(
            "could not restart with administrator access (code "@ + signed_decimal(code as int)
                + ")"@,
        )
    } else {
        RelaunchModel::Done
    }
}

/// The step after the new copy was started, on Linux.
pub fn continue_after_start(error: Option<&str>) -> (r: RelaunchStep)
    ensures
        r@ == after_start(opt_str_view(error)),
{
    match error {
        Some(error) => RelaunchStep::Fail(cat2("restarting after granting capability: ", error)),
        None => RelaunchStep::Exit,
    }
}

/// The step after Windows was asked to start the program, by the code that it
/// answered: up to 32 it did not.
pub fn continue_after_consent(code: i64) -> (r: RelaunchStep)
    ensures
        r@ == after_consent(code),
{
    if code <= 32 {
        let number = to_signed_decimal(code);
        RelaunchStep::Fail(
            cat3("could not restart with administrator access (code ", number.as_str(), ")"),
        )
    } else {
        RelaunchStep::Done
    }
}

} // verus!
