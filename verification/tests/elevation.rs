use arctracker_sync::elevation::{
    continue_after_consent, continue_after_grant, continue_after_start, find_setcap, is_elevated,
    portal_dialogs_available, relaunch_elevated, setcap_candidates, GrantOutcome, RelaunchStep,
    RightsProbe,
};
use arctracker_sync::launch::{HostOs, PathProbe};
use arctracker_sync::theme::{arc_primary, arc_warning, window_radius, Rgb, RADIUS_WINDOW};
use arctracker_sync::widgets::{
    ghost_paint, segment_paint, stage, StageState, StepperNode, WindowButton,
};

fn s(text: &str) -> String {
    text.to_string()
}

const NO_RIGHTS: RightsProbe = RightsProbe::Linux { effective_user: 1000, socket: -1 };

#[test]
fn dialogs_open_unless_a_capability_is_permitted() {
    let linux = |text: &str| portal_dialogs_available(HostOs::Linux, Some(text));
    assert!(linux("Name:\tx\nCapPrm:\t0000000000000000\nCapEff:\t1\n"));
    assert!(!linux("Name:\tx\nCapPrm:\t0000000000002000\n"));
    assert!(!linux("CapPrm:\t0000000000002000\nCapPrm:\t0000000000000000\n"));
    assert!(linux("CapPrm:\tnonsense\n"));
    assert!(linux("CapInh:\t0000000000002000\n"));
    assert!(portal_dialogs_available(HostOs::Linux, None));
    assert!(portal_dialogs_available(HostOs::Windows, Some("CapPrm: 2000")));
}

#[test]
fn rights_come_from_root_a_socket_or_the_token() {
    assert!(is_elevated(RightsProbe::Linux { effective_user: 0, socket: -1 }));
    assert!(is_elevated(RightsProbe::Linux { effective_user: 1000, socket: 0 }));
    assert!(!is_elevated(NO_RIGHTS));
    let token = |opened, queried, token_is_elevated| RightsProbe::Windows {
        opened,
        queried,
        token_is_elevated,
    };
    assert!(is_elevated(token(true, true, 1)));
    assert!(!is_elevated(token(true, true, 0)));
    assert!(!is_elevated(token(true, false, 1)));
    assert!(!is_elevated(token(false, true, 1)));
    assert!(is_elevated(RightsProbe::Other));
}

#[test]
fn the_capability_is_asked_for_and_the_program_restarted() {
    let exe = Ok(s("/opt/app"));
    assert_eq!(
        relaunch_elevated(NO_RIGHTS, &exe, &Some(s("/sbin/setcap"))),
        RelaunchStep::RunAsRoot {
            program: s("pkexec"),
            args: vec![s("/sbin/setcap"), s("cap_net_raw+ep"), s("/opt/app")],
        }
    );
    assert_eq!(
        relaunch_elevated(NO_RIGHTS, &exe, &None),
        RelaunchStep::Fail(s("setcap not found — install libcap (it provides setcap)"))
    );
    assert_eq!(
        relaunch_elevated(NO_RIGHTS, &Err(s("gone")), &None),
        RelaunchStep::Fail(s("gone"))
    );
    let root = RightsProbe::Linux { effective_user: 0, socket: -1 };
    assert_eq!(relaunch_elevated(root, &exe, &None), RelaunchStep::Done);
    assert_eq!(
        relaunch_elevated(RightsProbe::Other, &exe, &None),
        RelaunchStep::Fail(s("elevation is only supported on Windows"))
    );
    assert_eq!(
        continue_after_grant("/opt/app", &GrantOutcome::Ended(true)),
        RelaunchStep::Start { program: s("/opt/app") }
    );
    assert_eq!(
        continue_after_grant("/opt/app", &GrantOutcome::Ended(false)),
        RelaunchStep::Fail(s("granting the capture capability was cancelled or failed"))
    );
    assert_eq!(
        continue_after_grant("/opt/app", &GrantOutcome::NotRun(s("no such file"))),
        RelaunchStep::Fail(s(
            "could not run pkexec (install polkit, or run `sudo setcap cap_net_raw+ep /opt/app`): no such file"
        ))
    );
    assert_eq!(continue_after_start(None), RelaunchStep::Exit);
    assert_eq!(
        continue_after_start(Some("denied")),
        RelaunchStep::Fail(s("restarting after granting capability: denied"))
    );
}

#[test]
fn windows_asks_for_consent() {
    let probe = RightsProbe::Windows { opened: true, queried: true, token_is_elevated: 0 };
    assert_eq!(
        relaunch_elevated(probe, &Ok(s("C:\\app.exe")), &None),
        RelaunchStep::RunAsAdministrator { program: s("C:\\app.exe") }
    );
    assert_eq!(continue_after_consent(33), RelaunchStep::Done);
    assert_eq!(
        continue_after_consent(32),
        RelaunchStep::Fail(s("could not restart with administrator access (code 32)"))
    );
    assert_eq!(
        continue_after_consent(-5),
        RelaunchStep::Fail(s("could not restart with administrator access (code -5)"))
    );
}

#[test]
fn setcap_is_looked_for_in_the_usual_places_first() {
    assert_eq!(
        setcap_candidates(Some("/opt/bin:")),
        vec![
            "/usr/sbin/setcap",
            "/sbin/setcap",
            "/usr/bin/setcap",
            "/bin/setcap",
            "/opt/bin/setcap",
            "setcap"
        ]
    );
    assert_eq!(setcap_candidates(None).len(), 4);
    let probes = vec![
        PathProbe { path: s("/a"), exists: false },
        PathProbe { path: s("/b"), exists: true },
    ];
    assert_eq!(find_setcap(&probes), Some(s("/b")));
    assert_eq!(find_setcap(&Vec::new()), None);
}

#[test]
fn widgets_pick_their_colours() {
    assert_eq!(arc_primary(), Rgb { r: 251, g: 200, b: 44 });
    assert_eq!(arc_warning(), Rgb { r: 249, g: 177, b: 102 });
    assert_eq!(window_radius(false), RADIUS_WINDOW);
    assert_eq!(window_radius(true), 0);
    assert_eq!(stage(true, true), StageState::Done);
    assert_eq!(stage(false, true), StageState::Current);
    assert_eq!(stage(false, false), StageState::Pending);
    let node = StepperNode { number: 1, label: "a", sub: "b", state: StageState::Done };
    assert_eq!(node.connector_color(0, 2), Some(arc_primary()));
    assert_eq!(node.connector_color(1, 2), None);
    assert_eq!(node.connector_color(0, 0), None);
    assert_eq!(node.label_color(), Rgb { r: 154, g: 163, b: 176 });
    assert!(!segment_paint(true).bordered && segment_paint(false).bordered);
    assert_eq!(WindowButton::Close.paint(true).fill, Some(Rgb { r: 232, g: 86, b: 86 }));
    assert_eq!(WindowButton::Close.paint(false), ghost_paint(false));
    assert_eq!(WindowButton::Minimize.paint(true), ghost_paint(true));
    assert_eq!(WindowButton::resize(true), WindowButton::Restore);
    assert_eq!(WindowButton::resize(false), WindowButton::Maximize);
}
