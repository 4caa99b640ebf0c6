use arctracker_sync::process_env::linux::{
    argv0, argv0_matches, find_processes, names_match, process_environment_value, read_ppid,
    windows_basename, ProcEntry,
};
use arctracker_sync::process_env::windows::{
    check_complete_read, continue_reading, find_processes as find_snapshot_processes,
    has_double_utf16_nul, parse_environment_block,
    process_environment_value as windows_environment_value, read_process_environment,
    windows_error, EnvironmentBytes, EnvironmentStep, InspectionError, SnapshotEntry,
};
use arctracker_sync::utf16::{decode, wide_array_to_string};

#[test]
fn names_match_ignores_the_exe_suffix_on_either_side() {
    assert!(names_match("steam.exe", "steam"));
    assert!(names_match("steam.exe", "steam.exe"));
    assert!(names_match("steam", "steam.exe"));
    assert!(names_match("STEAM.EXE", "steam"));
    assert!(!names_match("steam.exe", "steamwebhelper"));
}

#[test]
fn windows_basename_splits_on_either_separator() {
    assert_eq!(windows_basename(r"S:\common\Arc Raiders\PioneerGame.exe"), "PioneerGame.exe");
    assert_eq!(windows_basename("/home/user/.steam/steam/steam"), "steam");
    assert_eq!(windows_basename("PioneerGame.exe"), "PioneerGame.exe");
}

#[test]
fn one_exe_suffix_is_dropped_and_no_more() {
    assert!(!names_match("steam.exe", "steam.exe.exe"));
    assert!(names_match("", ".exe"));
    assert_eq!(windows_basename("a/b\\"), "");
    assert_eq!(windows_basename(""), "");
}

#[test]
fn the_first_argument_ends_at_a_zero() {
    assert_eq!(argv0(b"/usr/bin/wine\0steam.exe\0").as_deref(), Some("/usr/bin/wine"));
    assert_eq!(argv0(b"alone").as_deref(), Some("alone"));
    assert_eq!(argv0(b"\0rest"), None);
    assert_eq!(argv0(b""), None);
    assert_eq!(argv0(b"a\xffb\0").as_deref(), Some("a\u{fffd}b"));
    assert!(argv0_matches("PioneerGame.exe", " S:\\games\\pioneergame.EXE "));
    assert!(!argv0_matches("steam.exe", "S:\\games\\pioneergame.EXE"));
}

#[test]
fn the_parent_follows_the_last_bracket() {
    assert_eq!(read_ppid("12 (steam) S 34 12 12 0"), Some(34));
    assert_eq!(read_ppid("12 (a) b) c) S 7 1"), Some(7));
    assert_eq!(read_ppid("12 steam S 34"), None);
    assert_eq!(read_ppid("12 (steam) S"), None);
    assert_eq!(read_ppid("12 (steam) S -1"), None);
    assert_eq!(read_ppid("12 (steam) S 4294967296"), None);
    assert_eq!(read_ppid("12 (steam) S 4294967295"), Some(4294967295));
}

#[test]
fn environment_values_are_found_by_name() {
    let environ = b"PATH=/bin\0SSLKEYLOGFILE=/tmp/keys.log\0SSLKEYLOGFILE=second\0";
    assert_eq!(
        process_environment_value(Some(environ), "SSLKEYLOGFILE").as_deref(),
        Some("/tmp/keys.log")
    );
    assert_eq!(process_environment_value(Some(environ), "SSLKEYLOG"), None);
    assert_eq!(process_environment_value(Some(environ), "path"), None);
    assert_eq!(process_environment_value(Some(b"A=b"), "A").as_deref(), Some("b"));
    assert_eq!(process_environment_value(Some(b"A=\xff"), "A").as_deref(), Some("\u{fffd}"));
    assert_eq!(process_environment_value(None, "A"), None);
    let entries = ["LANG=de", "HOME=/home/j\u{f6}rg", "KEYS=/\u{1f511}/a=b", "HOME=/"];
    let written: Vec<u8> =
        entries.iter().flat_map(|entry| [entry.as_bytes(), &[0u8][..]].concat()).collect();
    let read = |name: &str| process_environment_value(Some(&written), name);
    assert_eq!(read("HOME").as_deref(), Some("/home/j\u{f6}rg"));
    assert_eq!(read("KEYS").as_deref(), Some("/\u{1f511}/a=b"));
    assert_eq!(read("OTHER"), None);
}

fn entry(dir: &str, comm: &str, exe_name: &str, cmdline: &[u8]) -> ProcEntry {
    ProcEntry {
        dir_name: Some(dir.to_string()),
        comm: Some(format!("{comm}\n")),
        exe: Some(format!("/usr/bin/{exe_name}")),
        exe_name: Some(exe_name.to_string()),
        cmdline: Some(cmdline.to_vec()),
        stat: Some(format!("{dir} ({comm}) S 1 2 3")),
    }
}

#[test]
fn processes_are_found_by_comm_file_or_first_argument() {
    let entries = vec![
        entry("10", "steam", "other", b"x\0"),
        entry("11", "main", "steam", b"x\0"),
        entry("12", "wine", "wine64", b"C:\\Steam\\steam.exe\0-silent\0"),
        entry("13", "bash", "bash", b"bash\0"),
        entry("self", "steam", "steam", b"steam\0"),
        ProcEntry {
            dir_name: Some("14".to_string()),
            comm: None,
            exe: None,
            exe_name: Some("steam".to_string()),
            cmdline: None,
            stat: None,
        },
    ];
    let found = find_processes("steam.exe", &entries);
    let pids: Vec<u32> = found.iter().map(|p| p.pid).collect();
    assert_eq!(pids, vec![10, 11, 12, 14]);
    assert_eq!(found[0].name, "steam");
    assert_eq!(found[0].parent_pid, 1);
    assert_eq!(found[0].executable_path.as_deref(), Some("/usr/bin/other"));
    assert_eq!(found[3].name, "steam.exe");
    assert_eq!(found[3].parent_pid, 0);
    assert_eq!(found[3].executable_path, None);
}

fn wide(text: &str) -> Vec<u16> {
    text.encode_utf16().collect()
}

fn block(entries: &[&str]) -> Vec<u8> {
    let mut bytes = Vec::new();
    for entry in entries {
        for unit in wide(entry) {
            bytes.extend_from_slice(&unit.to_le_bytes());
        }
        bytes.extend_from_slice(&[0, 0]);
    }
    bytes.extend_from_slice(&[0, 0]);
    bytes
}

#[test]
fn sixteen_bit_text_is_decoded_as_std_does() {
    let texts = ["plain", "日本語", "a😀b", ""];
    for text in texts {
        assert_eq!(decode(&wide(text)), (text.to_string(), true));
    }
    let broken: [&[u16]; 4] =
        [&[0xd800], &[0xdc00, 0x61], &[0xd800, 0xd800, 0xdc00], &[0x61, 0xdbff, 0x62]];
    for units in broken {
        let (text, whole) = decode(units);
        assert_eq!(text, String::from_utf16_lossy(units));
        assert!(!whole);
    }
    assert_eq!(wide_array_to_string(&[0x61, 0x62, 0, 0x63]), "ab");
    assert_eq!(wide_array_to_string(&[0x61]), "a");
    assert_eq!(wide_array_to_string(&[0]), "");
}

#[test]
fn environment_blocks_are_parsed() {
    let bytes = block(&["Path=C:\\bin", "SSLKEYLOGFILE=C:\\keys.log", "=C:=C:\\x"]);
    assert_eq!(
        parse_environment_block(&bytes),
        vec!["Path=C:\\bin", "SSLKEYLOGFILE=C:\\keys.log", "=C:=C:\\x"]
    );
    assert_eq!(
        windows_environment_value(&bytes, "sslkeylogfile").as_deref(),
        Some("C:\\keys.log")
    );
    assert_eq!(windows_environment_value(&bytes, "").as_deref(), Some("C:=C:\\x"));
    assert_eq!(windows_environment_value(&bytes, "missing"), None);
    let entries = ["A=\u{ffff}", "K=\u{10000}\u{10ffff}", "\u{1f511}"];
    let mut followed = block(&entries);
    followed.extend_from_slice(&[0x61, 0x00, 0x00, 0x00, 0x62]);
    assert_eq!(parse_environment_block(&followed), entries);
    assert_eq!(parse_environment_block(&bytes[..6]), Vec::<String>::new());
    assert_eq!(parse_environment_block(&[0x61]), Vec::<String>::new());
}

#[test]
fn the_end_of_a_block_stands_at_an_even_index() {
    assert!(has_double_utf16_nul(&[0, 0, 0, 0]));
    assert!(has_double_utf16_nul(&[1, 1, 0, 0, 0, 0]));
    assert!(!has_double_utf16_nul(&[1, 0, 0, 0, 0]));
    assert!(!has_double_utf16_nul(&[0, 0, 0]));
    assert!(!has_double_utf16_nul(&[]));
}

#[test]
fn an_environment_is_read_until_its_end_or_the_limit() {
    let mut reader = EnvironmentBytes::new();
    assert!(reader.read_environment_bytes(&vec![1u8; 4096]));
    assert_eq!(reader.offset(), 4096);
    assert!(!reader.read_environment_bytes(&vec![1u8; 10]));
    assert_eq!(reader.output.len(), 4106);
    let mut ended = EnvironmentBytes::new();
    let mut chunk = vec![1u8; 4096];
    chunk[100] = 0;
    chunk[101] = 0;
    chunk[102] = 0;
    chunk[103] = 0;
    assert!(!ended.read_environment_bytes(&chunk));
    let mut long = EnvironmentBytes::new();
    let mut reads = 1;
    while long.read_environment_bytes(&vec![1u8; 4096]) {
        reads += 1;
    }
    assert_eq!(reads, 128);
}

#[test]
fn the_way_to_an_environment_ends_at_a_null_address() {
    assert_eq!(
        read_process_environment(true),
        EnvironmentStep::Fail(InspectionError::ThirtyTwoBit)
    );
    let start = read_process_environment(false);
    assert_eq!(start, EnvironmentStep::QueryBlock);
    assert_eq!(continue_reading(start, 0), EnvironmentStep::Fail(InspectionError::NoBlock));
    let parameters = continue_reading(start, 0x1000);
    assert_eq!(parameters, EnvironmentStep::ReadParametersPointer(0x1020));
    assert_eq!(
        continue_reading(parameters, 0),
        EnvironmentStep::Fail(InspectionError::NoParameters)
    );
    let environment = continue_reading(parameters, 0x2000);
    assert_eq!(environment, EnvironmentStep::ReadEnvironmentPointer(0x2080));
    assert_eq!(continue_reading(environment, 0), EnvironmentStep::NoEnvironment);
    assert_eq!(continue_reading(environment, 0x3000), EnvironmentStep::ReadEnvironment(0x3000));
    assert_eq!(
        InspectionError::ThirtyTwoBit.message(),
        "32-bit launcher process inspection is not supported yet"
    );
    assert_eq!(InspectionError::NoBlock.message(), "launcher process has no PEB");
    assert_eq!(
        InspectionError::NoParameters.message(),
        "launcher process has no process parameters"
    );
    assert_eq!(check_complete_read(8, 8), Ok(()));
    assert_eq!(
        check_complete_read(8, 3),
        Err("launcher memory read was incomplete: expected 8, got 3".to_string())
    );
    assert_eq!(
        windows_error("opening launcher process", 5),
        "opening launcher process failed with Windows error 5"
    );
}

#[test]
fn snapshot_processes_are_found_whatever_the_case() {
    let mut name = wide("Steam.EXE");
    name.extend([0, 0x61, 0]);
    let entries = vec![
        SnapshotEntry { pid: 1, parent_pid: 2, exe_file: name, path: Some("C:\\s".to_string()) },
        SnapshotEntry { pid: 3, parent_pid: 4, exe_file: wide("steam"), path: None },
    ];
    let found = find_snapshot_processes("steam.exe", &entries);
    assert_eq!(found.len(), 1);
    assert_eq!(found[0].pid, 1);
    assert_eq!(found[0].parent_pid, 2);
    assert_eq!(found[0].name, "Steam.EXE");
    assert_eq!(found[0].executable_path.as_deref(), Some("C:\\s"));
}
