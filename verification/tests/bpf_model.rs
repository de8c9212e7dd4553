use bpfctl::bpf::{
    ImagePullPolicy, ParseError, ProbeType, ProgramType, TcProceedOn, XdpProceedOn,
};

fn strings(v: &[&str]) -> Vec<String> {
    v.iter().map(|s| s.to_string()).collect()
}

#[test]
fn program_type_codes_round_trip() {
    for code in 0u32..32 {
        let t = ProgramType::try_from_u32(code).unwrap();
        assert_eq!(t.as_u32(), code);
    }
    assert_eq!(ProgramType::try_from_u32(2), Ok(ProgramType::Probe));
    assert_eq!(ProgramType::try_from_u32(6), Ok(ProgramType::Xdp));
    assert_eq!(ProgramType::try_from_u32(31), Ok(ProgramType::Syscall));
}

#[test]
fn program_type_unknown_code_is_an_error() {
    assert_eq!(
        ProgramType::try_from_u32(32),
        Err(ParseError::InvalidProgramType { program: 32 })
    );
    assert_eq!(
        ProgramType::try_from_u32(u32::MAX),
        Err(ParseError::InvalidProgramType { program: u32::MAX })
    );
}

#[test]
fn program_type_names() {
    assert_eq!(ProgramType::Xdp.name_string(), "xdp");
    assert_eq!(ProgramType::Probe.name_string(), "probe");
    assert_eq!(ProgramType::SocketFilter.name_string(), "socket_filter");
    assert_eq!(ProgramType::LwtSeg6Local.name_string(), "lwt_seg6local");
    assert_eq!(ProgramType::RawTracepointWritable.name_string(), "raw_tracepoint_writable");
}

#[test]
fn probe_type_names() {
    assert_eq!(ProbeType::Kprobe.name_string(), "kprobe");
    assert_eq!(ProbeType::Kretprobe.name_string(), "kretprobe");
    assert_eq!(ProbeType::Uprobe.name_string(), "uprobe");
    assert_eq!(ProbeType::Uretprobe.name_string(), "uretprobe");
}

#[test]
fn xdp_proceed_on_default_when_empty() {
    let p = XdpProceedOn::from_strings(&vec![]).unwrap();
    assert_eq!(p.as_action_vec(), vec![2, 31]);
    assert_eq!(p.display(), "pass, dispatcher_return");
    let q = XdpProceedOn::from_int32s(&vec![]).unwrap();
    assert_eq!(q.as_action_vec(), vec![2, 31]);
}

#[test]
fn xdp_proceed_on_from_names() {
    let p = XdpProceedOn::from_strings(&strings(&["drop", "tx", "aborted", "redirect"])).unwrap();
    assert_eq!(p.as_action_vec(), vec![1, 3, 0, 4]);
    assert_eq!(p.display(), "drop, tx, aborted, redirect");
}

#[test]
fn xdp_proceed_on_unknown_name() {
    let r = XdpProceedOn::from_strings(&strings(&["pass", "bogus", "other"]));
    assert_eq!(
        r.err(),
        Some(ParseError::InvalidProceedOnName { proceedon: "bogus".to_string() })
    );
    // names are case sensitive
    assert!(XdpProceedOn::from_strings(&strings(&["Pass"])).is_err());
}

#[test]
fn xdp_proceed_on_unknown_code() {
    let r = XdpProceedOn::from_int32s(&vec![2, 5, 99]);
    assert_eq!(r.err(), Some(ParseError::InvalidProceedOnValue { proceedon: 5 }));
}

#[test]
fn xdp_proceed_on_codes_read_back_as_loaded() {
    let loaded = XdpProceedOn::from_strings(&strings(&["aborted", "dispatcher_return"])).unwrap();
    let codes = loaded.as_action_vec();
    let shown = XdpProceedOn::from_int32s(&codes).unwrap();
    assert_eq!(shown.as_action_vec(), codes);
    assert_eq!(shown.display(), "aborted, dispatcher_return");
}

#[test]
fn tc_proceed_on_default_and_names() {
    let p = TcProceedOn::from_strings(&vec![]).unwrap();
    assert_eq!(p.as_action_vec(), vec![0, 3, 30]);
    assert_eq!(p.display(), "ok, pipe, dispatcher_return");
    let q = TcProceedOn::from_strings(&strings(&[
        "unspec", "ok", "reclassify", "shot", "pipe", "stolen", "queued", "repeat", "redirect",
        "trap", "dispatcher_return",
    ]))
    .unwrap();
    assert_eq!(q.as_action_vec(), vec![-1, 0, 1, 2, 3, 4, 5, 6, 7, 8, 30]);
}

#[test]
fn tc_proceed_on_errors() {
    assert_eq!(
        TcProceedOn::from_strings(&strings(&["drop"])).err(),
        Some(ParseError::InvalidProceedOnName { proceedon: "drop".to_string() })
    );
    assert_eq!(
        TcProceedOn::from_int32s(&vec![9]).err(),
        Some(ParseError::InvalidProceedOnValue { proceedon: 9 })
    );
}

#[test]
fn tc_proceed_on_codes_read_back_as_loaded() {
    let loaded = TcProceedOn::from_strings(&strings(&["shot", "unspec"])).unwrap();
    let shown = TcProceedOn::from_int32s(&loaded.as_action_vec()).unwrap();
    assert_eq!(shown.display(), "shot, unspec");
}

#[test]
fn pull_policy_names_and_codes() {
    assert_eq!(ImagePullPolicy::try_from_name("Always"), Ok(ImagePullPolicy::Always));
    assert_eq!(ImagePullPolicy::try_from_name("IfNotPresent"), Ok(ImagePullPolicy::IfNotPresent));
    assert_eq!(ImagePullPolicy::try_from_name("Never"), Ok(ImagePullPolicy::Never));
    assert_eq!(
        ImagePullPolicy::try_from_name("always"),
        Err(ParseError::InvalidPullPolicyName { pull_policy: "always".to_string() })
    );
    assert_eq!(ImagePullPolicy::Always.as_i32(), 0);
    assert_eq!(ImagePullPolicy::IfNotPresent.as_i32(), 1);
    assert_eq!(ImagePullPolicy::Never.as_i32(), 2);
    assert_eq!(ImagePullPolicy::try_from_i32(1), Ok(ImagePullPolicy::IfNotPresent));
    assert_eq!(
        ImagePullPolicy::try_from_i32(3),
        Err(ParseError::InvalidPullPolicyValue { pull_policy: 3 })
    );
}

#[test]
fn pull_policy_shown_under_its_name() {
    for name in ["Always", "IfNotPresent", "Never"] {
        let p = ImagePullPolicy::try_from_name(name).unwrap();
        let back = ImagePullPolicy::try_from_i32(p.as_i32()).unwrap();
        assert_eq!(back.name_string(), name);
    }
}
