use bpfctl::bpf::{ImagePullPolicy, ProgramType};
use bpfctl::cli::{
    credentials_from_bytes, CommandError, Commands, GlobalArg, ListArgs, LoadCommands, LoadFileArgs, LoadImageArgs,
    PullBytecodeArgs, UnloadArgs,
};
use bpfctl::bpf::ParseError;
use bpfctl::messages::{BytecodeImage, Info, Location};
use bpfctl::request::{
    checked_plan_request, next_enabled_endpoint, plan_request, Endpoint, Request,
};

fn xdp(proceed_on: &[&str]) -> LoadCommands {
    LoadCommands::Xdp {
        iface: "eth0".to_string(),
        priority: 35,
        proceed_on: proceed_on.iter().map(|s| s.to_string()).collect(),
    }
}

fn pull(auth: Option<&str>, policy: &str) -> PullBytecodeArgs {
    PullBytecodeArgs {
        image_url: "quay.io/bpfd-bytecode/xdp_pass:latest".to_string(),
        registry_auth: auth.map(|s| s.to_string()),
        pull_policy: policy.to_string(),
    }
}

fn file_load(command: LoadCommands) -> Commands {
    Commands::LoadFromFile(LoadFileArgs {
        path: "/run/bpfd/examples/xdp.o".to_string(),
        section_name: "pass".to_string(),
        global: Some(vec![GlobalArg { name: "G".to_string(), value: vec![1, 2] }]),
        metadata: Some(vec![("owner".to_string(), "me".to_string())]),
        map_owner_id: Some(63178),
        command,
    })
}

#[test]
fn xdp_attach_info() {
    match xdp(&["drop"]).get_attach_type().unwrap().unwrap().info.unwrap() {
        Info::XdpAttachInfo(x) => {
            assert_eq!(x.priority, 35);
            assert_eq!(x.iface, "eth0");
            assert_eq!(x.position, 0);
            assert_eq!(x.proceed_on, vec![1]);
        }
        other => panic!("unexpected {:?}", other),
    }
    assert_eq!(xdp(&[]).get_prog_type(), ProgramType::Xdp);
}

#[test]
fn xdp_attach_info_bad_action() {
    assert_eq!(
        xdp(&["pipe"]).get_attach_type().err(),
        Some(CommandError::ProceedOn(ParseError::InvalidProceedOnName { proceedon: "pipe".to_string() }))
    );
}

#[test]
fn tc_attach_info() {
    let tc = |dir: &str| LoadCommands::Tc {
        direction: dir.to_string(),
        iface: "eth1".to_string(),
        priority: 5,
        proceed_on: vec![],
    };
    match tc("egress").get_attach_type().unwrap().unwrap().info.unwrap() {
        Info::TcAttachInfo(x) => {
            assert_eq!(x.direction, "egress");
            assert_eq!(x.proceed_on, vec![0, 3, 30]);
        }
        other => panic!("unexpected {:?}", other),
    }
    assert!(tc("ingress").get_attach_type().is_ok());
    assert_eq!(
        tc("sideways").get_attach_type().err(),
        Some(CommandError::InvalidDirection { direction: "sideways".to_string() })
    );
    assert_eq!(tc("ingress").get_prog_type(), ProgramType::Tc);
}

#[test]
fn probe_attach_info() {
    let k = LoadCommands::Kprobe { fn_name: "try_to_wake_up".to_string(), offset: None, retprobe: true, namespace: None };
    match k.get_attach_type().unwrap().unwrap().info.unwrap() {
        Info::KprobeAttachInfo(x) => {
            assert_eq!(x.fn_name, "try_to_wake_up");
            assert_eq!(x.offset, 0);
            assert!(x.retprobe);
            assert_eq!(x.namespace, None);
        }
        other => panic!("unexpected {:?}", other),
    }
    assert_eq!(k.get_prog_type(), ProgramType::Probe);
    let k_ns = LoadCommands::Kprobe { fn_name: "f".to_string(), offset: Some(8), retprobe: false, namespace: Some("ns".to_string()) };
    assert_eq!(k_ns.get_attach_type().err(), Some(CommandError::KprobeNamespaceUnsupported));
    let kret_offset = LoadCommands::Kprobe { fn_name: "f".to_string(), offset: Some(8), retprobe: true, namespace: None };
    assert_eq!(kret_offset.get_attach_type().err(), Some(CommandError::KretprobeOffsetUnsupported));
    let kprobe_offset = LoadCommands::Kprobe { fn_name: "f".to_string(), offset: Some(8), retprobe: false, namespace: None };
    match kprobe_offset.get_attach_type().unwrap().unwrap().info.unwrap() {
        Info::KprobeAttachInfo(x) => {
            assert_eq!(x.offset, 8);
            assert!(!x.retprobe);
        }
        other => panic!("unexpected {:?}", other),
    }

    let u = LoadCommands::Uprobe {
        fn_name: Some("malloc".to_string()),
        offset: Some(16),
        target: "libc".to_string(),
        retprobe: false,
        pid: Some(42),
        namespace: None,
    };
    match u.get_attach_type().unwrap().unwrap().info.unwrap() {
        Info::UprobeAttachInfo(x) => {
            assert_eq!(x.fn_name, Some("malloc".to_string()));
            assert_eq!(x.offset, 16);
            assert_eq!(x.target, "libc");
            assert_eq!(x.pid, Some(42));
        }
        other => panic!("unexpected {:?}", other),
    }
    let u_ns = LoadCommands::Uprobe { fn_name: None, offset: None, target: "t".to_string(), retprobe: false, pid: None, namespace: Some("n".to_string()) };
    assert_eq!(u_ns.get_attach_type().err(), Some(CommandError::UprobeNamespaceUnsupported));
}

#[test]
fn tracepoint_attach_info() {
    let t = LoadCommands::Tracepoint { tracepoint: "sched/sched_switch".to_string() };
    match t.get_attach_type().unwrap().unwrap().info.unwrap() {
        Info::TracepointAttachInfo(x) => assert_eq!(x.tracepoint, "sched/sched_switch"),
        other => panic!("unexpected {:?}", other),
    }
    assert_eq!(t.get_prog_type(), ProgramType::Tracepoint);
}

fn image(args: &PullBytecodeArgs) -> BytecodeImage {
    BytecodeImage::try_from_pull_args(args).unwrap()
}

#[test]
fn image_without_credentials() {
    let img = image(&pull(None, "IfNotPresent"));
    assert_eq!(img.url, "quay.io/bpfd-bytecode/xdp_pass:latest");
    assert_eq!(img.image_pull_policy, 1);
    assert_eq!(img.username, Some("".to_string()));
    assert_eq!(img.password, Some("".to_string()));
}

#[test]
fn image_with_credentials() {
    // "user:pass"
    let img = image(&pull(Some("dXNlcjpwYXNz"), "Always"));
    assert_eq!(img.image_pull_policy, 0);
    assert_eq!(img.username, Some("user".to_string()));
    assert_eq!(img.password, Some("pass".to_string()));
    // "user:pass:extra"
    let img = image(&pull(Some("dXNlcjpwYXNzOmV4dHJh"), "Never"));
    assert_eq!(img.username, Some("user".to_string()));
    assert_eq!(img.password, Some("pass:extra".to_string()));
}

#[test]
fn image_with_empty_credential_parts() {
    // ":"
    let img = image(&pull(Some("Og=="), "Always"));
    assert_eq!(img.username, Some("".to_string()));
    assert_eq!(img.password, Some("".to_string()));
    // "user:"
    let img = image(&pull(Some("dXNlcjo="), "Always"));
    assert_eq!(img.username, Some("user".to_string()));
    assert_eq!(img.password, Some("".to_string()));
}

#[test]
fn credentials_from_decoded_bytes() {
    assert_eq!(
        credentials_from_bytes(b"user:pa:ss".to_vec()),
        Ok(("user".to_string(), "pa:ss".to_string()))
    );
    assert_eq!(credentials_from_bytes(b":".to_vec()), Ok(("".to_string(), "".to_string())));
    assert_eq!(
        credentials_from_bytes("\u{e9}t\u{e9}:mot".as_bytes().to_vec()),
        Ok(("\u{e9}t\u{e9}".to_string(), "mot".to_string()))
    );
    assert_eq!(
        credentials_from_bytes(vec![b'a', b':', 0xc3]).err(),
        Some(CommandError::RegistryAuthNotUtf8 { reason: "incomplete utf-8 byte sequence from index 2".to_string() })
    );
}

#[test]
fn image_errors() {
    assert_eq!(
        BytecodeImage::try_from_pull_args(&pull(None, "Sometimes")).err(),
        Some(CommandError::PullPolicy(ParseError::InvalidPullPolicyName { pull_policy: "Sometimes".to_string() }))
    );
    assert_eq!(
        BytecodeImage::try_from_pull_args(&pull(Some("a!bc"), "Always")).err(),
        Some(CommandError::RegistryAuthNotBase64 { reason: "Invalid byte 33, offset 1.".to_string() })
    );
    // one byte 0xff: not UTF-8
    assert_eq!(
        BytecodeImage::try_from_pull_args(&pull(Some("/w=="), "Always")).err(),
        Some(CommandError::RegistryAuthNotUtf8 { reason: "invalid utf-8 sequence of 1 bytes from index 0".to_string() })
    );
    // the policy is checked before the credentials
    assert_eq!(
        BytecodeImage::try_from_pull_args(&pull(Some("!!!"), "bad")).err(),
        Some(CommandError::PullPolicy(ParseError::InvalidPullPolicyName { pull_policy: "bad".to_string() }))
    );
}

#[test]
fn image_credentials_without_separator() {
    // "user" has no ':' between user name and password
    let args = pull(Some("dXNlcg=="), "Always");
    assert!(!bpfctl::cli::image_args_usable(&args));
    assert!(BytecodeImage::checked_from_pull_args(&args).is_none());
    let ok = pull(Some("dXNlcjpwYXNz"), "Always");
    assert!(BytecodeImage::checked_from_pull_args(&ok).unwrap().is_ok());
}

#[test]
fn load_from_file_request() {
    match plan_request(&file_load(xdp(&["pass"]))).unwrap() {
        Request::Load(req) => {
            match req.bytecode.unwrap().location.unwrap() {
                Location::File(p) => assert_eq!(p, "/run/bpfd/examples/xdp.o"),
                other => panic!("unexpected {:?}", other),
            }
            assert_eq!(req.name, "pass");
            assert_eq!(req.program_type, 6);
            assert!(req.attach.is_some());
            assert_eq!(req.metadata.entries(), &vec![("owner".to_string(), "me".to_string())]);
            assert_eq!(req.global_data.entries(), &vec![("G".to_string(), vec![1u8, 2])]);
            assert_eq!(req.uuid, None);
            assert_eq!(req.map_owner_id, Some(63178));
        }
        other => panic!("unexpected {:?}", other),
    }
}

#[test]
fn load_from_file_bad_attach() {
    assert_eq!(
        plan_request(&file_load(xdp(&["nope"]))).err(),
        Some(CommandError::ProceedOn(ParseError::InvalidProceedOnName { proceedon: "nope".to_string() }))
    );
}

fn image_load(p: PullBytecodeArgs, command: LoadCommands) -> Commands {
    Commands::LoadFromImage(LoadImageArgs {
        pull_args: p,
        section_name: "".to_string(),
        global: None,
        metadata: None,
        map_owner_id: None,
        command,
    })
}

#[test]
fn load_from_image_request() {
    match plan_request(&image_load(pull(None, "Never"), xdp(&[]))).unwrap() {
        Request::Load(req) => {
            match req.bytecode.unwrap().location.unwrap() {
                Location::Image(i) => {
                    assert_eq!(i.url, "quay.io/bpfd-bytecode/xdp_pass:latest");
                    assert_eq!(i.image_pull_policy, ImagePullPolicy::Never.as_i32());
                }
                other => panic!("unexpected {:?}", other),
            }
            assert_eq!(req.metadata.len(), 0);
            assert_eq!(req.global_data.len(), 0);
            assert_eq!(req.map_owner_id, None);
        }
        other => panic!("unexpected {:?}", other),
    }
}

#[test]
fn load_from_image_location_error_comes_first() {
    assert_eq!(
        plan_request(&image_load(pull(None, "Maybe"), xdp(&["nope"]))).err(),
        Some(CommandError::PullPolicy(ParseError::InvalidPullPolicyName { pull_policy: "Maybe".to_string() }))
    );
    assert_eq!(
        plan_request(&image_load(pull(None, "Always"), xdp(&["nope"]))).err(),
        Some(CommandError::ProceedOn(ParseError::InvalidProceedOnName { proceedon: "nope".to_string() }))
    );
}

#[test]
fn unload_list_get_pull_requests() {
    match plan_request(&Commands::Unload(UnloadArgs { id: 7 })).unwrap() {
        Request::Unload(u) => assert_eq!(u.id, 7),
        other => panic!("unexpected {:?}", other),
    }
    let list = Commands::List(ListArgs {
        program_type: Some(ProgramType::Tracepoint),
        metadata_selector: Some(vec![("k".to_string(), "v".to_string())]),
        all: false,
    });
    match plan_request(&list).unwrap() {
        Request::List(q) => {
            assert_eq!(q.program_type, Some(5));
            assert_eq!(q.match_metadata.entries(), &vec![("k".to_string(), "v".to_string())]);
            assert_eq!(q.bpfd_programs_only, Some(true));
        }
        other => panic!("unexpected {:?}", other),
    }
    let all = Commands::List(ListArgs { program_type: None, metadata_selector: None, all: true });
    match plan_request(&all).unwrap() {
        Request::List(q) => {
            assert_eq!(q.program_type, None);
            assert_eq!(q.bpfd_programs_only, Some(false));
        }
        other => panic!("unexpected {:?}", other),
    }
    match plan_request(&Commands::Get { id: 3 }).unwrap() {
        Request::List(q) => {
            assert_eq!(q.program_type, None);
            assert_eq!(q.match_metadata.len(), 0);
            assert_eq!(q.bpfd_programs_only, None);
        }
        other => panic!("unexpected {:?}", other),
    }
    match plan_request(&Commands::PullBytecode(pull(Some("dXNlcjpwYXNz"), "Always"))).unwrap() {
        Request::PullBytecode(p) => assert_eq!(p.image.unwrap().password, Some("pass".to_string())),
        other => panic!("unexpected {:?}", other),
    }
}

#[test]
fn unusable_credentials_plan_nothing() {
    assert!(checked_plan_request(&Commands::PullBytecode(pull(Some("dXNlcg=="), "Always"))).is_none());
    assert!(checked_plan_request(&image_load(pull(Some("dXNlcg=="), "Never"), xdp(&[]))).is_none());
    assert!(checked_plan_request(&Commands::Get { id: 1 }).is_some());
}

#[test]
fn bytecode_location_of_other_commands() {
    assert_eq!(
        Commands::Unload(UnloadArgs { id: 1 }).get_bytecode_location().err(),
        Some(CommandError::UnknownCommand)
    );
    assert_eq!(Commands::Get { id: 1 }.get_attach_info().err(), Some(CommandError::UnknownAttachCommand));
    assert_eq!(
        Commands::Unload(UnloadArgs { id: 1 }).get_attach_info().err(),
        Some(CommandError::UnknownAttachCommand)
    );
}

#[test]
fn endpoints_skip_disabled() {
    let eps = vec![
        Endpoint::Unix { path: "/run/bpfd/bpfd.sock".to_string(), enabled: false },
        Endpoint::Tcp { address: "::1".to_string(), port: 50051, enabled: true },
        Endpoint::Unix { path: "/tmp/x".to_string(), enabled: false },
        Endpoint::Unix { path: "/tmp/y".to_string(), enabled: true },
    ];
    assert_eq!(next_enabled_endpoint(&eps, 0), Some(1));
    assert_eq!(next_enabled_endpoint(&eps, 2), Some(3));
    assert_eq!(next_enabled_endpoint(&eps, 4), None);
    assert_eq!(next_enabled_endpoint(&eps, 9), None);
    assert_eq!(next_enabled_endpoint(&vec![], 0), None);
}
