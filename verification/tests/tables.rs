use bpfctl::bpf::ParseError;
use bpfctl::messages::{
    AttachInfo, BytecodeImage, BytecodeLocation, Info, KernelProgramInfo, KprobeAttachInfo,
    ListResult, Location, ProgramInfo, TcAttachInfo, TracepointAttachInfo, UprobeAttachInfo,
    XdpAttachInfo,
};
use bpfctl::request::{find_program, list_table, Lookup};
use bpfctl::table::{bpfd_table_buildable, ProgTable, TableError};

fn rows(t: &ProgTable) -> Vec<Vec<String>> {
    t.table()
        .row_iter()
        .map(|r| r.cell_iter().map(|c| c.content()).collect())
        .collect()
}

fn header(t: &ProgTable) -> Vec<String> {
    t.table().header().unwrap().cell_iter().map(|c| c.content()).collect()
}

fn s(v: &[&str]) -> Vec<String> {
    v.iter().map(|x| x.to_string()).collect()
}

fn kernel(id: u32, program_type: u32) -> KernelProgramInfo {
    KernelProgramInfo {
        id,
        name: "xdp_pass".to_string(),
        program_type,
        loaded_at: "2023-07-17T17:48:10-0400".to_string(),
        tag: "4b9d1b2c140e87ce".to_string(),
        gpl_compatible: true,
        map_ids: vec![2, 3],
        btf_id: 12,
        bytes_xlated: 96,
        jited: true,
        bytes_jited: 67,
        bytes_memlock: 4096,
        verified_insns: 9,
    }
}

fn info(location: Option<Location>, attach: Option<Info>) -> ProgramInfo {
    ProgramInfo {
        name: "pass".to_string(),
        bytecode: Some(BytecodeLocation { location }),
        attach: attach.map(|i| AttachInfo { info: Some(i) }),
        global_data: vec![("GLOBAL_u8".to_string(), vec![0x0a, 0xff])],
        map_owner_id: None,
        map_pin_path: Some("/run/bpfd/fs/maps/6207".to_string()),
        map_used_by: vec!["6207".to_string(), "6208".to_string()],
        metadata: vec![],
    }
}

#[test]
fn list_table_rows() {
    let results = vec![
        ListResult { info: Some(info(None, None)), kernel_info: Some(kernel(6207, 6)) },
        ListResult { info: None, kernel_info: Some(kernel(17, 2)) },
        ListResult { info: None, kernel_info: None },
    ];
    let t = list_table(results).unwrap();
    assert_eq!(header(&t), s(&["Program ID", "Name", "Type", "Load Time"]));
    assert_eq!(
        rows(&t),
        vec![
            s(&["6207", "pass", "xdp", "2023-07-17T17:48:10-0400"]),
            s(&["17", "", "probe", "2023-07-17T17:48:10-0400"]),
            s(&["NONE"]),
        ]
    );
}

#[test]
fn list_table_unknown_type() {
    let results = vec![
        ListResult { info: None, kernel_info: Some(kernel(1, 6)) },
        ListResult { info: None, kernel_info: Some(kernel(2, 40)) },
        ListResult { info: None, kernel_info: Some(kernel(3, 41)) },
    ];
    assert_eq!(
        list_table(results).err(),
        Some(TableError::ProgramType(ParseError::InvalidProgramType { program: 40 }))
    );
}

#[test]
fn add_response_prog_leaves_table_on_error() {
    let mut t = ProgTable::new_list();
    let r = t.add_response_prog(ListResult { info: None, kernel_info: Some(kernel(9, 99)) });
    assert!(r.is_err());
    assert!(rows(&t).is_empty());
    t.add_row_list("1".to_string(), "n".to_string(), "tc".to_string(), "now".to_string());
    assert_eq!(rows(&t), vec![s(&["1", "n", "tc", "now"])]);
}

#[test]
fn kernel_state_table() {
    let r = ListResult { info: None, kernel_info: Some(kernel(6207, 6)) };
    let t = ProgTable::new_get_unsupported(&r).unwrap();
    assert_eq!(header(&t), s(&["Kernel State"]));
    assert_eq!(
        rows(&t),
        vec![
            s(&["Kernel ID:", "6207"]),
            s(&["Type:", "xdp"]),
            s(&["Loaded At:", "2023-07-17T17:48:10-0400"]),
            s(&["Tag:", "4b9d1b2c140e87ce"]),
            s(&["GPL Compatible:", "true"]),
            s(&["Map IDs:", "[2, 3]"]),
            s(&["BTF ID:", "12"]),
            s(&["Size Translated (bytes):", "96"]),
            s(&["JITted:", "true"]),
            s(&["Size JITted:", "67"]),
            s(&["Kernel Allocated Memory (bytes):", "4096"]),
            s(&["Verified Instruction Count:", "9"]),
        ]
    );
}

#[test]
fn kernel_state_table_edge_cases() {
    let none = ListResult { info: None, kernel_info: None };
    assert_eq!(rows(&ProgTable::new_get_unsupported(&none).unwrap()), vec![s(&["NONE"])]);
    let mut k = kernel(1, 3);
    k.map_ids = vec![];
    k.jited = false;
    let t = ProgTable::new_get_unsupported(&ListResult { info: None, kernel_info: Some(k) }).unwrap();
    assert_eq!(rows(&t)[5], s(&["Map IDs:", "[]"]));
    assert_eq!(rows(&t)[8], s(&["JITted:", "false"]));
    let bad = ListResult { info: None, kernel_info: Some(kernel(1, 32)) };
    assert_eq!(
        ProgTable::new_get_unsupported(&bad).err(),
        Some(TableError::ProgramType(ParseError::InvalidProgramType { program: 32 }))
    );
}

#[test]
fn bpfd_state_table_file_xdp() {
    let attach = Info::XdpAttachInfo(XdpAttachInfo {
        priority: 50,
        iface: "eth0".to_string(),
        position: 0,
        proceed_on: vec![2, 31],
    });
    let mut i = info(Some(Location::File("/tmp/xdp.o".to_string())), Some(attach));
    i.metadata = vec![("owner".to_string(), "ab".to_string())];
    i.map_owner_id = Some(6207);
    let r = ListResult { info: Some(i), kernel_info: None };
    let t = ProgTable::new_get_bpfd(&r).unwrap();
    assert_eq!(header(&t), s(&["Bpfd State"]));
    assert_eq!(
        rows(&t),
        vec![
            s(&["Path:", "/tmp/xdp.o"]),
            s(&["Metadata:", "owner=6162"]),
            s(&["Global:", "GLOBAL_u8=0AFF"]),
            s(&["Map Pin Path:", "/run/bpfd/fs/maps/6207"]),
            s(&["Map Owner ID:", "6207"]),
            s(&["Maps Used By:", "6207"]),
            s(&["", "6208"]),
            s(&["Priority:", "50"]),
            s(&["Iface:", "eth0"]),
            s(&["Position:", "0"]),
            s(&["Proceed On:", "pass, dispatcher_return"]),
        ]
    );
}

#[test]
fn bpfd_state_table_image_tc() {
    let image = BytecodeImage {
        url: "quay.io/bpfd-bytecode/tc_pass:latest".to_string(),
        image_pull_policy: 0,
        username: None,
        password: None,
    };
    let attach = Info::TcAttachInfo(TcAttachInfo {
        priority: -3,
        iface: "eth1".to_string(),
        position: 2,
        direction: "ingress".to_string(),
        proceed_on: vec![],
    });
    let mut i = info(Some(Location::Image(image)), Some(attach));
    i.global_data = vec![];
    i.map_pin_path = Some("".to_string());
    i.map_used_by = vec![];
    let t = ProgTable::new_get_bpfd(&ListResult { info: Some(i), kernel_info: None }).unwrap();
    assert_eq!(
        rows(&t),
        vec![
            s(&["Image URL:", "quay.io/bpfd-bytecode/tc_pass:latest"]),
            s(&["Pull Policy:", "Always"]),
            s(&["Metadata:", "None"]),
            s(&["Global:", "None"]),
            s(&["Map Pin Path:", "None"]),
            s(&["Map Owner ID:", "None"]),
            s(&["Maps Used By:", "None"]),
            s(&["Priority:", "-3"]),
            s(&["Iface:", "eth1"]),
            s(&["Position:", "2"]),
            s(&["Direction:", "ingress"]),
            s(&["Proceed On:", "ok, pipe, dispatcher_return"]),
        ]
    );
}

#[test]
fn bpfd_state_table_probes_and_tracepoint() {
    let k = Info::KprobeAttachInfo(KprobeAttachInfo {
        fn_name: "do_unlinkat".to_string(),
        offset: 0,
        retprobe: true,
        namespace: None,
    });
    let t = ProgTable::new_get_bpfd(&ListResult {
        info: Some(info(Some(Location::File("k.o".to_string())), Some(k))),
        kernel_info: None,
    })
    .unwrap();
    let r = rows(&t);
    assert_eq!(&r[r.len() - 4..], &[
        s(&["Probe Type:", "kretprobe"]),
        s(&["Function Name:", "do_unlinkat"]),
        s(&["Offset:", "0"]),
        s(&["Namespace", ""]),
    ]);

    let u = Info::UprobeAttachInfo(UprobeAttachInfo {
        fn_name: None,
        offset: 4096,
        target: "libc".to_string(),
        retprobe: false,
        pid: None,
        namespace: Some("ns".to_string()),
    });
    let t = ProgTable::new_get_bpfd(&ListResult {
        info: Some(info(Some(Location::File("u.o".to_string())), Some(u))),
        kernel_info: None,
    })
    .unwrap();
    let r = rows(&t);
    assert_eq!(&r[r.len() - 6..], &[
        s(&["Probe Type:", "uprobe"]),
        s(&["Function Name:", ""]),
        s(&["Offset:", "4096"]),
        s(&["Target:", "libc"]),
        s(&["PID", "0"]),
        s(&["Namespace", "ns"]),
    ]);

    let tp = Info::TracepointAttachInfo(TracepointAttachInfo { tracepoint: "syscalls/sys_enter_kill".to_string() });
    let t = ProgTable::new_get_bpfd(&ListResult {
        info: Some(info(Some(Location::File("t.o".to_string())), Some(tp))),
        kernel_info: None,
    })
    .unwrap();
    let r = rows(&t);
    assert_eq!(r.last().unwrap(), &s(&["Tracepoint:", "syscalls/sys_enter_kill"]));
}

#[test]
fn bpfd_state_table_none_and_errors() {
    let nothing = ListResult { info: None, kernel_info: None };
    assert_eq!(rows(&ProgTable::new_get_bpfd(&nothing).unwrap()), vec![s(&["NONE"])]);
    let no_location = ListResult { info: Some(info(None, None)), kernel_info: None };
    assert_eq!(rows(&ProgTable::new_get_bpfd(&no_location).unwrap()), vec![s(&["NONE"])]);
    let mut no_bytecode = info(None, None);
    no_bytecode.bytecode = None;
    assert_eq!(
        rows(&ProgTable::new_get_bpfd(&ListResult { info: Some(no_bytecode), kernel_info: None }).unwrap()),
        vec![s(&["NONE"])]
    );

    let image = BytecodeImage { url: "u".to_string(), image_pull_policy: 7, username: None, password: None };
    let bad_policy = ListResult { info: Some(info(Some(Location::Image(image)), None)), kernel_info: None };
    assert_eq!(
        ProgTable::new_get_bpfd(&bad_policy).err(),
        Some(TableError::PullPolicy(ParseError::InvalidPullPolicyValue { pull_policy: 7 }))
    );

    let bad_xdp = Info::XdpAttachInfo(XdpAttachInfo { priority: 1, iface: "e".to_string(), position: 0, proceed_on: vec![8] });
    let r = ListResult { info: Some(info(Some(Location::File("f".to_string())), Some(bad_xdp))), kernel_info: None };
    assert_eq!(
        ProgTable::new_get_bpfd(&r).err(),
        Some(TableError::ProceedOn(ParseError::InvalidProceedOnValue { proceedon: 8 }))
    );
}

#[test]
fn bpfd_state_table_empty_attach() {
    let mut i = info(Some(Location::File("f".to_string())), None);
    i.attach = Some(AttachInfo { info: None });
    let r = ListResult { info: Some(i), kernel_info: None };
    assert!(!bpfd_table_buildable(&r));
    assert!(ProgTable::checked_new_get_bpfd(&r).is_none());
    let ok = ListResult { info: Some(info(Some(Location::File("f".to_string())), None)), kernel_info: None };
    assert!(bpfd_table_buildable(&ok));
    assert_eq!(rows(&ProgTable::checked_new_get_bpfd(&ok).unwrap().unwrap()).len(), 7);
}

#[test]
fn find_program_in_order() {
    let results = vec![
        ListResult { info: None, kernel_info: Some(kernel(1, 6)) },
        ListResult { info: None, kernel_info: Some(kernel(2, 6)) },
        ListResult { info: None, kernel_info: None },
        ListResult { info: None, kernel_info: Some(kernel(3, 6)) },
    ];
    assert_eq!(find_program(&results, 2), Lookup::Found(1));
    assert_eq!(find_program(&results, 3), Lookup::MissingKernelInfo(2));
    assert_eq!(find_program(&results[..2].iter().map(|_| ListResult { info: None, kernel_info: Some(kernel(5, 6)) }).collect(), 9), Lookup::NotFound);
    assert_eq!(find_program(&vec![], 1), Lookup::NotFound);
}

#[test]
fn get_tables_have_bold_green_headers() {
    let emphasised = |title: &str| {
        comfy_table::Cell::new(title)
            .add_attribute(comfy_table::Attribute::Bold)
            .fg(comfy_table::Color::Green)
    };
    let r = ListResult { info: Some(info(None, None)), kernel_info: Some(kernel(6207, 6)) };
    let kernel_table = ProgTable::new_get_unsupported(&r).unwrap();
    let kernel_header: Vec<comfy_table::Cell> =
        kernel_table.table().header().unwrap().cell_iter().cloned().collect();
    assert_eq!(kernel_header, vec![emphasised("Kernel State")]);
    let bpfd_table = ProgTable::new_get_bpfd(&r).unwrap();
    let bpfd_header: Vec<comfy_table::Cell> =
        bpfd_table.table().header().unwrap().cell_iter().cloned().collect();
    assert_eq!(bpfd_header, vec![emphasised("Bpfd State")]);
    let list = ProgTable::new_list();
    let list_header: Vec<comfy_table::Cell> = list.table().header().unwrap().cell_iter().cloned().collect();
    assert_eq!(list_header[0], comfy_table::Cell::new("Program ID"));
    let first_row: Vec<comfy_table::Cell> =
        kernel_table.table().row_iter().next().unwrap().cell_iter().cloned().collect();
    assert_eq!(first_row, vec![comfy_table::Cell::new("Kernel ID:"), comfy_table::Cell::new("6207")]);
}
