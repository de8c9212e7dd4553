//! Laws that tie what the library sends and shows to the numbers and
//! texts of the kernel and the daemon, and to the values the user gave,
//! stated apart from the functions that compute them.
use vstd::prelude::*;
use crate::bpf::{
    parse_all,
    ImagePullPolicy, ProbeType, ProgramType, TcProceedOnEntry, XdpProceedOnEntry, tc_from_names, xdp_from_names,
};
use crate::cli::{CommandError, Commands, LoadCommands};
use crate::messages::{AttachInfo, Info, ListResult, Location};
use crate::table::{attach_rows, list_row, location_rows, text_or_empty, unsupported_rows};
use crate::text::{decimal, signed_decimal};
use crate::request::{Request, request_outcome};

verus! {

/// Each program type has the kernel's number for it (the order of
/// `enum bpf_prog_type`, from unspec = 0 to syscall = 31) and is shown
/// under its kernel name.
pub proof fn law_program_type_kernel_numbers()
    ensures
        ProgramType::Unspec.code() == 0, ProgramType::Unspec.name() == "unspec"@,
        ProgramType::SocketFilter.code() == 1, ProgramType::SocketFilter.name() == "socket_filter"@,
        ProgramType::Probe.code() == 2, ProgramType::Probe.name() == "probe"@,
        ProgramType::Tc.code() == 3, ProgramType::Tc.name() == "tc"@,
        ProgramType::SchedAct.code() == 4, ProgramType::SchedAct.name() == "sched_act"@,
        ProgramType::Tracepoint.code() == 5, ProgramType::Tracepoint.name() == "tracepoint"@,
        ProgramType::Xdp.code() == 6, ProgramType::Xdp.name() == "xdp"@,
        ProgramType::PerfEvent.code() == 7, ProgramType::PerfEvent.name() == "perf_event"@,
        ProgramType::CgroupSkb.code() == 8, ProgramType::CgroupSkb.name() == "cgroup_skb"@,
        ProgramType::CgroupSock.code() == 9, ProgramType::CgroupSock.name() == "cgroup_sock"@,
        ProgramType::LwtIn.code() == 10, ProgramType::LwtIn.name() == "lwt_in"@,
        ProgramType::LwtOut.code() == 11, ProgramType::LwtOut.name() == "lwt_out"@,
        ProgramType::LwtXmit.code() == 12, ProgramType::LwtXmit.name() == "lwt_xmit"@,
        ProgramType::SockOps.code() == 13, ProgramType::SockOps.name() == "sock_ops"@,
        ProgramType::SkSkb.code() == 14, ProgramType::SkSkb.name() == "sk_skb"@,
        ProgramType::CgroupDevice.code() == 15, ProgramType::CgroupDevice.name() == "cgroup_device"@,
        ProgramType::SkMsg.code() == 16, ProgramType::SkMsg.name() == "sk_msg"@,
        ProgramType::RawTracepoint.code() == 17, ProgramType::RawTracepoint.name() == "raw_tracepoint"@,
        ProgramType::CgroupSockAddr.code() == 18, ProgramType::CgroupSockAddr.name() == "cgroup_sock_addr"@,
        ProgramType::LwtSeg6Local.code() == 19, ProgramType::LwtSeg6Local.name() == "lwt_seg6local"@,
        ProgramType::LircMode2.code() == 20, ProgramType::LircMode2.name() == "lirc_mode2"@,
        ProgramType::SkReuseport.code() == 21, ProgramType::SkReuseport.name() == "sk_reuseport"@,
        ProgramType::FlowDissector.code() == 22, ProgramType::FlowDissector.name() == "flow_dissector"@,
        ProgramType::CgroupSysctl.code() == 23, ProgramType::CgroupSysctl.name() == "cgroup_sysctl"@,
        ProgramType::RawTracepointWritable.code() == 24, ProgramType::RawTracepointWritable.name() == "raw_tracepoint_writable"@,
        ProgramType::CgroupSockopt.code() == 25, ProgramType::CgroupSockopt.name() == "cgroup_sockopt"@,
        ProgramType::Tracing.code() == 26, ProgramType::Tracing.name() == "tracing"@,
        ProgramType::StructOps.code() == 27, ProgramType::StructOps.name() == "struct_ops"@,
        ProgramType::Ext.code() == 28, ProgramType::Ext.name() == "ext"@,
        ProgramType::Lsm.code() == 29, ProgramType::Lsm.name() == "lsm"@,
        ProgramType::SkLookup.code() == 30, ProgramType::SkLookup.name() == "sk_lookup"@,
        ProgramType::Syscall.code() == 31, ProgramType::Syscall.name() == "syscall"@,
{
}

/// The XDP actions have the kernel's return codes of an XDP program
/// (`XDP_ABORTED` = 0 up to `XDP_REDIRECT` = 4) and the dispatcher's own
/// code 31, and are given and shown under their lower-case names.
pub proof fn law_xdp_proceed_on_codes()
    ensures
        XdpProceedOnEntry::Aborted.code() == 0, XdpProceedOnEntry::Aborted.name() == "aborted"@,
        XdpProceedOnEntry::Drop.code() == 1, XdpProceedOnEntry::Drop.name() == "drop"@,
        XdpProceedOnEntry::Pass.code() == 2, XdpProceedOnEntry::Pass.name() == "pass"@,
        XdpProceedOnEntry::Tx.code() == 3, XdpProceedOnEntry::Tx.name() == "tx"@,
        XdpProceedOnEntry::Redirect.code() == 4, XdpProceedOnEntry::Redirect.name() == "redirect"@,
        XdpProceedOnEntry::DispatcherReturn.code() == 31,
        XdpProceedOnEntry::DispatcherReturn.name() == "dispatcher_return"@,
        forall|c: i32| #[trigger] XdpProceedOnEntry::of_code(c) matches Some(e) ==> e.code() == c,
        forall|e: XdpProceedOnEntry| #[trigger] XdpProceedOnEntry::of_code(e.code()) == Some(e),
{
}

/// The TC actions have the kernel's `TC_ACT_*` codes (`TC_ACT_UNSPEC` = -1
/// up to `TC_ACT_TRAP` = 8) and the dispatcher's own code 30, and are given
/// and shown under their lower-case names.
pub proof fn law_tc_proceed_on_codes()
    ensures
        TcProceedOnEntry::Unspec.code() == -1, TcProceedOnEntry::Unspec.name() == "unspec"@,
        TcProceedOnEntry::ActOk.code() == 0, TcProceedOnEntry::ActOk.name() == "ok"@,
        TcProceedOnEntry::Reclassify.code() == 1, TcProceedOnEntry::Reclassify.name() == "reclassify"@,
        TcProceedOnEntry::Shot.code() == 2, TcProceedOnEntry::Shot.name() == "shot"@,
        TcProceedOnEntry::Pipe.code() == 3, TcProceedOnEntry::Pipe.name() == "pipe"@,
        TcProceedOnEntry::Stolen.code() == 4, TcProceedOnEntry::Stolen.name() == "stolen"@,
        TcProceedOnEntry::Queued.code() == 5, TcProceedOnEntry::Queued.name() == "queued"@,
        TcProceedOnEntry::Repeat.code() == 6, TcProceedOnEntry::Repeat.name() == "repeat"@,
        TcProceedOnEntry::Redirect.code() == 7, TcProceedOnEntry::Redirect.name() == "redirect"@,
        TcProceedOnEntry::Trap.code() == 8, TcProceedOnEntry::Trap.name() == "trap"@,
        TcProceedOnEntry::DispatcherReturn.code() == 30,
        TcProceedOnEntry::DispatcherReturn.name() == "dispatcher_return"@,
        forall|c: i32| #[trigger] TcProceedOnEntry::of_code(c) matches Some(e) ==> e.code() == c,
        forall|e: TcProceedOnEntry| #[trigger] TcProceedOnEntry::of_code(e.code()) == Some(e),
{
}

/// The pull policies travel as 0 (Always), 1 (IfNotPresent) and 2 (Never),
/// and are given and shown under those names.
pub proof fn law_pull_policy_codes()
    ensures
        ImagePullPolicy::Always.code() == 0, ImagePullPolicy::Always.name() == "Always"@,
        ImagePullPolicy::IfNotPresent.code() == 1, ImagePullPolicy::IfNotPresent.name() == "IfNotPresent"@,
        ImagePullPolicy::Never.code() == 2, ImagePullPolicy::Never.name() == "Never"@,
        forall|c: i32| #[trigger] ImagePullPolicy::of_code(c) matches Some(p) ==> p.code() == c,
        forall|p: ImagePullPolicy| #[trigger] ImagePullPolicy::of_code(p.code()) == Some(p),
{
}

/// The probe types are shown as kprobe, kretprobe, uprobe and uretprobe.
pub proof fn law_probe_type_names()
    ensures
        ProbeType::Kprobe.name() == "kprobe"@,
        ProbeType::Kretprobe.name() == "kretprobe"@,
        ProbeType::Uprobe.name() == "uprobe"@,
        ProbeType::Uretprobe.name() == "uretprobe"@,
{
}

/// The program type loaded for an attach point, as the kernel numbers it:
/// XDP loads an xdp program (6), TC a tc program (3), a tracepoint a
/// tracepoint program (5), and kprobes and uprobes alike a probe program (2).
pub proof fn law_program_type_of_attach_point(c: LoadCommands)
    ensures
        c.prog_type().code() == match c {
            LoadCommands::Xdp { .. } => 6u32,
            LoadCommands::Tc { .. } => 3u32,
            LoadCommands::Tracepoint { .. } => 5u32,
            LoadCommands::Kprobe { .. } => 2u32,
            LoadCommands::Uprobe { .. } => 2u32,
        },
{
}

/// The attach point sent for a load command carries the user's values
/// unchanged: interface, priority and direction for XDP and TC (at
/// position 0), the tracepoint, and for probes the function, the offset (0
/// when none is given), the return-probe flag, the target and the PID, with
/// no namespace. A namespace for a probe, an offset for a kretprobe and an
/// unknown TC direction are refused.
pub proof fn law_attach_point_values(c: LoadCommands, r: Result<Option<AttachInfo>, CommandError>)
    requires
        c.attach_outcome(r),
    ensures
        match c {
            LoadCommands::Xdp { iface, priority, .. } => r is Ok ==> (r matches Ok(
                Some(AttachInfo { info: Some(Info::XdpAttachInfo(x)) }),
            ) && x.iface == iface && x.priority == priority && x.position == 0),
            LoadCommands::Tc { direction, iface, priority, .. } => (r is Ok ==> (direction@ == "ingress"@
                || direction@ == "egress"@)) && (r is Ok ==> (r matches Ok(
                Some(AttachInfo { info: Some(Info::TcAttachInfo(x)) }),
            ) && x.iface == iface && x.priority == priority && x.position == 0 && x.direction == direction)),
            LoadCommands::Tracepoint { tracepoint } => r matches Ok(
                Some(AttachInfo { info: Some(Info::TracepointAttachInfo(x)) }),
            ) && x.tracepoint == tracepoint,
            LoadCommands::Kprobe { fn_name, offset, retprobe, namespace } => if namespace is Some {
                r == Err::<Option<AttachInfo>, CommandError>(CommandError::KprobeNamespaceUnsupported)
            } else if retprobe && offset is Some {
                r == Err::<Option<AttachInfo>, CommandError>(CommandError::KretprobeOffsetUnsupported)
            } else {
                r matches Ok(Some(AttachInfo { info: Some(Info::KprobeAttachInfo(x)) }))
                    && x.fn_name == fn_name && x.retprobe == retprobe && x.namespace is None
                    && (offset matches Some(o) ==> x.offset == o) && (offset is None ==> x.offset == 0)
            },
            LoadCommands::Uprobe { fn_name, offset, target, retprobe, pid, namespace } => if namespace is Some {
                r == Err::<Option<AttachInfo>, CommandError>(CommandError::UprobeNamespaceUnsupported)
            } else {
                r matches Ok(Some(AttachInfo { info: Some(Info::UprobeAttachInfo(x)) }))
                    && x.fn_name == fn_name && x.target == target && x.retprobe == retprobe
                    && x.pid == pid && x.namespace is None
                    && (offset matches Some(o) ==> x.offset == o) && (offset is None ==> x.offset == 0)
            },
        },
{
}

/// A load request names the program type of its attach point by the
/// kernel's number (2 for kprobes and uprobes, 3 for TC, 5 for
/// tracepoints, 6 for XDP), and carries the section name and map owner
/// that the user gave.
pub proof fn law_load_request_fields(cmd: Commands, r: Result<Request, CommandError>)
    requires
        request_outcome(cmd, r),
    ensures
        match cmd {
            Commands::LoadFromFile(l) => r matches Ok(Request::Load(req)) ==> req.program_type == match l.command {
                LoadCommands::Xdp { .. } => 6u32,
                LoadCommands::Tc { .. } => 3u32,
                LoadCommands::Tracepoint { .. } => 5u32,
                LoadCommands::Kprobe { .. } => 2u32,
                LoadCommands::Uprobe { .. } => 2u32,
            } && req.name == l.section_name && req.map_owner_id == l.map_owner_id,
            Commands::LoadFromImage(l) => r matches Ok(Request::Load(req)) ==> req.program_type == match l.command {
                LoadCommands::Xdp { .. } => 6u32,
                LoadCommands::Tc { .. } => 3u32,
                LoadCommands::Tracepoint { .. } => 5u32,
                LoadCommands::Kprobe { .. } => 2u32,
                LoadCommands::Uprobe { .. } => 2u32,
            } && req.name == l.section_name && req.map_owner_id == l.map_owner_id,
            Commands::List(l) => r matches Ok(Request::List(q)) && (l.program_type is None ==> q.program_type is None)
                && (l.program_type matches Some(t) ==> (q.program_type matches Some(n) && ProgramType::of_code(n)
                == Some(t) && n <= 31)) && q.bpfd_programs_only == Some(!l.all),
            Commands::Unload(u) => r matches Ok(Request::Unload(q)) && q.id == u.id,
            _ => true,
        },
{
    match cmd {
        Commands::LoadFromFile(l) => law_program_type_of_attach_point(l.command),
        Commands::LoadFromImage(l) => law_program_type_of_attach_point(l.command),
        Commands::List(l) => match l.program_type {
            Some(t) => crate::bpf::law_program_type_code_roundtrip(t, t.code()),
            None => {},
        },
        _ => {},
    }
}

/// "true" or "false" for a flag.
pub open spec fn flag_text(b: bool) -> Seq<char> {
    if b {
        "true"@
    } else {
        "false"@
    }
}

/// The "Kernel State" table of `get` shows each of the kernel's fields on
/// a row of its own, in this order: kernel id, type (by its kernel name),
/// load time, tag, GPL compatibility, map ids, BTF id, translated size,
/// JIT flag, JITted size, locked memory and verified instruction count.
pub proof fn law_kernel_state_rows(r: ListResult)
    requires
        r.kernel_info matches Some(k) && ProgramType::of_code(k.program_type) is Some,
    ensures
        ({
            let k = r.kernel_info->0;
            let t = ProgramType::of_code(k.program_type)->0;
            let rows = unsupported_rows(r)->Ok_0;
            &&& t.code() == k.program_type
            &&& unsupported_rows(r) is Ok
            &&& unsupported_rows(r)->Ok_0.len() == 12
            &&& rows[0] == seq!["Kernel ID:"@, decimal(k.id as nat)]
            &&& rows[1] == seq!["Type:"@, t.name()]
            &&& rows[2] == seq!["Loaded At:"@, k.loaded_at@]
            &&& rows[3] == seq!["Tag:"@, k.tag@]
            &&& rows[4] == seq!["GPL Compatible:"@, flag_text(k.gpl_compatible)]
            &&& rows[5][0] == "Map IDs:"@
            &&& rows[6] == seq!["BTF ID:"@, decimal(k.btf_id as nat)]
            &&& rows[7] == seq!["Size Translated (bytes):"@, decimal(k.bytes_xlated as nat)]
            &&& rows[8] == seq!["JITted:"@, flag_text(k.jited)]
            &&& rows[9] == seq!["Size JITted:"@, decimal(k.bytes_jited as nat)]
            &&& rows[10] == seq!["Kernel Allocated Memory (bytes):"@, decimal(k.bytes_memlock as nat)]
            &&& rows[11] == seq!["Verified Instruction Count:"@, decimal(k.verified_insns as nat)]
        }),
{
    let k = r.kernel_info->0;
    crate::bpf::law_program_type_code_roundtrip(ProgramType::of_code(k.program_type)->0, k.program_type);
}

/// The row of `list` for a program the kernel knows shows its kernel id,
/// the daemon's name for it, its type under the kernel name of the type
/// whose kernel number the kernel reported, and its load time.
pub proof fn law_list_row(r: ListResult)
    requires
        r.kernel_info matches Some(k) && ProgramType::of_code(k.program_type) is Some,
    ensures
        ({
            let k = r.kernel_info->0;
            let t = ProgramType::of_code(k.program_type)->0;
            let row = list_row(r)->Ok_0;
            &&& t.code() == k.program_type
            &&& list_row(r) is Ok
            &&& row.len() == 4
            &&& row[0] == decimal(k.id as nat)
            &&& row[1] == (match r.info {
                Some(i) => i.name@,
                None => Seq::<char>::empty(),
            })
            &&& row[2] == t.name()
            &&& row[3] == k.loaded_at@
        }),
{
    let k = r.kernel_info->0;
    crate::bpf::law_program_type_code_roundtrip(ProgramType::of_code(k.program_type)->0, k.program_type);
}

/// The "Bpfd State" table describes a kprobe as a kretprobe exactly when
/// its return-probe flag is set, and a uprobe as a uretprobe likewise,
/// then shows the probe's function, offset and the rest of its values.
pub proof fn law_probe_attach_rows(i: Info)
    requires
        i is KprobeAttachInfo || i is UprobeAttachInfo,
    ensures
        attach_rows(i) matches Ok(rows) && match i {
            Info::KprobeAttachInfo(x) => {
                &&& rows.len() == 4
                &&& rows[0] == seq!["Probe Type:"@, if x.retprobe { "kretprobe"@ } else { "kprobe"@ }]
                &&& rows[1] == seq!["Function Name:"@, x.fn_name@]
                &&& rows[2] == seq!["Offset:"@, decimal(x.offset as nat)]
                &&& rows[3] == seq!["Namespace"@, text_or_empty(x.namespace)]
            },
            Info::UprobeAttachInfo(x) => {
                &&& rows.len() == 6
                &&& rows[0] == seq!["Probe Type:"@, if x.retprobe { "uretprobe"@ } else { "uprobe"@ }]
                &&& rows[1] == seq!["Function Name:"@, text_or_empty(x.fn_name)]
                &&& rows[2] == seq!["Offset:"@, decimal(x.offset as nat)]
                &&& rows[3] == seq!["Target:"@, x.target@]
                &&& rows[4] == seq!["PID"@, signed_decimal(match x.pid {
                    Some(p) => p as int,
                    None => 0,
                })]
                &&& rows[5] == seq!["Namespace"@, text_or_empty(x.namespace)]
            },
            _ => false,
        },
{
}

/// The "Bpfd State" table shows, for the other attach points, their
/// values on rows of their own: priority, interface and position for XDP
/// and TC (and TC's direction), and the tracepoint.
pub proof fn law_other_attach_rows(i: Info)
    requires
        attach_rows(i) is Ok,
    ensures
        match i {
            Info::XdpAttachInfo(x) => attach_rows(i)->Ok_0.len() == 4
                && attach_rows(i)->Ok_0[0] == seq!["Priority:"@, signed_decimal(x.priority as int)]
                && attach_rows(i)->Ok_0[1] == seq!["Iface:"@, x.iface@]
                && attach_rows(i)->Ok_0[2] == seq!["Position:"@, signed_decimal(x.position as int)]
                && attach_rows(i)->Ok_0[3][0] == "Proceed On:"@,
            Info::TcAttachInfo(x) => attach_rows(i)->Ok_0.len() == 5
                && attach_rows(i)->Ok_0[0] == seq!["Priority:"@, signed_decimal(x.priority as int)]
                && attach_rows(i)->Ok_0[1] == seq!["Iface:"@, x.iface@]
                && attach_rows(i)->Ok_0[2] == seq!["Position:"@, signed_decimal(x.position as int)]
                && attach_rows(i)->Ok_0[3] == seq!["Direction:"@, x.direction@]
                && attach_rows(i)->Ok_0[4][0] == "Proceed On:"@,
            Info::TracepointAttachInfo(x) => attach_rows(i)->Ok_0 == seq![seq!["Tracepoint:"@, x.tracepoint@]],
            _ => true,
        },
{
}

/// Where the bytecode comes from is shown as the file's path, or as the
/// image's URL and the name of its pull policy, the code 0, 1 or 2 read
/// as Always, IfNotPresent or Never; another code is an error.
pub proof fn law_location_rows(loc: Location)
    ensures
        match loc {
            Location::File(p) => location_rows(loc) == Ok::<Seq<Seq<Seq<char>>>, crate::table::TableError>(
                seq![seq!["Path:"@, p@]],
            ),
            Location::Image(img) => if 0 <= img.image_pull_policy <= 2 {
                location_rows(loc) matches Ok(rows) && rows.len() == 2
                    && rows[0] == seq!["Image URL:"@, img.url@]
                    && rows[1] == seq!["Pull Policy:"@, if img.image_pull_policy == 0 {
                        "Always"@
                    } else if img.image_pull_policy == 1 {
                        "IfNotPresent"@
                    } else {
                        "Never"@
                    }]
            } else {
                location_rows(loc) is Err
            },
        },
{
}

/// An XDP action is read from exactly its own name, and a name read as an
/// action is that action's name.
pub proof fn law_xdp_action_names(s: Seq<char>, e: XdpProceedOnEntry)
    ensures
        XdpProceedOnEntry::of_name(e.name()) == Some(e),
        XdpProceedOnEntry::of_name(s) matches Some(f) ==> f.name() == s,
{
    reveal_strlit("aborted");
    reveal_strlit("drop");
    reveal_strlit("pass");
    reveal_strlit("tx");
    reveal_strlit("redirect");
    reveal_strlit("dispatcher_return");
    assert("aborted"@.len() == 7 && "aborted"@[0] == 'a');
    assert("drop"@.len() == 4 && "drop"@[0] == 'd');
    assert("pass"@.len() == 4 && "pass"@[0] == 'p');
    assert("tx"@.len() == 2 && "tx"@[0] == 't');
    assert("redirect"@.len() == 8 && "redirect"@[0] == 'r');
    assert("dispatcher_return"@.len() == 17 && "dispatcher_return"@[0] == 'd');
}

/// A TC action is read from exactly its own name, and a name read as an
/// action is that action's name.
pub proof fn law_tc_action_names(s: Seq<char>, e: TcProceedOnEntry)
    ensures
        TcProceedOnEntry::of_name(e.name()) == Some(e),
        TcProceedOnEntry::of_name(s) matches Some(f) ==> f.name() == s,
{
    reveal_strlit("unspec");
    reveal_strlit("ok");
    reveal_strlit("reclassify");
    reveal_strlit("shot");
    reveal_strlit("pipe");
    reveal_strlit("stolen");
    reveal_strlit("queued");
    reveal_strlit("repeat");
    reveal_strlit("redirect");
    reveal_strlit("trap");
    reveal_strlit("dispatcher_return");
    assert("unspec"@.len() == 6 && "unspec"@[0] == 'u');
    assert("ok"@.len() == 2 && "ok"@[0] == 'o');
    assert("reclassify"@.len() == 10 && "reclassify"@[0] == 'r');
    assert("shot"@.len() == 4 && "shot"@[0] == 's');
    assert("pipe"@.len() == 4 && "pipe"@[0] == 'p');
    assert("stolen"@.len() == 6 && "stolen"@[0] == 's');
    assert("queued"@.len() == 6 && "queued"@[0] == 'q');
    assert("repeat"@.len() == 6 && "repeat"@[0] == 'r');
    assert("redirect"@.len() == 8 && "redirect"@[0] == 'r');
    assert("trap"@.len() == 4 && "trap"@[0] == 't');
    assert("dispatcher_return"@.len() == 17 && "dispatcher_return"@[0] == 'd');
}

/// Without any action given, XDP proceeds on pass and dispatcher_return,
/// and TC on ok, pipe and dispatcher_return, as the command line documents.
pub proof fn law_default_proceed_on()
    ensures
        xdp_from_names(Seq::empty()) == Ok::<Seq<XdpProceedOnEntry>, String>(
            seq![XdpProceedOnEntry::Pass, XdpProceedOnEntry::DispatcherReturn],
        ),
        tc_from_names(Seq::empty()) == Ok::<Seq<TcProceedOnEntry>, String>(
            seq![TcProceedOnEntry::ActOk, TcProceedOnEntry::Pipe, TcProceedOnEntry::DispatcherReturn],
        ),
{
}

/// The number that a string of decimal digits stands for.
pub open spec fn digits_value(s: Seq<char>) -> int
    decreases s.len(),
{
    if s.len() == 0 {
        0
    } else {
        digits_value(s.drop_last()) * 10 + (s.last() as int - 48)
    }
}

/// The decimal rendering of a number is made of digits only, has no
/// leading zero (but for 0 itself), and stands for that number.
pub proof fn law_decimal_rendering(n: nat)
    ensures
        decimal(n).len() > 0,
        forall|i: int| 0 <= i < decimal(n).len() ==> '0' <= #[trigger] decimal(n)[i] <= '9',
        decimal(n)[0] == '0' ==> n == 0,
        digits_value(decimal(n)) == n,
    decreases n,
{
    let c = crate::text::digit_char(n % 10);
    assert(c as int == 48 + n % 10);
    if n < 10 {
        let s = decimal(n);
        assert(s.drop_last() =~= Seq::<char>::empty());
        assert(digits_value(s.drop_last()) == 0);
        assert(s.last() == c);
        assert(digits_value(s) == digits_value(s.drop_last()) * 10 + (c as int - 48));
    } else {
        law_decimal_rendering(n / 10);
        let d = decimal(n / 10);
        let s = decimal(n);
        assert(s == d.push(c));
        assert(s.drop_last() =~= d);
        assert(s.last() == c);
        assert(digits_value(s) == digits_value(d) * 10 + (c as int - 48));
        assert(digits_value(d) == n / 10);
        assert((n / 10) * 10 + n % 10 == n);
        assert forall|i: int| 0 <= i < s.len() implies '0' <= #[trigger] s[i] <= '9' by {
            if i < d.len() {
                assert(s[i] == d[i]);
            }
        }
        assert(s[0] == d[0]);
    }
}

/// A load from a file sends the bytecode location as that file's path.
pub proof fn law_load_from_file_path(cmd: Commands, r: Result<Request, CommandError>)
    requires
        request_outcome(cmd, r),
        cmd is LoadFromFile,
    ensures
        r matches Ok(Request::Load(req)) ==> req.bytecode matches Some(b) && b.location matches Some(
            Location::File(p),
        ) && p == cmd->LoadFromFile_0.path,
{
}

/// Reading every item succeeds exactly when each item reads, and then
/// gives each item's reading in order.
pub proof fn lemma_parse_all_items<A, B>(xs: Seq<A>, f: spec_fn(A) -> Option<B>)
    ensures
        parse_all(xs, f) is Ok <==> (forall|i: int| 0 <= i < xs.len() ==> #[trigger] f(xs[i]) is Some),
        parse_all(xs, f) matches Ok(bs) ==> bs.len() == xs.len() && forall|i: int|
            0 <= i < xs.len() ==> #[trigger] f(xs[i]) == Some(bs[i]),
    decreases xs.len(),
{
    if xs.len() > 0 {
        let p = xs.drop_last();
        lemma_parse_all_items(p, f);
        assert forall|i: int| 0 <= i < p.len() implies #[trigger] p[i] == xs[i] by {}
        if parse_all(xs, f) is Ok {
            let bs = parse_all(xs, f)->Ok_0;
            let ps = parse_all(p, f)->Ok_0;
            assert forall|i: int| 0 <= i < xs.len() implies #[trigger] f(xs[i]) == Some(bs[i]) by {
                if i < p.len() {
                    assert(f(p[i]) == Some(ps[i]));
                }
            }
        } else {
            if parse_all(p, f) is Err {
                let i = choose|i: int| 0 <= i < p.len() && !(#[trigger] f(p[i]) is Some);
                assert(f(xs[i]) is None);
            } else {
                assert(f(xs[xs.len() - 1]) is None);
            }
        }
    }
}

/// The XDP actions sent for a load are those the user named, in order
/// (pass and dispatcher_return when none is named); a name that is not an
/// XDP action refuses the command.
pub proof fn law_xdp_proceed_on_sent(c: LoadCommands, r: Result<Option<AttachInfo>, CommandError>)
    requires
        c is Xdp,
        c.attach_outcome(r),
    ensures
        ({
            let names = c->Xdp_proceed_on@;
            &&& r is Ok <==> forall|i: int| 0 <= i < names.len() ==> #[trigger] XdpProceedOnEntry::of_name(names[i]@) is Some
            &&& r matches Ok(Some(AttachInfo { info: Some(Info::XdpAttachInfo(x)) })) ==> {
                &&& names.len() == 0 ==> x.proceed_on@ == seq![2i32, 31i32]
                &&& names.len() > 0 ==> x.proceed_on@.len() == names.len() && forall|i: int| 0 <= i < names.len()
                    ==> (XdpProceedOnEntry::of_code(#[trigger] x.proceed_on@[i]) matches Some(e) && e.name() == names[i]@)
            }
        }),
{
    let names = c->Xdp_proceed_on@;
    lemma_parse_all_items(names, crate::bpf::xdp_name_reader());
    assert forall|i: int| 0 <= i < names.len() implies (#[trigger] XdpProceedOnEntry::of_name(names[i]@) is Some)
        == (crate::bpf::xdp_name_reader()(names[i]) is Some) by {}
    if let Ok(Some(AttachInfo { info: Some(Info::XdpAttachInfo(x)) })) = r {
        if names.len() > 0 {
            let es = crate::bpf::xdp_from_names(names)->Ok_0;
            assert forall|i: int| 0 <= i < names.len() implies (XdpProceedOnEntry::of_code(#[trigger] x.proceed_on@[i])
                matches Some(e) && e.name() == names[i]@) by {
                assert(crate::bpf::xdp_name_reader()(names[i]) == Some(es[i]));
                assert(x.proceed_on@[i] == es[i].code());
                law_xdp_action_names(names[i]@, es[i]);
            }
        }
    }
}

/// The TC actions sent for a load are those the user named, in order (ok,
/// pipe and dispatcher_return when none is named); a direction other than
/// ingress or egress, or a name that is not a TC action, refuses the
/// command.
pub proof fn law_tc_proceed_on_sent(c: LoadCommands, r: Result<Option<AttachInfo>, CommandError>)
    requires
        c is Tc,
        c.attach_outcome(r),
    ensures
        ({
            let names = c->Tc_proceed_on@;
            let dir = c->Tc_direction@;
            &&& r is Ok <==> ((dir == "ingress"@ || dir == "egress"@) && forall|i: int| 0 <= i < names.len()
                ==> #[trigger] TcProceedOnEntry::of_name(names[i]@) is Some)
            &&& r matches Ok(Some(AttachInfo { info: Some(Info::TcAttachInfo(x)) })) ==> {
                &&& names.len() == 0 ==> x.proceed_on@ == seq![0i32, 3i32, 30i32]
                &&& names.len() > 0 ==> x.proceed_on@.len() == names.len() && forall|i: int| 0 <= i < names.len()
                    ==> (TcProceedOnEntry::of_code(#[trigger] x.proceed_on@[i]) matches Some(e) && e.name() == names[i]@)
            }
        }),
{
    let names = c->Tc_proceed_on@;
    lemma_parse_all_items(names, crate::bpf::tc_name_reader());
    assert forall|i: int| 0 <= i < names.len() implies (#[trigger] TcProceedOnEntry::of_name(names[i]@) is Some)
        == (crate::bpf::tc_name_reader()(names[i]) is Some) by {}
    if let Ok(Some(AttachInfo { info: Some(Info::TcAttachInfo(x)) })) = r {
        if names.len() > 0 {
            let es = crate::bpf::tc_from_names(names)->Ok_0;
            assert forall|i: int| 0 <= i < names.len() implies (TcProceedOnEntry::of_code(#[trigger] x.proceed_on@[i])
                matches Some(e) && e.name() == names[i]@) by {
                assert(crate::bpf::tc_name_reader()(names[i]) == Some(es[i]));
                assert(x.proceed_on@[i] == es[i].code());
                law_tc_action_names(names[i]@, es[i]);
            }
        }
    }
}

} // verus!
