//! The eBPF program model shared with the daemon: program types, probe
//! types, image pull policies and the "proceed on" action lists of the
//! XDP and TC dispatchers.
use vstd::prelude::*;

verus! {

/// Errors raised when a value received from the command line or from the
/// daemon does not name a known program type, action or pull policy.
#[derive(Debug, PartialEq, Eq)]
pub enum ParseError {
    /// A number that is not the code of a program type.
    InvalidProgramType { program: u32 },
    /// A name that is not a "proceed on" action.
    InvalidProceedOnName { proceedon: String },
    /// A number that is not the code of a "proceed on" action.
    InvalidProceedOnValue { proceedon: i32 },
    /// A name that is not an image pull policy.
    InvalidPullPolicyName { pull_policy: String },
    /// A number that is not the code of an image pull policy.
    InvalidPullPolicyValue { pull_policy: i32 },
}

/// The kernel's eBPF program types, in the kernel's numbering.
#[derive(Debug, Clone, Copy, PartialEq, Eq, Structural)]
pub enum ProgramType {
    Unspec,
    SocketFilter,
    Probe,
    Tc,
    SchedAct,
    Tracepoint,
    Xdp,
    PerfEvent,
    CgroupSkb,
    CgroupSock,
    LwtIn,
    LwtOut,
    LwtXmit,
    SockOps,
    SkSkb,
    CgroupDevice,
    SkMsg,
    RawTracepoint,
    CgroupSockAddr,
    LwtSeg6Local,
    LircMode2,
    SkReuseport,
    FlowDissector,
    CgroupSysctl,
    RawTracepointWritable,
    CgroupSockopt,
    Tracing,
    StructOps,
    Ext,
    Lsm,
    SkLookup,
    Syscall,
}

impl ProgramType {
    /// The kernel's number for this program type.
    pub open spec fn code(self) -> u32 {
        match self {
            ProgramType::Unspec => 0,
            ProgramType::SocketFilter => 1,
            ProgramType::Probe => 2,
            ProgramType::Tc => 3,
            ProgramType::SchedAct => 4,
            ProgramType::Tracepoint => 5,
            ProgramType::Xdp => 6,
            ProgramType::PerfEvent => 7,
            ProgramType::CgroupSkb => 8,
            ProgramType::CgroupSock => 9,
            ProgramType::LwtIn => 10,
            ProgramType::LwtOut => 11,
            ProgramType::LwtXmit => 12,
            ProgramType::SockOps => 13,
            ProgramType::SkSkb => 14,
            ProgramType::CgroupDevice => 15,
            ProgramType::SkMsg => 16,
            ProgramType::RawTracepoint => 17,
            ProgramType::CgroupSockAddr => 18,
            ProgramType::LwtSeg6Local => 19,
            ProgramType::LircMode2 => 20,
            ProgramType::SkReuseport => 21,
            ProgramType::FlowDissector => 22,
            ProgramType::CgroupSysctl => 23,
            ProgramType::RawTracepointWritable => 24,
            ProgramType::CgroupSockopt => 25,
            ProgramType::Tracing => 26,
            ProgramType::StructOps => 27,
            ProgramType::Ext => 28,
            ProgramType::Lsm => 29,
            ProgramType::SkLookup => 30,
            ProgramType::Syscall => 31,
        }
    }

    /// The program type whose kernel number is `v`, if any.
    pub open spec fn of_code(v: u32) -> Option<ProgramType> {
        if v == 0 { Some(ProgramType::Unspec) }
        else if v == 1 { Some(ProgramType::SocketFilter) }
        else if v == 2 { Some(ProgramType::Probe) }
        else if v == 3 { Some(ProgramType::Tc) }
        else if v == 4 { Some(ProgramType::SchedAct) }
        else if v == 5 { Some(ProgramType::Tracepoint) }
        else if v == 6 { Some(ProgramType::Xdp) }
        else if v == 7 { Some(ProgramType::PerfEvent) }
        else if v == 8 { Some(ProgramType::CgroupSkb) }
        else if v == 9 { Some(ProgramType::CgroupSock) }
        else if v == 10 { Some(ProgramType::LwtIn) }
        else if v == 11 { Some(ProgramType::LwtOut) }
        else if v == 12 { Some(ProgramType::LwtXmit) }
        else if v == 13 { Some(ProgramType::SockOps) }
        else if v == 14 { Some(ProgramType::SkSkb) }
        else if v == 15 { Some(ProgramType::CgroupDevice) }
        else if v == 16 { Some(ProgramType::SkMsg) }
        else if v == 17 { Some(ProgramType::RawTracepoint) }
        else if v == 18 { Some(ProgramType::CgroupSockAddr) }
        else if v == 19 { Some(ProgramType::LwtSeg6Local) }
        else if v == 20 { Some(ProgramType::LircMode2) }
        else if v == 21 { Some(ProgramType::SkReuseport) }
        else if v == 22 { Some(ProgramType::FlowDissector) }
        else if v == 23 { Some(ProgramType::CgroupSysctl) }
        else if v == 24 { Some(ProgramType::RawTracepointWritable) }
        else if v == 25 { Some(ProgramType::CgroupSockopt) }
        else if v == 26 { Some(ProgramType::Tracing) }
        else if v == 27 { Some(ProgramType::StructOps) }
        else if v == 28 { Some(ProgramType::Ext) }
        else if v == 29 { Some(ProgramType::Lsm) }
        else if v == 30 { Some(ProgramType::SkLookup) }
        else if v == 31 { Some(ProgramType::Syscall) }
        else { None }
    }

    /// The name under which the program type is displayed.
    pub open spec fn name(self) -> Seq<char> {
        match self {
            ProgramType::Unspec => "unspec"@,
            ProgramType::SocketFilter => "socket_filter"@,
            ProgramType::Probe => "probe"@,
            ProgramType::Tc => "tc"@,
            ProgramType::SchedAct => "sched_act"@,
            ProgramType::Tracepoint => "tracepoint"@,
            ProgramType::Xdp => "xdp"@,
            ProgramType::PerfEvent => "perf_event"@,
            ProgramType::CgroupSkb => "cgroup_skb"@,
            ProgramType::CgroupSock => "cgroup_sock"@,
            ProgramType::LwtIn => "lwt_in"@,
            ProgramType::LwtOut => "lwt_out"@,
            ProgramType::LwtXmit => "lwt_xmit"@,
            ProgramType::SockOps => "sock_ops"@,
            ProgramType::SkSkb => "sk_skb"@,
            ProgramType::CgroupDevice => "cgroup_device"@,
            ProgramType::SkMsg => "sk_msg"@,
            ProgramType::RawTracepoint => "raw_tracepoint"@,
            ProgramType::CgroupSockAddr => "cgroup_sock_addr"@,
            ProgramType::LwtSeg6Local => "lwt_seg6local"@,
            ProgramType::LircMode2 => "lirc_mode2"@,
            ProgramType::SkReuseport => "sk_reuseport"@,
            ProgramType::FlowDissector => "flow_dissector"@,
            ProgramType::CgroupSysctl => "cgroup_sysctl"@,
            ProgramType::RawTracepointWritable => "raw_tracepoint_writable"@,
            ProgramType::CgroupSockopt => "cgroup_sockopt"@,
            ProgramType::Tracing => "tracing"@,
            ProgramType::StructOps => "struct_ops"@,
            ProgramType::Ext => "ext"@,
            ProgramType::Lsm => "lsm"@,
            ProgramType::SkLookup => "sk_lookup"@,
            ProgramType::Syscall => "syscall"@,
        }
    }

    /// The kernel's number for this program type.
    pub fn as_u32(&self) -> (r: u32)
        ensures
            r == self.code(),
    {
        match self {
            ProgramType::Unspec => 0,
            ProgramType::SocketFilter => 1,
            ProgramType::Probe => 2,
            ProgramType::Tc => 3,
            ProgramType::SchedAct => 4,
            ProgramType::Tracepoint => 5,
            ProgramType::Xdp => 6,
            ProgramType::PerfEvent => 7,
            ProgramType::CgroupSkb => 8,
            ProgramType::CgroupSock => 9,
            ProgramType::LwtIn => 10,
            ProgramType::LwtOut => 11,
            ProgramType::LwtXmit => 12,
            ProgramType::SockOps => 13,
            ProgramType::SkSkb => 14,
            ProgramType::CgroupDevice => 15,
            ProgramType::SkMsg => 16,
            ProgramType::RawTracepoint => 17,
            ProgramType::CgroupSockAddr => 18,
            ProgramType::LwtSeg6Local => 19,
            ProgramType::LircMode2 => 20,
            ProgramType::SkReuseport => 21,
            ProgramType::FlowDissector => 22,
            ProgramType::CgroupSysctl => 23,
            ProgramType::RawTracepointWritable => 24,
            ProgramType::CgroupSockopt => 25,
            ProgramType::Tracing => 26,
            ProgramType::StructOps => 27,
            ProgramType::Ext => 28,
            ProgramType::Lsm => 29,
            ProgramType::SkLookup => 30,
            ProgramType::Syscall => 31,
        }
    }

    /// The program type with kernel number `v`; an error names any other number.
    pub fn try_from_u32(v: u32) -> (r: Result<ProgramType, ParseError>)
        ensures
            match ProgramType::of_code(v) {
                Some(t) => r == Ok::<ProgramType, ParseError>(t),
                None => r == Err::<ProgramType, ParseError>(ParseError::InvalidProgramType { program: v }),
            },
    {
        match v {
            0 => Ok(ProgramType::Unspec),
            1 => Ok(ProgramType::SocketFilter),
            2 => Ok(ProgramType::Probe),
            3 => Ok(ProgramType::Tc),
            4 => Ok(ProgramType::SchedAct),
            5 => Ok(ProgramType::Tracepoint),
            6 => Ok(ProgramType::Xdp),
            7 => Ok(ProgramType::PerfEvent),
            8 => Ok(ProgramType::CgroupSkb),
            9 => Ok(ProgramType::CgroupSock),
            10 => Ok(ProgramType::LwtIn),
            11 => Ok(ProgramType::LwtOut),
            12 => Ok(ProgramType::LwtXmit),
            13 => Ok(ProgramType::SockOps),
            14 => Ok(ProgramType::SkSkb),
            15 => Ok(ProgramType::CgroupDevice),
            16 => Ok(ProgramType::SkMsg),
            17 => Ok(ProgramType::RawTracepoint),
            18 => Ok(ProgramType::CgroupSockAddr),
            19 => Ok(ProgramType::LwtSeg6Local),
            20 => Ok(ProgramType::LircMode2),
            21 => Ok(ProgramType::SkReuseport),
            22 => Ok(ProgramType::FlowDissector),
            23 => Ok(ProgramType::CgroupSysctl),
            24 => Ok(ProgramType::RawTracepointWritable),
            25 => Ok(ProgramType::CgroupSockopt),
            26 => Ok(ProgramType::Tracing),
            27 => Ok(ProgramType::StructOps),
            28 => Ok(ProgramType::Ext),
            29 => Ok(ProgramType::Lsm),
            30 => Ok(ProgramType::SkLookup),
            31 => Ok(ProgramType::Syscall),
            _ => Err(ParseError::InvalidProgramType { program: v }),
        }
    }
}

/// The number of a program type, read back, gives the same program type,
/// and exactly the numbers 0 to 31 name a program type.
pub proof fn law_program_type_code_roundtrip(t: ProgramType, v: u32)
    ensures
        ProgramType::of_code(t.code()) == Some(t),
        t.code() <= 31,
        ProgramType::of_code(v) is Some <==> v <= 31,
        ProgramType::of_code(v) matches Some(u) ==> u.code() == v,
{
}

} // verus!

verus! {

/// Reads every item of `xs` with `f`: all the results in order, or the
/// first item that `f` does not accept.
pub open spec fn parse_all<A, B>(xs: Seq<A>, f: spec_fn(A) -> Option<B>) -> Result<Seq<B>, A>
    decreases xs.len(),
{
    if xs.len() == 0 {
        Ok(Seq::empty())
    } else {
        match parse_all(xs.drop_last(), f) {
            Err(a) => Err(a),
            Ok(bs) => match f(xs.last()) {
                Some(b) => Ok(bs.push(b)),
                None => Err(xs.last()),
            },
        }
    }
}

/// Once a prefix fails to read, the whole sequence fails with the same item.
pub proof fn lemma_parse_all_prefix_err<A, B>(xs: Seq<A>, f: spec_fn(A) -> Option<B>, k: int, a: A)
    requires
        0 <= k <= xs.len(),
        parse_all(xs.take(k), f) == Err::<Seq<B>, A>(a),
    ensures
        parse_all(xs, f) == Err::<Seq<B>, A>(a),
    decreases xs.len() - k,
{
    if k < xs.len() {
        assert(xs.take(k + 1).drop_last() =~= xs.take(k));
        lemma_parse_all_prefix_err(xs, f, k + 1, a);
    } else {
        assert(xs.take(k) =~= xs);
    }
}

/// Reading back the codes of a sequence gives the sequence itself, when
/// `f` undoes `g`.
pub proof fn lemma_parse_all_inverse<A, B>(bs: Seq<B>, g: spec_fn(B) -> A, f: spec_fn(A) -> Option<B>)
    requires
        forall|b: B| #[trigger] f(g(b)) == Some(b),
    ensures
        parse_all(bs.map_values(g), f) == Ok::<Seq<B>, A>(bs),
    decreases bs.len(),
{
    if bs.len() > 0 {
        lemma_parse_all_inverse(bs.drop_last(), g, f);
        assert(bs.map_values(g).drop_last() =~= bs.drop_last().map_values(g));
        assert(bs.map_values(g).last() == g(bs.last()));
        assert(f(g(bs.last())) == Some(bs.last()));
        assert(bs.drop_last().push(bs.last()) =~= bs);
    } else {
        assert(bs =~= Seq::<B>::empty());
    }
}

/// An action of the XDP dispatcher after which the next program in the
/// chain runs.
#[derive(Debug, Clone, Copy, PartialEq, Eq, Structural)]
pub enum XdpProceedOnEntry {
    Aborted,
    Drop,
    Pass,
    Tx,
    Redirect,
    DispatcherReturn,
}

impl XdpProceedOnEntry {
    /// The kernel's code for the action.
    pub open spec fn code(self) -> i32 {
        match self {
            XdpProceedOnEntry::Aborted => 0,
            XdpProceedOnEntry::Drop => 1,
            XdpProceedOnEntry::Pass => 2,
            XdpProceedOnEntry::Tx => 3,
            XdpProceedOnEntry::Redirect => 4,
            XdpProceedOnEntry::DispatcherReturn => 31,
        }
    }

    /// The name under which the action is given and displayed.
    pub open spec fn name(self) -> Seq<char> {
        match self {
            XdpProceedOnEntry::Aborted => "aborted"@,
            XdpProceedOnEntry::Drop => "drop"@,
            XdpProceedOnEntry::Pass => "pass"@,
            XdpProceedOnEntry::Tx => "tx"@,
            XdpProceedOnEntry::Redirect => "redirect"@,
            XdpProceedOnEntry::DispatcherReturn => "dispatcher_return"@,
        }
    }

    /// The action with code `c`, if any.
    pub open spec fn of_code(c: i32) -> Option<XdpProceedOnEntry> {
        if c == 0 { Some(XdpProceedOnEntry::Aborted) }
        else if c == 1 { Some(XdpProceedOnEntry::Drop) }
        else if c == 2 { Some(XdpProceedOnEntry::Pass) }
        else if c == 3 { Some(XdpProceedOnEntry::Tx) }
        else if c == 4 { Some(XdpProceedOnEntry::Redirect) }
        else if c == 31 { Some(XdpProceedOnEntry::DispatcherReturn) }
        else { None }
    }

    /// The action named `s`, if any.
    pub open spec fn of_name(s: Seq<char>) -> Option<XdpProceedOnEntry> {
        if s == "aborted"@ { Some(XdpProceedOnEntry::Aborted) }
        else if s == "drop"@ { Some(XdpProceedOnEntry::Drop) }
        else if s == "pass"@ { Some(XdpProceedOnEntry::Pass) }
        else if s == "tx"@ { Some(XdpProceedOnEntry::Tx) }
        else if s == "redirect"@ { Some(XdpProceedOnEntry::Redirect) }
        else if s == "dispatcher_return"@ { Some(XdpProceedOnEntry::DispatcherReturn) }
        else { None }
    }

    pub fn as_i32(&self) -> (r: i32)
        ensures
            r == self.code(),
    {
        match self {
            XdpProceedOnEntry::Aborted => 0,
            XdpProceedOnEntry::Drop => 1,
            XdpProceedOnEntry::Pass => 2,
            XdpProceedOnEntry::Tx => 3,
            XdpProceedOnEntry::Redirect => 4,
            XdpProceedOnEntry::DispatcherReturn => 31,
        }
    }

    pub fn name_string(&self) -> (r: String)
        ensures
            r@ == self.name(),
    {
        match self {
            XdpProceedOnEntry::Aborted => String::from_str("aborted"),
            XdpProceedOnEntry::Drop => String::from_str("drop"),
            XdpProceedOnEntry::Pass => String::from_str("pass"),
            XdpProceedOnEntry::Tx => String::from_str("tx"),
            XdpProceedOnEntry::Redirect => String::from_str("redirect"),
            XdpProceedOnEntry::DispatcherReturn => String::from_str("dispatcher_return"),
        }
    }

    /// The action with code `c`, if any.
    pub fn from_i32(c: i32) -> (r: Option<XdpProceedOnEntry>)
        ensures
            r == XdpProceedOnEntry::of_code(c),
    {
        match c {
            0 => Some(XdpProceedOnEntry::Aborted),
            1 => Some(XdpProceedOnEntry::Drop),
            2 => Some(XdpProceedOnEntry::Pass),
            3 => Some(XdpProceedOnEntry::Tx),
            4 => Some(XdpProceedOnEntry::Redirect),
            31 => Some(XdpProceedOnEntry::DispatcherReturn),
            _ => None,
        }
    }

    /// The action named `s`, if any.
    pub fn from_name(s: &str) -> (r: Option<XdpProceedOnEntry>)
        ensures
            r == XdpProceedOnEntry::of_name(s@),
    {
        if crate::text::str_eq(s, "aborted") {
            Some(XdpProceedOnEntry::Aborted)
        } else if crate::text::str_eq(s, "drop") {
            Some(XdpProceedOnEntry::Drop)
        } else if crate::text::str_eq(s, "pass") {
            Some(XdpProceedOnEntry::Pass)
        } else if crate::text::str_eq(s, "tx") {
            Some(XdpProceedOnEntry::Tx)
        } else if crate::text::str_eq(s, "redirect") {
            Some(XdpProceedOnEntry::Redirect)
        } else if crate::text::str_eq(s, "dispatcher_return") {
            Some(XdpProceedOnEntry::DispatcherReturn)
        } else {
            None
        }
    }
}

} // verus!

verus! {

/// Reads an XDP action by name.
pub open spec fn xdp_name_reader() -> spec_fn(String) -> Option<XdpProceedOnEntry> {
    |s: String| XdpProceedOnEntry::of_name(s@)
}

/// Reads an XDP action by code.
pub open spec fn xdp_code_reader() -> spec_fn(i32) -> Option<XdpProceedOnEntry> {
    |c: i32| XdpProceedOnEntry::of_code(c)
}

/// The actions after which the next XDP program runs when none are given.
pub open spec fn xdp_default_entries() -> Seq<XdpProceedOnEntry> {
    seq![XdpProceedOnEntry::Pass, XdpProceedOnEntry::DispatcherReturn]
}

/// The actions that a list of names gives: the default for an empty list,
/// else each name read in turn, or the first name that is not an action.
pub open spec fn xdp_from_names(names: Seq<String>) -> Result<Seq<XdpProceedOnEntry>, String> {
    if names.len() == 0 {
        Ok(xdp_default_entries())
    } else {
        parse_all(names, xdp_name_reader())
    }
}

/// The actions that a list of codes gives: the default for an empty list,
/// else each code read in turn, or the first code that is not an action.
pub open spec fn xdp_from_codes(codes: Seq<i32>) -> Result<Seq<XdpProceedOnEntry>, i32> {
    if codes.len() == 0 {
        Ok(xdp_default_entries())
    } else {
        parse_all(codes, xdp_code_reader())
    }
}

/// The list of XDP actions after which the dispatcher calls the next
/// program in the chain.
pub struct XdpProceedOn {
    entries: Vec<XdpProceedOnEntry>,
}

impl View for XdpProceedOn {
    type V = Seq<XdpProceedOnEntry>;

    closed spec fn view(&self) -> Seq<XdpProceedOnEntry> {
        self.entries@
    }
}

impl XdpProceedOn {
    /// The default list: pass, dispatcher_return.
    pub fn default_entries() -> (r: XdpProceedOn)
        ensures
            r@ == xdp_default_entries(),
    {
        let r = XdpProceedOn { entries: vec![XdpProceedOnEntry::Pass, XdpProceedOnEntry::DispatcherReturn] };
        assert(r@ =~= xdp_default_entries());
        r
    }

    /// Reads actions from their names; an empty list gives the default.
    pub fn from_strings(values: &Vec<String>) -> (r: Result<XdpProceedOn, ParseError>)
        ensures
            match xdp_from_names(values@) {
                Ok(es) => r matches Ok(p) && p@ == es,
                Err(s) => r == Err::<XdpProceedOn, ParseError>(ParseError::InvalidProceedOnName { proceedon: s }),
            },
    {
        let n = values.len();
        if n == 0 {
            return Ok(XdpProceedOn::default_entries());
        }
        let mut res: Vec<XdpProceedOnEntry> = Vec::new();
        let mut i: usize = 0;
        while i < n
            invariant
                n == values.len(),
                i <= n,
                parse_all(values@.take(i as int), xdp_name_reader()) == Ok::<Seq<XdpProceedOnEntry>, String>(res@),
            decreases n - i,
        {
            assert(values@.take(i + 1).drop_last() =~= values@.take(i as int));
            assert(values@.take(i + 1).last() == values@[i as int]);
            match XdpProceedOnEntry::from_name(values[i].as_str()) {
                Some(e) => {
                    res.push(e);
                },
                None => {
                    proof {
                        lemma_parse_all_prefix_err(values@, xdp_name_reader(), i + 1, values@[i as int]);
                    }
                    return Err(ParseError::InvalidProceedOnName { proceedon: values[i].clone() });
                },
            }
            i += 1;
        }
        assert(values@.take(n as int) =~= values@);
        Ok(XdpProceedOn { entries: res })
    }

    /// Reads actions from their codes; an empty list gives the default.
    pub fn from_int32s(values: &Vec<i32>) -> (r: Result<XdpProceedOn, ParseError>)
        ensures
            match xdp_from_codes(values@) {
                Ok(es) => r matches Ok(p) && p@ == es,
                Err(c) => r == Err::<XdpProceedOn, ParseError>(ParseError::InvalidProceedOnValue { proceedon: c }),
            },
    {
        let n = values.len();
        if n == 0 {
            return Ok(XdpProceedOn::default_entries());
        }
        let mut res: Vec<XdpProceedOnEntry> = Vec::new();
        let mut i: usize = 0;
        while i < n
            invariant
                n == values.len(),
                i <= n,
                parse_all(values@.take(i as int), xdp_code_reader()) == Ok::<Seq<XdpProceedOnEntry>, i32>(res@),
            decreases n - i,
        {
            assert(values@.take(i + 1).drop_last() =~= values@.take(i as int));
            assert(values@.take(i + 1).last() == values@[i as int]);
            match XdpProceedOnEntry::from_i32(values[i]) {
                Some(e) => {
                    res.push(e);
                },
                None => {
                    proof {
                        lemma_parse_all_prefix_err(values@, xdp_code_reader(), i + 1, values@[i as int]);
                    }
                    return Err(ParseError::InvalidProceedOnValue { proceedon: values[i] });
                },
            }
            i += 1;
        }
        assert(values@.take(n as int) =~= values@);
        Ok(XdpProceedOn { entries: res })
    }

    /// The codes of the actions, in order.
    pub fn as_action_vec(&self) -> (r: Vec<i32>)
        ensures
            r@ == self@.map_values(|e: XdpProceedOnEntry| e.code()),
    {
        let mut r: Vec<i32> = Vec::new();
        let n = self.entries.len();
        let mut i: usize = 0;
        while i < n
            invariant
                n == self.entries.len(),
                i <= n,
                r@ == self.entries@.take(i as int).map_values(|e: XdpProceedOnEntry| e.code()),
            decreases n - i,
        {
            r.push(self.entries[i].as_i32());
            assert(self.entries@.take(i + 1).map_values(|e: XdpProceedOnEntry| e.code())
                =~= self.entries@.take(i as int).map_values(|e: XdpProceedOnEntry| e.code()).push(self.entries@[i as int].code()));
            i += 1;
        }
        assert(self.entries@.take(n as int) =~= self.entries@);
        r
    }

    /// The names of the actions, separated by ", ".
    pub fn display(&self) -> (r: String)
        ensures
            r@ == crate::text::join(self@.map_values(|e: XdpProceedOnEntry| e.name()), ", "@),
    {
        let mut names: Vec<String> = Vec::new();
        let n = self.entries.len();
        let mut i: usize = 0;
        while i < n
            invariant
                n == self.entries.len(),
                i <= n,
                crate::text::views(names@) == self.entries@.take(i as int).map_values(|e: XdpProceedOnEntry| e.name()),
            decreases n - i,
        {
            let ghost prev = names@;
            let s = self.entries[i].name_string();
            names.push(s);
            assert(crate::text::views(names@) =~= crate::text::views(prev).push(self.entries@[i as int].name()));
            assert(self.entries@.take(i + 1).map_values(|e: XdpProceedOnEntry| e.name())
                =~= self.entries@.take(i as int).map_values(|e: XdpProceedOnEntry| e.name()).push(self.entries@[i as int].name()));
            i += 1;
        }
        assert(self.entries@.take(n as int) =~= self.entries@);
        crate::text::join_strings(&names, ", ")
    }
}

/// Whatever list of XDP actions is sent as codes reads back from those
/// codes as the same list; an empty list of codes reads as the default.
pub proof fn lemma_xdp_codes_roundtrip(es: Seq<XdpProceedOnEntry>)
    ensures
        es.len() > 0 ==> xdp_from_codes(es.map_values(|e: XdpProceedOnEntry| e.code())) == Ok::<Seq<XdpProceedOnEntry>, i32>(es),
        xdp_from_codes(Seq::empty()) == Ok::<Seq<XdpProceedOnEntry>, i32>(xdp_default_entries()),
{
    lemma_parse_all_inverse(es, |e: XdpProceedOnEntry| e.code(), xdp_code_reader());
}

} // verus!

verus! {

/// An action of the TC dispatcher after which the next program in the
/// chain runs.
#[derive(Debug, Clone, Copy, PartialEq, Eq, Structural)]
pub enum TcProceedOnEntry {
    Unspec,
    ActOk,
    Reclassify,
    Shot,
    Pipe,
    Stolen,
    Queued,
    Repeat,
    Redirect,
    Trap,
    DispatcherReturn,
}

impl TcProceedOnEntry {
    /// The kernel's code for the action.
    pub open spec fn code(self) -> i32 {
        match self {
            TcProceedOnEntry::Unspec => -1i32,
            TcProceedOnEntry::ActOk => 0,
            TcProceedOnEntry::Reclassify => 1,
            TcProceedOnEntry::Shot => 2,
            TcProceedOnEntry::Pipe => 3,
            TcProceedOnEntry::Stolen => 4,
            TcProceedOnEntry::Queued => 5,
            TcProceedOnEntry::Repeat => 6,
            TcProceedOnEntry::Redirect => 7,
            TcProceedOnEntry::Trap => 8,
            TcProceedOnEntry::DispatcherReturn => 30,
        }
    }

    /// The name under which the action is given and displayed.
    pub open spec fn name(self) -> Seq<char> {
        match self {
            TcProceedOnEntry::Unspec => "unspec"@,
            TcProceedOnEntry::ActOk => "ok"@,
            TcProceedOnEntry::Reclassify => "reclassify"@,
            TcProceedOnEntry::Shot => "shot"@,
            TcProceedOnEntry::Pipe => "pipe"@,
            TcProceedOnEntry::Stolen => "stolen"@,
            TcProceedOnEntry::Queued => "queued"@,
            TcProceedOnEntry::Repeat => "repeat"@,
            TcProceedOnEntry::Redirect => "redirect"@,
            TcProceedOnEntry::Trap => "trap"@,
            TcProceedOnEntry::DispatcherReturn => "dispatcher_return"@,
        }
    }

    /// The action with code `c`, if any.
    pub open spec fn of_code(c: i32) -> Option<TcProceedOnEntry> {
        if c == -1i32 { Some(TcProceedOnEntry::Unspec) }
        else if c == 0 { Some(TcProceedOnEntry::ActOk) }
        else if c == 1 { Some(TcProceedOnEntry::Reclassify) }
        else if c == 2 { Some(TcProceedOnEntry::Shot) }
        else if c == 3 { Some(TcProceedOnEntry::Pipe) }
        else if c == 4 { Some(TcProceedOnEntry::Stolen) }
        else if c == 5 { Some(TcProceedOnEntry::Queued) }
        else if c == 6 { Some(TcProceedOnEntry::Repeat) }
        else if c == 7 { Some(TcProceedOnEntry::Redirect) }
        else if c == 8 { Some(TcProceedOnEntry::Trap) }
        else if c == 30 { Some(TcProceedOnEntry::DispatcherReturn) }
        else { None }
    }

    /// The action named `s`, if any.
    pub open spec fn of_name(s: Seq<char>) -> Option<TcProceedOnEntry> {
        if s == "unspec"@ { Some(TcProceedOnEntry::Unspec) }
        else if s == "ok"@ { Some(TcProceedOnEntry::ActOk) }
        else if s == "reclassify"@ { Some(TcProceedOnEntry::Reclassify) }
        else if s == "shot"@ { Some(TcProceedOnEntry::Shot) }
        else if s == "pipe"@ { Some(TcProceedOnEntry::Pipe) }
        else if s == "stolen"@ { Some(TcProceedOnEntry::Stolen) }
        else if s == "queued"@ { Some(TcProceedOnEntry::Queued) }
        else if s == "repeat"@ { Some(TcProceedOnEntry::Repeat) }
        else if s == "redirect"@ { Some(TcProceedOnEntry::Redirect) }
        else if s == "trap"@ { Some(TcProceedOnEntry::Trap) }
        else if s == "dispatcher_return"@ { Some(TcProceedOnEntry::DispatcherReturn) }
        else { None }
    }

    pub fn as_i32(&self) -> (r: i32)
        ensures
            r == self.code(),
    {
        match self {
            TcProceedOnEntry::Unspec => -1i32,
            TcProceedOnEntry::ActOk => 0,
            TcProceedOnEntry::Reclassify => 1,
            TcProceedOnEntry::Shot => 2,
            TcProceedOnEntry::Pipe => 3,
            TcProceedOnEntry::Stolen => 4,
            TcProceedOnEntry::Queued => 5,
            TcProceedOnEntry::Repeat => 6,
            TcProceedOnEntry::Redirect => 7,
            TcProceedOnEntry::Trap => 8,
            TcProceedOnEntry::DispatcherReturn => 30,
        }
    }

    pub fn name_string(&self) -> (r: String)
        ensures
            r@ == self.name(),
    {
        match self {
            TcProceedOnEntry::Unspec => String::from_str("unspec"),
            TcProceedOnEntry::ActOk => String::from_str("ok"),
            TcProceedOnEntry::Reclassify => String::from_str("reclassify"),
            TcProceedOnEntry::Shot => String::from_str("shot"),
            TcProceedOnEntry::Pipe => String::from_str("pipe"),
            TcProceedOnEntry::Stolen => String::from_str("stolen"),
            TcProceedOnEntry::Queued => String::from_str("queued"),
            TcProceedOnEntry::Repeat => String::from_str("repeat"),
            TcProceedOnEntry::Redirect => String::from_str("redirect"),
            TcProceedOnEntry::Trap => String::from_str("trap"),
            TcProceedOnEntry::DispatcherReturn => String::from_str("dispatcher_return"),
        }
    }

    /// The action with code `c`, if any.
    pub fn from_i32(c: i32) -> (r: Option<TcProceedOnEntry>)
        ensures
            r == TcProceedOnEntry::of_code(c),
    {
        match c {
            -1 => Some(TcProceedOnEntry::Unspec),
            0 => Some(TcProceedOnEntry::ActOk),
            1 => Some(TcProceedOnEntry::Reclassify),
            2 => Some(TcProceedOnEntry::Shot),
            3 => Some(TcProceedOnEntry::Pipe),
            4 => Some(TcProceedOnEntry::Stolen),
            5 => Some(TcProceedOnEntry::Queued),
            6 => Some(TcProceedOnEntry::Repeat),
            7 => Some(TcProceedOnEntry::Redirect),
            8 => Some(TcProceedOnEntry::Trap),
            30 => Some(TcProceedOnEntry::DispatcherReturn),
            _ => None,
        }
    }

    /// The action named `s`, if any.
    pub fn from_name(s: &str) -> (r: Option<TcProceedOnEntry>)
        ensures
            r == TcProceedOnEntry::of_name(s@),
    {
        if crate::text::str_eq(s, "unspec") {
            Some(TcProceedOnEntry::Unspec)
        } else if crate::text::str_eq(s, "ok") {
            Some(TcProceedOnEntry::ActOk)
        } else if crate::text::str_eq(s, "reclassify") {
            Some(TcProceedOnEntry::Reclassify)
        } else if crate::text::str_eq(s, "shot") {
            Some(TcProceedOnEntry::Shot)
        } else if crate::text::str_eq(s, "pipe") {
            Some(TcProceedOnEntry::Pipe)
        } else if crate::text::str_eq(s, "stolen") {
            Some(TcProceedOnEntry::Stolen)
        } else if crate::text::str_eq(s, "queued") {
            Some(TcProceedOnEntry::Queued)
        } else if crate::text::str_eq(s, "repeat") {
            Some(TcProceedOnEntry::Repeat)
        } else if crate::text::str_eq(s, "redirect") {
            Some(TcProceedOnEntry::Redirect)
        } else if crate::text::str_eq(s, "trap") {
            Some(TcProceedOnEntry::Trap)
        } else if crate::text::str_eq(s, "dispatcher_return") {
            Some(TcProceedOnEntry::DispatcherReturn)
        } else {
            None
        }
    }
}

} // verus!

verus! {

/// Reads a TC action by name.
pub open spec fn tc_name_reader() -> spec_fn(String) -> Option<TcProceedOnEntry> {
    |s: String| TcProceedOnEntry::of_name(s@)
}

/// Reads a TC action by code.
pub open spec fn tc_code_reader() -> spec_fn(i32) -> Option<TcProceedOnEntry> {
    |c: i32| TcProceedOnEntry::of_code(c)
}

/// The actions after which the next TC program runs when none are given.
pub open spec fn tc_default_entries() -> Seq<TcProceedOnEntry> {
    seq![TcProceedOnEntry::ActOk, TcProceedOnEntry::Pipe, TcProceedOnEntry::DispatcherReturn]
}

/// The actions that a list of names gives: the default for an empty list,
/// else each name read in turn, or the first name that is not an action.
pub open spec fn tc_from_names(names: Seq<String>) -> Result<Seq<TcProceedOnEntry>, String> {
    if names.len() == 0 {
        Ok(tc_default_entries())
    } else {
        parse_all(names, tc_name_reader())
    }
}

/// The actions that a list of codes gives: the default for an empty list,
/// else each code read in turn, or the first code that is not an action.
pub open spec fn tc_from_codes(codes: Seq<i32>) -> Result<Seq<TcProceedOnEntry>, i32> {
    if codes.len() == 0 {
        Ok(tc_default_entries())
    } else {
        parse_all(codes, tc_code_reader())
    }
}

/// The list of TC actions after which the dispatcher calls the next
/// program in the chain.
pub struct TcProceedOn {
    entries: Vec<TcProceedOnEntry>,
}

impl View for TcProceedOn {
    type V = Seq<TcProceedOnEntry>;

    closed spec fn view(&self) -> Seq<TcProceedOnEntry> {
        self.entries@
    }
}

impl TcProceedOn {
    /// The default list: ok, pipe, dispatcher_return.
    pub fn default_entries() -> (r: TcProceedOn)
        ensures
            r@ == tc_default_entries(),
    {
        let r = TcProceedOn { entries: vec![TcProceedOnEntry::ActOk, TcProceedOnEntry::Pipe, TcProceedOnEntry::DispatcherReturn] };
        assert(r@ =~= tc_default_entries());
        r
    }

    /// Reads actions from their names; an empty list gives the default.
    pub fn from_strings(values: &Vec<String>) -> (r: Result<TcProceedOn, ParseError>)
        ensures
            match tc_from_names(values@) {
                Ok(es) => r matches Ok(p) && p@ == es,
                Err(s) => r == Err::<TcProceedOn, ParseError>(ParseError::InvalidProceedOnName { proceedon: s }),
            },
    {
        let n = values.len();
        if n == 0 {
            return Ok(TcProceedOn::default_entries());
        }
        let mut res: Vec<TcProceedOnEntry> = Vec::new();
        let mut i: usize = 0;
        while i < n
            invariant
                n == values.len(),
                i <= n,
                parse_all(values@.take(i as int), tc_name_reader()) == Ok::<Seq<TcProceedOnEntry>, String>(res@),
            decreases n - i,
        {
            assert(values@.take(i + 1).drop_last() =~= values@.take(i as int));
            assert(values@.take(i + 1).last() == values@[i as int]);
            match TcProceedOnEntry::from_name(values[i].as_str()) {
                Some(e) => {
                    res.push(e);
                },
                None => {
                    proof {
                        lemma_parse_all_prefix_err(values@, tc_name_reader(), i + 1, values@[i as int]);
                    }
                    return Err(ParseError::InvalidProceedOnName { proceedon: values[i].clone() });
                },
            }
            i += 1;
        }
        assert(values@.take(n as int) =~= values@);
        Ok(TcProceedOn { entries: res })
    }

    /// Reads actions from their codes; an empty list gives the default.
    pub fn from_int32s(values: &Vec<i32>) -> (r: Result<TcProceedOn, ParseError>)
        ensures
            match tc_from_codes(values@) {
                Ok(es) => r matches Ok(p) && p@ == es,
                Err(c) => r == Err::<TcProceedOn, ParseError>(ParseError::InvalidProceedOnValue { proceedon: c }),
            },
    {
        let n = values.len();
        if n == 0 {
            return Ok(TcProceedOn::default_entries());
        }
        let mut res: Vec<TcProceedOnEntry> = Vec::new();
        let mut i: usize = 0;
        while i < n
            invariant
                n == values.len(),
                i <= n,
                parse_all(values@.take(i as int), tc_code_reader()) == Ok::<Seq<TcProceedOnEntry>, i32>(res@),
            decreases n - i,
        {
            assert(values@.take(i + 1).drop_last() =~= values@.take(i as int));
            assert(values@.take(i + 1).last() == values@[i as int]);
            match TcProceedOnEntry::from_i32(values[i]) {
                Some(e) => {
                    res.push(e);
                },
                None => {
                    proof {
                        lemma_parse_all_prefix_err(values@, tc_code_reader(), i + 1, values@[i as int]);
                    }
                    return Err(ParseError::InvalidProceedOnValue { proceedon: values[i] });
                },
            }
            i += 1;
        }
        assert(values@.take(n as int) =~= values@);
        Ok(TcProceedOn { entries: res })
    }

    /// The codes of the actions, in order.
    pub fn as_action_vec(&self) -> (r: Vec<i32>)
        ensures
            r@ == self@.map_values(|e: TcProceedOnEntry| e.code()),
    {
        let mut r: Vec<i32> = Vec::new();
        let n = self.entries.len();
        let mut i: usize = 0;
        while i < n
            invariant
                n == self.entries.len(),
                i <= n,
                r@ == self.entries@.take(i as int).map_values(|e: TcProceedOnEntry| e.code()),
            decreases n - i,
        {
            r.push(self.entries[i].as_i32());
            assert(self.entries@.take(i + 1).map_values(|e: TcProceedOnEntry| e.code())
                =~= self.entries@.take(i as int).map_values(|e: TcProceedOnEntry| e.code()).push(self.entries@[i as int].code()));
            i += 1;
        }
        assert(self.entries@.take(n as int) =~= self.entries@);
        r
    }

    /// The names of the actions, separated by ", ".
    pub fn display(&self) -> (r: String)
        ensures
            r@ == crate::text::join(self@.map_values(|e: TcProceedOnEntry| e.name()), ", "@),
    {
        let mut names: Vec<String> = Vec::new();
        let n = self.entries.len();
        let mut i: usize = 0;
        while i < n
            invariant
                n == self.entries.len(),
                i <= n,
                crate::text::views(names@) == self.entries@.take(i as int).map_values(|e: TcProceedOnEntry| e.name()),
            decreases n - i,
        {
            let ghost prev = names@;
            let s = self.entries[i].name_string();
            names.push(s);
            assert(crate::text::views(names@) =~= crate::text::views(prev).push(self.entries@[i as int].name()));
            assert(self.entries@.take(i + 1).map_values(|e: TcProceedOnEntry| e.name())
                =~= self.entries@.take(i as int).map_values(|e: TcProceedOnEntry| e.name()).push(self.entries@[i as int].name()));
            i += 1;
        }
        assert(self.entries@.take(n as int) =~= self.entries@);
        crate::text::join_strings(&names, ", ")
    }
}

/// Whatever list of TC actions is sent as codes reads back from those
/// codes as the same list; an empty list of codes reads as the default.
pub proof fn lemma_tc_codes_roundtrip(es: Seq<TcProceedOnEntry>)
    ensures
        es.len() > 0 ==> tc_from_codes(es.map_values(|e: TcProceedOnEntry| e.code())) == Ok::<Seq<TcProceedOnEntry>, i32>(es),
        tc_from_codes(Seq::empty()) == Ok::<Seq<TcProceedOnEntry>, i32>(tc_default_entries()),
{
    lemma_parse_all_inverse(es, |e: TcProceedOnEntry| e.code(), tc_code_reader());
}

} // verus!

verus! {

/// When the daemon pulls a bytecode image from its registry.
#[derive(Debug, Clone, Copy, PartialEq, Eq, Structural)]
pub enum ImagePullPolicy {
    Always,
    IfNotPresent,
    Never,
}

impl ImagePullPolicy {
    /// The code under which the policy travels to the daemon.
    pub open spec fn code(self) -> i32 {
        match self {
            ImagePullPolicy::Always => 0,
            ImagePullPolicy::IfNotPresent => 1,
            ImagePullPolicy::Never => 2,
        }
    }

    /// The name under which the policy is given and displayed.
    pub open spec fn name(self) -> Seq<char> {
        match self {
            ImagePullPolicy::Always => "Always"@,
            ImagePullPolicy::IfNotPresent => "IfNotPresent"@,
            ImagePullPolicy::Never => "Never"@,
        }
    }

    /// The policy with code `c`, if any.
    pub open spec fn of_code(c: i32) -> Option<ImagePullPolicy> {
        if c == 0 {
            Some(ImagePullPolicy::Always)
        } else if c == 1 {
            Some(ImagePullPolicy::IfNotPresent)
        } else if c == 2 {
            Some(ImagePullPolicy::Never)
        } else {
            None
        }
    }

    /// The policy named `s`, if any.
    pub open spec fn of_name(s: Seq<char>) -> Option<ImagePullPolicy> {
        if s == "Always"@ {
            Some(ImagePullPolicy::Always)
        } else if s == "IfNotPresent"@ {
            Some(ImagePullPolicy::IfNotPresent)
        } else if s == "Never"@ {
            Some(ImagePullPolicy::Never)
        } else {
            None
        }
    }

    pub fn as_i32(&self) -> (r: i32)
        ensures
            r == self.code(),
    {
        match self {
            ImagePullPolicy::Always => 0,
            ImagePullPolicy::IfNotPresent => 1,
            ImagePullPolicy::Never => 2,
        }
    }

    pub fn name_string(&self) -> (r: String)
        ensures
            r@ == self.name(),
    {
        match self {
            ImagePullPolicy::Always => String::from_str("Always"),
            ImagePullPolicy::IfNotPresent => String::from_str("IfNotPresent"),
            ImagePullPolicy::Never => String::from_str("Never"),
        }
    }

    /// The policy with code `c`; an error names any other code.
    pub fn try_from_i32(c: i32) -> (r: Result<ImagePullPolicy, ParseError>)
        ensures
            match ImagePullPolicy::of_code(c) {
                Some(p) => r == Ok::<ImagePullPolicy, ParseError>(p),
                None => r == Err::<ImagePullPolicy, ParseError>(ParseError::InvalidPullPolicyValue { pull_policy: c }),
            },
    {
        match c {
            0 => Ok(ImagePullPolicy::Always),
            1 => Ok(ImagePullPolicy::IfNotPresent),
            2 => Ok(ImagePullPolicy::Never),
            _ => Err(ParseError::InvalidPullPolicyValue { pull_policy: c }),
        }
    }

    /// The policy named `s`; an error names any other text.
    pub fn try_from_name(s: &str) -> (r: Result<ImagePullPolicy, ParseError>)
        ensures
            match ImagePullPolicy::of_name(s@) {
                Some(p) => r == Ok::<ImagePullPolicy, ParseError>(p),
                None => r matches Err(ParseError::InvalidPullPolicyName { pull_policy }) && pull_policy@ == s@,
            },
    {
        if crate::text::str_eq(s, "Always") {
            Ok(ImagePullPolicy::Always)
        } else if crate::text::str_eq(s, "IfNotPresent") {
            Ok(ImagePullPolicy::IfNotPresent)
        } else if crate::text::str_eq(s, "Never") {
            Ok(ImagePullPolicy::Never)
        } else {
            Err(ParseError::InvalidPullPolicyName { pull_policy: s.to_owned() })
        }
    }
}

/// A pull policy's code reads back as that policy, and so does its name.
pub proof fn law_pull_policy_roundtrip(p: ImagePullPolicy)
    ensures
        ImagePullPolicy::of_code(p.code()) == Some(p),
        ImagePullPolicy::of_name(p.name()) == Some(p),
{
    reveal_strlit("Always");
    reveal_strlit("IfNotPresent");
    reveal_strlit("Never");
    assert("Always"@.len() == 6);
    assert("IfNotPresent"@.len() == 12);
    assert("Never"@.len() == 5);
}

/// The kind of probe an attach point uses.
#[derive(Debug, Clone, Copy, PartialEq, Eq, Structural)]
pub enum ProbeType {
    Kprobe,
    Kretprobe,
    Uprobe,
    Uretprobe,
}

impl ProbeType {
    /// The name under which the probe type is displayed.
    pub open spec fn name(self) -> Seq<char> {
        match self {
            ProbeType::Kprobe => "kprobe"@,
            ProbeType::Kretprobe => "kretprobe"@,
            ProbeType::Uprobe => "uprobe"@,
            ProbeType::Uretprobe => "uretprobe"@,
        }
    }

    pub fn name_string(&self) -> (r: String)
        ensures
            r@ == self.name(),
    {
        match self {
            ProbeType::Kprobe => String::from_str("kprobe"),
            ProbeType::Kretprobe => String::from_str("kretprobe"),
            ProbeType::Uprobe => String::from_str("uprobe"),
            ProbeType::Uretprobe => String::from_str("uretprobe"),
        }
    }
}

impl ProgramType {
    /// The name under which the program type is displayed.
    pub fn name_string(&self) -> (r: String)
        ensures
            r@ == self.name(),
    {
        match self {
            ProgramType::Unspec => String::from_str("unspec"),
            ProgramType::SocketFilter => String::from_str("socket_filter"),
            ProgramType::Probe => String::from_str("probe"),
            ProgramType::Tc => String::from_str("tc"),
            ProgramType::SchedAct => String::from_str("sched_act"),
            ProgramType::Tracepoint => String::from_str("tracepoint"),
            ProgramType::Xdp => String::from_str("xdp"),
            ProgramType::PerfEvent => String::from_str("perf_event"),
            ProgramType::CgroupSkb => String::from_str("cgroup_skb"),
            ProgramType::CgroupSock => String::from_str("cgroup_sock"),
            ProgramType::LwtIn => String::from_str("lwt_in"),
            ProgramType::LwtOut => String::from_str("lwt_out"),
            ProgramType::LwtXmit => String::from_str("lwt_xmit"),
            ProgramType::SockOps => String::from_str("sock_ops"),
            ProgramType::SkSkb => String::from_str("sk_skb"),
            ProgramType::CgroupDevice => String::from_str("cgroup_device"),
            ProgramType::SkMsg => String::from_str("sk_msg"),
            ProgramType::RawTracepoint => String::from_str("raw_tracepoint"),
            ProgramType::CgroupSockAddr => String::from_str("cgroup_sock_addr"),
            ProgramType::LwtSeg6Local => String::from_str("lwt_seg6local"),
            ProgramType::LircMode2 => String::from_str("lirc_mode2"),
            ProgramType::SkReuseport => String::from_str("sk_reuseport"),
            ProgramType::FlowDissector => String::from_str("flow_dissector"),
            ProgramType::CgroupSysctl => String::from_str("cgroup_sysctl"),
            ProgramType::RawTracepointWritable => String::from_str("raw_tracepoint_writable"),
            ProgramType::CgroupSockopt => String::from_str("cgroup_sockopt"),
            ProgramType::Tracing => String::from_str("tracing"),
            ProgramType::StructOps => String::from_str("struct_ops"),
            ProgramType::Ext => String::from_str("ext"),
            ProgramType::Lsm => String::from_str("lsm"),
            ProgramType::SkLookup => String::from_str("sk_lookup"),
            ProgramType::Syscall => String::from_str("syscall"),
        }
    }
}

} // verus!

verus! {

/// Reading every item gives as many results as items.
pub proof fn lemma_parse_all_len<A, B>(xs: Seq<A>, f: spec_fn(A) -> Option<B>)
    ensures
        parse_all(xs, f) matches Ok(bs) ==> bs.len() == xs.len(),
    decreases xs.len(),
{
    if xs.len() > 0 {
        lemma_parse_all_len(xs.drop_last(), f);
    }
}

/// The XDP actions given by name when a program is loaded are sent as
/// codes; the codes, read back the way `get` reads them, are the same
/// actions.
pub proof fn law_xdp_proceed_on_shown_as_loaded(names: Seq<String>)
    requires
        xdp_from_names(names) is Ok,
    ensures
        xdp_from_codes(xdp_from_names(names)->Ok_0.map_values(|e: XdpProceedOnEntry| e.code()))
            == Ok::<Seq<XdpProceedOnEntry>, i32>(xdp_from_names(names)->Ok_0),
{
    let es = xdp_from_names(names)->Ok_0;
    lemma_parse_all_len(names, xdp_name_reader());
    lemma_xdp_codes_roundtrip(es);
}

/// The TC actions given by name when a program is loaded are sent as
/// codes; the codes, read back the way `get` reads them, are the same
/// actions.
pub proof fn law_tc_proceed_on_shown_as_loaded(names: Seq<String>)
    requires
        tc_from_names(names) is Ok,
    ensures
        tc_from_codes(tc_from_names(names)->Ok_0.map_values(|e: TcProceedOnEntry| e.code()))
            == Ok::<Seq<TcProceedOnEntry>, i32>(tc_from_names(names)->Ok_0),
{
    let es = tc_from_names(names)->Ok_0;
    lemma_parse_all_len(names, tc_name_reader());
    lemma_tc_codes_roundtrip(es);
}

/// A pull policy given by name is shown back under that same name.
pub proof fn law_pull_policy_name_exact(s: Seq<char>)
    ensures
        ImagePullPolicy::of_name(s) matches Some(p) ==> p.name() == s && ImagePullPolicy::of_code(p.code()) == Some(p),
{
}

} // verus!
