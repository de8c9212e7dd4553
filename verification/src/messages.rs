//! The messages exchanged with the daemon: the requests that bpfctl sends
//! and the program descriptions that it receives.
use vstd::prelude::*;
use crate::keyed::KeyedValues;

verus! {

/// A bytecode image in a container registry.
#[derive(Debug)]
pub struct BytecodeImage {
    pub url: String,
    pub image_pull_policy: i32,
    pub username: Option<String>,
    pub password: Option<String>,
}

/// Where the bytecode of a program is found.
#[derive(Debug)]
pub enum Location {
    Image(BytecodeImage),
    File(String),
}

#[derive(Debug)]
pub struct BytecodeLocation {
    pub location: Option<Location>,
}

#[derive(Debug)]
pub struct XdpAttachInfo {
    pub priority: i32,
    pub iface: String,
    pub position: i32,
    pub proceed_on: Vec<i32>,
}

#[derive(Debug)]
pub struct TcAttachInfo {
    pub priority: i32,
    pub iface: String,
    pub position: i32,
    pub direction: String,
    pub proceed_on: Vec<i32>,
}

#[derive(Debug)]
pub struct TracepointAttachInfo {
    pub tracepoint: String,
}

#[derive(Debug)]
pub struct KprobeAttachInfo {
    pub fn_name: String,
    pub offset: u64,
    pub retprobe: bool,
    pub namespace: Option<String>,
}

#[derive(Debug)]
pub struct UprobeAttachInfo {
    pub fn_name: Option<String>,
    pub offset: u64,
    pub target: String,
    pub retprobe: bool,
    pub pid: Option<i32>,
    pub namespace: Option<String>,
}

/// Where and how a program is attached.
#[derive(Debug)]
pub enum Info {
    XdpAttachInfo(XdpAttachInfo),
    TcAttachInfo(TcAttachInfo),
    TracepointAttachInfo(TracepointAttachInfo),
    KprobeAttachInfo(KprobeAttachInfo),
    UprobeAttachInfo(UprobeAttachInfo),
}

#[derive(Debug)]
pub struct AttachInfo {
    pub info: Option<Info>,
}

/// Asks the daemon to load a program and attach it.
#[derive(Debug)]
pub struct LoadRequest {
    pub bytecode: Option<BytecodeLocation>,
    pub name: String,
    pub program_type: u32,
    pub attach: Option<AttachInfo>,
    pub metadata: KeyedValues<String>,
    pub global_data: KeyedValues<Vec<u8>>,
    pub uuid: Option<String>,
    pub map_owner_id: Option<u32>,
}

/// Asks the daemon to unload the program with kernel id `id`.
#[derive(Debug)]
pub struct UnloadRequest {
    pub id: u32,
}

/// Asks the daemon for its programs, optionally only some of them.
#[derive(Debug)]
pub struct ListRequest {
    pub program_type: Option<u32>,
    pub match_metadata: KeyedValues<String>,
    pub bpfd_programs_only: Option<bool>,
}

/// Asks the daemon to pull a bytecode image.
#[derive(Debug)]
pub struct PullBytecodeRequest {
    pub image: Option<BytecodeImage>,
}

/// What the daemon keeps about a program that it loaded; the metadata and
/// global data are listed in the order in which they were read.
#[derive(Debug)]
pub struct ProgramInfo {
    pub name: String,
    pub bytecode: Option<BytecodeLocation>,
    pub attach: Option<AttachInfo>,
    pub global_data: Vec<(String, Vec<u8>)>,
    pub map_owner_id: Option<u32>,
    pub map_pin_path: Option<String>,
    pub map_used_by: Vec<String>,
    pub metadata: Vec<(String, String)>,
}

/// What the kernel reports about a loaded program.
#[derive(Debug)]
pub struct KernelProgramInfo {
    pub id: u32,
    pub name: String,
    pub program_type: u32,
    pub loaded_at: String,
    pub tag: String,
    pub gpl_compatible: bool,
    pub map_ids: Vec<u32>,
    pub btf_id: u32,
    pub bytes_xlated: u32,
    pub jited: bool,
    pub bytes_jited: u32,
    pub bytes_memlock: u32,
    pub verified_insns: u32,
}

/// One program in the daemon's answer to a list request.
#[derive(Debug)]
pub struct ListResult {
    pub info: Option<ProgramInfo>,
    pub kernel_info: Option<KernelProgramInfo>,
}

/// A copy of a byte vector.
pub fn copy_bytes(v: &Vec<u8>) -> (r: Vec<u8>)
    ensures
        r@ == v@,
{
    let mut r: Vec<u8> = Vec::new();
    let n = v.len();
    let mut i: usize = 0;
    while i < n
        invariant
            n == v.len(),
            i <= n,
            r@ == v@.take(i as int),
        decreases n - i,
    {
        r.push(v[i]);
        assert(r@ =~= v@.take(i + 1));
        i += 1;
    }
    assert(v@.take(n as int) =~= v@);
    r
}

/// A copy of an optional string.
pub fn copy_opt_string(s: &Option<String>) -> (r: Option<String>)
    ensures
        r == *s,
{
    match s {
        Some(x) => Some(x.clone()),
        None => None,
    }
}

} // verus!
