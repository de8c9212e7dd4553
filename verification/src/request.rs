//! The decisions of a bpfctl run: which request a command sends, which
//! daemon endpoint is tried next, and what is shown of the answer.
use vstd::prelude::*;
use vstd::utf8::valid_utf8;
use crate::bpf::{ImagePullPolicy, ProgramType, parse_all};
use crate::cli::{CommandError, Commands, image_args_unusable, image_args_usable, image_outcome};
use crate::codec::base64_standard_decode;
use crate::keyed::{KeyedValues, map_of_pairs};
use crate::messages::{BytecodeImage, ListRequest, ListResult, LoadRequest, PullBytecodeRequest, UnloadRequest};
use crate::parse::{collect_pairs, global_pairs, parse_global, string_pairs};
use crate::table::{ProgTable, TableError, list_row};

verus! {

/// A request to the daemon.
#[derive(Debug)]
pub enum Request {
    Load(LoadRequest),
    Unload(UnloadRequest),
    List(ListRequest),
    PullBytecode(PullBytecodeRequest),
}

/// The pull arguments give an image description rather than an error.
pub open spec fn image_succeeds(value: crate::cli::PullBytecodeArgs) -> bool {
    &&& ImagePullPolicy::of_name(value.pull_policy@) is Some
    &&& value.registry_auth matches Some(a) ==> (base64_standard_decode(a@) matches Ok(b) && valid_utf8(b))
}

/// The command's values cannot be turned into a request: its image
/// credentials decode to text without a ':'.
pub open spec fn request_unusable(cmd: Commands) -> bool {
    match cmd {
        Commands::LoadFromImage(l) => image_args_unusable(l.pull_args),
        Commands::PullBytecode(l) => image_args_unusable(l),
        _ => false,
    }
}

/// The bytecode location of a load command is found rather than an error.
pub open spec fn location_succeeds(cmd: Commands) -> bool {
    match cmd {
        Commands::LoadFromImage(l) => image_succeeds(l.pull_args),
        _ => true,
    }
}

/// The load request's fields other than bytecode and attach point are the
/// command's: its section name, the program type of its attach point, its
/// metadata and global data (a later value for a key replacing an earlier
/// one), no uuid, and its map owner.
pub open spec fn load_fields(
    req: LoadRequest,
    section_name: String,
    prog_type: ProgramType,
    metadata: Option<Vec<(String, String)>>,
    global: Option<Vec<crate::cli::GlobalArg>>,
    map_owner_id: Option<u32>,
) -> bool {
    &&& req.name == section_name
    &&& req.program_type == prog_type.code()
    &&& req.metadata@ == map_of_pairs(string_pairs(metadata))
    &&& req.global_data@ == map_of_pairs(global_pairs(global))
    &&& req.uuid is None
    &&& req.map_owner_id == map_owner_id
}

/// What the request of a command is.
pub open spec fn request_outcome(cmd: Commands, r: Result<Request, CommandError>) -> bool {
    match cmd {
        Commands::LoadFromFile(l) => match r {
            Ok(Request::Load(req)) => cmd.location_outcome(Ok(req.bytecode)) && cmd.attach_info_outcome(
                Ok(req.attach),
            ) && load_fields(req, l.section_name, l.command.prog_type(), l.metadata, l.global, l.map_owner_id),
            Ok(_) => false,
            Err(e) => cmd.attach_info_outcome(Err(e)),
        },
        Commands::LoadFromImage(l) => match r {
            Ok(Request::Load(req)) => cmd.location_outcome(Ok(req.bytecode)) && cmd.attach_info_outcome(
                Ok(req.attach),
            ) && load_fields(req, l.section_name, l.command.prog_type(), l.metadata, l.global, l.map_owner_id),
            Ok(_) => false,
            Err(e) => if location_succeeds(cmd) {
                cmd.attach_info_outcome(Err(e))
            } else {
                cmd.location_outcome(Err(e))
            },
        },
        Commands::Unload(l) => r matches Ok(Request::Unload(u)) && u.id == l.id,
        Commands::List(l) => r matches Ok(Request::List(q)) && q.program_type == (match l.program_type {
            Some(t) => Some(t.code()),
            None => None,
        }) && q.match_metadata@ == map_of_pairs(string_pairs(l.metadata_selector))
            && q.bpfd_programs_only == Some(!l.all),
        Commands::Get { id } => r matches Ok(Request::List(q)) && q.program_type is None
            && q.match_metadata@ == Map::<Seq<char>, Seq<char>>::empty()
            && q.bpfd_programs_only is None,
        Commands::PullBytecode(l) => match r {
            Ok(Request::PullBytecode(PullBytecodeRequest { image: Some(img) })) => image_outcome(l, Ok(img)),
            Ok(_) => false,
            Err(e) => image_outcome(l, Err(e)),
        },
    }
}

/// The request that a command sends to the daemon.
pub fn plan_request(command: &Commands) -> (r: Result<Request, CommandError>)
    requires
        !request_unusable(*command),
    ensures
        request_outcome(*command, r),
{
    match command {
        Commands::LoadFromImage(l) => {
            let bytecode = match command.get_bytecode_location() {
                Ok(t) => t,
                Err(e) => return Err(e),
            };
            let attach = match command.get_attach_info() {
                Ok(t) => t,
                Err(e) => return Err(e),
            };
            let prog_type = l.command.get_prog_type();
            Ok(
                Request::Load(
                    LoadRequest {
                        bytecode,
                        name: l.section_name.clone(),
                        program_type: prog_type.as_u32(),
                        attach,
                        metadata: collect_pairs(&l.metadata),
                        global_data: parse_global(&l.global),
                        uuid: None,
                        map_owner_id: l.map_owner_id,
                    },
                ),
            )
        },
        Commands::LoadFromFile(l) => {
            let bytecode = match command.get_bytecode_location() {
                Ok(t) => t,
                Err(e) => return Err(e),
            };
            let attach = match command.get_attach_info() {
                Ok(t) => t,
                Err(e) => return Err(e),
            };
            let prog_type = l.command.get_prog_type();
            Ok(
                Request::Load(
                    LoadRequest {
                        bytecode,
                        name: l.section_name.clone(),
                        program_type: prog_type.as_u32(),
                        attach,
                        metadata: collect_pairs(&l.metadata),
                        global_data: parse_global(&l.global),
                        uuid: None,
                        map_owner_id: l.map_owner_id,
                    },
                ),
            )
        },
        Commands::Unload(l) => Ok(Request::Unload(UnloadRequest { id: l.id })),
        Commands::List(l) => {
            let program_type = match &l.program_type {
                Some(p) => Some(p.as_u32()),
                None => None,
            };
            Ok(
                Request::List(
                    ListRequest {
                        program_type,
                        match_metadata: collect_pairs(&l.metadata_selector),
                        bpfd_programs_only: Some(!l.all),
                    },
                ),
            )
        },
        Commands::Get { id } => Ok(
            Request::List(
                ListRequest { program_type: None, match_metadata: KeyedValues::new(), bpfd_programs_only: None },
            ),
        ),
        Commands::PullBytecode(l) => {
            let image = match BytecodeImage::try_from_pull_args(l) {
                Ok(i) => i,
                Err(e) => return Err(e),
            };
            Ok(Request::PullBytecode(PullBytecodeRequest { image: Some(image) }))
        },
    }
}

/// The request that a command sends to the daemon, or none where its image
/// credentials decode to text without a ':'.
pub fn checked_plan_request(command: &Commands) -> (r: Option<Result<Request, CommandError>>)
    ensures
        r is None <==> request_unusable(*command),
        r matches Some(x) ==> request_outcome(*command, x),
{
    let usable = match command {
        Commands::LoadFromImage(l) => image_args_usable(&l.pull_args),
        Commands::PullBytecode(l) => image_args_usable(l),
        _ => true,
    };
    if usable {
        Some(plan_request(command))
    } else {
        None
    }
}

} // verus!

verus! {

/// Reads the `list` row of a program, if it has one.
pub open spec fn list_row_reader() -> spec_fn(ListResult) -> Option<Seq<Seq<char>>> {
    |r: ListResult|
        match list_row(r) {
            Ok(row) => Some(row),
            Err(_) => None,
        }
}

/// The table that `list` prints: a row per program in the daemon's order,
/// or the error of the first program whose row cannot be built.
pub fn list_table(results: Vec<ListResult>) -> (r: Result<ProgTable, TableError>)
    ensures
        match parse_all(results@, list_row_reader()) {
            Ok(rows) => r matches Ok(t) && t.rows() == rows && t.header() == Some(
                seq!["Program ID"@, "Name"@, "Type"@, "Load Time"@],
            ) && t.style() == crate::table::no_lines_style() && !t.header_emphasised() && t.rows_plain(),
            Err(bad) => r == Err::<ProgTable, TableError>(list_row(bad)->Err_0),
        },
{
    let ghost all = results@;
    let mut table = ProgTable::new_list();
    let mut rest = results;
    let n = rest.len();
    let mut i: usize = 0;
    while i < n
        invariant
            n == all.len(),
            all == results@,
            i <= n,
            rest@ == all.skip(i as int),
            parse_all(all.take(i as int), list_row_reader()) == Ok::<Seq<Seq<Seq<char>>>, ListResult>(table.rows()),
            table.header() == Some(seq!["Program ID"@, "Name"@, "Type"@, "Load Time"@]),
            table.style() == crate::table::no_lines_style(),
            !table.header_emphasised(),
            table.rows_plain(),
        decreases n - i,
    {
        let r = rest.remove(0);
        assert(r == all[i as int]);
        assert(all.take(i + 1).drop_last() =~= all.take(i as int));
        assert(all.take(i + 1).last() == all[i as int]);
        assert(rest@ =~= all.skip(i + 1));
        match table.add_response_prog(r) {
            Ok(()) => {},
            Err(e) => {
                proof {
                    assert(list_row(all[i as int]) is Err);
                    assert(list_row_reader()(all[i as int]) is None);
                    assert(parse_all(all.take(i + 1), list_row_reader()) == Err::<Seq<Seq<Seq<char>>>, ListResult>(all[i as int]));
                    crate::bpf::lemma_parse_all_prefix_err(all, list_row_reader(), i + 1, all[i as int]);
                }
                return Err(e);
            },
        }
        i += 1;
    }
    assert(all.take(n as int) =~= all);
    Ok(table)
}

/// Where the program that `get` asks for stands among the daemon's answers.
#[derive(Debug, PartialEq, Eq)]
pub enum Lookup {
    /// At this position, after programs that all have other kernel ids.
    Found(usize),
    /// Before it is found, the program at this position has no kernel
    /// information, so its id cannot be compared.
    MissingKernelInfo(usize),
    /// No program has the id.
    NotFound,
}

/// The programs before position `i` all have kernel information, with ids
/// other than `id`.
pub open spec fn others_before(results: Seq<ListResult>, id: u32, i: int) -> bool {
    forall|j: int| 0 <= j < i ==> has_other_id(#[trigger] results[j], id)
}

/// The program has kernel information with an id other than `id`.
pub open spec fn has_other_id(r: ListResult, id: u32) -> bool {
    r.kernel_info matches Some(k) && k.id != id
}

/// The program has kernel information with the id `id`.
pub open spec fn has_id(r: ListResult, id: u32) -> bool {
    r.kernel_info matches Some(k) && k.id == id
}

/// Looks for the program with kernel id `id`, comparing the programs in
/// order.
pub fn find_program(results: &Vec<ListResult>, id: u32) -> (r: Lookup)
    ensures
        match r {
            Lookup::Found(i) => i < results@.len() && others_before(results@, id, i as int)
                && has_id(results@[i as int], id),
            Lookup::MissingKernelInfo(i) => i < results@.len() && others_before(results@, id, i as int)
                && results@[i as int].kernel_info is None,
            Lookup::NotFound => others_before(results@, id, results@.len() as int),
        },
{
    let n = results.len();
    let mut i: usize = 0;
    while i < n
        invariant
            n == results.len(),
            i <= n,
            others_before(results@, id, i as int),
        decreases n - i,
    {
        match &results[i].kernel_info {
            None => return Lookup::MissingKernelInfo(i),
            Some(k) => {
                if k.id == id {
                    return Lookup::Found(i);
                }
            },
        }
        i += 1;
    }
    Lookup::NotFound
}

/// A daemon endpoint from the configuration.
#[derive(Debug)]
pub enum Endpoint {
    Tcp { address: String, port: u16, enabled: bool },
    Unix { path: String, enabled: bool },
}

impl Endpoint {
    /// The endpoint is to be tried.
    pub open spec fn is_enabled(self) -> bool {
        match self {
            Endpoint::Tcp { enabled, .. } => enabled,
            Endpoint::Unix { enabled, .. } => enabled,
        }
    }
}

/// The next endpoint to try from position `from` on: the first enabled
/// one, the disabled ones before it being skipped.
pub fn next_enabled_endpoint(endpoints: &Vec<Endpoint>, from: usize) -> (r: Option<usize>)
    ensures
        match r {
            Some(i) => from <= i < endpoints@.len() && endpoints@[i as int].is_enabled() && forall|j: int|
                from <= j < i ==> !(#[trigger] endpoints@[j]).is_enabled(),
            None => forall|j: int| from <= j < endpoints@.len() ==> !(#[trigger] endpoints@[j]).is_enabled(),
        },
{
    let n = endpoints.len();
    let mut i: usize = from;
    while i < n
        invariant
            n == endpoints.len(),
            from <= i,
            forall|j: int| from <= j < i && j < n ==> !(#[trigger] endpoints@[j]).is_enabled(),
        decreases n - i,
    {
        let enabled = match &endpoints[i] {
            Endpoint::Tcp { enabled, .. } => *enabled,
            Endpoint::Unix { enabled, .. } => *enabled,
        };
        if enabled {
            return Some(i);
        }
        i += 1;
    }
    None
}

} // verus!
