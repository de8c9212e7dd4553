//! The tables that bpfctl prints: one row per program for `list`, and for
//! `get` the daemon's and the kernel's view of one program. The tables are
//! comfy-table tables; their contents are described by the text of their
//! header and row cells.
use comfy_table::Table;
use vstd::prelude::*;
use vstd::utf8::encode_utf8;
use crate::bpf::{
    ImagePullPolicy, ParseError, ProbeType, ProgramType, TcProceedOn, TcProceedOnEntry, XdpProceedOn,
    XdpProceedOnEntry, tc_from_codes, xdp_from_codes,
};
use crate::codec::hex_encode_upper;
use crate::messages::{Info, KernelProgramInfo, ListResult, Location, ProgramInfo};
use crate::text::{decimal, decimal_string, hex_upper, join, signed_decimal, signed_decimal_string, views};

verus! {

#[verifier::external_type_specification]
#[verifier::external_body]
pub struct ExTable(comfy_table::Table);

/// The text of the header cells of a comfy-table table (each cell's
/// `content()`), if a header is set.
pub uninterp spec fn table_header(t: Table) -> Option<Seq<Seq<char>>>;

/// The text of the cells of each row of a comfy-table table, in order.
pub uninterp spec fn table_rows(t: Table) -> Seq<Seq<Seq<char>>>;

/// Whether a comfy-table table has a header of at least one cell in which
/// every cell is bold (`Attribute::Bold`) with green text (`Color::Green`).
pub uninterp spec fn table_header_emphasised(t: Table) -> bool;

/// Whether every cell of every row of a comfy-table table is as `Cell::new`
/// makes it, apart from its text: no attribute, no colour, no alignment of
/// its own and no delimiter of its own.
pub uninterp spec fn table_rows_plain(t: Table) -> bool;

/// The drawing style of a comfy-table table, as `current_style_as_preset`
/// returns it: one character per table component.
pub uninterp spec fn table_style(t: Table) -> Seq<char>;

/// Calls `Table::new`, which makes a table with no header and no rows.
#[verifier::external_body]
fn table_new() -> (t: Table)
    ensures
        table_header(t) is None,
        !table_header_emphasised(t),
        table_rows(t) == Seq::<Seq<Seq<char>>>::empty(),
        table_rows_plain(t),
{
    Table::new()
}

/// Calls `Table::load_preset` with `comfy_table::presets::NOTHING`, 19
/// spaces: one for each of the 19 table components, a space removing the
/// component, so that the style read back is 19 spaces. The header and
/// rows stay as they were.
#[verifier::external_body]
fn table_load_nothing_preset(t: &mut Table)
    ensures
        table_style(*final(t)) == no_lines_style(),
        table_header(*final(t)) == table_header(*old(t)),
        table_header_emphasised(*final(t)) == table_header_emphasised(*old(t)),
        table_rows_plain(*final(t)) == table_rows_plain(*old(t)),
        table_rows(*final(t)) == table_rows(*old(t)),
{
    t.load_preset(comfy_table::presets::NOTHING);
}

/// Calls `Table::set_header` with one cell per string. `Cell::new` splits
/// a text at newlines and `content` joins the lines again, so the cell
/// texts are the strings; such cells carry no attribute and no colour.
/// The rows and the style stay as they were.
#[verifier::external_body]
fn table_set_header(t: &mut Table, cells: Vec<String>)
    ensures
        table_header(*final(t)) == Some(views(cells@)),
        !table_header_emphasised(*final(t)),
        table_rows_plain(*final(t)) == table_rows_plain(*old(t)),
        table_rows(*final(t)) == table_rows(*old(t)),
        table_style(*final(t)) == table_style(*old(t)),
{
    t.set_header(cells);
}

/// Calls `Table::set_header` with a single cell holding `title`, made bold
/// and green with `Cell::add_attribute` and `Cell::fg`.
#[verifier::external_body]
fn table_set_emphasised_header(t: &mut Table, title: &str)
    ensures
        table_header(*final(t)) == Some(seq![title@]),
        table_header_emphasised(*final(t)),
        table_rows_plain(*final(t)) == table_rows_plain(*old(t)),
        table_rows(*final(t)) == table_rows(*old(t)),
        table_style(*final(t)) == table_style(*old(t)),
{
    t.set_header(vec![
        comfy_table::Cell::new(title).add_attribute(comfy_table::Attribute::Bold).fg(
            comfy_table::Color::Green,
        ),
    ]);
}

/// Calls `Table::add_row` with one cell per string: the row is appended
/// after the others, its cells made by `Cell::new` and so unstyled; the
/// header and the style stay as they were.
#[verifier::external_body]
fn table_add_row(t: &mut Table, cells: Vec<String>)
    ensures
        table_rows(*final(t)) == table_rows(*old(t)).push(views(cells@)),
        table_header(*final(t)) == table_header(*old(t)),
        table_header_emphasised(*final(t)) == table_header_emphasised(*old(t)),
        table_rows_plain(*final(t)) == table_rows_plain(*old(t)),
        table_style(*final(t)) == table_style(*old(t)),
{
    t.add_row(cells);
}

/// The style without any borders or lines: a space for each of the 19
/// table components.
pub open spec fn no_lines_style() -> Seq<char> {
    Seq::new(19, |i: int| ' ')
}

/// Why a table cannot be built from what the daemon sent.
#[derive(Debug, PartialEq, Eq)]
pub enum TableError {
    /// The kernel reported an unknown program type.
    ProgramType(ParseError),
    /// The image's pull policy is unknown.
    PullPolicy(ParseError),
    /// An XDP or TC "proceed on" action is unknown.
    ProceedOn(ParseError),
}

/// A table of programs.
pub struct ProgTable {
    table: Table,
}

impl ProgTable {
    /// The texts of the header cells, if any.
    pub closed spec fn header(&self) -> Option<Seq<Seq<char>>> {
        table_header(self.table)
    }

    /// The texts of the cells of each row.
    pub closed spec fn rows(&self) -> Seq<Seq<Seq<char>>> {
        table_rows(self.table)
    }

    /// Whether the header is shown in bold green.
    pub closed spec fn header_emphasised(&self) -> bool {
        table_header_emphasised(self.table)
    }

    /// Whether the row cells are plain text, without any styling.
    pub closed spec fn rows_plain(&self) -> bool {
        table_rows_plain(self.table)
    }

    /// The drawing style.
    pub closed spec fn style(&self) -> Seq<char> {
        table_style(self.table)
    }

    /// The comfy-table table, for printing.
    pub fn table(&self) -> (r: &Table)
        ensures
            table_header(*r) == self.header(),
            table_header_emphasised(*r) == self.header_emphasised(),
            table_rows_plain(*r) == self.rows_plain(),
            table_rows(*r) == self.rows(),
            table_style(*r) == self.style(),
    {
        &self.table
    }

    /// The empty table of `list`: columns Program ID, Name, Type and Load Time.
    pub fn new_list() -> (r: ProgTable)
        ensures
            r.header() == Some(seq!["Program ID"@, "Name"@, "Type"@, "Load Time"@]),
            !r.header_emphasised(),
            r.rows_plain(),
            r.rows() == Seq::<Seq<Seq<char>>>::empty(),
            r.style() == no_lines_style(),
    {
        let mut table = table_new();
        table_load_nothing_preset(&mut table);
        let header = vec![
            String::from_str("Program ID"),
            String::from_str("Name"),
            String::from_str("Type"),
            String::from_str("Load Time"),
        ];
        table_set_header(&mut table, header);
        let r = ProgTable { table };
        assert(r.header() == Some(seq!["Program ID"@, "Name"@, "Type"@, "Load Time"@]));
        r
    }

    /// Appends a row of `list`.
    pub fn add_row_list(&mut self, kernel_id: String, name: String, type_: String, load_time: String)
        ensures
            final(self).rows() == old(self).rows().push(seq![kernel_id@, name@, type_@, load_time@]),
            final(self).header() == old(self).header(),
            final(self).header_emphasised() == old(self).header_emphasised(),
            final(self).rows_plain() == old(self).rows_plain(),
            final(self).style() == old(self).style(),
    {
        let row = vec![kernel_id, name, type_, load_time];
        table_add_row(&mut self.table, row);
        assert(views(row@) =~= seq![kernel_id@, name@, type_@, load_time@]);
    }
}

} // verus!

verus! {

/// "true" or "false".
pub open spec fn bool_text(b: bool) -> Seq<char> {
    if b {
        "true"@
    } else {
        "false"@
    }
}

/// A list of numbers as Rust's `Debug` writes it: "[1, 2, 3]".
pub open spec fn id_list_text(ids: Seq<u32>) -> Seq<char> {
    seq!['['] + join(ids.map_values(|i: u32| decimal(i as nat)), ", "@) + seq![']']
}

/// The name of a program, or nothing when the daemon knows nothing of it.
pub open spec fn program_name(r: ListResult) -> Seq<char> {
    match r.info {
        Some(i) => i.name@,
        None => Seq::empty(),
    }
}

/// The row that `list` shows for a program: its kernel id, name, type and
/// load time; "NONE" when the kernel knows nothing of it; an error when
/// the kernel's program type is unknown.
pub open spec fn list_row(r: ListResult) -> Result<Seq<Seq<char>>, TableError> {
    match r.kernel_info {
        None => Ok(seq!["NONE"@]),
        Some(k) => match ProgramType::of_code(k.program_type) {
            None => Err(TableError::ProgramType(ParseError::InvalidProgramType { program: k.program_type })),
            Some(t) => Ok(seq![decimal(k.id as nat), program_name(r), t.name(), k.loaded_at@]),
        },
    }
}

/// The rows of the kernel's view of a program of type `t`.
pub open spec fn kernel_rows(k: KernelProgramInfo, t: ProgramType) -> Seq<Seq<Seq<char>>> {
    seq![
        seq!["Kernel ID:"@, decimal(k.id as nat)],
        seq!["Type:"@, t.name()],
        seq!["Loaded At:"@, k.loaded_at@],
        seq!["Tag:"@, k.tag@],
        seq!["GPL Compatible:"@, bool_text(k.gpl_compatible)],
        seq!["Map IDs:"@, id_list_text(k.map_ids@)],
        seq!["BTF ID:"@, decimal(k.btf_id as nat)],
        seq!["Size Translated (bytes):"@, decimal(k.bytes_xlated as nat)],
        seq!["JITted:"@, bool_text(k.jited)],
        seq!["Size JITted:"@, decimal(k.bytes_jited as nat)],
        seq!["Kernel Allocated Memory (bytes):"@, decimal(k.bytes_memlock as nat)],
        seq!["Verified Instruction Count:"@, decimal(k.verified_insns as nat)],
    ]
}

/// The rows of the "Kernel State" table of `get`: "NONE" when the kernel
/// knows nothing of the program, an error when its type is unknown.
pub open spec fn unsupported_rows(r: ListResult) -> Result<Seq<Seq<Seq<char>>>, TableError> {
    match r.kernel_info {
        None => Ok(seq![seq!["NONE"@]]),
        Some(k) => match ProgramType::of_code(k.program_type) {
            None => Err(TableError::ProgramType(ParseError::InvalidProgramType { program: k.program_type })),
            Some(t) => Ok(kernel_rows(k, t)),
        },
    }
}

/// "true" or "false".
fn bool_string(b: bool) -> (r: String)
    ensures
        r@ == bool_text(b),
{
    if b {
        String::from_str("true")
    } else {
        String::from_str("false")
    }
}

/// A number in decimal.
fn u32_string(n: u32) -> (r: String)
    ensures
        r@ == decimal(n as nat),
{
    decimal_string(n as u64)
}

/// A list of numbers as Rust's `Debug` writes it.
fn id_list_string(ids: &Vec<u32>) -> (r: String)
    ensures
        r@ == id_list_text(ids@),
{
    let mut parts: Vec<String> = Vec::new();
    let n = ids.len();
    let mut i: usize = 0;
    while i < n
        invariant
            n == ids.len(),
            i <= n,
            views(parts@) == ids@.take(i as int).map_values(|x: u32| decimal(x as nat)),
        decreases n - i,
    {
        let ghost prev = parts@;
        parts.push(u32_string(ids[i]));
        assert(views(parts@) =~= views(prev).push(decimal(ids@[i as int] as nat)));
        assert(ids@.take(i + 1).map_values(|x: u32| decimal(x as nat)) =~= ids@.take(i as int).map_values(
            |x: u32| decimal(x as nat),
        ).push(decimal(ids@[i as int] as nat)));
        i += 1;
    }
    assert(ids@.take(n as int) =~= ids@);
    let mut r = String::from_str("[");
    let inner = crate::text::join_strings(&parts, ", ");
    r.append(inner.as_str());
    r.append("]");
    proof {
        reveal_strlit("[");
        reveal_strlit("]");
    }
    assert(r@ =~= id_list_text(ids@));
    r
}

/// A row of two cells.
fn add_pair_row(t: &mut Table, label: &str, value: String)
    ensures
        table_rows(*final(t)) == table_rows(*old(t)).push(seq![label@, value@]),
        table_header(*final(t)) == table_header(*old(t)),
        table_header_emphasised(*final(t)) == table_header_emphasised(*old(t)),
        table_rows_plain(*final(t)) == table_rows_plain(*old(t)),
        table_style(*final(t)) == table_style(*old(t)),
{
    let row = vec![String::from_str(label), value];
    table_add_row(t, row);
    assert(views(row@) =~= seq![label@, value@]);
}

/// A row of one cell.
fn add_single_row(t: &mut Table, text: &str)
    ensures
        table_rows(*final(t)) == table_rows(*old(t)).push(seq![text@]),
        table_header(*final(t)) == table_header(*old(t)),
        table_header_emphasised(*final(t)) == table_header_emphasised(*old(t)),
        table_rows_plain(*final(t)) == table_rows_plain(*old(t)),
        table_style(*final(t)) == table_style(*old(t)),
{
    let row = vec![String::from_str(text)];
    table_add_row(t, row);
    assert(views(row@) =~= seq![text@]);
}

/// An empty table without lines, headed by `title` in bold green.
fn titled_table(title: &str) -> (t: Table)
    ensures
        table_header(t) == Some(seq![title@]),
        table_header_emphasised(t),
        table_rows_plain(t),
        table_rows(t) == Seq::<Seq<Seq<char>>>::empty(),
        table_style(t) == no_lines_style(),
{
    let mut table = table_new();
    table_load_nothing_preset(&mut table);
    table_set_emphasised_header(&mut table, title);
    table
}

impl ProgTable {
    /// Appends the row of `list` for a program.
    pub fn add_response_prog(&mut self, r: ListResult) -> (res: Result<(), TableError>)
        ensures
            match list_row(r) {
                Ok(row) => res is Ok && final(self).rows() == old(self).rows().push(row),
                Err(e) => res == Err::<(), TableError>(e) && final(self).rows() == old(self).rows(),
            },
            final(self).header() == old(self).header(),
            final(self).header_emphasised() == old(self).header_emphasised(),
            final(self).rows_plain() == old(self).rows_plain(),
            final(self).style() == old(self).style(),
    {
        let kernel_info = match r.kernel_info {
            None => {
                add_single_row(&mut self.table, "NONE");
                return Ok(());
            },
            Some(k) => k,
        };
        let name = match r.info {
            None => String::new(),
            Some(i) => i.name,
        };
        let prog_type = match ProgramType::try_from_u32(kernel_info.program_type) {
            Ok(t) => t,
            Err(e) => return Err(TableError::ProgramType(e)),
        };
        self.add_row_list(
            u32_string(kernel_info.id),
            name,
            prog_type.name_string(),
            kernel_info.loaded_at,
        );
        Ok(())
    }

    /// The "Kernel State" table of `get`: what the kernel reports about the
    /// program.
    pub fn new_get_unsupported(r: &ListResult) -> (res: Result<ProgTable, TableError>)
        ensures
            match unsupported_rows(*r) {
                Ok(rows) => res matches Ok(t) && t.rows() == rows && t.header() == Some(seq!["Kernel State"@])
                    && t.header_emphasised() && t.rows_plain()
                    && t.style() == no_lines_style(),
                Err(e) => res == Err::<ProgTable, TableError>(e),
            },
    {
        let mut table = titled_table("Kernel State");
        let kernel_info = match &r.kernel_info {
            None => {
                add_single_row(&mut table, "NONE");
                assert(table_rows(table) =~= seq![seq!["NONE"@]]);
                return Ok(ProgTable { table });
            },
            Some(k) => k,
        };
        let prog_type = match ProgramType::try_from_u32(kernel_info.program_type) {
            Ok(t) => t,
            Err(e) => return Err(TableError::ProgramType(e)),
        };
        add_pair_row(&mut table, "Kernel ID:", u32_string(kernel_info.id));
        add_pair_row(&mut table, "Type:", prog_type.name_string());
        add_pair_row(&mut table, "Loaded At:", kernel_info.loaded_at.clone());
        add_pair_row(&mut table, "Tag:", kernel_info.tag.clone());
        add_pair_row(&mut table, "GPL Compatible:", bool_string(kernel_info.gpl_compatible));
        add_pair_row(&mut table, "Map IDs:", id_list_string(&kernel_info.map_ids));
        add_pair_row(&mut table, "BTF ID:", u32_string(kernel_info.btf_id));
        add_pair_row(&mut table, "Size Translated (bytes):", u32_string(kernel_info.bytes_xlated));
        add_pair_row(&mut table, "JITted:", bool_string(kernel_info.jited));
        add_pair_row(&mut table, "Size JITted:", u32_string(kernel_info.bytes_jited));
        add_pair_row(&mut table, "Kernel Allocated Memory (bytes):", u32_string(kernel_info.bytes_memlock));
        add_pair_row(&mut table, "Verified Instruction Count:", u32_string(kernel_info.verified_insns));
        assert(table_rows(table) =~= kernel_rows(*kernel_info, prog_type));
        Ok(ProgTable { table })
    }
}

} // verus!

verus! {

/// Rows listing `values` under `label`: the label beside the first value
/// and nothing beside the others; "None" beside the label when there are
/// no values.
pub open spec fn labelled_rows(label: Seq<char>, values: Seq<Seq<char>>) -> Seq<Seq<Seq<char>>> {
    if values.len() == 0 {
        seq![seq![label, "None"@]]
    } else {
        Seq::new(
            values.len(),
            |i: int|
                seq![
                    if i == 0 {
                        label
                    } else {
                        Seq::empty()
                    },
                    values[i],
                ],
        )
    }
}

/// A key, '=' and the bytes of its value in upper-case hexadecimal.
pub open spec fn key_hex(key: Seq<char>, bytes: Seq<u8>) -> Seq<char> {
    key + seq!['='] + hex_upper(bytes)
}

/// The texts shown for metadata: each value's UTF-8 bytes in hexadecimal.
pub open spec fn metadata_texts(md: Seq<(String, String)>) -> Seq<Seq<char>> {
    md.map_values(|kv: (String, String)| key_hex(kv.0@, encode_utf8(kv.1@)))
}

/// The texts shown for global data: each value in hexadecimal.
pub open spec fn global_texts(gd: Seq<(String, Vec<u8>)>) -> Seq<Seq<char>> {
    gd.map_values(|kv: (String, Vec<u8>)| key_hex(kv.0@, kv.1@))
}

/// The table that says the daemon knows nothing of the program.
pub open spec fn none_rows() -> Seq<Seq<Seq<char>>> {
    seq![seq!["NONE"@]]
}

/// The rows that say where the bytecode comes from.
pub open spec fn location_rows(loc: Location) -> Result<Seq<Seq<Seq<char>>>, TableError> {
    match loc {
        Location::Image(i) => match ImagePullPolicy::of_code(i.image_pull_policy) {
            None => Err(TableError::PullPolicy(ParseError::InvalidPullPolicyValue { pull_policy: i.image_pull_policy })),
            Some(p) => Ok(seq![seq!["Image URL:"@, i.url@], seq!["Pull Policy:"@, p.name()]]),
        },
        Location::File(p) => Ok(seq![seq!["Path:"@, p@]]),
    }
}

/// The rows on metadata, global data and maps.
pub open spec fn detail_rows(info: ProgramInfo) -> Seq<Seq<Seq<char>>> {
    labelled_rows("Metadata:"@, metadata_texts(info.metadata@))
        + labelled_rows("Global:"@, global_texts(info.global_data@))
        + seq![
            seq![
                "Map Pin Path:"@,
                match info.map_pin_path {
                    Some(p) => if p@.len() == 0 {
                        "None"@
                    } else {
                        p@
                    },
                    None => "None"@,
                },
            ],
            seq![
                "Map Owner ID:"@,
                match info.map_owner_id {
                    Some(i) => decimal(i as nat),
                    None => "None"@,
                },
            ],
        ]
        + labelled_rows("Maps Used By:"@, views(info.map_used_by@))
}

/// An optional text, or nothing.
pub open spec fn text_or_empty(s: Option<String>) -> Seq<char> {
    match s {
        Some(x) => x@,
        None => Seq::empty(),
    }
}

/// The rows that describe an attach point.
pub open spec fn attach_rows(info: Info) -> Result<Seq<Seq<Seq<char>>>, TableError> {
    match info {
        Info::XdpAttachInfo(x) => match xdp_from_codes(x.proceed_on@) {
            Err(c) => Err(TableError::ProceedOn(ParseError::InvalidProceedOnValue { proceedon: c })),
            Ok(es) => Ok(
                seq![
                    seq!["Priority:"@, signed_decimal(x.priority as int)],
                    seq!["Iface:"@, x.iface@],
                    seq!["Position:"@, signed_decimal(x.position as int)],
                    seq!["Proceed On:"@, join(es.map_values(|e: XdpProceedOnEntry| e.name()), ", "@)],
                ],
            ),
        },
        Info::TcAttachInfo(x) => match tc_from_codes(x.proceed_on@) {
            Err(c) => Err(TableError::ProceedOn(ParseError::InvalidProceedOnValue { proceedon: c })),
            Ok(es) => Ok(
                seq![
                    seq!["Priority:"@, signed_decimal(x.priority as int)],
                    seq!["Iface:"@, x.iface@],
                    seq!["Position:"@, signed_decimal(x.position as int)],
                    seq!["Direction:"@, x.direction@],
                    seq!["Proceed On:"@, join(es.map_values(|e: TcProceedOnEntry| e.name()), ", "@)],
                ],
            ),
        },
        Info::TracepointAttachInfo(x) => Ok(seq![seq!["Tracepoint:"@, x.tracepoint@]]),
        Info::KprobeAttachInfo(x) => Ok(
            seq![
                seq![
                    "Probe Type:"@,
                    if x.retprobe {
                        ProbeType::Kretprobe.name()
                    } else {
                        ProbeType::Kprobe.name()
                    },
                ],
                seq!["Function Name:"@, x.fn_name@],
                seq!["Offset:"@, decimal(x.offset as nat)],
                seq!["Namespace"@, text_or_empty(x.namespace)],
            ],
        ),
        Info::UprobeAttachInfo(x) => Ok(
            seq![
                seq![
                    "Probe Type:"@,
                    if x.retprobe {
                        ProbeType::Uretprobe.name()
                    } else {
                        ProbeType::Uprobe.name()
                    },
                ],
                seq!["Function Name:"@, text_or_empty(x.fn_name)],
                seq!["Offset:"@, decimal(x.offset as nat)],
                seq!["Target:"@, x.target@],
                seq![
                    "PID"@,
                    signed_decimal(
                        match x.pid {
                            Some(p) => p as int,
                            None => 0,
                        },
                    ),
                ],
                seq!["Namespace"@, text_or_empty(x.namespace)],
            ],
        ),
    }
}

/// The daemon's description of where a program came from and where it is
/// attached; when the daemon knows nothing of it, the table says "NONE".
pub open spec fn bpfd_rows(r: ListResult) -> Result<Seq<Seq<Seq<char>>>, TableError> {
    match r.info {
        None => Ok(none_rows()),
        Some(info) => match info.bytecode {
            None => Ok(none_rows()),
            Some(b) => match b.location {
                None => Ok(none_rows()),
                Some(loc) => match location_rows(loc) {
                    Err(e) => Err(e),
                    Ok(lrows) => match info.attach {
                        None => Ok(lrows + detail_rows(info)),
                        Some(a) => match a.info {
                            None => Ok(lrows + detail_rows(info)),
                            Some(i) => match attach_rows(i) {
                                Err(e) => Err(e),
                                Ok(arows) => Ok(lrows + detail_rows(info) + arows),
                            },
                        },
                    },
                },
            },
        },
    }
}

/// The program's attach information is present but empty, where the
/// "Bpfd State" table comes to describe it.
pub open spec fn bpfd_table_unbuildable(r: ListResult) -> bool {
    &&& r.info matches Some(info)
    &&& info.bytecode matches Some(b)
    &&& b.location matches Some(loc)
    &&& location_rows(loc) is Ok
    &&& info.attach matches Some(a)
    &&& a.info is None
}

} // verus!

verus! {

/// Appends the rows listing `values` under `label`.
fn add_labelled_rows(t: &mut Table, label: &str, values: &Vec<String>)
    ensures
        table_rows(*final(t)) == table_rows(*old(t)) + labelled_rows(label@, views(values@)),
        table_header(*final(t)) == table_header(*old(t)),
        table_header_emphasised(*final(t)) == table_header_emphasised(*old(t)),
        table_rows_plain(*final(t)) == table_rows_plain(*old(t)),
        table_style(*final(t)) == table_style(*old(t)),
{
    let ghost start = table_rows(*t);
    let n = values.len();
    if n == 0 {
        add_pair_row(t, label, String::from_str("None"));
        assert(table_rows(*t) =~= start + labelled_rows(label@, views(values@)));
        return;
    }
    let ghost all = labelled_rows(label@, views(values@));
    let mut i: usize = 0;
    while i < n
        invariant
            n == values.len(),
            n > 0,
            i <= n,
            all == labelled_rows(label@, views(values@)),
            table_rows(*t) == start + all.take(i as int),
            table_header(*t) == table_header(*old(t)),
            table_header_emphasised(*t) == table_header_emphasised(*old(t)),
            table_rows_plain(*t) == table_rows_plain(*old(t)),
            table_style(*t) == table_style(*old(t)),
        decreases n - i,
    {
        let first = if i == 0 {
            String::from_str(label)
        } else {
            String::new()
        };
        let row = vec![first, values[i].clone()];
        table_add_row(t, row);
        assert(views(row@) =~= all[i as int]);
        assert(all.take(i + 1) =~= all.take(i as int).push(all[i as int]));
        i += 1;
    }
    assert(all.take(n as int) =~= all);
}

/// The texts shown for metadata.
fn metadata_text_vec(md: &Vec<(String, String)>) -> (r: Vec<String>)
    ensures
        views(r@) == metadata_texts(md@),
{
    let mut r: Vec<String> = Vec::new();
    let n = md.len();
    let mut i: usize = 0;
    proof {
        reveal_strlit("=");
    }
    while i < n
        invariant
            n == md.len(),
            i <= n,
            "="@ == seq!['='],
            views(r@) == metadata_texts(md@.take(i as int)),
        decreases n - i,
    {
        let kv = &md[i];
        let mut text = crate::text::concat(kv.0.as_str(), "=");
        let hex = hex_encode_upper(kv.1.as_str().as_bytes());
        text.append(hex.as_str());
        let ghost prev = r@;
        r.push(text);
        assert(views(r@) =~= views(prev).push(key_hex(kv.0@, encode_utf8(kv.1@))));
        assert(metadata_texts(md@.take(i + 1)) =~= metadata_texts(md@.take(i as int)).push(
            key_hex(kv.0@, encode_utf8(kv.1@)),
        ));
        i += 1;
    }
    assert(md@.take(n as int) =~= md@);
    r
}

/// The texts shown for global data.
fn global_text_vec(gd: &Vec<(String, Vec<u8>)>) -> (r: Vec<String>)
    ensures
        views(r@) == global_texts(gd@),
{
    let mut r: Vec<String> = Vec::new();
    let n = gd.len();
    let mut i: usize = 0;
    proof {
        reveal_strlit("=");
    }
    while i < n
        invariant
            n == gd.len(),
            i <= n,
            "="@ == seq!['='],
            views(r@) == global_texts(gd@.take(i as int)),
        decreases n - i,
    {
        let kv = &gd[i];
        let mut text = crate::text::concat(kv.0.as_str(), "=");
        let hex = hex_encode_upper(kv.1.as_slice());
        text.append(hex.as_str());
        let ghost prev = r@;
        r.push(text);
        assert(views(r@) =~= views(prev).push(key_hex(kv.0@, kv.1@)));
        assert(global_texts(gd@.take(i + 1)) =~= global_texts(gd@.take(i as int)).push(key_hex(kv.0@, kv.1@)));
        i += 1;
    }
    assert(gd@.take(n as int) =~= gd@);
    r
}

/// A copy of an optional text, or nothing.
fn text_or_empty_string(s: &Option<String>) -> (r: String)
    ensures
        r@ == text_or_empty(*s),
{
    match s {
        Some(x) => x.clone(),
        None => String::new(),
    }
}

/// Appends the rows on metadata, global data and maps.
fn add_detail_rows(t: &mut Table, info: &ProgramInfo)
    ensures
        table_rows(*final(t)) == table_rows(*old(t)) + detail_rows(*info),
        table_header(*final(t)) == table_header(*old(t)),
        table_header_emphasised(*final(t)) == table_header_emphasised(*old(t)),
        table_rows_plain(*final(t)) == table_rows_plain(*old(t)),
        table_style(*final(t)) == table_style(*old(t)),
{
    let ghost start = table_rows(*t);
    add_labelled_rows(t, "Metadata:", &metadata_text_vec(&info.metadata));
    let ghost after_meta = table_rows(*t);
    add_labelled_rows(t, "Global:", &global_text_vec(&info.global_data));
    let ghost after_global = table_rows(*t);
    let pin = match &info.map_pin_path {
        Some(p) => if p.as_str().is_empty() {
            String::from_str("None")
        } else {
            p.clone()
        },
        None => String::from_str("None"),
    };
    let ghost pin_text = pin@;
    assert(pin_text == match info.map_pin_path {
        Some(p) => if p@.len() == 0 {
            "None"@
        } else {
            p@
        },
        None => "None"@,
    });
    add_pair_row(t, "Map Pin Path:", pin);
    let owner = match info.map_owner_id {
        Some(i) => u32_string(i),
        None => String::from_str("None"),
    };
    let ghost owner_text = owner@;
    assert(owner_text == match info.map_owner_id {
        Some(i) => decimal(i as nat),
        None => "None"@,
    });
    add_pair_row(t, "Map Owner ID:", owner);
    let ghost after_owner = table_rows(*t);
    add_labelled_rows(t, "Maps Used By:", &info.map_used_by);
    let ghost meta = labelled_rows("Metadata:"@, metadata_texts(info.metadata@));
    let ghost glob = labelled_rows("Global:"@, global_texts(info.global_data@));
    let ghost used = labelled_rows("Maps Used By:"@, views(info.map_used_by@));
    let ghost maps = after_owner.subrange(after_global.len() as int, after_owner.len() as int);
    assert(after_owner =~= after_global + maps);
    assert(maps =~= seq![seq!["Map Pin Path:"@, pin_text], seq!["Map Owner ID:"@, owner_text]]);
    assert(table_rows(*t) =~= start + meta + glob + maps + used);
    assert(detail_rows(*info) =~~= meta + glob + seq![seq!["Map Pin Path:"@, pin_text], seq!["Map Owner ID:"@, owner_text]] + used);
    assert(table_rows(*t) =~= start + detail_rows(*info));
}

/// Appends the rows that describe an attach point.
fn add_attach_rows(t: &mut Table, info: &Info) -> (res: Result<(), TableError>)
    ensures
        match attach_rows(*info) {
            Ok(rows) => res is Ok && table_rows(*final(t)) == table_rows(*old(t)) + rows,
            Err(e) => res == Err::<(), TableError>(e),
        },
        table_header(*final(t)) == table_header(*old(t)),
        table_header_emphasised(*final(t)) == table_header_emphasised(*old(t)),
        table_rows_plain(*final(t)) == table_rows_plain(*old(t)),
        table_style(*final(t)) == table_style(*old(t)),
{
    let ghost start = table_rows(*t);
    match info {
        Info::XdpAttachInfo(x) => {
            let proc_on = match XdpProceedOn::from_int32s(&x.proceed_on) {
                Ok(p) => p,
                Err(e) => return Err(TableError::ProceedOn(e)),
            };
            add_pair_row(t, "Priority:", signed_decimal_string(x.priority as i64));
            add_pair_row(t, "Iface:", x.iface.clone());
            add_pair_row(t, "Position:", signed_decimal_string(x.position as i64));
            add_pair_row(t, "Proceed On:", proc_on.display());
            assert(table_rows(*t) =~= start + attach_rows(*info)->Ok_0);
        },
        Info::TcAttachInfo(x) => {
            let proc_on = match TcProceedOn::from_int32s(&x.proceed_on) {
                Ok(p) => p,
                Err(e) => return Err(TableError::ProceedOn(e)),
            };
            add_pair_row(t, "Priority:", signed_decimal_string(x.priority as i64));
            add_pair_row(t, "Iface:", x.iface.clone());
            add_pair_row(t, "Position:", signed_decimal_string(x.position as i64));
            add_pair_row(t, "Direction:", x.direction.clone());
            add_pair_row(t, "Proceed On:", proc_on.display());
            assert(table_rows(*t) =~= start + attach_rows(*info)->Ok_0);
        },
        Info::TracepointAttachInfo(x) => {
            add_pair_row(t, "Tracepoint:", x.tracepoint.clone());
            assert(table_rows(*t) =~= start + attach_rows(*info)->Ok_0);
        },
        Info::KprobeAttachInfo(x) => {
            let probe_type = if x.retprobe {
                ProbeType::Kretprobe
            } else {
                ProbeType::Kprobe
            };
            add_pair_row(t, "Probe Type:", probe_type.name_string());
            add_pair_row(t, "Function Name:", x.fn_name.clone());
            add_pair_row(t, "Offset:", decimal_string(x.offset));
            add_pair_row(t, "Namespace", text_or_empty_string(&x.namespace));
            assert(table_rows(*t) =~= start + attach_rows(*info)->Ok_0);
        },
        Info::UprobeAttachInfo(x) => {
            let probe_type = if x.retprobe {
                ProbeType::Uretprobe
            } else {
                ProbeType::Uprobe
            };
            add_pair_row(t, "Probe Type:", probe_type.name_string());
            add_pair_row(t, "Function Name:", text_or_empty_string(&x.fn_name));
            add_pair_row(t, "Offset:", decimal_string(x.offset));
            add_pair_row(t, "Target:", x.target.clone());
            let pid = match x.pid {
                Some(p) => p,
                None => 0,
            };
            assert(pid as int == (match x.pid {
                Some(p) => p as int,
                None => 0,
            }));
            let pid_text = signed_decimal_string(pid as i64);
            assert(pid_text@ == signed_decimal(
                match x.pid {
                    Some(p) => p as int,
                    None => 0,
                },
            ));
            add_pair_row(t, "PID", pid_text);
            add_pair_row(t, "Namespace", text_or_empty_string(&x.namespace));
            assert(table_rows(*t) =~~= start + attach_rows(*info)->Ok_0);
        },
    }
    Ok(())
}

impl ProgTable {
    /// The "Bpfd State" table of `get`: where the program's bytecode comes
    /// from, its metadata, global data and maps, and where it is attached.
    pub fn new_get_bpfd(r: &ListResult) -> (res: Result<ProgTable, TableError>)
        requires
            !bpfd_table_unbuildable(*r),
        ensures
            match bpfd_rows(*r) {
                Ok(rows) => res matches Ok(t) && t.rows() == rows && t.header() == Some(seq!["Bpfd State"@])
                    && t.header_emphasised() && t.rows_plain()
                    && t.style() == no_lines_style(),
                Err(e) => res == Err::<ProgTable, TableError>(e),
            },
    {
        let mut table = titled_table("Bpfd State");
        let info = match &r.info {
            None => {
                add_single_row(&mut table, "NONE");
                assert(table_rows(table) =~= none_rows());
                return Ok(ProgTable { table });
            },
            Some(i) => i,
        };
        let location = match &info.bytecode {
            None => {
                add_single_row(&mut table, "NONE");
                assert(table_rows(table) =~= none_rows());
                return Ok(ProgTable { table });
            },
            Some(b) => match &b.location {
                None => {
                    add_single_row(&mut table, "NONE");
                    assert(table_rows(table) =~= none_rows());
                    return Ok(ProgTable { table });
                },
                Some(l) => l,
            },
        };
        match location {
            Location::Image(i) => {
                add_pair_row(&mut table, "Image URL:", i.url.clone());
                let policy = match ImagePullPolicy::try_from_i32(i.image_pull_policy) {
                    Ok(p) => p,
                    Err(e) => return Err(TableError::PullPolicy(e)),
                };
                add_pair_row(&mut table, "Pull Policy:", policy.name_string());
            },
            Location::File(p) => {
                add_pair_row(&mut table, "Path:", p.clone());
            },
        }
        let ghost lrows = location_rows(*location)->Ok_0;
        assert(table_rows(table) =~= lrows);
        add_detail_rows(&mut table, info);
        match &info.attach {
            None => {},
            Some(a) => match &a.info {
                None => {
                    assert(false);
                },
                Some(i) => {
                    match add_attach_rows(&mut table, i) {
                        Ok(()) => {},
                        Err(e) => return Err(e),
                    }
                },
            },
        }
        Ok(ProgTable { table })
    }

    /// The "Bpfd State" table of `get`, or none where the program's attach
    /// information is present but empty.
    pub fn checked_new_get_bpfd(r: &ListResult) -> (res: Option<Result<ProgTable, TableError>>)
        ensures
            res is None <==> bpfd_table_unbuildable(*r),
            res matches Some(x) ==> match bpfd_rows(*r) {
                Ok(rows) => x matches Ok(t) && t.rows() == rows && t.header() == Some(seq!["Bpfd State"@])
                    && t.header_emphasised() && t.rows_plain()
                    && t.style() == no_lines_style(),
                Err(e) => x == Err::<ProgTable, TableError>(e),
            },
    {
        if bpfd_table_buildable(r) {
            Some(ProgTable::new_get_bpfd(r))
        } else {
            None
        }
    }
}

/// Whether the "Bpfd State" table can be built for the program.
pub fn bpfd_table_buildable(r: &ListResult) -> (b: bool)
    ensures
        b == !bpfd_table_unbuildable(*r),
{
    let info = match &r.info {
        None => return true,
        Some(i) => i,
    };
    let location = match &info.bytecode {
        None => return true,
        Some(b) => match &b.location {
            None => return true,
            Some(l) => l,
        },
    };
    if let Location::Image(i) = location {
        if ImagePullPolicy::try_from_i32(i.image_pull_policy).is_err() {
            return true;
        }
    }
    match &info.attach {
        None => true,
        Some(a) => a.info.is_some(),
    }
}

} // verus!
