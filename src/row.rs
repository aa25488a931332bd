use crate::helper::ToStr;
use crate::process::{
    id_text, joined, join_args, opt_text, render_id, render_opt, texts, ProcessInfo,
    ProcessTable,
};
use crate::socket::{state_name, tcp_state_name, IpAddress, ProtocolSocketInfo, SocketInfo};
use vstd::prelude::*;

verus! {

broadcast use vstd::std_specs::hash::group_hash_axioms;

/// One value of an output row.
#[derive(Clone, Debug, PartialEq, Eq)]
pub enum Cell {
    Str(String),
    Int(i64),
    Nothing,
    List(Vec<String>),
}

/// The mathematical value of a cell.
pub enum CellView {
    Str(Seq<char>),
    Int(int),
    Nothing,
    List(Seq<Seq<char>>),
}

impl View for Cell {
    type V = CellView;

    open spec fn view(&self) -> CellView {
        match self {
            Cell::Str(s) => CellView::Str(s@),
            Cell::Int(n) => CellView::Int(*n as int),
            Cell::Nothing => CellView::Nothing,
            Cell::List(v) => CellView::List(texts(v@)),
        }
    }
}

/// A named value of a row.
#[derive(Clone, Debug, PartialEq, Eq)]
pub struct Field {
    pub key: String,
    pub value: Cell,
}

impl View for Field {
    type V = (Seq<char>, CellView);

    open spec fn view(&self) -> (Seq<char>, CellView) {
        (self.key@, self.value@)
    }
}

/// One output row: its fields in order.
#[derive(Clone, Debug, PartialEq, Eq)]
pub struct Row {
    pub fields: Vec<Field>,
}

impl View for Row {
    type V = Seq<(Seq<char>, CellView)>;

    open spec fn view(&self) -> Seq<(Seq<char>, CellView)> {
        self.fields@.map_values(|f: Field| f@)
    }
}

/// The keys that every row has, in order.
pub open spec fn base_keys() -> Seq<Seq<char>> {
    seq![
        "type"@,
        "ip_version"@,
        "local_address"@,
        "local_port"@,
        "remote_address"@,
        "remote_port"@,
        "state"@,
        "pid"@,
    ]
}

/// The keys that a row enriched with process information has after the base keys.
pub open spec fn process_keys() -> Seq<Seq<char>> {
    seq![
        "process_name"@,
        "cmd"@,
        "exe_path"@,
        "process_status"@,
        "process_user"@,
        "process_group"@,
        "process_effective_user"@,
        "process_effective_group"@,
        "process_environments"@,
    ]
}

/// The keys of a row, in order.
pub open spec fn keys_of(r: Seq<(Seq<char>, CellView)>) -> Seq<Seq<char>> {
    r.map_values(|f: (Seq<char>, CellView)| f.0)
}

/// Keys and values paired up in order.
pub open spec fn zip_fields(keys: Seq<Seq<char>>, values: Seq<CellView>) -> Seq<(Seq<char>, CellView)> {
    Seq::new(keys.len(), |i: int| (keys[i], values[i]))
}

/// The `pid` cell: the first associated pid, or nothing when there is none.
pub open spec fn pid_cell(pids: Seq<u32>) -> CellView {
    if pids.len() == 0 {
        CellView::Nothing
    } else {
        CellView::Int(pids[0] as int)
    }
}

/// The values of the base keys for a socket record.
pub open spec fn base_values(s: SocketInfo) -> Seq<CellView> {
    match s.protocol_socket_info {
        ProtocolSocketInfo::Tcp(t) => seq![
            CellView::Str("tcp"@),
            CellView::Int(t.local_addr.version()),
            CellView::Str(t.local_addr.text()),
            CellView::Int(t.local_port as int),
            CellView::Str(t.remote_addr.text()),
            CellView::Int(t.remote_port as int),
            CellView::Str(tcp_state_name(t.state)),
            pid_cell(s.associated_pids@),
        ],
        ProtocolSocketInfo::Udp(u) => seq![
            CellView::Str("udp"@),
            CellView::Int(u.local_addr.version()),
            CellView::Str(u.local_addr.text()),
            CellView::Int(u.local_port as int),
            CellView::Str(""@),
            CellView::Int(-1),
            CellView::Str("LISTEN"@),
            pid_cell(s.associated_pids@),
        ],
    }
}

/// The values of the process keys for a process.
pub open spec fn process_values(p: ProcessInfo) -> Seq<CellView> {
    seq![
        CellView::Str(p.name@),
        CellView::Str(joined(texts(p.cmd@))),
        CellView::Str(
            opt_text(
                match p.exe_path {
                    Some(s) => Some(s@),
                    None => None,
                },
            ),
        ),
        CellView::Str(p.status@),
        CellView::Str(id_text(p.user_id)),
        CellView::Str(id_text(p.group_id)),
        CellView::Str(id_text(p.effective_user_id)),
        CellView::Str(id_text(p.effective_group_id)),
        CellView::List(texts(p.environ@)),
    ]
}

/// The row without process information.
pub open spec fn base_row(s: SocketInfo) -> Seq<(Seq<char>, CellView)> {
    zip_fields(base_keys(), base_values(s))
}

/// Whether enrichment finds a process: the snapshot holds one under the first pid.
pub open spec fn owner_found(pids: Seq<u32>, procs: Map<u32, ProcessInfo>) -> bool {
    pids.len() > 0 && procs.contains_key(pids[0])
}

/// The fields that enrichment appends for the pids of a socket: those of the process
/// under the first pid, or none.
pub open spec fn process_fields(
    pids: Seq<u32>,
    enrich: bool,
    procs: Map<u32, ProcessInfo>,
) -> Seq<(Seq<char>, CellView)> {
    if enrich && owner_found(pids, procs) {
        zip_fields(process_keys(), process_values(procs[pids[0]]))
    } else {
        Seq::empty()
    }
}

/// The output row for a socket record.
pub open spec fn row_of(s: SocketInfo, enrich: bool, procs: Map<u32, ProcessInfo>) -> Seq<
    (Seq<char>, CellView),
> {
    base_row(s) + process_fields(s.associated_pids@, enrich, procs)
}

fn push_field(rec: &mut Row, key: &str, value: Cell)
    ensures
        final(rec)@ == old(rec)@.push((key@, value@)),
{
    rec.fields.push(Field { key: key.to_owned(), value });
    assert(final(rec)@ =~= old(rec)@.push((key@, value@)));
}

fn text_cell(t: &str) -> (r: Cell)
    ensures
        r@ == CellView::Str(t@),
{
    Cell::Str(t.to_owned())
}

/// The `ip_version` cell of an address: 4 or 6.
pub fn get_ip_version(addr: &IpAddress) -> (r: Cell)
    ensures
        r@ == CellView::Int(addr.version()),
{
    match addr {
        IpAddress::V4(_) => Cell::Int(4),
        IpAddress::V6(_) => Cell::Int(6),
    }
}

/// The `process_environments` cell: the `KEY=VALUE` strings as a list.
pub fn map_environments(environments: &Vec<String>) -> (r: Cell)
    ensures
        r@ == CellView::List(texts(environments@)),
{
    let mut values: Vec<String> = Vec::new();
    let mut i: usize = 0;
    while i < environments.len()
        invariant
            i <= environments.len(),
            values@ =~= environments@.take(i as int),
        decreases environments.len() - i,
    {
        values.push(environments[i].clone());
        i = i + 1;
    }
    assert(environments@.take(environments@.len() as int) =~= environments@);
    Cell::List(values)
}

/// The `pid` cell: the first associated pid, or nothing when there is none.
pub fn load_pid(items: &Vec<u32>) -> (r: Cell)
    ensures
        r@ == pid_cell(items@),
{
    if items.len() == 0 {
        Cell::Nothing
    } else {
        Cell::Int(items[0] as i64)
    }
}

/// Appends to `rec` the process fields of the process under the first of `items`,
/// unless `skip` is set or the snapshot holds no such process.
pub fn load_process_info_into(
    rec: &mut Row,
    items: &Vec<u32>,
    skip: bool,
    process_list: &ProcessTable,
)
    ensures
        final(rec)@ == old(rec)@ + process_fields(items@, !skip, process_list@),
{
    if skip || items.len() == 0 {
        assert(old(rec)@ + Seq::empty() =~= old(rec)@);
        return;
    }
    let pid = items[0];
    match process_list.get(&pid) {
        Some(p) => {
            let ghost start = rec@;
            push_field(rec, "process_name", Cell::Str(p.name.clone()));
            push_field(rec, "cmd", Cell::Str(join_args(&p.cmd)));
            push_field(rec, "exe_path", Cell::Str(render_opt(&p.exe_path)));
            push_field(rec, "process_status", Cell::Str(p.status.clone()));
            push_field(rec, "process_user", Cell::Str(render_id(p.user_id)));
            push_field(rec, "process_group", Cell::Str(render_id(p.group_id)));
            push_field(rec, "process_effective_user", Cell::Str(render_id(p.effective_user_id)));
            push_field(
                rec,
                "process_effective_group",
                Cell::Str(render_id(p.effective_group_id)),
            );
            push_field(rec, "process_environments", map_environments(&p.environ));
            assert(rec@ =~= start + zip_fields(process_keys(), process_values(*p)));
        },
        None => {
            assert(old(rec)@ + Seq::empty() =~= old(rec)@);
        },
    }
}

/// The row of a socket record without process information.
pub fn base_record(si: &SocketInfo) -> (r: Row)
    ensures
        r@ == base_row(*si),
{
    let mut rec = Row { fields: Vec::new() };
    match &si.protocol_socket_info {
        ProtocolSocketInfo::Tcp(t) => {
            push_field(&mut rec, "type", text_cell("tcp"));
            push_field(&mut rec, "ip_version", get_ip_version(&t.local_addr));
            push_field(&mut rec, "local_address", Cell::Str(t.local_addr.to_string()));
            push_field(&mut rec, "local_port", Cell::Int(t.local_port as i64));
            push_field(&mut rec, "remote_address", Cell::Str(t.remote_addr.to_string()));
            push_field(&mut rec, "remote_port", Cell::Int(t.remote_port as i64));
            push_field(&mut rec, "state", Cell::Str(state_name(&t.state)));
            push_field(&mut rec, "pid", load_pid(&si.associated_pids));
        },
        ProtocolSocketInfo::Udp(u) => {
            push_field(&mut rec, "type", text_cell("udp"));
            push_field(&mut rec, "ip_version", get_ip_version(&u.local_addr));
            push_field(&mut rec, "local_address", Cell::Str(u.local_addr.to_string()));
            push_field(&mut rec, "local_port", Cell::Int(u.local_port as i64));
            push_field(&mut rec, "remote_address", text_cell(""));
            push_field(&mut rec, "remote_port", Cell::Int(-1));
            push_field(&mut rec, "state", text_cell("LISTEN"));
            push_field(&mut rec, "pid", load_pid(&si.associated_pids));
        },
    }
    assert(rec@ =~= base_row(*si));
    rec
}

/// The output row of a socket record, enriched from `process_list` when `enrich` is set.
pub fn build_row(si: &SocketInfo, enrich: bool, process_list: &ProcessTable) -> (r: Row)
    ensures
        r@ == row_of(*si, enrich, process_list@),
{
    let mut rec = base_record(si);
    load_process_info_into(&mut rec, &si.associated_pids, !enrich, process_list);
    rec
}

} // verus!
