use crate::port_list::{kept, rows_of, Flags};
use crate::process::ProcessInfo;
use crate::row::{base_keys, keys_of, process_keys, row_of, CellView};
use crate::socket::SocketInfo;
use vstd::prelude::*;

verus! {

/// Every row starts with the base keys, in their fixed order.
pub proof fn lemma_base_keys_first(s: SocketInfo, enrich: bool, procs: Map<u32, ProcessInfo>)
    ensures
        row_of(s, enrich, procs).len() >= 8,
        keys_of(row_of(s, enrich, procs)).take(8) == base_keys(),
{
    assert(keys_of(row_of(s, enrich, procs)).take(8) =~= base_keys());
}

/// The `ip_version` of a row is 4 exactly when the local address is an IPv4 address and
/// 6 exactly when it is an IPv6 address; `local_address` is that address's text.
pub proof fn lemma_ip_version_matches_address(
    s: SocketInfo,
    enrich: bool,
    procs: Map<u32, ProcessInfo>,
)
    ensures
        row_of(s, enrich, procs)[1] == ("ip_version"@, CellView::Int(s.local().version())),
        (row_of(s, enrich, procs)[1].1 == CellView::Int(4)) <==> (s.local() is V4),
        (row_of(s, enrich, procs)[1].1 == CellView::Int(6)) <==> (s.local() is V6),
        row_of(s, enrich, procs)[2] == ("local_address"@, CellView::Str(s.local().text())),
{
}

/// A UDP row has an empty remote address, remote port -1 and state `LISTEN`.
pub proof fn lemma_udp_row_sentinels(s: SocketInfo, enrich: bool, procs: Map<u32, ProcessInfo>)
    requires
        !s.is_tcp(),
    ensures
        row_of(s, enrich, procs)[0] == ("type"@, CellView::Str("udp"@)),
        row_of(s, enrich, procs)[4] == ("remote_address"@, CellView::Str(""@)),
        row_of(s, enrich, procs)[5] == ("remote_port"@, CellView::Int(-1)),
        row_of(s, enrich, procs)[6] == ("state"@, CellView::Str("LISTEN"@)),
{
}

/// A row holds either all of the process keys, after the base keys, or none of them.
pub proof fn lemma_process_keys_all_or_none(
    s: SocketInfo,
    enrich: bool,
    procs: Map<u32, ProcessInfo>,
)
    ensures
        keys_of(row_of(s, enrich, procs)) == base_keys() || keys_of(row_of(s, enrich, procs))
            == base_keys() + process_keys(),
{
    if keys_of(row_of(s, enrich, procs)).len() == 8 {
        assert(keys_of(row_of(s, enrich, procs)) =~= base_keys());
    } else {
        assert(keys_of(row_of(s, enrich, procs)) =~= base_keys() + process_keys());
    }
}

/// With `listeners` set, every TCP row of an invocation has state `LISTEN`.
pub proof fn lemma_listeners_only(
    flags: Flags,
    sockets: Seq<SocketInfo>,
    procs: Map<u32, ProcessInfo>,
    i: int,
)
    requires
        flags.listeners,
        0 <= i < rows_of(flags, sockets, procs).len(),
        rows_of(flags, sockets, procs)[i][0].1 == CellView::Str("tcp"@),
    ensures
        rows_of(flags, sockets, procs)[i][6] == ("state"@, CellView::Str("LISTEN"@)),
{
    let k = kept(flags, sockets);
    let pred = |s: SocketInfo| flags.admits(s);
    sockets.lemma_filter_pred(pred, i);
    reveal_strlit("tcp");
    reveal_strlit("udp");
    assert(k[i].is_tcp()) by {
        if !k[i].is_tcp() {
            assert("udp"@[0] != "tcp"@[0]);
        }
    }
}

/// With both address families disabled an invocation has no rows, whatever the
/// enumerator yields.
pub proof fn lemma_no_family_no_rows(
    flags: Flags,
    sockets: Seq<SocketInfo>,
    procs: Map<u32, ProcessInfo>,
)
    requires
        flags.disable_ipv4,
        flags.disable_ipv6,
    ensures
        rows_of(flags, sockets, procs) == Seq::<Seq<(Seq<char>, CellView)>>::empty(),
{
    let pred = |s: SocketInfo| flags.admits(s);
    sockets.lemma_filter_len(pred);
    if kept(flags, sockets).len() > 0 {
        sockets.lemma_filter_pred(pred, 0);
    }
    assert(rows_of(flags, sockets, procs) =~= Seq::<Seq<(Seq<char>, CellView)>>::empty());
}

/// Without `process-info` every row of an invocation has exactly the base keys.
pub proof fn lemma_without_process_info_base_keys_only(
    flags: Flags,
    sockets: Seq<SocketInfo>,
    procs: Map<u32, ProcessInfo>,
    i: int,
)
    requires
        !flags.process_info,
        0 <= i < rows_of(flags, sockets, procs).len(),
    ensures
        keys_of(rows_of(flags, sockets, procs)[i]) == base_keys(),
{
    let s = kept(flags, sockets)[i];
    assert(keys_of(row_of(s, false, procs)) =~= base_keys());
}

/// The rows of an invocation follow the enumeration order: rows are built from the
/// admitted records in the order the enumerator yielded them, and where every record
/// is admitted the i-th row is built from the i-th record.
pub proof fn lemma_rows_in_enumeration_order(
    flags: Flags,
    sockets: Seq<SocketInfo>,
    procs: Map<u32, ProcessInfo>,
)
    ensures
        rows_of(flags, sockets, procs) == kept(flags, sockets).map_values(
            |s: SocketInfo| row_of(s, flags.process_info, procs),
        ),
        (forall|j: int| 0 <= j < sockets.len() ==> flags.admits(#[trigger] sockets[j])) ==> {
            &&& rows_of(flags, sockets, procs).len() == sockets.len()
            &&& forall|j: int|
                0 <= j < sockets.len() ==> #[trigger] rows_of(flags, sockets, procs)[j]
                    == row_of(sockets[j], flags.process_info, procs)
        },
{
    let pred = |s: SocketInfo| flags.admits(s);
    if forall|j: int| 0 <= j < sockets.len() ==> flags.admits(#[trigger] sockets[j]) {
        lemma_filter_all(sockets, pred);
    }
}

proof fn lemma_filter_all(s: Seq<SocketInfo>, pred: spec_fn(SocketInfo) -> bool)
    requires
        forall|j: int| 0 <= j < s.len() ==> pred(#[trigger] s[j]),
    ensures
        s.filter(pred) == s,
    decreases s.len(),
{
    reveal(Seq::filter);
    if s.len() > 0 {
        lemma_filter_all(s.drop_last(), pred);
        assert(s.drop_last().push(s.last()) =~= s);
    }
}

} // verus!
