use crate::process::{ProcessInfo, ProcessTable};
use crate::row::{build_row, row_of, CellView, Row};
use crate::socket::SocketInfo;
use vstd::prelude::*;

verus! {

/// The switches of one invocation of `port list`.
#[derive(Clone, Copy, Debug, PartialEq, Eq, Default)]
pub struct Flags {
    pub disable_ipv4: bool,
    pub disable_ipv6: bool,
    pub disable_udp: bool,
    pub disable_tcp: bool,
    pub listeners: bool,
    pub process_info: bool,
}

/// The address families to enumerate.
#[derive(Clone, Copy, Debug, PartialEq, Eq, Default)]
pub struct FamilyMask {
    pub ipv4: bool,
    pub ipv6: bool,
}

/// The protocols to enumerate.
#[derive(Clone, Copy, Debug, PartialEq, Eq, Default)]
pub struct ProtocolMask {
    pub tcp: bool,
    pub udp: bool,
}

impl Flags {
    /// Whether a socket record passes the family and protocol masks and, with
    /// `listeners` set, the listener filter. The masks are applied to what the
    /// enumerator yields as well, so the rows hold to the switches whatever it returns.
    pub open spec fn admits(&self, s: SocketInfo) -> bool {
        &&& if s.local() is V4 {
            !self.disable_ipv4
        } else {
            !self.disable_ipv6
        }
        &&& if s.is_tcp() {
            !self.disable_tcp
        } else {
            !self.disable_udp
        }
        &&& (self.listeners && s.is_tcp() ==> s.is_tcp_listener())
    }

    /// The families left after the disabling switches.
    pub fn family_mask(&self) -> (r: FamilyMask)
        ensures
            r.ipv4 == !self.disable_ipv4,
            r.ipv6 == !self.disable_ipv6,
    {
        FamilyMask { ipv4: !self.disable_ipv4, ipv6: !self.disable_ipv6 }
    }

    /// The protocols left after the disabling switches.
    pub fn protocol_mask(&self) -> (r: ProtocolMask)
        ensures
            r.tcp == !self.disable_tcp,
            r.udp == !self.disable_udp,
    {
        ProtocolMask { tcp: !self.disable_tcp, udp: !self.disable_udp }
    }

    /// Whether a socket record yields a row under these switches.
    pub fn admits_socket(&self, s: &SocketInfo) -> (r: bool)
        ensures
            r == self.admits(*s),
    {
        let family_ok = if s.local_is_ipv4() {
            !self.disable_ipv4
        } else {
            !self.disable_ipv6
        };
        let tcp = s.tcp();
        let protocol_ok = if tcp {
            !self.disable_tcp
        } else {
            !self.disable_udp
        };
        let state_ok = !(self.listeners && tcp) || s.tcp_listener();
        family_ok && protocol_ok && state_ok
    }
}

/// An error reported to the shell: a short code and a message.
#[derive(Clone, Debug, PartialEq, Eq)]
pub struct CommandError {
    pub code: String,
    pub msg: String,
}

/// The code of the error reported when the socket tables cannot be read.
pub open spec fn fetch_error_code() -> Seq<char> {
    "sockets_info::fetch"@
}

/// The socket records that yield rows, in enumeration order.
pub open spec fn kept(flags: Flags, sockets: Seq<SocketInfo>) -> Seq<SocketInfo> {
    sockets.filter(|s: SocketInfo| flags.admits(s))
}

/// The rows of an invocation: one for each kept record, in enumeration order.
pub open spec fn rows_of(
    flags: Flags,
    sockets: Seq<SocketInfo>,
    procs: Map<u32, ProcessInfo>,
) -> Seq<Seq<(Seq<char>, CellView)>> {
    kept(flags, sockets).map_values(|s: SocketInfo| row_of(s, flags.process_info, procs))
}

/// The views of a list of rows.
pub open spec fn rows_view(rows: Seq<Row>) -> Seq<Seq<(Seq<char>, CellView)>> {
    rows.map_values(|r: Row| r@)
}

/// The shell category that a command is listed under.
#[derive(Clone, Copy, Debug, PartialEq, Eq, Structural)]
pub enum Category {
    Network,
}

/// A boolean switch of a command: its long name, short letter and help text.
#[derive(Clone, Debug, PartialEq, Eq)]
pub struct Switch {
    pub long: String,
    pub short: char,
    pub desc: String,
}

/// What a command declares to the shell.
#[derive(Clone, Debug, PartialEq, Eq)]
pub struct CommandSignature {
    pub name: String,
    pub switches: Vec<Switch>,
    pub category: Category,
}

/// The switches of `port list`, in order.
pub open spec fn port_list_switches() -> Seq<(Seq<char>, char, Seq<char>)> {
    seq![
        ("disable-ipv4"@, '6', "do not fetch ipv6 connections (ipv6 only)"@),
        ("disable-ipv6"@, '4', "do not fetch ipv4 connections (ipv4 only)"@),
        ("disable-udp"@, 't', "do not fetch UDP connections (TCP only)"@),
        ("disable-tcp"@, 'u', "do not fetch TCP connections (UDP only)"@),
        ("listeners"@, 'l', "only listeners (equivalent to state == \"LISTEN\")"@),
        ("process-info"@, 'p', "loads process info (name, cmd, binary path)"@),
    ]
}

/// The switches of a signature as values.
pub open spec fn switches_view(v: Seq<Switch>) -> Seq<(Seq<char>, char, Seq<char>)> {
    v.map_values(|s: Switch| (s.long@, s.short, s.desc@))
}

fn push_switch(v: &mut Vec<Switch>, long: &str, short: char, desc: &str)
    ensures
        switches_view(final(v)@) == switches_view(old(v)@).push((long@, short, desc@)),
{
    v.push(Switch { long: long.to_owned(), short, desc: desc.to_owned() });
    assert(switches_view(final(v)@) =~= switches_view(old(v)@).push((long@, short, desc@)));
}

/// The `port list` command.
pub struct PortList;

impl PortList {
    pub fn new() -> PortList {
        PortList {  }
    }

    /// The name under which the command is registered.
    pub fn name(&self) -> (r: &'static str)
        ensures
            r@ == "port list"@,
    {
        "port list"
    }

    /// The help text of the command.
    pub fn description(&self) -> (r: &'static str)
        ensures
            r@ == "Like netstat this command will return every open connection on the network interface"@,
    {
        "Like netstat this command will return every open connection on the network interface"
    }

    /// The signature of the command: its name, its six switches and its category.
    pub fn signature(&self) -> (r: CommandSignature)
        ensures
            r.name@ == "port list"@,
            switches_view(r.switches@) == port_list_switches(),
            r.category == Category::Network,
    {
        let mut switches: Vec<Switch> = Vec::new();
        push_switch(&mut switches, "disable-ipv4", '6', "do not fetch ipv6 connections (ipv6 only)");
        push_switch(&mut switches, "disable-ipv6", '4', "do not fetch ipv4 connections (ipv4 only)");
        push_switch(&mut switches, "disable-udp", 't', "do not fetch UDP connections (TCP only)");
        push_switch(&mut switches, "disable-tcp", 'u', "do not fetch TCP connections (UDP only)");
        push_switch(
            &mut switches,
            "listeners",
            'l',
            "only listeners (equivalent to state == \"LISTEN\")",
        );
        push_switch(
            &mut switches,
            "process-info",
            'p',
            "loads process info (name, cmd, binary path)",
        );
        assert(switches_view(switches@) =~= port_list_switches());
        CommandSignature { name: "port list".to_owned(), switches, category: Category::Network }
    }

    /// Runs an invocation on what the socket enumerator returned: its error becomes a
    /// `sockets_info::fetch` error with the enumerator's message; otherwise each record
    /// that the switches admit yields a row, in enumeration order, enriched from
    /// `process_list` when `process-info` is set.
    pub fn run(
        &self,
        flags: &Flags,
        sockets: Result<Vec<SocketInfo>, String>,
        process_list: &ProcessTable,
    ) -> (r: Result<Vec<Row>, CommandError>)
        ensures
            match sockets {
                Ok(v) => r matches Ok(rows) && rows_view(rows@) == rows_of(
                    *flags,
                    v@,
                    process_list@,
                ),
                Err(m) => r matches Err(e) && e.code@ == fetch_error_code() && e.msg@ == m@,
            },
    {
        match sockets {
            Ok(v) => {
                let mut rows: Vec<Row> = Vec::new();
                let mut i: usize = 0;
                while i < v.len()
                    invariant
                        i <= v.len(),
                        rows_view(rows@) == rows_of(*flags, v@.take(i as int), process_list@),
                    decreases v.len() - i,
                {
                    let ghost before = kept(*flags, v@.take(i as int));
                    proof {
                        let f = *flags;
                        assert(v@.take(i as int + 1) =~= v@.take(i as int).push(v@[i as int]));
                        v@.take(i as int).lemma_filter_push(
                            v@[i as int],
                            |s: SocketInfo| f.admits(s),
                        );
                    }
                    assert(kept(*flags, v@.take(i as int + 1)) == if flags.admits(v@[i as int]) {
                        before.push(v@[i as int])
                    } else {
                        before
                    });
                    if flags.admits_socket(&v[i]) {
                        let row = build_row(&v[i], flags.process_info, process_list);
                        rows.push(row);
                        assert(before.push(v@[i as int]).map_values(
                            |s: SocketInfo| row_of(s, flags.process_info, process_list@),
                        ) =~= before.map_values(
                            |s: SocketInfo| row_of(s, flags.process_info, process_list@),
                        ).push(row_of(v@[i as int], flags.process_info, process_list@)));
                    }
                    assert(rows_view(rows@) =~= rows_of(
                        *flags,
                        v@.take(i as int + 1),
                        process_list@,
                    ));
                    i = i + 1;
                }
                assert(v@.take(v@.len() as int) =~= v@);
                Ok(rows)
            },
            Err(m) => Err(CommandError { code: "sockets_info::fetch".to_owned(), msg: m }),
        }
    }
}

} // verus!
