use netstat2::TcpState;
use port_list::plugin::PortListPlugin;
use port_list::port_list::{Category, Flags, PortList};
use port_list::process::{join_args, push_decimal, render_id, render_opt, ProcessInfo, ProcessTable};
use port_list::row::{build_row, get_ip_version, load_pid, map_environments, Cell, Row};
use port_list::socket::{IpAddress, ProtocolSocketInfo, SocketInfo, TcpSocketInfo, UdpSocketInfo};

const BASE_KEYS: [&str; 8] = [
    "type",
    "ip_version",
    "local_address",
    "local_port",
    "remote_address",
    "remote_port",
    "state",
    "pid",
];

const PROCESS_KEYS: [&str; 9] = [
    "process_name",
    "cmd",
    "exe_path",
    "process_status",
    "process_user",
    "process_group",
    "process_effective_user",
    "process_effective_group",
    "process_environments",
];

fn v4(t: &str) -> IpAddress {
    IpAddress::V4(t.to_string())
}

fn v6(t: &str) -> IpAddress {
    IpAddress::V6(t.to_string())
}

fn tcp(local: IpAddress, port: u16, remote: IpAddress, rport: u16, state: TcpState, pids: Vec<u32>) -> SocketInfo {
    SocketInfo {
        protocol_socket_info: ProtocolSocketInfo::Tcp(TcpSocketInfo {
            local_addr: local,
            local_port: port,
            remote_addr: remote,
            remote_port: rport,
            state,
        }),
        associated_pids: pids,
    }
}

fn udp(local: IpAddress, port: u16, pids: Vec<u32>) -> SocketInfo {
    SocketInfo {
        protocol_socket_info: ProtocolSocketInfo::Udp(UdpSocketInfo { local_addr: local, local_port: port }),
        associated_pids: pids,
    }
}

fn dnsd() -> ProcessInfo {
    ProcessInfo {
        name: "dnsd".to_string(),
        cmd: vec!["dnsd".to_string(), "-f".to_string()],
        exe_path: Some("/usr/sbin/dnsd".to_string()),
        status: "Sleeping".to_string(),
        user_id: Some(0),
        group_id: Some(0),
        effective_user_id: Some(0),
        effective_group_id: Some(0),
        environ: vec!["PATH=/usr/bin".to_string(), "LANG=C".to_string()],
    }
}

fn keys(row: &Row) -> Vec<String> {
    row.fields.iter().map(|f| f.key.clone()).collect()
}

fn get<'a>(row: &'a Row, key: &str) -> &'a Cell {
    &row.fields.iter().find(|f| f.key == key).expect("key present").value
}

fn text(s: &str) -> Cell {
    Cell::Str(s.to_string())
}

fn run_ok(flags: Flags, sockets: Vec<SocketInfo>, table: &ProcessTable) -> Vec<Row> {
    PortList::new().run(&flags, Ok(sockets), table).expect("rows")
}

fn base_keys() -> Vec<String> {
    BASE_KEYS.iter().map(|k| k.to_string()).collect()
}

fn all_keys() -> Vec<String> {
    BASE_KEYS.iter().chain(PROCESS_KEYS.iter()).map(|k| k.to_string()).collect()
}

#[test]
fn single_tcp_listener_without_flags() {
    let rows = run_ok(
        Flags::default(),
        vec![tcp(v4("127.0.0.1"), 8080, v4("0.0.0.0"), 0, TcpState::Listen, vec![])],
        &ProcessTable::new(),
    );
    assert_eq!(rows.len(), 1);
    let r = &rows[0];
    assert_eq!(keys(r), base_keys());
    assert_eq!(get(r, "type"), &text("tcp"));
    assert_eq!(get(r, "ip_version"), &Cell::Int(4));
    assert_eq!(get(r, "local_address"), &text("127.0.0.1"));
    assert_eq!(get(r, "local_port"), &Cell::Int(8080));
    assert_eq!(get(r, "remote_address"), &text("0.0.0.0"));
    assert_eq!(get(r, "remote_port"), &Cell::Int(0));
    assert_eq!(get(r, "state"), &text("LISTEN"));
    assert_eq!(get(r, "pid"), &Cell::Nothing);
}

#[test]
fn process_info_without_pid_adds_nothing() {
    let flags = Flags { process_info: true, ..Flags::default() };
    let rows = run_ok(
        flags,
        vec![tcp(v4("127.0.0.1"), 8080, v4("0.0.0.0"), 0, TcpState::Listen, vec![])],
        &ProcessTable::new(),
    );
    assert_eq!(rows.len(), 1);
    assert_eq!(keys(&rows[0]), base_keys());
    assert_eq!(get(&rows[0], "pid"), &Cell::Nothing);
}

#[test]
fn udp_ipv6_with_process_info() {
    let mut table = ProcessTable::new();
    table.insert(42, dnsd());
    let flags = Flags { process_info: true, ..Flags::default() };
    let rows = run_ok(flags, vec![udp(v6("::"), 53, vec![42])], &table);
    assert_eq!(rows.len(), 1);
    let r = &rows[0];
    assert_eq!(keys(r), all_keys());
    assert_eq!(get(r, "type"), &text("udp"));
    assert_eq!(get(r, "ip_version"), &Cell::Int(6));
    assert_eq!(get(r, "local_address"), &text("::"));
    assert_eq!(get(r, "local_port"), &Cell::Int(53));
    assert_eq!(get(r, "remote_address"), &text(""));
    assert_eq!(get(r, "remote_port"), &Cell::Int(-1));
    assert_eq!(get(r, "state"), &text("LISTEN"));
    assert_eq!(get(r, "pid"), &Cell::Int(42));
    assert_eq!(get(r, "process_name"), &text("dnsd"));
    assert_eq!(get(r, "cmd"), &text("dnsd -f"));
    assert_eq!(get(r, "exe_path"), &text("/usr/sbin/dnsd"));
    assert_eq!(get(r, "process_status"), &text("Sleeping"));
    assert_eq!(get(r, "process_user"), &text("0"));
    assert_eq!(get(r, "process_group"), &text("0"));
    assert_eq!(get(r, "process_effective_user"), &text("0"));
    assert_eq!(get(r, "process_effective_group"), &text("0"));
    assert_eq!(
        get(r, "process_environments"),
        &Cell::List(vec!["PATH=/usr/bin".to_string(), "LANG=C".to_string()])
    );
}

#[test]
fn listeners_keep_only_listening_tcp() {
    let flags = Flags { listeners: true, ..Flags::default() };
    let rows = run_ok(
        flags,
        vec![
            tcp(v4("0.0.0.0"), 22, v4("0.0.0.0"), 0, TcpState::Listen, vec![1]),
            tcp(v4("10.0.0.2"), 22, v4("10.0.0.9"), 51000, TcpState::Established, vec![1]),
        ],
        &ProcessTable::new(),
    );
    assert_eq!(rows.len(), 1);
    assert_eq!(get(&rows[0], "state"), &text("LISTEN"));
    assert_eq!(get(&rows[0], "remote_port"), &Cell::Int(0));
}

#[test]
fn listeners_keep_udp_rows() {
    let flags = Flags { listeners: true, ..Flags::default() };
    let rows = run_ok(
        flags,
        vec![
            tcp(v4("10.0.0.2"), 22, v4("10.0.0.9"), 51000, TcpState::TimeWait, vec![]),
            udp(v4("0.0.0.0"), 68, vec![]),
        ],
        &ProcessTable::new(),
    );
    assert_eq!(rows.len(), 1);
    assert_eq!(get(&rows[0], "type"), &text("udp"));
    for r in &rows {
        if get(r, "type") == &text("tcp") {
            assert_eq!(get(r, "state"), &text("LISTEN"));
        }
    }
}

#[test]
fn enumeration_error_is_labeled() {
    let flags = Flags::default();
    let r = PortList::new().run(&flags, Err("permission denied".to_string()), &ProcessTable::new());
    let e = r.expect_err("error");
    assert_eq!(e.code, "sockets_info::fetch");
    assert!(e.msg.contains("permission denied"));
}

#[test]
fn both_families_disabled_give_no_rows() {
    let flags = Flags { disable_ipv4: true, disable_ipv6: true, ..Flags::default() };
    let mask = flags.family_mask();
    assert!(!mask.ipv4 && !mask.ipv6);
    let rows = run_ok(
        flags,
        vec![
            tcp(v4("127.0.0.1"), 80, v4("0.0.0.0"), 0, TcpState::Listen, vec![]),
            udp(v6("::1"), 53, vec![]),
        ],
        &ProcessTable::new(),
    );
    assert!(rows.is_empty());
}

#[test]
fn protocol_switches_select_protocols() {
    let socks = || {
        vec![
            tcp(v4("127.0.0.1"), 80, v4("0.0.0.0"), 0, TcpState::Listen, vec![]),
            udp(v4("127.0.0.1"), 53, vec![]),
        ]
    };
    let only_tcp = Flags { disable_udp: true, ..Flags::default() };
    let m = only_tcp.protocol_mask();
    assert!(m.tcp && !m.udp);
    let rows = run_ok(only_tcp, socks(), &ProcessTable::new());
    assert_eq!(rows.len(), 1);
    assert_eq!(get(&rows[0], "type"), &text("tcp"));
    let only_udp = Flags { disable_tcp: true, ..Flags::default() };
    let rows = run_ok(only_udp, socks(), &ProcessTable::new());
    assert_eq!(rows.len(), 1);
    assert_eq!(get(&rows[0], "type"), &text("udp"));
    let neither = Flags { disable_tcp: true, disable_udp: true, ..Flags::default() };
    assert!(run_ok(neither, socks(), &ProcessTable::new()).is_empty());
}

#[test]
fn family_switches_select_families() {
    let socks = || vec![udp(v4("0.0.0.0"), 53, vec![]), udp(v6("::"), 53, vec![])];
    let only_v6 = Flags { disable_ipv4: true, ..Flags::default() };
    let rows = run_ok(only_v6, socks(), &ProcessTable::new());
    assert_eq!(rows.len(), 1);
    assert_eq!(get(&rows[0], "ip_version"), &Cell::Int(6));
    let only_v4 = Flags { disable_ipv6: true, ..Flags::default() };
    let rows = run_ok(only_v4, socks(), &ProcessTable::new());
    assert_eq!(rows.len(), 1);
    assert_eq!(get(&rows[0], "ip_version"), &Cell::Int(4));
}

#[test]
fn every_row_starts_with_base_keys() {
    let mut table = ProcessTable::new();
    table.insert(5, dnsd());
    let flags = Flags { process_info: true, ..Flags::default() };
    let rows = run_ok(
        flags,
        vec![
            tcp(v4("1.2.3.4"), 1, v4("5.6.7.8"), 2, TcpState::Established, vec![5]),
            udp(v6("fe80::1"), 3, vec![6]),
        ],
        &table,
    );
    assert_eq!(rows.len(), 2);
    for r in &rows {
        assert_eq!(keys(r)[..8].to_vec(), base_keys());
    }
    assert_eq!(keys(&rows[0]), all_keys());
    assert_eq!(keys(&rows[1]), base_keys());
}

#[test]
fn ip_version_follows_local_address() {
    let table = ProcessTable::new();
    let r4 = build_row(&udp(v4("192.168.1.1"), 1, vec![]), false, &table);
    let r6 = build_row(
        &tcp(v6("2001:db8::1"), 1, v6("::"), 0, TcpState::SynSent, vec![]),
        false,
        &table,
    );
    assert_eq!(get(&r4, "ip_version"), &Cell::Int(4));
    assert_eq!(get(&r6, "ip_version"), &Cell::Int(6));
    assert_eq!(get(&r6, "remote_address"), &text("::"));
    assert_eq!(get_ip_version(&v4("10.0.0.1")), Cell::Int(4));
    assert_eq!(get_ip_version(&v6("::1")), Cell::Int(6));
}

#[test]
fn udp_rows_carry_sentinels() {
    let r = build_row(&udp(v4("0.0.0.0"), 5353, vec![3, 4]), false, &ProcessTable::new());
    assert_eq!(get(&r, "remote_address"), &text(""));
    assert_eq!(get(&r, "remote_port"), &Cell::Int(-1));
    assert_eq!(get(&r, "state"), &text("LISTEN"));
    assert_eq!(get(&r, "pid"), &Cell::Int(3));
}

#[test]
fn process_keys_all_or_none() {
    let mut table = ProcessTable::new();
    table.insert(9, dnsd());
    let found = build_row(&udp(v4("0.0.0.0"), 1, vec![9]), true, &table);
    let missing = build_row(&udp(v4("0.0.0.0"), 1, vec![10]), true, &table);
    let no_pid = build_row(&udp(v4("0.0.0.0"), 1, vec![]), true, &table);
    assert_eq!(keys(&found), all_keys());
    assert_eq!(keys(&missing), base_keys());
    assert_eq!(keys(&no_pid), base_keys());
}

#[test]
fn only_first_pid_is_consulted() {
    let mut table = ProcessTable::new();
    table.insert(9, dnsd());
    let r = build_row(&udp(v4("0.0.0.0"), 1, vec![7, 9]), true, &table);
    assert_eq!(get(&r, "pid"), &Cell::Int(7));
    assert_eq!(keys(&r), base_keys());
    assert_eq!(load_pid(&vec![7, 9]), Cell::Int(7));
    assert_eq!(load_pid(&vec![]), Cell::Nothing);
}

#[test]
fn without_process_info_rows_have_base_keys_only() {
    let mut table = ProcessTable::new();
    table.insert(1, dnsd());
    let rows = run_ok(
        Flags::default(),
        vec![
            tcp(v4("0.0.0.0"), 22, v4("0.0.0.0"), 0, TcpState::Listen, vec![1]),
            udp(v4("0.0.0.0"), 68, vec![1]),
        ],
        &table,
    );
    assert_eq!(rows.len(), 2);
    for r in &rows {
        assert_eq!(keys(r), base_keys());
    }
}

#[test]
fn rows_follow_enumeration_order() {
    let ports: Vec<u16> = vec![9000, 22, 443, 80, 5353];
    let socks: Vec<SocketInfo> = ports
        .iter()
        .map(|p| tcp(v4("127.0.0.1"), *p, v4("0.0.0.0"), 0, TcpState::Listen, vec![]))
        .collect();
    let rows = run_ok(Flags::default(), socks, &ProcessTable::new());
    let got: Vec<Cell> = rows.iter().map(|r| get(r, "local_port").clone()).collect();
    let want: Vec<Cell> = ports.iter().map(|p| Cell::Int(*p as i64)).collect();
    assert_eq!(got, want);
}

#[test]
fn tcp_state_names() {
    let table = ProcessTable::new();
    let cases = [
        (TcpState::Closed, "CLOSED"),
        (TcpState::SynReceived, "SYN_RCVD"),
        (TcpState::Established, "ESTABLISHED"),
        (TcpState::FinWait1, "FIN_WAIT_1"),
        (TcpState::CloseWait, "CLOSE_WAIT"),
        (TcpState::TimeWait, "TIME_WAIT"),
        (TcpState::Unknown, "__UNKNOWN"),
    ];
    for (state, name) in cases {
        let r = build_row(&tcp(v4("1.1.1.1"), 1, v4("2.2.2.2"), 2, state, vec![]), false, &table);
        assert_eq!(get(&r, "state"), &text(name));
    }
}

#[test]
fn unknown_attributes_render_as_dash() {
    let mut table = ProcessTable::new();
    let mut p = dnsd();
    p.exe_path = None;
    p.user_id = None;
    p.effective_group_id = None;
    p.cmd = vec![];
    p.environ = vec![];
    table.insert(3, p);
    let r = build_row(&udp(v4("0.0.0.0"), 1, vec![3]), true, &table);
    assert_eq!(get(&r, "exe_path"), &text("-"));
    assert_eq!(get(&r, "process_user"), &text("-"));
    assert_eq!(get(&r, "process_group"), &text("0"));
    assert_eq!(get(&r, "process_effective_group"), &text("-"));
    assert_eq!(get(&r, "cmd"), &text(""));
    assert_eq!(get(&r, "process_environments"), &Cell::List(vec![]));
}

#[test]
fn numbers_and_texts_render() {
    let mut s = String::from("uid=");
    push_decimal(&mut s, 1000);
    assert_eq!(s, "uid=1000");
    assert_eq!(render_id(Some(0)), "0");
    assert_eq!(render_id(Some(4294967295)), "4294967295");
    assert_eq!(render_id(Some(10)), "10");
    assert_eq!(render_id(None), "-");
    assert_eq!(render_opt(&Some("/bin/sh".to_string())), "/bin/sh");
    assert_eq!(render_opt(&None), "-");
    assert_eq!(join_args(&vec!["a".to_string(), "b c".to_string(), "d".to_string()]), "a b c d");
    assert_eq!(join_args(&vec!["solo".to_string()]), "solo");
    assert_eq!(join_args(&vec![]), "");
    assert_eq!(
        map_environments(&vec!["A=1".to_string()]),
        Cell::List(vec!["A=1".to_string()])
    );
}

#[test]
fn command_signature() {
    let cmd = PortList::new();
    assert_eq!(cmd.name(), "port list");
    assert_eq!(
        cmd.description(),
        "Like netstat this command will return every open connection on the network interface"
    );
    let sig = cmd.signature();
    assert_eq!(sig.name, "port list");
    assert_eq!(sig.category, Category::Network);
    let got: Vec<(String, char)> = sig.switches.iter().map(|s| (s.long.clone(), s.short)).collect();
    let want: Vec<(String, char)> = vec![
        ("disable-ipv4".to_string(), '6'),
        ("disable-ipv6".to_string(), '4'),
        ("disable-udp".to_string(), 't'),
        ("disable-tcp".to_string(), 'u'),
        ("listeners".to_string(), 'l'),
        ("process-info".to_string(), 'p'),
    ];
    assert_eq!(got, want);
    assert_eq!(PortListPlugin::new().commands().len(), 1);
}
