use crate::helper::ToStr;
use vstd::prelude::*;

verus! {

/// Relies on netstat2's `TcpState`, the connection state of a TCP endpoint: a public
/// enum of unit variants with no fields, declared with its variants so that verified
/// code can match on them.
#[verifier::external_type_specification]
pub struct ExTcpState(netstat2::TcpState);

/// The name under which a TCP state is shown: the text of netstat2's `Display`.
pub open spec fn tcp_state_name(s: netstat2::TcpState) -> Seq<char> {
    match s {
        netstat2::TcpState::Closed => "CLOSED"@,
        netstat2::TcpState::Listen => "LISTEN"@,
        netstat2::TcpState::SynSent => "SYN_SENT"@,
        netstat2::TcpState::SynReceived => "SYN_RCVD"@,
        netstat2::TcpState::Established => "ESTABLISHED"@,
        netstat2::TcpState::FinWait1 => "FIN_WAIT_1"@,
        netstat2::TcpState::FinWait2 => "FIN_WAIT_2"@,
        netstat2::TcpState::CloseWait => "CLOSE_WAIT"@,
        netstat2::TcpState::Closing => "CLOSING"@,
        netstat2::TcpState::LastAck => "LAST_ACK"@,
        netstat2::TcpState::TimeWait => "TIME_WAIT"@,
        netstat2::TcpState::DeleteTcb => "DELETE_TCB"@,
        netstat2::TcpState::Unknown => "__UNKNOWN"@,
    }
}

/// Relies on netstat2's `Display for TcpState`, which writes the fixed name of each state.
#[verifier::external_body]
pub(crate) fn state_name(s: &netstat2::TcpState) -> (r: String)
    ensures
        r@ == tcp_state_name(*s),
{
    s.to_string()
}

/// An IP address as the socket tables report it, tagged by its family and held in its
/// usual textual form (dotted quad, or the compressed IPv6 form).
#[derive(Debug)]
pub enum IpAddress {
    V4(String),
    V6(String),
}

impl IpAddress {
    /// The textual form of the address.
    pub open spec fn text(&self) -> Seq<char> {
        match self {
            IpAddress::V4(t) => t@,
            IpAddress::V6(t) => t@,
        }
    }

    /// The IP version of the address: 4 or 6.
    pub open spec fn version(&self) -> int {
        match self {
            IpAddress::V4(_) => 4,
            IpAddress::V6(_) => 6,
        }
    }

    pub fn is_ipv4(&self) -> (r: bool)
        ensures
            r == (self is V4),
    {
        match self {
            IpAddress::V4(_) => true,
            IpAddress::V6(_) => false,
        }
    }
}

impl ToStr for IpAddress {
    open spec fn text_of(&self) -> Seq<char> {
        self.text()
    }

    fn to_string(&self) -> (r: String) {
        match self {
            IpAddress::V4(t) => t.clone(),
            IpAddress::V6(t) => t.clone(),
        }
    }
}

/// A TCP endpoint: both ends and the connection state.
#[derive(Debug)]
pub struct TcpSocketInfo {
    pub local_addr: IpAddress,
    pub local_port: u16,
    pub remote_addr: IpAddress,
    pub remote_port: u16,
    pub state: netstat2::TcpState,
}

/// A UDP endpoint: the local end only.
#[derive(Debug)]
pub struct UdpSocketInfo {
    pub local_addr: IpAddress,
    pub local_port: u16,
}

/// The protocol-specific part of a socket record.
#[derive(Debug)]
pub enum ProtocolSocketInfo {
    Tcp(TcpSocketInfo),
    Udp(UdpSocketInfo),
}

/// One endpoint of the socket tables, with the processes that hold it, in the order
/// the operating system lists them.
#[derive(Debug)]
pub struct SocketInfo {
    pub protocol_socket_info: ProtocolSocketInfo,
    pub associated_pids: Vec<u32>,
}

impl SocketInfo {
    /// The address of the local end.
    pub open spec fn local(&self) -> IpAddress {
        match self.protocol_socket_info {
            ProtocolSocketInfo::Tcp(t) => t.local_addr,
            ProtocolSocketInfo::Udp(u) => u.local_addr,
        }
    }

    pub open spec fn is_tcp(&self) -> bool {
        self.protocol_socket_info is Tcp
    }

    /// A TCP endpoint in the listening state.
    pub open spec fn is_tcp_listener(&self) -> bool {
        match self.protocol_socket_info {
            ProtocolSocketInfo::Tcp(t) => t.state is Listen,
            ProtocolSocketInfo::Udp(_) => false,
        }
    }

    pub fn local_is_ipv4(&self) -> (r: bool)
        ensures
            r == (self.local() is V4),
    {
        match &self.protocol_socket_info {
            ProtocolSocketInfo::Tcp(t) => t.local_addr.is_ipv4(),
            ProtocolSocketInfo::Udp(u) => u.local_addr.is_ipv4(),
        }
    }

    pub fn tcp(&self) -> (r: bool)
        ensures
            r == self.is_tcp(),
    {
        match &self.protocol_socket_info {
            ProtocolSocketInfo::Tcp(_) => true,
            ProtocolSocketInfo::Udp(_) => false,
        }
    }

    pub fn tcp_listener(&self) -> (r: bool)
        ensures
            r == self.is_tcp_listener(),
    {
        match &self.protocol_socket_info {
            ProtocolSocketInfo::Tcp(t) => match t.state {
                netstat2::TcpState::Listen => true,
                _ => false,
            },
            ProtocolSocketInfo::Udp(_) => false,
        }
    }
}

} // verus!
