//! Network configuration, routes, connections and their addresses.
use crate::integer::low_u32;
use crate::integer::u64_to_u32;
use crate::result::{is_malformed, Error, SigarResult};
use crate::session::extract_list;
use crate::util::{byte_at, bytes_of, chars_to_bytes, u32_reverse};
use vstd::prelude::*;
use vstd::string::StringSliceAdditionalSpecFns;

verus! {

/// Reason given when a name handed to the native side holds a zero byte.
pub const NUL_IN_NAME: &'static str = "nul byte found in provided data";

/// The native network summary record (`sigar_net_info_t`).
#[derive(Debug, PartialEq, Eq)]
pub struct RawNetInfo {
    pub default_gateway: Vec<i8>,
    pub default_gateway_interface: Vec<i8>,
    pub host_name: Vec<i8>,
    pub domain_name: Vec<i8>,
    pub primary_dns: Vec<i8>,
    pub secondary_dns: Vec<i8>,
}

/// net info
#[derive(Debug, PartialEq, Eq)]
pub struct Info {
    pub default_gateway: Vec<u8>,
    pub default_gateway_interface: Vec<u8>,
    pub host_name: Vec<u8>,
    pub domain_name: Vec<u8>,
    pub primary_dns: Vec<u8>,
    pub secondary_dns: Vec<u8>,
}

impl Info {
    /// `self` holds the bytes of every cell of the native buffers.
    pub open spec fn from_raw_is(self, raw: RawNetInfo) -> bool {
        &&& self.default_gateway@ == bytes_of(raw.default_gateway@)
        &&& self.default_gateway_interface@ == bytes_of(raw.default_gateway_interface@)
        &&& self.host_name@ == bytes_of(raw.host_name@)
        &&& self.domain_name@ == bytes_of(raw.domain_name@)
        &&& self.primary_dns@ == bytes_of(raw.primary_dns@)
        &&& self.secondary_dns@ == bytes_of(raw.secondary_dns@)
    }

    /// Converts a native record.
    pub fn from_raw(raw: &RawNetInfo) -> (r: Info)
        ensures
            r.from_raw_is(*raw),
    {
        Info {
            default_gateway: chars_to_bytes(raw.default_gateway.as_slice()),
            default_gateway_interface: chars_to_bytes(raw.default_gateway_interface.as_slice()),
            host_name: chars_to_bytes(raw.host_name.as_slice()),
            domain_name: chars_to_bytes(raw.domain_name.as_slice()),
            primary_dns: chars_to_bytes(raw.primary_dns.as_slice()),
            secondary_dns: chars_to_bytes(raw.secondary_dns.as_slice()),
        }
    }
}

/// Returns net info, from the outcome of the native query.
pub fn info(fetched: SigarResult<RawNetInfo>) -> (r: SigarResult<Info>)
    ensures
        match fetched {
            Ok(raw) => r matches Ok(i) && i.from_raw_is(raw),
            Err(e) => r == Err::<Info, Error>(e),
        },
{
    match fetched {
        Ok(raw) => Ok(Info::from_raw(&raw)),
        Err(e) => Err(e),
    }
}

/// Native tag of an address of no known family.
pub const SIGAR_AF_UNSPEC: u32 = 0;
/// Native tag of an IPv4 address.
pub const SIGAR_AF_INET: u32 = 1;
/// Native tag of an IPv6 address.
pub const SIGAR_AF_INET6: u32 = 2;
/// Native tag of a link-layer (MAC) address.
pub const SIGAR_AF_LINK: u32 = 3;

/// Address family
#[derive(Clone, Copy, Debug, PartialEq, Eq, Structural)]
pub enum AFFamily {
    UNSPEC,
    INET,
    INET6,
    LINK,
}

impl AFFamily {
    /// The family that a native tag names; an unknown tag is `UNSPEC`.
    pub open spec fn spec_from_raw(raw: u32) -> AFFamily {
        if raw == SIGAR_AF_INET {
            AFFamily::INET
        } else if raw == SIGAR_AF_INET6 {
            AFFamily::INET6
        } else if raw == SIGAR_AF_LINK {
            AFFamily::LINK
        } else {
            AFFamily::UNSPEC
        }
    }

    /// Classifies a native family tag.
    pub fn from_raw(raw: u32) -> (r: AFFamily)
        ensures
            r == Self::spec_from_raw(raw),
    {
        if raw == SIGAR_AF_INET {
            AFFamily::INET
        } else if raw == SIGAR_AF_INET6 {
            AFFamily::INET6
        } else if raw == SIGAR_AF_LINK {
            AFFamily::LINK
        } else {
            AFFamily::UNSPEC
        }
    }
}

/// The payload of a native address (`sigar_net_address_t`'s union), read
/// through each of its three views.
#[derive(Clone, Copy, Debug, PartialEq, Eq)]
pub struct RawAddress {
    pub in_: u32,
    pub in6: [u32; 4],
    pub mac: [u8; 8],
}

/// A native address: a family tag and its payload.
#[derive(Clone, Copy, Debug, PartialEq, Eq)]
pub struct RawNetAddress {
    pub family: u32,
    pub addr: RawAddress,
}

/// An address payload decoded through each of its views.
#[derive(Clone, Copy, Debug, PartialEq, Eq)]
pub struct Address {
    /// The IPv4 octets, most significant first.
    pub inet4: [u8; 4],
    /// The eight IPv6 groups, most significant first.
    pub inet6: [u16; 8],
    /// The link-layer bytes.
    pub mac: [u8; 8],
}

/// The four bytes of a payload word, in the order the native layer stores
/// them (its least significant byte first).
pub open spec fn octets(w: u32) -> Seq<u8> {
    seq![byte_at(w, 0), byte_at(w, 1), byte_at(w, 2), byte_at(w, 3)]
}

/// The two IPv6 groups that a payload word holds: its byte-reversed value
/// split into high and low halves.
pub open spec fn groups(w: u32) -> Seq<u16> {
    seq![
        (byte_at(w, 0) * 0x100 + byte_at(w, 1)) as u16,
        (byte_at(w, 2) * 0x100 + byte_at(w, 3)) as u16,
    ]
}

/// The halves and bytes of a byte-reversed word.
proof fn lemma_reversed_parts(w: u32, r: u32)
    by (bit_vector)
    requires
        r == (w % 0x100) * 0x100_0000 + ((w / 0x100) % 0x100) * 0x1_0000 + ((w / 0x1_0000) % 0x100)
            * 0x100 + w / 0x100_0000,
    ensures
        r >> 24 == w % 0x100,
        (r >> 16) & 0xff == (w / 0x100) % 0x100,
        (r >> 8) & 0xff == (w / 0x1_0000) % 0x100,
        r & 0xff == w / 0x100_0000,
        r >> 16 == (w % 0x100) * 0x100 + (w / 0x100) % 0x100,
        r & 0xffff == ((w / 0x1_0000) % 0x100) * 0x100 + w / 0x100_0000,
{
}

/// The two IPv6 groups of one payload word.
fn word_groups(w: u32) -> (r: (u16, u16))
    ensures
        seq![r.0, r.1] == groups(w),
{
    let rev = u32_reverse(w);
    proof {
        lemma_reversed_parts(w, rev);
    }
    ((rev >> 16) as u16, (rev & 0xffff) as u16)
}

impl Address {
    /// `self` is what the native payload `raw` holds in each view: the IPv4
    /// and IPv6 words taken byte-reversed, the link-layer bytes as they are.
    pub open spec fn from_raw_is(self, raw: RawAddress) -> bool {
        &&& self.inet4@ == octets(raw.in_)
        &&& self.inet6@ == groups(raw.in6[0]) + groups(raw.in6[1]) + groups(raw.in6[2]) + groups(
            raw.in6[3],
        )
        &&& self.mac == raw.mac
    }

    /// Decodes a native address payload.
    pub fn from_raw(raw: &RawAddress) -> (r: Address)
        ensures
            r.from_raw_is(*raw),
    {
        let v4 = u32_reverse(raw.in_);
        proof {
            lemma_reversed_parts(raw.in_, v4);
        }
        let inet4: [u8; 4] = [
            (v4 >> 24) as u8,
            ((v4 >> 16) & 0xff) as u8,
            ((v4 >> 8) & 0xff) as u8,
            (v4 & 0xff) as u8,
        ];
        let g0 = word_groups(raw.in6[0]);
        let g1 = word_groups(raw.in6[1]);
        let g2 = word_groups(raw.in6[2]);
        let g3 = word_groups(raw.in6[3]);
        let inet6: [u16; 8] = [g0.0, g0.1, g1.0, g1.1, g2.0, g2.1, g3.0, g3.1];
        let r = Address { inet4, inet6, mac: raw.mac };
        assert(r.inet4@ =~= octets(raw.in_));
        assert(r.inet6@ =~= groups(raw.in6[0]) + groups(raw.in6[1]) + groups(raw.in6[2]) + groups(
            raw.in6[3],
        ));
        r
    }
}

/// A network address: its family and its decoded payload.
#[derive(Clone, Copy, Debug, PartialEq, Eq)]
pub struct NetAddress {
    pub family: AFFamily,
    pub address: Address,
}

impl NetAddress {
    /// `self` is what the native address `raw` holds.
    pub open spec fn from_raw_is(self, raw: RawNetAddress) -> bool {
        &&& self.family == AFFamily::spec_from_raw(raw.family)
        &&& self.address.from_raw_is(raw.addr)
    }

    /// Decodes a native address.
    pub fn from_raw(raw: &RawNetAddress) -> (r: NetAddress)
        ensures
            r.from_raw_is(*raw),
    {
        NetAddress { family: AFFamily::from_raw(raw.family), address: Address::from_raw(&raw.addr) }
    }
}

/// The native route record (`sigar_net_route_t`).
#[derive(Debug, PartialEq, Eq)]
pub struct RawRoute {
    pub destination: RawNetAddress,
    pub gateway: RawNetAddress,
    pub mask: RawNetAddress,
    pub flags: u64,
    pub refcnt: u64,
    pub use_: u64,
    pub metric: u64,
    pub mtu: u64,
    pub window: u64,
    pub irtt: u64,
    pub ifname: Vec<i8>,
}

/// A routing table entry
#[derive(Debug, PartialEq, Eq)]
pub struct Route {
    pub destination: NetAddress,
    pub gateway: NetAddress,
    pub mask: NetAddress,
    pub flags: u64,
    pub refcnt: u64,
    pub use_: u64,
    pub metric: u64,
    pub mtu: u64,
    pub window: u64,
    pub irtt: u64,
    pub ifname: Vec<u8>,
}

impl Route {
    /// `self` is what the native record `raw` holds.
    pub open spec fn from_raw_is(self, raw: RawRoute) -> bool {
        &&& self.destination.from_raw_is(raw.destination)
        &&& self.gateway.from_raw_is(raw.gateway)
        &&& self.mask.from_raw_is(raw.mask)
        &&& self.flags == raw.flags
        &&& self.refcnt == raw.refcnt
        &&& self.use_ == raw.use_
        &&& self.metric == raw.metric
        &&& self.mtu == raw.mtu
        &&& self.window == raw.window
        &&& self.irtt == raw.irtt
        &&& self.ifname@ == bytes_of(raw.ifname@)
    }

    /// Converts a native record.
    pub fn from_raw(raw: &RawRoute) -> (r: Route)
        ensures
            r.from_raw_is(*raw),
    {
        Route {
            destination: NetAddress::from_raw(&raw.destination),
            gateway: NetAddress::from_raw(&raw.gateway),
            mask: NetAddress::from_raw(&raw.mask),
            flags: raw.flags,
            refcnt: raw.refcnt,
            use_: raw.use_,
            metric: raw.metric,
            mtu: raw.mtu,
            window: raw.window,
            irtt: raw.irtt,
            ifname: chars_to_bytes(raw.ifname.as_slice()),
        }
    }
}

/// Returns the routing table, from the outcome of the native route list query.
pub fn route_list(fetched: SigarResult<Vec<RawRoute>>) -> (r: SigarResult<Vec<Route>>)
    ensures
        match fetched {
            Ok(raw) => r matches Ok(v) && v@.len() == raw@.len() && forall|i: int|
                0 <= i < raw@.len() ==> (#[trigger] v@[i]).from_raw_is(raw@[i]),
            Err(e) => r == Err::<Vec<Route>, Error>(e),
        },
{
    match fetched {
        Ok(raw) => Ok(extract_list(&raw, Route::from_raw)),
        Err(e) => Err(e),
    }
}

/// The native interface configuration record
/// (`sigar_net_interface_config_t`).
#[derive(Debug, PartialEq, Eq)]
pub struct RawInterfaceConfig {
    pub name: Vec<i8>,
    pub type_: Vec<i8>,
    pub description: Vec<i8>,
    pub hwaddr: RawNetAddress,
    pub address: RawNetAddress,
    pub destination: RawNetAddress,
    pub broadcast: RawNetAddress,
    pub netmask: RawNetAddress,
    pub address6: RawNetAddress,
    pub prefix6_length: i32,
    pub scope6: i32,
    pub flags: u64,
    pub mtu: u64,
    pub metric: u64,
    pub tx_queue_len: i32,
}

/// Configuration of a network interface
#[derive(Debug, PartialEq, Eq)]
pub struct InterfaceConfig {
    pub name: Vec<u8>,
    pub type_: Vec<u8>,
    pub description: Vec<u8>,
    pub hwaddr: NetAddress,
    pub address: NetAddress,
    pub destination: NetAddress,
    pub broadcast: NetAddress,
    pub netmask: NetAddress,
    pub address6: NetAddress,
    pub prefix6_length: i32,
    pub scope6: i32,
    pub flags: u64,
    pub mtu: u64,
    pub metric: u64,
    pub tx_queue_len: i32,
}

impl InterfaceConfig {
    /// `self` is what the native record `raw` holds.
    pub open spec fn from_raw_is(self, raw: RawInterfaceConfig) -> bool {
        &&& self.name@ == bytes_of(raw.name@)
        &&& self.type_@ == bytes_of(raw.type_@)
        &&& self.description@ == bytes_of(raw.description@)
        &&& self.hwaddr.from_raw_is(raw.hwaddr)
        &&& self.address.from_raw_is(raw.address)
        &&& self.destination.from_raw_is(raw.destination)
        &&& self.broadcast.from_raw_is(raw.broadcast)
        &&& self.netmask.from_raw_is(raw.netmask)
        &&& self.address6.from_raw_is(raw.address6)
        &&& self.prefix6_length == raw.prefix6_length
        &&& self.scope6 == raw.scope6
        &&& self.flags == raw.flags
        &&& self.mtu == raw.mtu
        &&& self.metric == raw.metric
        &&& self.tx_queue_len == raw.tx_queue_len
    }

    /// Converts a native record.
    pub fn from_raw(raw: &RawInterfaceConfig) -> (r: InterfaceConfig)
        ensures
            r.from_raw_is(*raw),
    {
        InterfaceConfig {
            name: chars_to_bytes(raw.name.as_slice()),
            type_: chars_to_bytes(raw.type_.as_slice()),
            description: chars_to_bytes(raw.description.as_slice()),
            hwaddr: NetAddress::from_raw(&raw.hwaddr),
            address: NetAddress::from_raw(&raw.address),
            destination: NetAddress::from_raw(&raw.destination),
            broadcast: NetAddress::from_raw(&raw.broadcast),
            netmask: NetAddress::from_raw(&raw.netmask),
            address6: NetAddress::from_raw(&raw.address6),
            prefix6_length: raw.prefix6_length,
            scope6: raw.scope6,
            flags: raw.flags,
            mtu: raw.mtu,
            metric: raw.metric,
            tx_queue_len: raw.tx_queue_len,
        }
    }
}

/// The bytes of an interface name as the native side takes it: the name
/// must hold no zero byte.
pub fn interface_name(name: &str) -> (r: SigarResult<Vec<u8>>)
    ensures
        match r {
            Ok(b) => b@ == name.spec_bytes() && !name.spec_bytes().contains(0u8),
            Err(e) => name.spec_bytes().contains(0u8) && is_malformed(e, NUL_IN_NAME@),
        },
{
    let bytes = name.as_bytes();
    let mut out: Vec<u8> = Vec::with_capacity(bytes.len());
    let mut i: usize = 0;
    while i < bytes.len()
        invariant
            bytes@ == name.spec_bytes(),
            i <= bytes@.len(),
            out@ == bytes@.subrange(0, i as int),
            forall|j: int| 0 <= j < i ==> bytes@[j] != 0u8,
        decreases bytes@.len() - i,
    {
        if bytes[i] == 0 {
            assert(name.spec_bytes()[i as int] == 0u8);
            assert(name.spec_bytes().contains(0u8));
            return Err(Error::CString(NUL_IN_NAME.to_owned()));
        }
        out.push(bytes[i]);
        i += 1;
        assert(out@ =~= bytes@.subrange(0, i as int));
    }
    assert(out@ =~= bytes@);
    Ok(out)
}

/// Returns the configuration of a named interface, from the outcome of the native query.
pub fn interface_config(fetched: SigarResult<RawInterfaceConfig>) -> (r: SigarResult<InterfaceConfig>)
    ensures
        match fetched {
            Ok(raw) => r matches Ok(d) && d.from_raw_is(raw),
            Err(e) => r == Err::<InterfaceConfig, Error>(e),
        },
{
    match fetched {
        Ok(raw) => Ok(InterfaceConfig::from_raw(&raw)),
        Err(e) => Err(e),
    }
}

/// Returns the configuration of the primary interface, from the outcome of the native query.
pub fn interface_config_primary(fetched: SigarResult<RawInterfaceConfig>) -> (r: SigarResult<InterfaceConfig>)
    ensures
        match fetched {
            Ok(raw) => r matches Ok(d) && d.from_raw_is(raw),
            Err(e) => r == Err::<InterfaceConfig, Error>(e),
        },
{
    match fetched {
        Ok(raw) => Ok(InterfaceConfig::from_raw(&raw)),
        Err(e) => Err(e),
    }
}

/// The native interface counter record (`sigar_net_interface_stat_t`).
#[derive(Clone, Copy, Debug, PartialEq, Eq, Structural)]
pub struct RawInterfaceStat {
    pub rx_packets: u64,
    pub rx_bytes: u64,
    pub rx_errors: u64,
    pub rx_dropped: u64,
    pub rx_overruns: u64,
    pub rx_frame: u64,
    pub tx_packets: u64,
    pub tx_bytes: u64,
    pub tx_errors: u64,
    pub tx_dropped: u64,
    pub tx_overruns: u64,
    pub tx_collisions: u64,
    pub tx_carrier: u64,
    pub speed: u64,
}

/// Traffic counters of a network interface
#[derive(Clone, Copy, Debug, PartialEq, Eq, Structural)]
pub struct InterfaceStat {
    pub rx_packets: u64,
    pub rx_bytes: u64,
    pub rx_errors: u64,
    pub rx_dropped: u64,
    pub rx_overruns: u64,
    pub rx_frame: u64,
    pub tx_packets: u64,
    pub tx_bytes: u64,
    pub tx_errors: u64,
    pub tx_dropped: u64,
    pub tx_overruns: u64,
    pub tx_collisions: u64,
    pub tx_carrier: u64,
    pub speed: u64,
}

impl InterfaceStat {
    /// `self` holds every counter of the native record as it is.
    pub open spec fn from_raw_is(self, raw: RawInterfaceStat) -> bool {
        self == InterfaceStat {
            rx_packets: raw.rx_packets,
            rx_bytes: raw.rx_bytes,
            rx_errors: raw.rx_errors,
            rx_dropped: raw.rx_dropped,
            rx_overruns: raw.rx_overruns,
            rx_frame: raw.rx_frame,
            tx_packets: raw.tx_packets,
            tx_bytes: raw.tx_bytes,
            tx_errors: raw.tx_errors,
            tx_dropped: raw.tx_dropped,
            tx_overruns: raw.tx_overruns,
            tx_collisions: raw.tx_collisions,
            tx_carrier: raw.tx_carrier,
            speed: raw.speed,
        }
    }

    /// Converts a native record.
    pub fn from_raw(raw: &RawInterfaceStat) -> (r: InterfaceStat)
        ensures
            r.from_raw_is(*raw),
    {
        InterfaceStat {
            rx_packets: raw.rx_packets,
            rx_bytes: raw.rx_bytes,
            rx_errors: raw.rx_errors,
            rx_dropped: raw.rx_dropped,
            rx_overruns: raw.rx_overruns,
            rx_frame: raw.rx_frame,
            tx_packets: raw.tx_packets,
            tx_bytes: raw.tx_bytes,
            tx_errors: raw.tx_errors,
            tx_dropped: raw.tx_dropped,
            tx_overruns: raw.tx_overruns,
            tx_collisions: raw.tx_collisions,
            tx_carrier: raw.tx_carrier,
            speed: raw.speed,
        }
    }
}

/// Returns the counters of a named interface, from the outcome of the native query.
pub fn interface_stat(fetched: SigarResult<RawInterfaceStat>) -> (r: SigarResult<InterfaceStat>)
    ensures
        match fetched {
            Ok(raw) => r matches Ok(d) && d.from_raw_is(raw),
            Err(e) => r == Err::<InterfaceStat, Error>(e),
        },
{
    match fetched {
        Ok(raw) => Ok(InterfaceStat::from_raw(&raw)),
        Err(e) => Err(e),
    }
}

/// Flag asking for client connections.
pub const FLAG_NETCONN_CLIENT: u32 = 0x01;
/// Flag asking for server connections.
pub const FLAG_NETCONN_SERVER: u32 = 0x02;
/// Flag asking for TCP connections; also the native tag of one.
pub const FLAG_NETCONN_TCP: u32 = 0x10;
/// Flag asking for UDP connections; also the native tag of one.
pub const FLAG_NETCONN_UDP: u32 = 0x20;
/// Flag asking for raw connections; also the native tag of one.
pub const FLAG_NETCONN_RAW: u32 = 0x40;
/// Flag asking for unix domain connections; also the native tag of one.
pub const FLAG_NETCONN_UNIX: u32 = 0x80;

/// Connection type
#[allow(non_camel_case_types)]
#[derive(Clone, Copy, Debug, PartialEq, Eq, Structural)]
pub enum ConnType {
    TCP,
    UDP,
    RAW,
    UNIX,
    UNKNOWN,
}

impl ConnType {
    /// The type that a native tag names; an unknown tag is `UNKNOWN`.
    pub open spec fn spec_from_raw(raw: i32) -> ConnType {
        if raw == FLAG_NETCONN_TCP {
            ConnType::TCP
        } else if raw == FLAG_NETCONN_UDP {
            ConnType::UDP
        } else if raw == FLAG_NETCONN_RAW {
            ConnType::RAW
        } else if raw == FLAG_NETCONN_UNIX {
            ConnType::UNIX
        } else {
            ConnType::UNKNOWN
        }
    }

    /// Classifies a native connection type tag.
    pub fn from_raw(raw: i32) -> (r: ConnType)
        ensures
            r == Self::spec_from_raw(raw),
    {
        if raw == FLAG_NETCONN_TCP as i32 {
            ConnType::TCP
        } else if raw == FLAG_NETCONN_UDP as i32 {
            ConnType::UDP
        } else if raw == FLAG_NETCONN_RAW as i32 {
            ConnType::RAW
        } else if raw == FLAG_NETCONN_UNIX as i32 {
            ConnType::UNIX
        } else {
            ConnType::UNKNOWN
        }
    }
}

/// Native tag of the TCP state ESTABLISHED.
pub const SIGAR_TCP_ESTABLISHED: i32 = 1;
/// Native tag of the TCP state SYN_SENT.
pub const SIGAR_TCP_SYN_SENT: i32 = 2;
/// Native tag of the TCP state SYN_RECV.
pub const SIGAR_TCP_SYN_RECV: i32 = 3;
/// Native tag of the TCP state FIN_WAIT1.
pub const SIGAR_TCP_FIN_WAIT1: i32 = 4;
/// Native tag of the TCP state FIN_WAIT2.
pub const SIGAR_TCP_FIN_WAIT2: i32 = 5;
/// Native tag of the TCP state TIME_WAIT.
pub const SIGAR_TCP_TIME_WAIT: i32 = 6;
/// Native tag of the TCP state CLOSE.
pub const SIGAR_TCP_CLOSE: i32 = 7;
/// Native tag of the TCP state CLOSE_WAIT.
pub const SIGAR_TCP_CLOSE_WAIT: i32 = 8;
/// Native tag of the TCP state LAST_ACK.
pub const SIGAR_TCP_LAST_ACK: i32 = 9;
/// Native tag of the TCP state LISTEN.
pub const SIGAR_TCP_LISTEN: i32 = 10;
/// Native tag of the TCP state CLOSING.
pub const SIGAR_TCP_CLOSING: i32 = 11;
/// Native tag of the TCP state IDLE.
pub const SIGAR_TCP_IDLE: i32 = 12;
/// Native tag of the TCP state BOUND.
pub const SIGAR_TCP_BOUND: i32 = 13;
/// Native tag of the TCP state UNKNOWN.
pub const SIGAR_TCP_UNKNOWN: i32 = 14;

/// Connection state
#[allow(non_camel_case_types)]
#[derive(Clone, Copy, Debug, PartialEq, Eq, Structural)]
pub enum ConnSate {
    TCP_ESTABLISHED,
    TCP_SYN_SENT,
    TCP_SYN_RECV,
    TCP_FIN_WAIT1,
    TCP_FIN_WAIT2,
    TCP_TIME_WAIT,
    TCP_CLOSE,
    TCP_CLOSE_WAIT,
    TCP_LAST_ACK,
    TCP_LISTEN,
    TCP_CLOSING,
    TCP_IDLE,
    TCP_BOUND,
    TCP_UNKNOWN,
}

impl ConnSate {
    /// The state that a native tag names; an unknown tag is `TCP_UNKNOWN`.
    pub open spec fn spec_from_raw(raw: i32) -> ConnSate {
        if raw == SIGAR_TCP_ESTABLISHED {
            ConnSate::TCP_ESTABLISHED
        } else if raw == SIGAR_TCP_SYN_SENT {
            ConnSate::TCP_SYN_SENT
        } else if raw == SIGAR_TCP_SYN_RECV {
            ConnSate::TCP_SYN_RECV
        } else if raw == SIGAR_TCP_FIN_WAIT1 {
            ConnSate::TCP_FIN_WAIT1
        } else if raw == SIGAR_TCP_FIN_WAIT2 {
            ConnSate::TCP_FIN_WAIT2
        } else if raw == SIGAR_TCP_TIME_WAIT {
            ConnSate::TCP_TIME_WAIT
        } else if raw == SIGAR_TCP_CLOSE {
            ConnSate::TCP_CLOSE
        } else if raw == SIGAR_TCP_CLOSE_WAIT {
            ConnSate::TCP_CLOSE_WAIT
        } else if raw == SIGAR_TCP_LAST_ACK {
            ConnSate::TCP_LAST_ACK
        } else if raw == SIGAR_TCP_LISTEN {
            ConnSate::TCP_LISTEN
        } else if raw == SIGAR_TCP_CLOSING {
            ConnSate::TCP_CLOSING
        } else if raw == SIGAR_TCP_IDLE {
            ConnSate::TCP_IDLE
        } else if raw == SIGAR_TCP_BOUND {
            ConnSate::TCP_BOUND
        } else {
            ConnSate::TCP_UNKNOWN
        }
    }

    /// Classifies a native connection state tag.
    pub fn from_raw(raw: i32) -> (r: ConnSate)
        ensures
            r == Self::spec_from_raw(raw),
    {
        if raw == SIGAR_TCP_ESTABLISHED {
            ConnSate::TCP_ESTABLISHED
        } else if raw == SIGAR_TCP_SYN_SENT {
            ConnSate::TCP_SYN_SENT
        } else if raw == SIGAR_TCP_SYN_RECV {
            ConnSate::TCP_SYN_RECV
        } else if raw == SIGAR_TCP_FIN_WAIT1 {
            ConnSate::TCP_FIN_WAIT1
        } else if raw == SIGAR_TCP_FIN_WAIT2 {
            ConnSate::TCP_FIN_WAIT2
        } else if raw == SIGAR_TCP_TIME_WAIT {
            ConnSate::TCP_TIME_WAIT
        } else if raw == SIGAR_TCP_CLOSE {
            ConnSate::TCP_CLOSE
        } else if raw == SIGAR_TCP_CLOSE_WAIT {
            ConnSate::TCP_CLOSE_WAIT
        } else if raw == SIGAR_TCP_LAST_ACK {
            ConnSate::TCP_LAST_ACK
        } else if raw == SIGAR_TCP_LISTEN {
            ConnSate::TCP_LISTEN
        } else if raw == SIGAR_TCP_CLOSING {
            ConnSate::TCP_CLOSING
        } else if raw == SIGAR_TCP_IDLE {
            ConnSate::TCP_IDLE
        } else if raw == SIGAR_TCP_BOUND {
            ConnSate::TCP_BOUND
        } else {
            ConnSate::TCP_UNKNOWN
        }
    }
}

/// The native connection record (`sigar_net_connection_t`).
#[derive(Clone, Copy, Debug, PartialEq, Eq)]
pub struct RawConn {
    pub local_port: u64,
    pub local_address: RawNetAddress,
    pub remote_port: u64,
    pub remote_address: RawNetAddress,
    pub uid: u64,
    pub inode: u64,
    pub type_: i32,
    pub state: i32,
    pub send_queue: u64,
    pub receive_queue: u64,
}

/// A network connection
#[derive(Clone, Copy, Debug, PartialEq, Eq)]
pub struct Conn {
    pub local_port: u64,
    pub local_address: NetAddress,
    pub remote_port: u64,
    pub remote_address: NetAddress,
    pub uid: u32,
    pub inode: u64,
    pub type_: ConnType,
    pub state: ConnSate,
    pub send_queue: u64,
    pub receive_queue: u64,
}

impl Conn {
    /// `self` is what the native record `raw` holds, the user id narrowed
    /// to 32 bits.
    pub open spec fn from_raw_is(self, raw: RawConn) -> bool {
        &&& self.local_port == raw.local_port
        &&& self.local_address.from_raw_is(raw.local_address)
        &&& self.remote_port == raw.remote_port
        &&& self.remote_address.from_raw_is(raw.remote_address)
        &&& self.uid == low_u32(raw.uid)
        &&& self.inode == raw.inode
        &&& self.type_ == ConnType::spec_from_raw(raw.type_)
        &&& self.state == ConnSate::spec_from_raw(raw.state)
        &&& self.send_queue == raw.send_queue
        &&& self.receive_queue == raw.receive_queue
    }

    /// Converts a native record.
    pub fn from_raw(raw: &RawConn) -> (r: Conn)
        ensures
            r.from_raw_is(*raw),
    {
        Conn {
            local_port: raw.local_port,
            local_address: NetAddress::from_raw(&raw.local_address),
            remote_port: raw.remote_port,
            remote_address: NetAddress::from_raw(&raw.remote_address),
            uid: u64_to_u32(raw.uid),
            inode: raw.inode,
            type_: ConnType::from_raw(raw.type_),
            state: ConnSate::from_raw(raw.state),
            send_queue: raw.send_queue,
            receive_queue: raw.receive_queue,
        }
    }
}

/// Returns the connections, from the outcome of the native connection list query.
pub fn connection_list(fetched: SigarResult<Vec<RawConn>>) -> (r: SigarResult<Vec<Conn>>)
    ensures
        match fetched {
            Ok(raw) => r matches Ok(v) && v@.len() == raw@.len() && forall|i: int|
                0 <= i < raw@.len() ==> (#[trigger] v@[i]).from_raw_is(raw@[i]),
            Err(e) => r == Err::<Vec<Conn>, Error>(e),
        },
{
    match fetched {
        Ok(raw) => Ok(extract_list(&raw, Conn::from_raw)),
        Err(e) => Err(e),
    }
}

/// The native connection summary record (`sigar_net_stat_t`).
#[derive(Clone, Copy, Debug, PartialEq, Eq)]
pub struct RawNetStat {
    pub tcp_states: [i32; 14],
    pub tcp_inbound_total: u32,
    pub tcp_outbound_total: u32,
    pub all_inbound_total: u32,
    pub all_outbound_total: u32,
}

/// Connection summary: connections per TCP state, and totals
#[derive(Clone, Copy, Debug, PartialEq, Eq)]
pub struct Stat {
    pub tcp_states: [i32; 14],
    pub tcp_inbound_total: u32,
    pub tcp_outbound_total: u32,
    pub all_inbound_total: u32,
    pub all_outbound_total: u32,
}

impl Stat {
    /// `self` holds every field of the native record as it is.
    pub open spec fn from_raw_is(self, raw: RawNetStat) -> bool {
        &&& self.tcp_states@ == raw.tcp_states@
        &&& self.tcp_inbound_total == raw.tcp_inbound_total
        &&& self.tcp_outbound_total == raw.tcp_outbound_total
        &&& self.all_inbound_total == raw.all_inbound_total
        &&& self.all_outbound_total == raw.all_outbound_total
    }

    /// Converts a native record.
    pub fn from_raw(raw: &RawNetStat) -> (r: Stat)
        ensures
            r.from_raw_is(*raw),
    {
        Stat {
            tcp_states: raw.tcp_states,
            tcp_inbound_total: raw.tcp_inbound_total,
            tcp_outbound_total: raw.tcp_outbound_total,
            all_inbound_total: raw.all_inbound_total,
            all_outbound_total: raw.all_outbound_total,
        }
    }
}

/// Returns the connection summary, from the outcome of the native query.
pub fn stat_get(fetched: SigarResult<RawNetStat>) -> (r: SigarResult<Stat>)
    ensures
        match fetched {
            Ok(raw) => r matches Ok(d) && d.from_raw_is(raw),
            Err(e) => r == Err::<Stat, Error>(e),
        },
{
    match fetched {
        Ok(raw) => Ok(Stat::from_raw(&raw)),
        Err(e) => Err(e),
    }
}

/// Returns the address a port is bound to, from the outcome of the native query.
pub fn listen_address_get(fetched: SigarResult<RawNetAddress>) -> (r: SigarResult<NetAddress>)
    ensures
        match fetched {
            Ok(raw) => r matches Ok(d) && d.from_raw_is(raw),
            Err(e) => r == Err::<NetAddress, Error>(e),
        },
{
    match fetched {
        Ok(raw) => Ok(NetAddress::from_raw(&raw)),
        Err(e) => Err(e),
    }
}

} // verus!
