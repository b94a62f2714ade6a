use sigar::cpu::{self, CPUUsage, RawCpu, RawCpuInfo};
use sigar::mem::{self, RawSwap, Swap};
use sigar::net::{
    self, AFFamily, ConnSate, ConnType, RawAddress, RawConn, RawInterfaceConfig, RawInterfaceStat,
    RawNetAddress, RawNetInfo, RawNetStat, RawRoute,
};
use sigar::process::{self, RawProcCred, RawProcCredName, RawProcDiskIo, RawProcFd, RawProcMem, RawProcStat, RawProcState, RawProcTime};
use sigar::Error;

fn raw_cpu() -> RawCpu {
    RawCpu { user: 100, sys: 50, nice: 3, idle: 850, wait: 4, irq: 5, soft_irq: 6, stolen: 7, total: 1025 }
}

fn chars(s: &str, width: usize) -> Vec<i8> {
    let mut v: Vec<i8> = s.bytes().map(|b| b as i8).collect();
    v.resize(width, 0);
    v
}

fn v4(a: [u8; 4]) -> RawNetAddress {
    let w = u32::from_le_bytes(a);
    RawNetAddress {
        family: 1,
        addr: RawAddress { in_: w, in6: [w, 0, 0, 0], mac: [a[0], a[1], a[2], a[3], 0, 0, 0, 0] },
    }
}

#[test]
fn cpu_snapshot() {
    let u = cpu::get(Ok(raw_cpu())).unwrap();
    assert_eq!(
        u,
        CPUUsage { user: 100, sys: 50, nice: 3, idle: 850, wait: 4, irq: 5, soft_irq: 6, stolen: 7, total: 1025 }
    );
    assert_eq!(u.to_raw(), raw_cpu());
}

#[test]
fn cpu_snapshot_keeps_wide_values() {
    let mut raw = raw_cpu();
    raw.idle = u64::MAX;
    raw.total = 1 << 40;
    let u = CPUUsage::from_raw(&raw);
    assert_eq!(u.idle, u64::MAX);
    assert_eq!(u.total, 1 << 40);
}

#[test]
fn cpu_get_passes_errors_on() {
    assert_eq!(cpu::get(Err(Error::ENXIO)), Err(Error::ENXIO));
}

#[test]
fn cpu_list_keeps_order() {
    let mut second = raw_cpu();
    second.user = 1;
    let l = cpu::list(Ok(vec![raw_cpu(), second])).unwrap();
    assert_eq!(l.len(), 2);
    assert_eq!(l[0].user, 100);
    assert_eq!(l[1].user, 1);
    assert_eq!(cpu::list(Ok(vec![])).unwrap(), vec![]);
}

fn raw_info(vendor: Vec<i8>) -> RawCpuInfo {
    RawCpuInfo {
        vendor,
        model: chars("Core i7", 128),
        mhz: 2400,
        mhz_max: 3600,
        mhz_min: 800,
        cache_size: 8192,
        total_sockets: 1,
        total_cores: 4,
        cores_per_socket: 4,
    }
}

#[test]
fn cpu_info_list() {
    let l = cpu::info_list(Ok(vec![raw_info(chars("GenuineIntel", 128))])).unwrap();
    assert_eq!(l.len(), 1);
    assert_eq!(l[0].vendor, "GenuineIntel");
    assert_eq!(l[0].model, "Core i7");
    assert_eq!(l[0].mhz, 2400);
    assert_eq!(l[0].mhz_max, 3600);
    assert_eq!(l[0].mhz_min, 800);
    assert_eq!(l[0].cache_size, 8192);
    assert_eq!(l[0].total_sockets, 1);
    assert_eq!(l[0].total_cores, 4);
    assert_eq!(l[0].cores_per_socket, 4);
}

#[test]
fn cpu_info_list_fails_on_bad_text() {
    let bad = raw_info(vec![65, -2, 0]);
    let r = cpu::info_list(Ok(vec![raw_info(chars("AMD", 8)), bad]));
    assert!(matches!(r, Err(Error::Others(ref m)) if m == "native text is not valid UTF-8"));
}

#[test]
fn swap_snapshot() {
    let raw = RawSwap { total: 10, used: 4, free: 6, page_in: 1, page_out: 2 };
    assert_eq!(mem::swap(Ok(raw)), Ok(Swap { total: 10, used: 4, free: 6, page_in: 1, page_out: 2 }));
}

#[test]
fn process_records() {
    let s = process::summary(Ok(RawProcStat { total: 9, sleeping: 5, running: 1, zombie: 0, stopped: 1, idle: 2, threads: 40 })).unwrap();
    assert_eq!((s.total, s.sleeping, s.running, s.zombie, s.stopped, s.idle, s.threads), (9, 5, 1, 0, 1, 2, 40));
    let m = process::mem(Ok(RawProcMem { size: 1, resident: 2, share: 3, minor_faults: 4, major_faults: 5, page_faults: 9 })).unwrap();
    assert_eq!((m.size, m.resident, m.share, m.minor_faults, m.major_faults, m.page_faults), (1, 2, 3, 4, 5, 9));
    let d = process::disk_io(Ok(RawProcDiskIo { bytes_read: 7, bytes_written: 8, bytes_total: 15 })).unwrap();
    assert_eq!((d.bytes_read, d.bytes_written, d.bytes_total), (7, 8, 15));
    let c = process::cum_disk_io(Ok(RawProcDiskIo { bytes_read: 70, bytes_written: 80, bytes_total: 150 })).unwrap();
    assert_eq!(c.bytes_total, 150);
    let t = process::time(Ok(RawProcTime { start_time: 1000, user: 3, sys: 4, total: 7 })).unwrap();
    assert_eq!((t.start_time, t.user, t.sys, t.total), (1000, 3, 4, 7));
    let f = process::fd(Ok(RawProcFd { total: 12 })).unwrap();
    assert_eq!(f.total, 12);
    assert_eq!(process::fd(Err(Error::EACCES)), Err(Error::EACCES));
}

#[test]
fn process_cred_narrows_ids() {
    let c = process::cred(Ok(RawProcCred { uid: 1000, gid: 0x1_0000_0064, euid: 0, egid: 5 })).unwrap();
    assert_eq!((c.uid, c.gid, c.euid, c.egid), (1000, 100, 0, 5));
}

#[test]
fn process_cred_name_keeps_buffers() {
    let n = process::cred_name(Ok(RawProcCredName { user: chars("root", 8), group: chars("wheel", 6) })).unwrap();
    assert_eq!(n.user, b"root\0\0\0\0".to_vec());
    assert_eq!(sigar::strip_bytes(&n.group), b"wheel");
}

#[test]
fn process_state() {
    let raw = RawProcState {
        name: chars("init", 6),
        state: b'S' as i8,
        ppid: 0xffff_ffff,
        tty: 0,
        priority: 20,
        nice: -5,
        processor: 3,
        threads: 2,
    };
    let s = process::state(Ok(raw)).unwrap();
    assert_eq!(s.name, b"init\0\0".to_vec());
    assert_eq!(s.state, b'S');
    assert_eq!(s.ppid, -1);
    assert_eq!((s.tty, s.priority, s.nice, s.processor, s.threads), (0, 20, -5, 3, 2));
}

#[test]
fn net_info() {
    let raw = RawNetInfo {
        default_gateway: chars("10.0.0.1", 12),
        default_gateway_interface: chars("eth0", 6),
        host_name: chars("box", 4),
        domain_name: chars("", 2),
        primary_dns: chars("1.1.1.1", 8),
        secondary_dns: chars("8.8.8.8", 8),
    };
    let i = net::info(Ok(raw)).unwrap();
    assert_eq!(i.default_gateway, b"10.0.0.1\0\0\0\0".to_vec());
    assert_eq!(i.default_gateway_interface, b"eth0\0\0".to_vec());
    assert_eq!(i.host_name, b"box\0".to_vec());
    assert_eq!(i.domain_name, vec![0, 0]);
    assert_eq!(i.primary_dns, b"1.1.1.1\0".to_vec());
    assert_eq!(i.secondary_dns, b"8.8.8.8\0".to_vec());
}

#[test]
fn route_list() {
    let raw = RawRoute {
        destination: v4([10, 0, 0, 0]),
        gateway: v4([10, 0, 0, 1]),
        mask: v4([255, 255, 255, 0]),
        flags: 3,
        refcnt: 1,
        use_: 2,
        metric: 100,
        mtu: 1500,
        window: 0,
        irtt: 9,
        ifname: chars("eth0", 16),
    };
    let l = net::route_list(Ok(vec![raw])).unwrap();
    assert_eq!(l.len(), 1);
    let r = &l[0];
    assert_eq!(r.destination.address.inet4, [10, 0, 0, 0]);
    assert_eq!(r.gateway.address.inet4, [10, 0, 0, 1]);
    assert_eq!(r.mask.address.inet4, [255, 255, 255, 0]);
    assert_eq!(r.gateway.family, AFFamily::INET);
    assert_eq!((r.flags, r.refcnt, r.use_, r.metric, r.mtu, r.window, r.irtt), (3, 1, 2, 100, 1500, 0, 9));
    assert_eq!(sigar::strip_bytes(&r.ifname), b"eth0");
}

fn raw_config() -> RawInterfaceConfig {
    RawInterfaceConfig {
        name: chars("eth0", 16),
        type_: chars("Ethernet", 64),
        description: chars("", 4),
        hwaddr: RawNetAddress { family: 3, addr: RawAddress { in_: 0, in6: [0; 4], mac: [2, 4, 6, 8, 10, 12, 0, 0] } },
        address: v4([192, 168, 1, 20]),
        destination: v4([192, 168, 1, 20]),
        broadcast: v4([192, 168, 1, 255]),
        netmask: v4([255, 255, 255, 0]),
        address6: RawNetAddress { family: 2, addr: RawAddress { in_: 0x80fe, in6: [0x80fe, 0, 0, 0x0100_0000], mac: [0; 8] } },
        prefix6_length: 64,
        scope6: 32,
        flags: 4163,
        mtu: 1500,
        metric: 1,
        tx_queue_len: 1000,
    }
}

#[test]
fn interface_config() {
    let c = net::interface_config(Ok(raw_config())).unwrap();
    assert_eq!(sigar::strip_bytes(&c.name), b"eth0");
    assert_eq!(sigar::strip_bytes(&c.type_), b"Ethernet");
    assert_eq!(c.description, vec![0; 4]);
    assert_eq!(c.hwaddr.family, AFFamily::LINK);
    assert_eq!(c.hwaddr.address.mac, [2, 4, 6, 8, 10, 12, 0, 0]);
    assert_eq!(c.address.address.inet4, [192, 168, 1, 20]);
    assert_eq!(c.broadcast.address.inet4, [192, 168, 1, 255]);
    assert_eq!(c.netmask.address.inet4, [255, 255, 255, 0]);
    assert_eq!(c.address6.family, AFFamily::INET6);
    assert_eq!(c.address6.address.inet6, [0xfe80, 0, 0, 0, 0, 0, 0, 1]);
    assert_eq!((c.prefix6_length, c.scope6, c.flags, c.mtu, c.metric, c.tx_queue_len), (64, 32, 4163, 1500, 1, 1000));
    let p = net::interface_config_primary(Ok(raw_config())).unwrap();
    assert_eq!(p, c);
}

#[test]
fn interface_stat() {
    let raw = RawInterfaceStat {
        rx_packets: 1, rx_bytes: 2, rx_errors: 3, rx_dropped: 4, rx_overruns: 5, rx_frame: 6, tx_packets: 7,
        tx_bytes: 8, tx_errors: 9, tx_dropped: 10, tx_overruns: 11, tx_collisions: 12, tx_carrier: 13, speed: 14,
    };
    let s = net::interface_stat(Ok(raw)).unwrap();
    assert_eq!((s.rx_packets, s.rx_bytes, s.rx_errors, s.rx_dropped, s.rx_overruns, s.rx_frame), (1, 2, 3, 4, 5, 6));
    assert_eq!((s.tx_packets, s.tx_bytes, s.tx_errors, s.tx_dropped, s.tx_overruns, s.tx_collisions, s.tx_carrier, s.speed), (7, 8, 9, 10, 11, 12, 13, 14));
}

#[test]
fn connection_list() {
    let raw = RawConn {
        local_port: 22,
        local_address: v4([0, 0, 0, 0]),
        remote_port: 51000,
        remote_address: v4([10, 1, 2, 3]),
        uid: 0x1_0000_0001,
        inode: 777,
        type_: 0x10,
        state: 1,
        send_queue: 5,
        receive_queue: 6,
    };
    let mut odd = raw;
    odd.type_ = 1;
    odd.state = 99;
    let l = net::connection_list(Ok(vec![raw, odd])).unwrap();
    assert_eq!(l.len(), 2);
    assert_eq!((l[0].local_port, l[0].remote_port, l[0].uid, l[0].inode), (22, 51000, 1, 777));
    assert_eq!(l[0].remote_address.address.inet4, [10, 1, 2, 3]);
    assert_eq!(l[0].type_, ConnType::TCP);
    assert_eq!(l[0].state, ConnSate::TCP_ESTABLISHED);
    assert_eq!((l[0].send_queue, l[0].receive_queue), (5, 6));
    assert_eq!(l[1].type_, ConnType::UNKNOWN);
    assert_eq!(l[1].state, ConnSate::TCP_UNKNOWN);
}

#[test]
fn stat_and_listen_address() {
    let mut states = [0i32; 14];
    states[0] = 4;
    states[9] = 2;
    let raw = RawNetStat { tcp_states: states, tcp_inbound_total: 3, tcp_outbound_total: 4, all_inbound_total: 5, all_outbound_total: 6 };
    let s = net::stat_get(Ok(raw)).unwrap();
    assert_eq!(s.tcp_states, states);
    assert_eq!((s.tcp_inbound_total, s.tcp_outbound_total, s.all_inbound_total, s.all_outbound_total), (3, 4, 5, 6));
    let a = net::listen_address_get(Ok(v4([127, 0, 0, 1]))).unwrap();
    assert_eq!(a.address.inet4, [127, 0, 0, 1]);
    assert_eq!(net::listen_address_get(Err(Error::ENOENT)), Err(Error::ENOENT));
}
