use procsys::buddyinfo::BuddyInfo;
use procsys::cmdline;
use procsys::cpuinfo::CpuInfo;
use procsys::crypto::Crypto;
use procsys::error::MetricError;
use procsys::meminfo::Meminfo;
use procsys::net_arp::ARPEntry;
use procsys::net_dev::NetDev;
use procsys::net_protocols::NetProtocol;
use procsys::net_sockstat::NetSockStat;
use procsys::net_unix::NetUnix;
use procsys::net_wireless::Wireless;
use procsys::process_net_snmp6::ProcessNetSnmp6;
use procsys::softirqs::Softirqs;
use procsys::swaps::Swaps;

fn lines(text: &[&str]) -> Vec<String> {
    text.iter().map(|s| s.to_string()).collect()
}

#[test]
fn buddyinfo() {
    let data = lines(&[
        "Node 0, zone      DMA      1      0      1      0      2      1      1      0      1      1      3",
        "Node 0, zone    DMA32    759    572    791    475    194     45     12      0      0      0      0",
        "Node 0, zone   Normal   4381   1093    185   1530    567    102      4      0      0      0      0",
    ]);
    let binfo = BuddyInfo::parse(&data).expect("buddy information");
    assert_eq!(binfo.len(), 3);
    assert_eq!(binfo[0].node, "0");
    assert_eq!(binfo[1].zone, "DMA32");
    assert_eq!(binfo[1].sizes, vec![759, 572, 791, 475, 194, 45, 12, 0, 0, 0, 0]);
    assert_eq!(binfo[2].zone, "Normal");
    assert_eq!(binfo[2].sizes[0], 4381);
}

#[test]
fn buddyinfo_short_line_is_an_error() {
    let data = lines(&["Node 0, zone"]);
    assert!(matches!(
        BuddyInfo::parse(&data),
        Err(MetricError::InvalidFieldNumberError(_, 3, _))
    ));
}

#[test]
fn sys_bootcmd() {
    let cmd = cmdline::parse(
        "BOOT_IMAGE=/vmlinuz-5.11.0-22-generic root=UUID=456a0345-450d-4f7b-b7c9-43e3241d99ad ro quiet splash vt.handoff=7\n",
    );
    assert_eq!(
        cmd,
        vec![
            "BOOT_IMAGE=/vmlinuz-5.11.0-22-generic",
            "root=UUID=456a0345-450d-4f7b-b7c9-43e3241d99ad",
            "ro",
            "quiet",
            "splash",
            "vt.handoff=7"
        ]
    );
    assert!(cmdline::parse("  \n").is_empty());
}

#[test]
fn cpuinfo() {
    let data = lines(&[
        "processor\t: 0",
        "vendor_id\t: GenuineIntel",
        "cpu family\t: 6",
        "model\t\t: 142",
        "model name\t: Intel(R) Core(TM) i7-8650U CPU @ 1.90GHz",
        "stepping\t: 10",
        "microcode\t: 0xb4",
        "cpu MHz\t\t: 799.998",
        "cache size\t: 8192 KB",
        "physical id\t: 0",
        "siblings\t: 8",
        "core id\t\t: 0",
        "cpu cores\t: 4",
        "fpu\t\t: yes",
        "flags\t\t: fpu vme de",
        "bugs\t\t: cpu_meltdown spectre_v1 spectre_v2",
        "bogomips\t: 4224.00",
        "clflush size\t: 64",
        "cache_alignment\t: 64",
        "address sizes\t: 39 bits physical, 48 bits virtual",
        "power management:",
        "",
        "processor\t: 1",
        "cpu family\t: 6",
    ]);
    let cpus = CpuInfo::parse(&data).expect("cpu information");
    assert_eq!(cpus.len(), 2);
    let c = &cpus[0];
    assert_eq!(c.processor, 0);
    assert_eq!(c.vendor_id, "GenuineIntel");
    assert_eq!(c.cpu_family, 6);
    assert_eq!(c.model, 142);
    assert_eq!(c.model_name, "Intel(R) Core(TM) i7-8650U CPU @ 1.90GHz");
    assert_eq!(c.stepping, 10);
    assert_eq!(c.microcode, "0xb4");
    assert_eq!(c.cpu_mhz, "799.998");
    assert_eq!(c.cache_size_bytes, 8388608);
    assert_eq!(c.siblings, 8);
    assert_eq!(c.cpu_cores, 4);
    assert_eq!(c.fpu, "yes");
    assert_eq!(c.flags, vec!["fpu", "vme", "de"]);
    assert_eq!(c.bugs, vec!["cpu_meltdown", "spectre_v1", "spectre_v2"]);
    assert_eq!(c.bogomips, "4224.00");
    assert_eq!(c.clflush_size, 64);
    assert_eq!(c.address_sizes, "39 bits physical, 48 bits virtual");
    assert_eq!(c.power_management, "");
    assert_eq!(cpus[1].processor, 1);
    assert_eq!(cpus[1].vendor_id, "");
}

#[test]
fn cpuinfo_field_before_processor_is_an_error() {
    let data = lines(&["vendor_id\t: GenuineIntel", "processor\t: 0"]);
    assert!(CpuInfo::parse(&data).is_err());
}

#[test]
fn cpuinfo_bad_count_is_an_error() {
    let data = lines(&["processor\t: 0", "cpu family\t: six"]);
    assert!(matches!(CpuInfo::parse(&data), Err(MetricError::ParseIntError(_, _))));
}

#[test]
fn crypto_information() {
    let data = lines(&[
        "name         : ccm(aes)",
        "driver       : ccm_base(ctr(aes-aesni),cbcmac(aes-aesni))",
        "module       : kernel",
        "priority     : 300",
        "refcnt       : 4",
        "selftest     : passed",
        "internal     : no",
        "type         : aead",
        "async        : no",
        "blocksize    : 1",
        "ivsize       : 16",
        "maxauthsize  : 16",
        "geniv        : <none>",
        "",
        "name         : ctr(aes)",
        "driver       : ctr(aes-aesni)",
        "type         : skcipher",
        "async        : yes",
        "min keysize  : 16",
        "max keysize  : 32",
        "chunksize    : 16",
        "walksize     : 16",
    ]);
    let cr = Crypto::parse(&data).expect("crypto information");
    assert_eq!(cr.len(), 2);
    assert_eq!(cr[0].name, "ccm(aes)");
    assert_eq!(cr[0].driver, "ccm_base(ctr(aes-aesni),cbcmac(aes-aesni))");
    assert_eq!(cr[0].module, "kernel");
    assert_eq!(cr[0].priority, Some(300));
    assert_eq!(cr[0].refcnt, Some(4));
    assert_eq!(cr[0].selftest, "passed");
    assert_eq!(cr[0].cryptotype, "aead");
    assert!(!cr[0].cryptoasync);
    assert_eq!(cr[0].blocksize, Some(1));
    assert_eq!(cr[0].ivsize, Some(16));
    assert_eq!(cr[0].max_authsize, Some(16));
    assert_eq!(cr[0].geniv, "<none>");
    assert_eq!(cr[0].min_keysize, None);
    assert_eq!(cr[1].name, "ctr(aes)");
    assert!(cr[1].cryptoasync);
    assert_eq!(cr[1].min_keysize, Some(16));
    assert_eq!(cr[1].max_keysize, Some(32));
    assert_eq!(cr[1].walksize, Some(16));
    assert_eq!(cr[1].cryptotype, "skcipher");
}

#[test]
fn mem_stats() {
    let data = lines(&[
        "MemTotal:       15666184 kB",
        "MemFree:          440324 kB",
        "Buffers:         1020128 kB",
        "HugePages_Total:       0",
        "Hugepagesize:       2048 kB",
        "DirectMap2M:     5115904 MB",
    ]);
    let m = Meminfo::parse(&data).expect("memory information");
    assert_eq!(m.mem_total, Some(16042172416));
    assert_eq!(m.mem_free, Some(450891776));
    assert_eq!(m.buffers, Some(1044611072));
    assert_eq!(m.huge_pages_total, Some(0));
    assert_eq!(m.huge_page_size, Some(2097152));
    assert_eq!(m.direct_map_2m, Some(5115904 * 1024 * 1024));
    assert_eq!(m.cached, None);
}

#[test]
fn meminfo_unknown_unit_is_an_error() {
    let data = lines(&["MemTotal: 12 TB"]);
    assert!(matches!(Meminfo::parse(&data), Err(MetricError::ByteConvertError(u)) if u == "TB"));
    let empty = lines(&["MemTotal: 12 kB", "MemFree:   "]);
    assert!(Meminfo::parse(&empty).is_err());
}

#[test]
fn meminfo_line_without_colon_is_an_error() {
    let data = lines(&["MemTotal 12 kB"]);
    assert!(matches!(
        Meminfo::parse(&data),
        Err(MetricError::InvalidFieldNumberError(_, 1, _))
    ));
}

#[test]
fn arp_entries() {
    let data = lines(&[
        "IP address       HW type     Flags       HW address            Mask     Device",
        "192.168.224.1    0x1         0x2         00:50:56:c0:00:08     *        ens33",
        "192.168.224.2    0x1         0x4         00:00:00:00:00:00     *        ens33",
    ]);
    let entries = ARPEntry::parse(&data).expect("arp entries information");
    assert_eq!(entries.len(), 2);
    assert_eq!(entries[0].ip_address, [192, 168, 224, 1]);
    assert_eq!(entries[0].hw_address, [0x00, 0x50, 0x56, 0xc0, 0x00, 0x08]);
    assert_eq!(entries[0].device, "ens33");
    assert!(entries[0].is_complete());
    assert!(!entries[0].is_permanent());
    assert!(entries[1].is_permanent());
    assert_eq!(entries[1].ip_address, [192, 168, 224, 2]);
}

#[test]
fn arp_bad_hw_address_is_an_error() {
    let data = lines(&[
        "IP address       HW type     Flags       HW address            Mask     Device",
        "192.168.224.1    0x1         0x2         00:50:56:zz:00:08     *        ens33",
    ]);
    assert!(ARPEntry::parse(&data).is_err());
    let bad_ip = lines(&[
        "header",
        "192.168.224.300  0x1         0x2         00:50:56:c0:00:08     *        ens33",
    ]);
    assert!(ARPEntry::parse(&bad_ip).is_err());
}

#[test]
fn net_devices() {
    let data = lines(&[
        "Inter-|   Receive                                                |  Transmit",
        " face |bytes    packets errs drop fifo frame compressed multicast|bytes    packets errs drop fifo colls carrier compressed",
        "vethf345468:     648       8    0    0    0     0          0         0      438       5    0    0    0     0       0          0",
        "    lo: 1664039048 1566805    0    0    0     0          0         0 1664039048 1566805    0    0    0     0       0          0",
    ]);
    let devs = NetDev::parse(&data).expect("network devices");
    assert_eq!(devs.len(), 2);
    assert_eq!(devs[0].name, "vethf345468");
    assert_eq!(devs[0].rx_bytes, 648);
    assert_eq!(devs[0].rx_packets, 8);
    assert_eq!(devs[0].tx_bytes, 438);
    assert_eq!(devs[0].tx_packets, 5);
    assert_eq!(devs[1].name, "lo");
    assert_eq!(devs[1].rx_bytes, 1664039048);
    assert_eq!(devs[1].rx_packets, 1566805);
}

#[test]
fn net_dev_wrong_column_count_is_an_error() {
    let data = lines(&["h1", "h2", "lo: 1 2 3"]);
    assert!(matches!(
        NetDev::parse(&data),
        Err(MetricError::InvalidFieldNumberError(_, 4, _))
    ));
}

#[test]
fn net_protocols() {
    let header = "protocol  size sockets  memory press maxhdr  slab module     cl co di ac io in de sh ss gs se re sp bi br ha uh gp em";
    let data = lines(&[
        header,
        "PACKET    1344      2      -1   NI       0   no   kernel      n  n  n  n  n  n  n  n  n  n  n  n  n  n  n  n  n  n  n",
        "UDPv6     1216     10      57   NI       0   yes  kernel      y  y  y  n  y  y  y  n  y  y  y  y  n  n  n  y  y  y  n",
        "TCP       1984     93064  1225378 yes    320   yes  kernel      y  y  y  y  y  y  y  y  y  y  y  y  y  n  y  y  y  y  y",
    ]);
    let protos = NetProtocol::parse(&data).expect("network protocols");
    assert_eq!(protos.len(), 3);
    assert_eq!(protos[0].name, "PACKET");
    assert_eq!(protos[0].size, 1344);
    assert_eq!(protos[0].sockets, 2);
    assert_eq!(protos[0].memory, -1);
    assert_eq!(protos[0].pressure, None);
    assert!(!protos[0].slab);
    assert_eq!(protos[1].name, "UDPv6");
    assert!(protos[1].slab);
    assert!(protos[1].capabilities.close);
    assert!(!protos[1].capabilities.accept);
    assert_eq!(protos[1].capabilities.send_page, Some(false));
    assert!(protos[1].capabilities.get_port);
    assert!(!protos[1].capabilities.entry_memory_pressure);
    assert_eq!(protos[2].pressure, Some(true));
    assert_eq!(protos[2].max_header, 320);
    assert_eq!(protos[2].memory, 1225378);
}

#[test]
fn sockstat_info() {
    let data = lines(&[
        "sockets: used 1602",
        "TCP: inuse 35 orphan 0 tw 59 alloc 62 mem 22",
        "UDP: inuse 12 mem 17",
        "UDPLITE: inuse 0",
        "RAW: inuse 0",
        "FRAG: inuse 0 memory 0",
    ]);
    let s = NetSockStat::parse(&data).expect("sockstat entries information");
    assert_eq!(s.used, Some(1602));
    assert_eq!(s.protocols.len(), 5);
    assert_eq!(s.protocols[0].protocol, "TCP");
    assert_eq!(s.protocols[0].inuse, 35);
    assert_eq!(s.protocols[0].orphan, Some(0));
    assert_eq!(s.protocols[0].tw, Some(59));
    assert_eq!(s.protocols[0].alloc, Some(62));
    assert_eq!(s.protocols[0].mem, Some(22));
    assert_eq!(s.protocols[1].mem, Some(17));
    assert_eq!(s.protocols[1].tw, None);
    assert_eq!(s.protocols[4].protocol, "FRAG");
    assert_eq!(s.protocols[4].memory, Some(0));
}

#[test]
fn sockstat_bad_value_is_an_error() {
    let data = lines(&["TCP: inuse many"]);
    assert!(NetSockStat::parse(&data).is_err());
}

#[test]
fn net_unix() {
    let data = lines(&[
        "Num       RefCount Protocol Flags    Type St Inode Path",
        "0000000000000001: 00000002 00000000 00010000 0001 01  3442596 /var/run/postgresql/.s.PGSQL.5432",
        "0000000000000003: 0000000A 00000000 00000000 0001 03    10061",
    ]);
    let u = NetUnix::parse(&data).expect("network unix");
    assert_eq!(u.len(), 2);
    assert_eq!(u[0].kernel_ptr, "0000000000000001");
    assert_eq!(u[0].ref_count, 2);
    assert_eq!(u[0].flags, 0x10000);
    assert_eq!(u[0].ntype, 1);
    assert_eq!(u[0].state, 1);
    assert_eq!(u[0].inode, 3442596);
    assert_eq!(u[0].path.as_deref(), Some("/var/run/postgresql/.s.PGSQL.5432"));
    assert_eq!(u[1].ref_count, 10);
    assert_eq!(u[1].state, 3);
    assert_eq!(u[1].path, None);
}

#[test]
fn net_wireless() {
    let data = lines(&[
        "Inter-| sta-|   Quality        |   Discarded packets               | Missed | WE",
        " face | tus | link level noise |  nwid  crypt   frag  retry   misc | beacon | 22",
        "wlan0: 0000   70.  -40.  -256        0      0      0      0     10        16",
    ]);
    let w = Wireless::parse(&data).expect("network wireless");
    assert_eq!(w.len(), 1);
    assert_eq!(w[0].name, "wlan0");
    assert_eq!(w[0].status, 0);
    assert_eq!(w[0].quality_link, 70);
    assert_eq!(w[0].quality_level, -40);
    assert_eq!(w[0].quality_noise, -256);
    assert_eq!(w[0].discarded_misc, 10);
    assert_eq!(w[0].missed_beacon, 16);
}

#[test]
fn proc_net_snmp6() {
    let data = lines(&["Ip6InReceives                   \t92166", "Ip6InHdrErrors  0", "Udp6InDatagrams 381"]);
    let s = ProcessNetSnmp6::parse(&data).expect("snmp6");
    assert_eq!(s.ip6_in_receives, Some(92166));
    assert_eq!(s.ip6_in_hdr_errors, Some(0));
    assert_eq!(s.udp6_in_datagrams, Some(381));
    assert_eq!(s.ip6_out_requests, None);
    let bad = lines(&["Ip6InReceives x"]);
    assert!(matches!(ProcessNetSnmp6::parse(&bad), Err(MetricError::ParseIntError(_, _))));
}

#[test]
fn softirqs_stats() {
    let data = lines(&[
        "                    CPU0       CPU1",
        "          HI:    2776180     247490",
        "       TIMER:       2419        772",
        "      NET_TX:      55919      28694",
        "         RCU:     605871     532783",
    ]);
    let s = Softirqs::parse(&data).expect("softirqs information");
    assert_eq!(s.hi, vec![2776180, 247490]);
    assert_eq!(s.timer, vec![2419, 772]);
    assert_eq!(s.net_tx, vec![55919, 28694]);
    assert_eq!(s.rcu, vec![605871, 532783]);
    assert!(s.sched.is_empty());
    let bad = lines(&["CPU0", "HI: 1 x"]);
    assert!(Softirqs::parse(&bad).is_err());
}

#[test]
fn system_swaps() {
    let data = lines(&[
        "Filename\t\t\t\tType\t\tSize\t\tUsed\t\tPriority",
        "/dev/zram0                              partition\t8388604\t\t0\t\t100",
        "/dev/dm-2                               partition\t131068\t\t176\t\t-2",
    ]);
    let s = Swaps::parse(&data).expect("swaps information");
    assert_eq!(s.len(), 2);
    assert_eq!(s[0].filename, "/dev/zram0");
    assert_eq!(s[0].swap_type, "partition");
    assert_eq!(s[0].size, 8388604);
    assert_eq!(s[0].used, 0);
    assert_eq!(s[0].priority, 100);
    assert_eq!(s[1].size, 131068);
    assert_eq!(s[1].used, 176);
    assert_eq!(s[1].priority, -2);
}
