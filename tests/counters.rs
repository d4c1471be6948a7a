use procsys::process_netstat::ProcessNetstat;
use procsys::process_net_snmp::ProcessNetSnmp;
use procsys::error::MetricError;

fn lines(text: &[&str]) -> Vec<String> {
    text.iter().map(|s| s.to_string()).collect()
}

#[test]
fn proc_netstat() {
    let data = lines(&[
        "TcpExt: SyncookiesSent SyncookiesRecv TW DelayedACKs",
        "TcpExt: 0 3 83 3640",
        "IpExt: InNoRoutes InOctets",
        "IpExt: 19 190585481",
    ]);
    let n = ProcessNetstat::parse(&data).expect("netstat");
    assert_eq!(n.tcp_ext.syn_cookies_sent, Some(0));
    assert_eq!(n.tcp_ext.syn_cookies_recv, Some(3));
    assert_eq!(n.tcp_ext.tw, Some(83));
    assert_eq!(n.tcp_ext.delayed_acks, Some(3640));
    assert_eq!(n.tcp_ext.embryonic_rsts, None);
    assert_eq!(n.ip_ext.in_no_routes, Some(19));
    assert_eq!(n.ip_ext.in_octets, Some(190585481));
}

#[test]
fn netstat_rejects_mismatched_counts() {
    let data = lines(&["TcpExt: SyncookiesSent SyncookiesRecv", "TcpExt: 0"]);
    assert!(matches!(
        ProcessNetstat::parse(&data),
        Err(MetricError::InvalidFieldNumberError(_, _, _))
    ));
}

#[test]
fn snmp_rejects_bad_value() {
    let data = lines(&["Ip: Forwarding DefaultTTL", "Ip: 1 x"]);
    assert!(matches!(ProcessNetSnmp::parse(&data), Err(MetricError::ParseIntError(_, _))));
}

#[test]
fn proc_net_snmp() {
    let data = lines(&[
        "Ip: Forwarding DefaultTTL InReceives",
        "Ip: 1 64 594223",
        "Tcp: RtoAlgorithm RtoMin RtoMax MaxConn",
        "Tcp: 1 200 120000 -1",
    ]);
    let s = ProcessNetSnmp::parse(&data).expect("snmp");
    assert_eq!(s.ip.forwarding, Some(1));
    assert_eq!(s.ip.default_ttl, Some(64));
    assert_eq!(s.ip.in_receives, Some(594223));
    assert_eq!(s.tcp.rto_min, Some(200));
    assert_eq!(s.tcp.max_conn, Some(-1));
}

#[test]
fn netstat_checks_every_occurrence() {
    let data = lines(&["TcpExt: TW TW", "TcpExt: x 5"]);
    assert!(matches!(ProcessNetstat::parse(&data), Err(MetricError::ParseIntError(_, _))));
    let ok = lines(&["TcpExt: TW TW", "TcpExt: 4 5"]);
    assert_eq!(ProcessNetstat::parse(&ok).expect("netstat").tcp_ext.tw, Some(5));
    let snmp = lines(&["Udp: InErrors InErrors", "Udp: bad 1"]);
    assert!(ProcessNetSnmp::parse(&snmp).is_err());
}
