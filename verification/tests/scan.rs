use gcs_afv::scan::{
    interface_nets, NetInterface, NetV4, PeerExclusion, ScanBuilder, ScanCount,
};

fn ip(a: u8, b: u8, c: u8, d: u8) -> u32 {
    u32::from_be_bytes([a, b, c, d])
}

fn iface(addr: u32, mask: u32) -> NetInterface {
    NetInterface { name: "eth0".to_string(), friendly_name: None, ipv4: vec![(addr, mask)] }
}

#[test]
fn netmask_gives_prefix() {
    let nets = interface_nets(&vec![
        iface(ip(10, 0, 0, 5), ip(255, 255, 255, 252)),
        iface(ip(10, 1, 0, 5), ip(255, 0, 255, 0)),
        NetInterface { name: "lo".to_string(), friendly_name: None, ipv4: vec![] },
        iface(ip(192, 168, 1, 7), ip(255, 255, 255, 0)),
    ]);
    assert_eq!(nets.len(), 2);
    assert_eq!(nets[0].addr, ip(10, 0, 0, 5));
    assert_eq!(nets[0].prefix_len, 30);
    assert_eq!(nets[1].addr, ip(192, 168, 1, 7));
    assert_eq!(nets[1].prefix_len, 24);
}

#[test]
fn host_ranges() {
    let n = NetV4 { addr: ip(10, 0, 0, 5), prefix_len: 30 };
    assert_eq!(n.hosts(), (ip(10, 0, 0, 5), ip(10, 0, 0, 6)));
    assert_eq!(n.netmask(), ip(255, 255, 255, 252));
    let n = NetV4 { addr: ip(10, 0, 0, 5), prefix_len: 31 };
    assert_eq!(n.hosts(), (ip(10, 0, 0, 4), ip(10, 0, 0, 5)));
    let n = NetV4 { addr: ip(10, 0, 0, 5), prefix_len: 32 };
    assert_eq!(n.hosts(), (ip(10, 0, 0, 5), ip(10, 0, 0, 5)));
    let n = NetV4 { addr: ip(172, 16, 123, 123), prefix_len: 16 };
    assert_eq!(n.hosts(), (ip(172, 16, 0, 1), ip(172, 16, 255, 254)));
}

#[test]
fn builder_defaults() {
    let b = ScanBuilder::default();
    assert!(matches!(b.scan_count, ScanCount::Limited(1)));
    assert!(matches!(b.excluded_peers, PeerExclusion::ConnectOnce));
    assert!(b.tgt_ports.is_empty());
    assert_eq!(b.parallel_attempts, 500);
    let b = b.scan_count(ScanCount::Infinite).add_port(554).add_port(80).parallel_attempts(3);
    assert!(matches!(b.scan_count, ScanCount::Infinite));
    assert_eq!(b.tgt_ports, vec![554, 80]);
    assert_eq!(b.parallel_attempts, 3);
}

#[test]
fn limited_scan_runs_its_rounds() {
    let mut plan = ScanBuilder::default().scan_count(ScanCount::Limited(2)).plan();
    assert!(plan.start_round());
    assert!(plan.start_round());
    assert!(!plan.start_round());
    assert!(!plan.start_round());
    let mut plan = ScanBuilder::default().scan_count(ScanCount::Infinite).plan();
    for _ in 0..5 {
        assert!(plan.start_round());
    }
    let mut plan = ScanBuilder::default().plan();
    assert!(plan.start_round());
    assert!(!plan.start_round());
}

#[test]
fn round_targets_cover_hosts_and_ports() {
    let plan = ScanBuilder::default().add_port(80).add_port(22).plan();
    let nets = vec![
        NetV4 { addr: ip(10, 0, 0, 5), prefix_len: 30 },
        NetV4 { addr: ip(127, 0, 0, 1), prefix_len: 8 },
        NetV4 { addr: ip(192, 168, 0, 9), prefix_len: 32 },
    ];
    let t = plan.round_targets(&nets);
    assert_eq!(
        t,
        vec![
            (ip(10, 0, 0, 5), 80),
            (ip(10, 0, 0, 5), 22),
            (ip(10, 0, 0, 6), 80),
            (ip(10, 0, 0, 6), 22),
            (ip(192, 168, 0, 9), 80),
            (ip(192, 168, 0, 9), 22),
        ]
    );
}

#[test]
fn exclusions_are_honoured() {
    let nets = vec![NetV4 { addr: ip(10, 0, 0, 5), prefix_len: 30 }];
    let plan = ScanBuilder::default()
        .add_port(80)
        .excluded_peers(PeerExclusion::PreExcluded(vec![(ip(10, 0, 0, 6), 80)]))
        .plan();
    assert_eq!(plan.round_targets(&nets), vec![(ip(10, 0, 0, 5), 80)]);

    let mut plan = ScanBuilder::default().add_port(80).plan();
    plan.record_connection((ip(10, 0, 0, 5), 80));
    plan.record_connection((ip(10, 0, 0, 5), 80));
    assert_eq!(plan.excluded.as_ref().unwrap().len(), 1);
    assert_eq!(plan.round_targets(&nets), vec![(ip(10, 0, 0, 6), 80)]);

    let mut plan = ScanBuilder::default()
        .add_port(80)
        .excluded_peers(PeerExclusion::Never)
        .plan();
    plan.record_connection((ip(10, 0, 0, 5), 80));
    assert!(plan.excluded.is_none());
    assert_eq!(plan.round_targets(&nets).len(), 2);
}
