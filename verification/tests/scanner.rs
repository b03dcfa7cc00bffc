use gcs_afv::scan::{NetInterface, NetV4};
use gcs_afv::scanner::{interface_to_net, ScannerCore, State};

fn ip(a: u8, b: u8, c: u8, d: u8) -> u32 {
    u32::from_be_bytes([a, b, c, d])
}

#[test]
fn ports_are_listed_once() {
    let mut s = ScannerCore::new();
    s.add_port(80);
    s.add_port(22);
    s.add_port(80);
    assert_eq!(s.ports, vec![80, 22]);
    s.clear_ports();
    assert!(s.ports.is_empty());
}

#[test]
fn scan_lifecycle() {
    let mut s = ScannerCore::new();
    s.add_port(4040);
    let nets = vec![
        NetV4 { addr: ip(127, 0, 0, 1), prefix_len: 8 },
        NetV4 { addr: ip(10, 0, 0, 1), prefix_len: 30 },
    ];
    let t = s.begin_scan(&nets).unwrap();
    assert_eq!(t, vec![(ip(127, 0, 0, 1), 4040), (ip(10, 0, 0, 1), 4040), (ip(10, 0, 0, 2), 4040)]);
    assert!(matches!(s.state, State::Scanning));
    assert_eq!(s.status.waiting, 3);
    assert!(s.begin_scan(&nets).is_none());
    s.record_response(None);
    s.record_response(Some((ip(10, 0, 0, 2), 4040)));
    s.record_response(None);
    assert_eq!(s.status.waiting, 0);
    assert_eq!(s.status.found, vec![(ip(10, 0, 0, 2), 4040)]);
    s.finish_scan();
    assert!(matches!(s.state, State::Results));
    s.restart();
    assert!(matches!(s.state, State::Selection));
}

#[test]
fn interface_names_and_nets() {
    let i = NetInterface {
        name: "eth0".to_string(),
        friendly_name: Some("Ethernet".to_string()),
        ipv4: vec![(ip(192, 168, 4, 20), ip(255, 255, 255, 0))],
    };
    let (name, net) = interface_to_net(&i);
    assert_eq!(name, "Ethernet");
    assert_eq!((net.addr, net.prefix_len), (ip(192, 168, 4, 20), 24));
    let j = NetInterface { friendly_name: None, ..i };
    assert_eq!(interface_to_net(&j).0, "eth0");
}
