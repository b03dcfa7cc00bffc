use gcs_afv::bus::Bus;

#[test]
fn bus_adds_each_id_once() {
    let mut bus: Bus<&str> = Bus::new();
    assert!(bus.add_element(7, "seven"));
    assert!(bus.add_element(9, "nine"));
    assert!(!bus.add_element(7, "again"));
    assert_eq!(bus.len(), 2);
    assert!(bus.contains(9));
    assert!(!bus.contains(8));
    assert_eq!(*bus.element(0), "seven");
}

#[test]
fn bus_send_skips_sender() {
    let mut bus: Bus<u8> = Bus::new();
    bus.add_element(1, 10);
    bus.add_element(2, 20);
    bus.add_element(3, 30);
    assert_eq!(bus.recipients(2), vec![0, 2]);
    assert_eq!(bus.recipients(5), vec![0, 1, 2]);
    assert_eq!(*bus.element(1), 20);
}

#[test]
fn empty_bus_reaches_nobody() {
    let bus: Bus<u8> = Bus::new();
    assert_eq!(bus.len(), 0);
    assert!(bus.recipients(1).is_empty());
}
