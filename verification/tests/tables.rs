//! Broadcast distribution and foreign device tables.

use bacnet_rs::network::{bdt_entry, BroadcastDistributionTable, ForeignDeviceTable, NetworkAddress, NetworkError};

fn addr(network: u16, last: u8) -> NetworkAddress {
    NetworkAddress::new(network, vec![192, 168, 1, last, 0xBA, 0xC0])
}

#[test]
fn bdt_updates_in_place_and_refuses_when_full() {
    let mut bdt = BroadcastDistributionTable::new(2);
    assert!(bdt.update_entry(bdt_entry(&vec![1, 2], addr(0, 1), true)).is_ok());
    assert!(bdt.update_entry(bdt_entry(&vec![3], addr(0, 2), true)).is_ok());
    match bdt.update_entry(bdt_entry(&vec![4], addr(0, 3), true)) {
        Err(NetworkError::InvalidNpdu(s)) => assert_eq!(s, "BDT full"),
        other => panic!("unexpected {:?}", other),
    }
    assert!(bdt.update_entry(bdt_entry(&vec![3, 4], addr(0, 1), true)).is_ok());
    assert_eq!(bdt.entries().len(), 2);
    assert_eq!(bdt.entries()[0].networks, vec![3, 4]);

    let targets = bdt.get_broadcast_addresses(3);
    assert_eq!(targets, vec![addr(0, 1), addr(0, 2)]);
    assert!(bdt.get_broadcast_addresses(9).is_empty());
}

#[test]
fn bdt_skips_invalid_entries_and_removes() {
    let mut bdt = BroadcastDistributionTable::new(4);
    assert!(bdt.update_entry(bdt_entry(&vec![5], addr(0, 1), false)).is_ok());
    assert!(bdt.update_entry(bdt_entry(&vec![5], addr(0, 2), true)).is_ok());
    assert_eq!(bdt.get_broadcast_addresses(5), vec![addr(0, 2)]);
    bdt.remove_entry(&addr(0, 2));
    assert!(bdt.get_broadcast_addresses(5).is_empty());
    assert_eq!(bdt.entries().len(), 1);
    bdt.clear();
    assert!(bdt.entries().is_empty());
}

#[test]
fn fdt_registers_renews_and_expires() {
    let mut fdt = ForeignDeviceTable::new(2);
    assert!(fdt.register(addr(0, 10), 60).is_ok());
    assert!(fdt.register(addr(0, 11), 30).is_ok());
    match fdt.register(addr(0, 12), 30) {
        Err(NetworkError::InvalidNpdu(s)) => assert_eq!(s, "FDT full"),
        other => panic!("unexpected {:?}", other),
    }
    assert!(fdt.is_registered(&addr(0, 10)));
    assert!(!fdt.is_registered(&addr(0, 12)));

    fdt.update_times(20);
    assert_eq!(fdt.entries()[0].remaining_time, 40);
    assert_eq!(fdt.entries()[1].remaining_time, 10);
    assert!(fdt.register(addr(0, 11), 90).is_ok());
    assert_eq!(fdt.entries()[1].remaining_time, 90);
    assert_eq!(fdt.entries()[1].ttl, 90);

    fdt.update_times(40);
    assert_eq!(fdt.get_active_devices(), vec![addr(0, 11)]);
    assert_eq!(fdt.entries()[0].remaining_time, 50);

    assert!(fdt.delete(&addr(0, 11)).is_ok());
    assert!(!fdt.is_registered(&addr(0, 11)));
    assert!(fdt.get_active_devices().is_empty());
}
