use openlogi::device::{DeviceKind, PairedDevice};
use openlogi::inventory::{
    build_inventory, is_hidpp_interface, online_only, sort_by_slot, RECEIVER_NAME,
};

fn dev(slot: u8, name: &str) -> PairedDevice {
    PairedDevice {
        slot,
        codename: Some(name.to_string()),
        wpid: None,
        kind: DeviceKind::Keyboard,
        online: false,
        battery: None,
        model_info: None,
    }
}

#[test]
fn hidpp_interface_filter() {
    assert!(is_hidpp_interface(0x046d, 0xff00, 0x0002));
    assert!(!is_hidpp_interface(0x046d, 0xff00, 0x0001));
    assert!(!is_hidpp_interface(0x1234, 0xff00, 0x0002));
    assert!(!is_hidpp_interface(0x046d, 0x0001, 0x0002));
}

#[test]
fn sort_is_stable_by_slot() {
    let sorted = sort_by_slot(vec![dev(3, "c"), dev(1, "a"), dev(3, "d"), dev(2, "b"), dev(1, "a2")]);
    let names: Vec<(u8, String)> =
        sorted.iter().map(|d| (d.slot, d.codename.clone().unwrap())).collect();
    assert_eq!(
        names,
        vec![
            (1, "a".to_string()),
            (1, "a2".to_string()),
            (2, "b".to_string()),
            (3, "c".to_string()),
            (3, "d".to_string()),
        ]
    );
    assert!(sort_by_slot(vec![]).is_empty());
}

fn online(slot: u8, name: &str) -> PairedDevice {
    let mut d = dev(slot, name);
    d.online = true;
    d
}

#[test]
fn offline_devices_are_not_listed() {
    let kept = online_only(vec![dev(1, "off"), online(2, "on"), dev(3, "off2"), online(4, "on2")]);
    let slots: Vec<u8> = kept.iter().map(|d| d.slot).collect();
    assert_eq!(slots, vec![2, 4]);
    let inv = build_inventory(0x046d, 0xc548, None, vec![dev(1, "asleep")]);
    assert!(inv.paired.is_empty());
}

#[test]
fn inventory_of_a_bolt_receiver() {
    let inv = build_inventory(
        0x046d,
        0xc548,
        Some("UID".to_string()),
        vec![online(6, "z"), dev(3, "offline"), online(1, "y")],
    );
    assert_eq!(inv.receiver.name, RECEIVER_NAME);
    assert_eq!(inv.receiver.name, "Logi Bolt Receiver");
    assert_eq!(inv.receiver.vendor_id, 0x046d);
    assert_eq!(inv.receiver.product_id, 0xc548);
    assert_eq!(inv.receiver.unique_id.as_deref(), Some("UID"));
    assert_eq!(inv.paired.len(), 2);
    assert_eq!(inv.paired[0].slot, 1);
    assert_eq!(inv.paired[1].slot, 6);
}
