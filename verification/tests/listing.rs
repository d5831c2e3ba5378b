use openlogi::device::{
    BatteryInfo, BatteryLevel, BatteryStatus, DeviceInventory, DeviceKind, PairedDevice,
    ReceiverInfo,
};
use openlogi::listing::{
    command_or_default, format_battery, format_device, inventory_lines, receiver_header, Command,
    ListArgs,
};

fn mouse() -> PairedDevice {
    PairedDevice {
        slot: 2,
        codename: Some("MX Master 3S".to_string()),
        wpid: Some(0xb034),
        kind: DeviceKind::Mouse,
        online: true,
        battery: Some(BatteryInfo {
            percentage: 85,
            level: BatteryLevel::Good,
            status: BatteryStatus::Discharging,
        }),
        model_info: None,
    }
}

#[test]
fn battery_line() {
    let b = BatteryInfo { percentage: 100, level: BatteryLevel::Full, status: BatteryStatus::ChargingSlow };
    assert_eq!(format_battery(&b), "battery=100% full (chargingslow)");
    let b = BatteryInfo { percentage: 5, level: BatteryLevel::Critical, status: BatteryStatus::Error };
    assert_eq!(format_battery(&b), "battery=5% critical (error)");
    let b = BatteryInfo { percentage: 0, level: BatteryLevel::Unknown, status: BatteryStatus::Unknown };
    assert_eq!(format_battery(&b), "battery=0% unknown (unknown)");
}

#[test]
fn online_device_line() {
    assert_eq!(
        format_device(&mouse()),
        "slot 2 ● MX Master 3S (mouse, wpid=b034, battery=85% good (discharging))"
    );
}

#[test]
fn offline_device_line_with_unknowns() {
    let d = PairedDevice {
        slot: 6,
        codename: None,
        wpid: None,
        kind: DeviceKind::Unknown,
        online: false,
        battery: None,
        model_info: None,
    };
    assert_eq!(format_device(&d), "slot 6 ○ Unknown device (unknown, wpid=?, battery=—)");
}

#[test]
fn wpid_is_zero_padded_hex() {
    let mut d = mouse();
    d.wpid = Some(0x00a);
    d.kind = DeviceKind::Trackball;
    d.battery = None;
    d.slot = 10;
    assert_eq!(format_device(&d), "slot 10 ● MX Master 3S (trackball, wpid=000a, battery=—)");
}

fn receiver(uid: Option<&str>) -> ReceiverInfo {
    ReceiverInfo {
        name: "Logi Bolt Receiver".to_string(),
        vendor_id: 0x046d,
        product_id: 0xc548,
        unique_id: uid.map(|s| s.to_string()),
    }
}

#[test]
fn receiver_header_line() {
    assert_eq!(
        receiver_header(&receiver(Some("ABCD1234"))),
        "Logi Bolt Receiver (ABCD1234, vid=046d pid=c548)"
    );
    assert_eq!(receiver_header(&receiver(None)), "Logi Bolt Receiver (—, vid=046d pid=c548)");
}

#[test]
fn inventory_tree_lines() {
    let mut second = mouse();
    second.slot = 3;
    second.online = false;
    second.battery = None;
    let inv = DeviceInventory { receiver: receiver(None), paired: vec![mouse(), second] };
    let lines = inventory_lines(&inv);
    assert_eq!(lines.len(), 3);
    assert_eq!(lines[0], "Logi Bolt Receiver (—, vid=046d pid=c548)");
    assert!(lines[1].starts_with("  ├─ slot 2 ●"));
    assert_eq!(lines[2], "  └─ slot 3 ○ MX Master 3S (mouse, wpid=b034, battery=—)");
    let empty = DeviceInventory { receiver: receiver(None), paired: vec![] };
    assert_eq!(inventory_lines(&empty)[1], "  └─ no paired devices");
}

#[test]
fn list_is_the_default_command() {
    assert_eq!(command_or_default(None), Command::List(ListArgs {}));
    assert_eq!(command_or_default(Some(Command::List(ListArgs {}))), Command::List(ListArgs {}));
}
