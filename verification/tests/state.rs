use openlogi::binding::{Action, ButtonId};
use openlogi::config::{Config, DeviceBindings, Settings, CURRENT_VERSION};
use openlogi::device::{
    DeviceInventory, DeviceKind, DeviceModelInfo, PairedDevice, ReceiverInfo,
};
use openlogi::state::{
    build_device_list, pick_initial_device, AppState, ButtonBindings, ResolvedAsset, DEFAULT_DPI,
};

fn device(slot: u8, codename: Option<&str>, model: Option<&str>) -> PairedDevice {
    PairedDevice {
        slot,
        codename: codename.map(|s| s.to_string()),
        wpid: Some(0x4082),
        kind: DeviceKind::Mouse,
        online: true,
        battery: None,
        model_info: model.map(|m| DeviceModelInfo { model_id: m.to_string() }),
    }
}

fn inventory(uid: Option<&str>, paired: Vec<PairedDevice>) -> DeviceInventory {
    DeviceInventory {
        receiver: ReceiverInfo {
            name: "Logi Bolt Receiver".to_string(),
            vendor_id: 0x046d,
            product_id: 0xc548,
            unique_id: uid.map(|s| s.to_string()),
        },
        paired,
    }
}

fn sample_inventories() -> Vec<DeviceInventory> {
    vec![
        inventory(
            Some("R1"),
            vec![
                device(1, Some("MX Master 3S"), Some("mx-master-3s")),
                device(2, Some("Keys"), None),
                device(3, None, Some("mx-anywhere-3")),
            ],
        ),
        inventory(None, vec![device(1, Some("Lift"), Some("lift"))]),
    ]
}

fn sample_assets() -> Vec<(String, ResolvedAsset)> {
    vec![(
        "lift".to_string(),
        ResolvedAsset { display_name: "Lift Vertical".to_string(), image_path: "lift.png".to_string() },
    )]
}

#[test]
fn device_list_holds_modelled_devices_in_order() {
    let list = build_device_list(&sample_inventories(), &sample_assets());
    assert_eq!(list.len(), 3);
    assert_eq!(list[0].config_key, "mx-master-3s");
    assert_eq!(list[0].display_name, "MX Master 3S");
    assert_eq!(list[0].dpi_target.as_ref().unwrap().receiver_uid, "R1");
    assert_eq!(list[0].dpi_target.as_ref().unwrap().slot, 1);
    assert_eq!(list[1].config_key, "mx-anywhere-3");
    assert_eq!(list[1].display_name, "Slot 3");
    assert_eq!(list[2].config_key, "lift");
    assert_eq!(list[2].display_name, "Lift Vertical");
    assert!(list[2].asset.is_some());
    assert!(list[2].dpi_target.is_none());
}

#[test]
fn initial_device_prefers_saved_key() {
    let list = build_device_list(&sample_inventories(), &sample_assets());
    assert_eq!(pick_initial_device(&list, Some("lift")), 2);
    assert_eq!(pick_initial_device(&list, Some("gone")), 0);
    assert_eq!(pick_initial_device(&list, None), 0);
}

fn config_with(selected: Option<&str>, key: &str, pairs: Vec<(ButtonId, Action)>) -> Config {
    Config {
        version: CURRENT_VERSION,
        settings: Settings {},
        selected_device: selected.map(|s| s.to_string()),
        devices: vec![DeviceBindings { config_key: key.to_string(), bindings: pairs }],
    }
}

#[test]
fn with_runtime_loads_stored_bindings_over_defaults() {
    let config = config_with(Some("lift"), "lift", vec![(ButtonId::Back, Action::Copy)]);
    let state = AppState::with_runtime(config, &sample_inventories(), &sample_assets());
    assert_eq!(state.current_device, 2);
    assert_eq!(state.dpi, DEFAULT_DPI);
    assert!(state.active_button.is_none());
    assert_eq!(*state.button_bindings.get(ButtonId::Back), Action::Copy);
    assert_eq!(*state.button_bindings.get(ButtonId::Forward), Action::BrowserForward);
    assert_eq!(state.current_record().unwrap().config_key, "lift");
}

#[test]
fn empty_device_list_has_no_current_record() {
    let state = AppState::with_runtime(Config::default(), &Vec::new(), &Vec::new());
    assert!(state.current_record().is_none());
    assert_eq!(*state.button_bindings.get(ButtonId::DpiToggle), Action::CycleDpiPresets);
}

#[test]
fn set_current_device_switches_and_records_selection() {
    let config = config_with(None, "lift", vec![(ButtonId::Back, Action::Undo)]);
    let mut state = AppState::with_runtime(config, &sample_inventories(), &sample_assets());
    assert_eq!(state.current_device, 0);
    assert!(!state.set_current_device(0));
    assert!(!state.set_current_device(7));
    assert_eq!(state.current_device, 0);
    assert!(state.set_current_device(2));
    assert_eq!(state.current_device, 2);
    assert_eq!(state.config.selected_device.as_deref(), Some("lift"));
    assert_eq!(*state.button_bindings.get(ButtonId::Back), Action::Undo);
}

#[test]
fn commit_binding_updates_memory_and_config() {
    let mut state = AppState::with_runtime(Config::default(), &sample_inventories(), &sample_assets());
    assert!(state.commit_binding(ButtonId::Forward, Action::Paste));
    assert_eq!(*state.button_bindings.get(ButtonId::Forward), Action::Paste);
    let stored = state.config.bindings_for("mx-master-3s");
    assert_eq!(stored, vec![(ButtonId::Forward, Action::Paste)]);
    // A restart with this configuration shows the committed binding again.
    let config = std::mem::take(&mut state.config.devices);
    let restarted = AppState::with_runtime(
        Config { devices: config, ..Config::default() },
        &sample_inventories(),
        &sample_assets(),
    );
    assert_eq!(*restarted.button_bindings.get(ButtonId::Forward), Action::Paste);
}

#[test]
fn commit_without_device_stays_in_memory() {
    let mut state = AppState::with_runtime(Config::default(), &Vec::new(), &Vec::new());
    assert!(!state.commit_binding(ButtonId::Back, Action::Save));
    assert_eq!(*state.button_bindings.get(ButtonId::Back), Action::Save);
    assert!(state.config.devices.is_empty());
}

#[test]
fn button_bindings_set_and_get() {
    let mut b = ButtonBindings::defaults();
    b.set(ButtonId::MiddleClick, Action::Find);
    assert_eq!(*b.get(ButtonId::MiddleClick), Action::Find);
    assert_eq!(*b.get(ButtonId::LeftClick), Action::LeftClick);
}
