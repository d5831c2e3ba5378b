use openlogi::binding::{Action, ButtonId};
use openlogi::config::{canonical_pairs, Config, DeviceBindings, CURRENT_VERSION};

#[test]
fn default_config_is_current_and_empty() {
    let c = Config::default();
    assert_eq!(c.version, CURRENT_VERSION);
    assert_eq!(c.version, 1);
    assert!(c.selected_device().is_none());
    assert!(c.devices.is_empty());
}

#[test]
fn set_binding_reads_back() {
    let mut c = Config::default();
    c.set_binding("mx", ButtonId::Back, Action::Copy);
    c.set_binding("mx", ButtonId::Forward, Action::Paste);
    c.set_binding("mx", ButtonId::Back, Action::Cut);
    c.set_binding("lift", ButtonId::Back, Action::Undo);
    assert_eq!(
        c.bindings_for("mx"),
        vec![(ButtonId::Back, Action::Cut), (ButtonId::Forward, Action::Paste)]
    );
    assert_eq!(c.bindings_for("lift"), vec![(ButtonId::Back, Action::Undo)]);
    assert!(c.bindings_for("other").is_empty());
}

#[test]
fn first_entry_of_a_key_counts() {
    let mut c = Config::default();
    c.devices.push(DeviceBindings {
        config_key: "mx".to_string(),
        bindings: vec![(ButtonId::Back, Action::Copy), (ButtonId::Back, Action::Save)],
    });
    c.devices.push(DeviceBindings { config_key: "mx".to_string(), bindings: vec![] });
    c.set_binding("mx", ButtonId::Back, Action::Find);
    assert_eq!(
        c.devices[0].bindings,
        vec![(ButtonId::Back, Action::Find), (ButtonId::Back, Action::Save)]
    );
    assert!(c.devices[1].bindings.is_empty());
}

#[test]
fn selected_device_round_trip() {
    let mut c = Config::default();
    c.set_selected_device(Some("lift".to_string()));
    assert_eq!(c.selected_device(), Some("lift"));
    c.set_selected_device(None);
    assert_eq!(c.selected_device(), None);
}

#[test]
fn canonical_form_keeps_first_entries() {
    let mut c = Config::default();
    c.devices.push(DeviceBindings {
        config_key: "mx".to_string(),
        bindings: vec![
            (ButtonId::Back, Action::Copy),
            (ButtonId::Forward, Action::Undo),
            (ButtonId::Back, Action::Save),
        ],
    });
    c.devices.push(DeviceBindings { config_key: "lift".to_string(), bindings: vec![] });
    c.devices.push(DeviceBindings {
        config_key: "mx".to_string(),
        bindings: vec![(ButtonId::DpiToggle, Action::Find)],
    });
    let canon = c.canonical_devices();
    assert_eq!(canon.len(), 2);
    assert_eq!(canon[0].config_key, "mx");
    assert_eq!(
        canon[0].bindings,
        vec![(ButtonId::Back, Action::Copy), (ButtonId::Forward, Action::Undo)]
    );
    assert_eq!(canon[1].config_key, "lift");
    assert_eq!(
        canonical_pairs(&vec![(ButtonId::Back, Action::Cut), (ButtonId::Back, Action::Copy)]),
        vec![(ButtonId::Back, Action::Cut)]
    );
}
