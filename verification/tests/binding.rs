use openlogi::binding::{
    default_binding, post_media_key, scroll_deltas, Action, ButtonId, Category, KeyModifiers,
    SyntheticEvent, VK_C, VK_TAB, VK_Z,
};
use openlogi::picker::group_by_category;

// ── Catalog ──────────────────────────────────────────────────────────────

#[test]
fn catalog_has_at_least_29_entries() {
    let catalog = Action::catalog();
    assert!(
        catalog.len() >= 29,
        "catalog has {} entries, need ≥ 29",
        catalog.len()
    );
}

#[test]
fn catalog_excludes_custom_shortcut() {
    let catalog = Action::catalog();
    for action in &catalog {
        assert!(
            !matches!(action, Action::CustomShortcut(_)),
            "catalog must not contain CustomShortcut"
        );
    }
}

#[test]
fn catalog_lists_each_action_once() {
    let catalog = Action::catalog();
    assert_eq!(catalog.len(), 37);
    for (i, a) in catalog.iter().enumerate() {
        for b in catalog.iter().skip(i + 1) {
            assert_ne!(a, b);
        }
    }
    assert_eq!(catalog[0], Action::LeftClick);
    assert_eq!(catalog[36], Action::HorizontalScrollRight);
}

#[test]
fn catalog_labels_are_distinct_and_nonempty() {
    let catalog = Action::catalog();
    for (i, a) in catalog.iter().enumerate() {
        assert!(!a.label().is_empty());
        for b in catalog.iter().skip(i + 1) {
            assert_ne!(a.label(), b.label());
        }
    }
}

// ── Categories ───────────────────────────────────────────────────────────

#[test]
fn category_editing_variants() {
    assert_eq!(Action::Copy.category(), Category::Editing);
    assert_eq!(Action::Undo.category(), Category::Editing);
    assert_eq!(Action::SelectAll.category(), Category::Editing);
    assert_eq!(Action::Find.category(), Category::Editing);
    assert_eq!(Action::Save.category(), Category::Editing);
    assert_eq!(Action::Cut.category(), Category::Editing);
    assert_eq!(Action::Redo.category(), Category::Editing);
    assert_eq!(Action::Paste.category(), Category::Editing);
}

#[test]
fn category_browser_variants() {
    assert_eq!(Action::BrowserBack.category(), Category::Browser);
    assert_eq!(Action::BrowserForward.category(), Category::Browser);
    assert_eq!(Action::NewTab.category(), Category::Browser);
    assert_eq!(Action::CloseTab.category(), Category::Browser);
    assert_eq!(Action::ReopenTab.category(), Category::Browser);
    assert_eq!(Action::NextTab.category(), Category::Browser);
    assert_eq!(Action::PrevTab.category(), Category::Browser);
    assert_eq!(Action::ReloadPage.category(), Category::Browser);
}

#[test]
fn category_media_variants() {
    assert_eq!(Action::PlayPause.category(), Category::Media);
    assert_eq!(Action::NextTrack.category(), Category::Media);
    assert_eq!(Action::PrevTrack.category(), Category::Media);
    assert_eq!(Action::VolumeUp.category(), Category::Media);
    assert_eq!(Action::VolumeDown.category(), Category::Media);
    assert_eq!(Action::MuteVolume.category(), Category::Media);
}

#[test]
fn category_mouse_variants() {
    assert_eq!(Action::LeftClick.category(), Category::Mouse);
    assert_eq!(Action::RightClick.category(), Category::Mouse);
    assert_eq!(Action::MiddleClick.category(), Category::Mouse);
}

#[test]
fn category_dpi_variants() {
    assert_eq!(Action::CycleDpiPresets.category(), Category::Dpi);
    assert_eq!(Action::ToggleSmartShift.category(), Category::Dpi);
}

#[test]
fn category_scroll_variants() {
    assert_eq!(Action::ScrollUp.category(), Category::Scroll);
    assert_eq!(Action::ScrollDown.category(), Category::Scroll);
    assert_eq!(Action::HorizontalScrollLeft.category(), Category::Scroll);
    assert_eq!(Action::HorizontalScrollRight.category(), Category::Scroll);
}

#[test]
fn category_navigation_variants() {
    assert_eq!(Action::MissionControl.category(), Category::Navigation);
    assert_eq!(Action::AppExpose.category(), Category::Navigation);
    assert_eq!(Action::ShowDesktop.category(), Category::Navigation);
    assert_eq!(Action::LaunchpadShow.category(), Category::Navigation);
}

#[test]
fn category_system_variants() {
    assert_eq!(Action::LockScreen.category(), Category::System);
    assert_eq!(Action::Screenshot.category(), Category::System);
}

#[test]
fn custom_shortcut_counts_as_editing() {
    assert_eq!(
        Action::CustomShortcut("⌘⇧P".to_string()).category(),
        Category::Editing
    );
}

#[test]
fn category_labels_are_nonempty() {
    let categories = [
        Category::Editing,
        Category::Browser,
        Category::Media,
        Category::Mouse,
        Category::Dpi,
        Category::Scroll,
        Category::Navigation,
        Category::System,
    ];
    for cat in categories {
        assert!(!cat.label().is_empty(), "label empty for {cat:?}");
    }
}

#[test]
fn category_labels_are_upper_case() {
    for cat in [Category::Editing, Category::Navigation, Category::Dpi] {
        let l = cat.label();
        assert_eq!(l, l.to_uppercase());
    }
    assert_eq!(Category::Navigation.label(), "NAVIGATION");
}

// ── Labels ───────────────────────────────────────────────────────────────

#[test]
fn button_and_action_labels() {
    assert_eq!(ButtonId::DpiToggle.label(), "DPI Toggle");
    assert_eq!(ButtonId::LeftClick.label(), "Left Click");
    assert_eq!(Action::AppExpose.label(), "App Exposé");
    assert_eq!(Action::PlayPause.label(), "Play / Pause");
    assert_eq!(Action::MuteVolume.label(), "Mute");
    assert_eq!(Action::CustomShortcut("⌘⇧P".to_string()).label(), "⌘⇧P");
}

#[test]
fn button_positions_follow_all() {
    for (i, b) in ButtonId::ALL.iter().enumerate() {
        assert_eq!(b.position(), i);
    }
}

// ── Default binding ──────────────────────────────────────────────────────

#[test]
fn dpi_toggle_default_is_cycle_dpi_presets() {
    assert_eq!(
        default_binding(ButtonId::DpiToggle),
        Action::CycleDpiPresets
    );
}

#[test]
fn default_bindings_of_every_button() {
    assert_eq!(default_binding(ButtonId::LeftClick), Action::LeftClick);
    assert_eq!(default_binding(ButtonId::RightClick), Action::RightClick);
    assert_eq!(default_binding(ButtonId::MiddleClick), Action::MiddleClick);
    assert_eq!(default_binding(ButtonId::Back), Action::BrowserBack);
    assert_eq!(default_binding(ButtonId::Forward), Action::BrowserForward);
}

// ── Events ───────────────────────────────────────────────────────────────

#[test]
fn execute_maps_key_chords() {
    let cmd = KeyModifiers { command: true, shift: false, control: false };
    assert_eq!(
        Action::Copy.execute(),
        SyntheticEvent::Key { key_code: VK_C, modifiers: cmd }
    );
    assert_eq!(
        Action::Redo.execute(),
        SyntheticEvent::Key {
            key_code: VK_Z,
            modifiers: KeyModifiers { command: true, shift: true, control: false },
        }
    );
    assert_eq!(
        Action::PrevTab.execute(),
        SyntheticEvent::Key {
            key_code: VK_TAB,
            modifiers: KeyModifiers { command: false, shift: true, control: true },
        }
    );
    assert_eq!(
        Action::MissionControl.execute(),
        SyntheticEvent::Key {
            key_code: 0x7E,
            modifiers: KeyModifiers { command: false, shift: false, control: true },
        }
    );
    assert_eq!(
        Action::LaunchpadShow.execute(),
        SyntheticEvent::Key {
            key_code: 0x76,
            modifiers: KeyModifiers { command: false, shift: false, control: false },
        }
    );
}

#[test]
fn execute_delegates_and_media() {
    assert_eq!(Action::LeftClick.execute(), SyntheticEvent::HookLayer);
    assert_eq!(Action::ToggleSmartShift.execute(), SyntheticEvent::HookLayer);
    assert_eq!(
        Action::CustomShortcut("x".to_string()).execute(),
        SyntheticEvent::Unimplemented
    );
    assert_eq!(Action::PlayPause.execute(), SyntheticEvent::Media { nx_key: 16 });
    assert_eq!(Action::NextTrack.execute(), SyntheticEvent::Media { nx_key: 17 });
    assert_eq!(Action::PrevTrack.execute(), SyntheticEvent::Media { nx_key: 18 });
    assert_eq!(
        Action::ScrollDown.execute(),
        SyntheticEvent::Scroll { vertical: -3, horizontal: 0 }
    );
}

#[test]
fn media_key_codes() {
    assert_eq!(post_media_key(0), 16);
    assert_eq!(post_media_key(1), 17);
    assert_eq!(post_media_key(2), 18);
    assert_eq!(post_media_key(-5), 18);
}

#[test]
fn scroll_deltas_per_direction() {
    assert_eq!(scroll_deltas(&Action::ScrollUp), Some((3, 0)));
    assert_eq!(scroll_deltas(&Action::ScrollDown), Some((-3, 0)));
    assert_eq!(scroll_deltas(&Action::HorizontalScrollLeft), Some((0, -3)));
    assert_eq!(scroll_deltas(&Action::HorizontalScrollRight), Some((0, 3)));
    assert_eq!(scroll_deltas(&Action::Copy), None);
}

#[test]
fn clone_keeps_custom_chord() {
    let a = Action::CustomShortcut("⌘⇧P".to_string());
    assert_eq!(a.clone(), a);
}

// ── Picker sections ──────────────────────────────────────────────────────

#[test]
fn catalog_sections_in_first_seen_order() {
    let sections = group_by_category(&Action::catalog());
    let cats: Vec<Category> = sections.iter().map(|s| s.0).collect();
    assert_eq!(
        cats,
        vec![
            Category::Mouse,
            Category::Editing,
            Category::Browser,
            Category::Navigation,
            Category::System,
            Category::Media,
            Category::Dpi,
            Category::Scroll,
        ]
    );
    let total: usize = sections.iter().map(|s| s.1.len()).sum();
    assert_eq!(total, 37);
    assert_eq!(sections[0].1, vec![Action::LeftClick, Action::RightClick, Action::MiddleClick]);
}

#[test]
fn sections_keep_order_within_category() {
    let actions = vec![Action::Copy, Action::ScrollUp, Action::Paste, Action::ScrollDown, Action::Cut];
    let sections = group_by_category(&actions);
    assert_eq!(sections.len(), 2);
    assert_eq!(sections[0].0, Category::Editing);
    assert_eq!(sections[0].1, vec![Action::Copy, Action::Paste, Action::Cut]);
    assert_eq!(sections[1].0, Category::Scroll);
    assert_eq!(sections[1].1, vec![Action::ScrollUp, Action::ScrollDown]);
    assert!(group_by_category(&Vec::new()).is_empty());
}
