//! Logical mouse buttons, the action vocabulary each one can bind to, and
//! the OS input event each action stands for.
//!
//! The variant names of [`Action`] form the on-disk configuration schema, so
//! existing names are stable; new variants may be appended.

use vstd::prelude::*;

verus! {

/// One of the user-rebindable hotspots on a Logi mouse. The order matches the
/// physical layout from front to side; [`ButtonId::ALL`] is consumed by the
/// default-binding generator and the popover trigger list.
#[derive(Clone, Copy, Debug, PartialEq, Eq, Structural, Hash, PartialOrd, Ord)]
pub enum ButtonId {
    LeftClick,
    RightClick,
    MiddleClick,
    Back,
    Forward,
    DpiToggle,
}

impl ButtonId {
    /// Every button, in physical order.
    pub const ALL: [ButtonId; 6] = [
        ButtonId::LeftClick,
        ButtonId::RightClick,
        ButtonId::MiddleClick,
        ButtonId::Back,
        ButtonId::Forward,
        ButtonId::DpiToggle,
    ];

    /// Position of the button in [`ButtonId::ALL`].
    pub open spec fn index(self) -> int {
        match self {
            ButtonId::LeftClick => 0,
            ButtonId::RightClick => 1,
            ButtonId::MiddleClick => 2,
            ButtonId::Back => 3,
            ButtonId::Forward => 4,
            ButtonId::DpiToggle => 5,
        }
    }

    /// The button at position `i` of [`ButtonId::ALL`].
    pub open spec fn at(i: int) -> ButtonId {
        if i <= 0 {
            ButtonId::LeftClick
        } else if i == 1 {
            ButtonId::RightClick
        } else if i == 2 {
            ButtonId::MiddleClick
        } else if i == 3 {
            ButtonId::Back
        } else if i == 4 {
            ButtonId::Forward
        } else {
            ButtonId::DpiToggle
        }
    }

    /// Position of the button in [`ButtonId::ALL`].
    pub fn position(self) -> (r: usize)
        ensures
            r == self.index(),
            r < 6,
    {
        match self {
            ButtonId::LeftClick => 0,
            ButtonId::RightClick => 1,
            ButtonId::MiddleClick => 2,
            ButtonId::Back => 3,
            ButtonId::Forward => 4,
            ButtonId::DpiToggle => 5,
        }
    }

    pub open spec fn spec_label(self) -> Seq<char> {
        match self {
            ButtonId::LeftClick => "Left Click"@,
            ButtonId::RightClick => "Right Click"@,
            ButtonId::MiddleClick => "Middle Click"@,
            ButtonId::Back => "Back"@,
            ButtonId::Forward => "Forward"@,
            ButtonId::DpiToggle => "DPI Toggle"@,
        }
    }

    /// Human-readable label for popovers and tooltips.
    pub fn label(self) -> (r: &'static str)
        ensures
            r@ == self.spec_label(),
    {
        match self {
            ButtonId::LeftClick => "Left Click",
            ButtonId::RightClick => "Right Click",
            ButtonId::MiddleClick => "Middle Click",
            ButtonId::Back => "Back",
            ButtonId::Forward => "Forward",
            ButtonId::DpiToggle => "DPI Toggle",
        }
    }
}

/// `ButtonId::ALL` lists every button once, each at its own position.
pub proof fn lemma_button_positions(b: ButtonId)
    ensures
        ButtonId::ALL@.len() == 6,
        ButtonId::ALL@[b.index()] == b,
        0 <= b.index() < 6,
        ButtonId::at(b.index()) == b,
        forall|i: int| 0 <= i < 6 ==> #[trigger] ButtonId::at(i).index() == i,
{
}

/// Grouping for popover section headers.
#[derive(Clone, Copy, Debug, PartialEq, Eq, Structural, Hash)]
pub enum Category {
    /// Cut, copy, paste, undo, redo, select-all, find, save.
    Editing,
    /// Browser navigation: tabs, page reload, back/forward.
    Browser,
    /// Playback and volume controls.
    Media,
    /// Physical mouse clicks.
    Mouse,
    /// DPI cycle and SmartShift.
    Dpi,
    /// Scroll direction shortcuts.
    Scroll,
    /// Window/app navigation: Mission Control, Launchpad, etc.
    Navigation,
    /// Lock screen, show desktop, system-level actions.
    System,
}

impl Category {
    pub open spec fn spec_label(self) -> Seq<char> {
        match self {
            Category::Editing => "EDITING"@,
            Category::Browser => "BROWSER"@,
            Category::Media => "MEDIA"@,
            Category::Mouse => "MOUSE"@,
            Category::Dpi => "DPI"@,
            Category::Scroll => "SCROLL"@,
            Category::Navigation => "NAVIGATION"@,
            Category::System => "SYSTEM"@,
        }
    }

    /// Short label for popover section headers, already upper case.
    pub fn label(self) -> (r: &'static str)
        ensures
            r@ == self.spec_label(),
    {
        match self {
            Category::Editing => "EDITING",
            Category::Browser => "BROWSER",
            Category::Media => "MEDIA",
            Category::Mouse => "MOUSE",
            Category::Dpi => "DPI",
            Category::Scroll => "SCROLL",
            Category::Navigation => "NAVIGATION",
            Category::System => "SYSTEM",
        }
    }
}

/// An upper-case label: non-empty, and made of `A`..`Z` only.
pub open spec fn is_upper_label(s: Seq<char>) -> bool {
    &&& s.len() > 0
    &&& forall|i: int| 0 <= i < s.len() ==> 'A' <= #[trigger] s[i] <= 'Z'
}

/// Every category label is a non-empty upper-case word.
pub proof fn lemma_category_labels_upper(c: Category)
    ensures
        is_upper_label(c.spec_label()),
{
    reveal_strlit("EDITING");
    reveal_strlit("BROWSER");
    reveal_strlit("MEDIA");
    reveal_strlit("MOUSE");
    reveal_strlit("DPI");
    reveal_strlit("SCROLL");
    reveal_strlit("NAVIGATION");
    reveal_strlit("SYSTEM");
}

/// What pressing a [`ButtonId`] should do.
#[derive(Debug, PartialEq, Eq, Hash)]
pub enum Action {
    LeftClick,
    RightClick,
    MiddleClick,
    Copy,
    Paste,
    Cut,
    Undo,
    Redo,
    SelectAll,
    Find,
    Save,
    BrowserBack,
    BrowserForward,
    NewTab,
    CloseTab,
    ReopenTab,
    NextTab,
    PrevTab,
    ReloadPage,
    MissionControl,
    AppExpose,
    ShowDesktop,
    LaunchpadShow,
    LockScreen,
    Screenshot,
    PlayPause,
    NextTrack,
    PrevTrack,
    VolumeUp,
    VolumeDown,
    MuteVolume,
    CycleDpiPresets,
    ToggleSmartShift,
    ScrollUp,
    ScrollDown,
    HorizontalScrollLeft,
    HorizontalScrollRight,
    /// Replay an arbitrary recorded key chord; the string is its
    /// human-readable label, e.g. `"⌘⇧P"`.
    CustomShortcut(String),
}

impl Clone for Action {
    fn clone(&self) -> (r: Self)
        ensures
            r == *self,
    {
        match self {
            Action::LeftClick => Action::LeftClick,
            Action::RightClick => Action::RightClick,
            Action::MiddleClick => Action::MiddleClick,
            Action::Copy => Action::Copy,
            Action::Paste => Action::Paste,
            Action::Cut => Action::Cut,
            Action::Undo => Action::Undo,
            Action::Redo => Action::Redo,
            Action::SelectAll => Action::SelectAll,
            Action::Find => Action::Find,
            Action::Save => Action::Save,
            Action::BrowserBack => Action::BrowserBack,
            Action::BrowserForward => Action::BrowserForward,
            Action::NewTab => Action::NewTab,
            Action::CloseTab => Action::CloseTab,
            Action::ReopenTab => Action::ReopenTab,
            Action::NextTab => Action::NextTab,
            Action::PrevTab => Action::PrevTab,
            Action::ReloadPage => Action::ReloadPage,
            Action::MissionControl => Action::MissionControl,
            Action::AppExpose => Action::AppExpose,
            Action::ShowDesktop => Action::ShowDesktop,
            Action::LaunchpadShow => Action::LaunchpadShow,
            Action::LockScreen => Action::LockScreen,
            Action::Screenshot => Action::Screenshot,
            Action::PlayPause => Action::PlayPause,
            Action::NextTrack => Action::NextTrack,
            Action::PrevTrack => Action::PrevTrack,
            Action::VolumeUp => Action::VolumeUp,
            Action::VolumeDown => Action::VolumeDown,
            Action::MuteVolume => Action::MuteVolume,
            Action::CycleDpiPresets => Action::CycleDpiPresets,
            Action::ToggleSmartShift => Action::ToggleSmartShift,
            Action::ScrollUp => Action::ScrollUp,
            Action::ScrollDown => Action::ScrollDown,
            Action::HorizontalScrollLeft => Action::HorizontalScrollLeft,
            Action::HorizontalScrollRight => Action::HorizontalScrollRight,
            Action::CustomShortcut(s) => Action::CustomShortcut(s.clone()),
        }
    }
}

/// Modifier keys held while a synthetic key event is posted.
#[derive(Clone, Copy, Debug, PartialEq, Eq, Structural)]
pub struct KeyModifiers {
    pub command: bool,
    pub shift: bool,
    pub control: bool,
}

/// The OS-level input event that executing an [`Action`] synthesises.
#[derive(Clone, Copy, Debug, PartialEq, Eq, Structural)]
pub enum SyntheticEvent {
    /// A key-down + key-up pair of the virtual key `key_code`.
    Key { key_code: u16, modifiers: KeyModifiers },
    /// A media key (`NX_KEYTYPE_*` code).
    Media { nx_key: i64 },
    /// A pixel scroll by the given wheel deltas.
    Scroll { vertical: i32, horizontal: i32 },
    /// Mouse clicks and device actions, which the hook / HID layer handles.
    HookLayer,
    /// Custom chords, which are not replayed yet.
    Unimplemented,
}

// Virtual key codes of the US ANSI layout (HIToolbox `kVK_*`).
pub const VK_A: u16 = 0x00;
pub const VK_S: u16 = 0x01;
pub const VK_F: u16 = 0x03;
pub const VK_Z: u16 = 0x06;
pub const VK_X: u16 = 0x07;
pub const VK_C: u16 = 0x08;
pub const VK_V: u16 = 0x09;
pub const VK_Q: u16 = 0x0C;
pub const VK_W: u16 = 0x0D;
pub const VK_R: u16 = 0x0F;
pub const VK_T: u16 = 0x11;
pub const VK_3: u16 = 0x14;
pub const VK_RIGHT_BRACKET: u16 = 0x1E;
pub const VK_LEFT_BRACKET: u16 = 0x21;
pub const VK_TAB: u16 = 0x30;
pub const VK_VOLUME_UP: u16 = 0x48;
pub const VK_VOLUME_DOWN: u16 = 0x49;
pub const VK_MUTE: u16 = 0x4A;
pub const VK_F3: u16 = 0x63;
pub const VK_F4: u16 = 0x76;
pub const VK_DOWN_ARROW: u16 = 0x7D;
pub const VK_UP_ARROW: u16 = 0x7E;

/// `NX_KEYTYPE_*` code of media key `kind`: 0 is play/pause (16), 1 is next
/// track (17), anything else previous track (18).
pub open spec fn spec_media_key_code(kind: i32) -> i64 {
    if kind == 0 {
        16
    } else if kind == 1 {
        17
    } else {
        18
    }
}

/// The media key event for `kind` (0 = play/pause, 1 = next track,
/// 2 = previous track): its `NX_KEYTYPE_*` code.
pub fn post_media_key(kind: i32) -> (nx_key: i64)
    ensures
        nx_key == spec_media_key_code(kind),
{
    match kind {
        0 => 16,
        1 => 17,
        _ => 18,
    }
}

impl Action {
    pub open spec fn spec_label(&self) -> Seq<char> {
        match self {
            Action::LeftClick => "Left Click"@,
            Action::RightClick => "Right Click"@,
            Action::MiddleClick => "Middle Click"@,
            Action::Copy => "Copy"@,
            Action::Paste => "Paste"@,
            Action::Cut => "Cut"@,
            Action::Undo => "Undo"@,
            Action::Redo => "Redo"@,
            Action::SelectAll => "Select All"@,
            Action::Find => "Find"@,
            Action::Save => "Save"@,
            Action::BrowserBack => "Browser Back"@,
            Action::BrowserForward => "Browser Forward"@,
            Action::NewTab => "New Tab"@,
            Action::CloseTab => "Close Tab"@,
            Action::ReopenTab => "Reopen Tab"@,
            Action::NextTab => "Next Tab"@,
            Action::PrevTab => "Previous Tab"@,
            Action::ReloadPage => "Reload Page"@,
            Action::MissionControl => "Mission Control"@,
            Action::AppExpose => "App Exposé"@,
            Action::ShowDesktop => "Show Desktop"@,
            Action::LaunchpadShow => "Launchpad"@,
            Action::LockScreen => "Lock Screen"@,
            Action::Screenshot => "Screenshot"@,
            Action::PlayPause => "Play / Pause"@,
            Action::NextTrack => "Next Track"@,
            Action::PrevTrack => "Previous Track"@,
            Action::VolumeUp => "Volume Up"@,
            Action::VolumeDown => "Volume Down"@,
            Action::MuteVolume => "Mute"@,
            Action::CycleDpiPresets => "Cycle DPI Presets"@,
            Action::ToggleSmartShift => "Toggle SmartShift"@,
            Action::ScrollUp => "Scroll Up"@,
            Action::ScrollDown => "Scroll Down"@,
            Action::HorizontalScrollLeft => "Scroll Left"@,
            Action::HorizontalScrollRight => "Scroll Right"@,
            Action::CustomShortcut(s) => s@,
        }
    }

    /// Display label for the popover row.
    pub fn label(&self) -> (r: &str)
        ensures
            r@ == self.spec_label(),
    {
        match self {
            Action::LeftClick => "Left Click",
            Action::RightClick => "Right Click",
            Action::MiddleClick => "Middle Click",
            Action::Copy => "Copy",
            Action::Paste => "Paste",
            Action::Cut => "Cut",
            Action::Undo => "Undo",
            Action::Redo => "Redo",
            Action::SelectAll => "Select All",
            Action::Find => "Find",
            Action::Save => "Save",
            Action::BrowserBack => "Browser Back",
            Action::BrowserForward => "Browser Forward",
            Action::NewTab => "New Tab",
            Action::CloseTab => "Close Tab",
            Action::ReopenTab => "Reopen Tab",
            Action::NextTab => "Next Tab",
            Action::PrevTab => "Previous Tab",
            Action::ReloadPage => "Reload Page",
            Action::MissionControl => "Mission Control",
            Action::AppExpose => "App Exposé",
            Action::ShowDesktop => "Show Desktop",
            Action::LaunchpadShow => "Launchpad",
            Action::LockScreen => "Lock Screen",
            Action::Screenshot => "Screenshot",
            Action::PlayPause => "Play / Pause",
            Action::NextTrack => "Next Track",
            Action::PrevTrack => "Previous Track",
            Action::VolumeUp => "Volume Up",
            Action::VolumeDown => "Volume Down",
            Action::MuteVolume => "Mute",
            Action::CycleDpiPresets => "Cycle DPI Presets",
            Action::ToggleSmartShift => "Toggle SmartShift",
            Action::ScrollUp => "Scroll Up",
            Action::ScrollDown => "Scroll Down",
            Action::HorizontalScrollLeft => "Scroll Left",
            Action::HorizontalScrollRight => "Scroll Right",
            Action::CustomShortcut(s) => s.as_str(),
        }
    }

    pub open spec fn spec_category(&self) -> Category {
        match self {
            Action::LeftClick => Category::Mouse,
            Action::RightClick => Category::Mouse,
            Action::MiddleClick => Category::Mouse,
            Action::Copy => Category::Editing,
            Action::Paste => Category::Editing,
            Action::Cut => Category::Editing,
            Action::Undo => Category::Editing,
            Action::Redo => Category::Editing,
            Action::SelectAll => Category::Editing,
            Action::Find => Category::Editing,
            Action::Save => Category::Editing,
            Action::BrowserBack => Category::Browser,
            Action::BrowserForward => Category::Browser,
            Action::NewTab => Category::Browser,
            Action::CloseTab => Category::Browser,
            Action::ReopenTab => Category::Browser,
            Action::NextTab => Category::Browser,
            Action::PrevTab => Category::Browser,
            Action::ReloadPage => Category::Browser,
            Action::MissionControl => Category::Navigation,
            Action::AppExpose => Category::Navigation,
            Action::ShowDesktop => Category::Navigation,
            Action::LaunchpadShow => Category::Navigation,
            Action::LockScreen => Category::System,
            Action::Screenshot => Category::System,
            Action::PlayPause => Category::Media,
            Action::NextTrack => Category::Media,
            Action::PrevTrack => Category::Media,
            Action::VolumeUp => Category::Media,
            Action::VolumeDown => Category::Media,
            Action::MuteVolume => Category::Media,
            Action::CycleDpiPresets => Category::Dpi,
            Action::ToggleSmartShift => Category::Dpi,
            Action::ScrollUp => Category::Scroll,
            Action::ScrollDown => Category::Scroll,
            Action::HorizontalScrollLeft => Category::Scroll,
            Action::HorizontalScrollRight => Category::Scroll,
            Action::CustomShortcut(_) => Category::Editing,
        }
    }

    /// Which [`Category`] this action belongs to, used for popover grouping.
    /// `CustomShortcut` counts as editing.
    pub fn category(&self) -> (r: Category)
        ensures
            r == self.spec_category(),
    {
        match self {
            Action::LeftClick => Category::Mouse,
            Action::RightClick => Category::Mouse,
            Action::MiddleClick => Category::Mouse,
            Action::Copy => Category::Editing,
            Action::Paste => Category::Editing,
            Action::Cut => Category::Editing,
            Action::Undo => Category::Editing,
            Action::Redo => Category::Editing,
            Action::SelectAll => Category::Editing,
            Action::Find => Category::Editing,
            Action::Save => Category::Editing,
            Action::BrowserBack => Category::Browser,
            Action::BrowserForward => Category::Browser,
            Action::NewTab => Category::Browser,
            Action::CloseTab => Category::Browser,
            Action::ReopenTab => Category::Browser,
            Action::NextTab => Category::Browser,
            Action::PrevTab => Category::Browser,
            Action::ReloadPage => Category::Browser,
            Action::MissionControl => Category::Navigation,
            Action::AppExpose => Category::Navigation,
            Action::ShowDesktop => Category::Navigation,
            Action::LaunchpadShow => Category::Navigation,
            Action::LockScreen => Category::System,
            Action::Screenshot => Category::System,
            Action::PlayPause => Category::Media,
            Action::NextTrack => Category::Media,
            Action::PrevTrack => Category::Media,
            Action::VolumeUp => Category::Media,
            Action::VolumeDown => Category::Media,
            Action::MuteVolume => Category::Media,
            Action::CycleDpiPresets => Category::Dpi,
            Action::ToggleSmartShift => Category::Dpi,
            Action::ScrollUp => Category::Scroll,
            Action::ScrollDown => Category::Scroll,
            Action::HorizontalScrollLeft => Category::Scroll,
            Action::HorizontalScrollRight => Category::Scroll,
            Action::CustomShortcut(_) => Category::Editing,
        }
    }

    /// Position of the action in [`Action::catalog`]; `CustomShortcut`,
    /// which the catalog leaves out, has none.
    pub open spec fn catalog_index(&self) -> int {
        match self {
            Action::LeftClick => 0,
            Action::RightClick => 1,
            Action::MiddleClick => 2,
            Action::Copy => 3,
            Action::Paste => 4,
            Action::Cut => 5,
            Action::Undo => 6,
            Action::Redo => 7,
            Action::SelectAll => 8,
            Action::Find => 9,
            Action::Save => 10,
            Action::BrowserBack => 11,
            Action::BrowserForward => 12,
            Action::NewTab => 13,
            Action::CloseTab => 14,
            Action::ReopenTab => 15,
            Action::NextTab => 16,
            Action::PrevTab => 17,
            Action::ReloadPage => 18,
            Action::MissionControl => 19,
            Action::AppExpose => 20,
            Action::ShowDesktop => 21,
            Action::LaunchpadShow => 22,
            Action::LockScreen => 23,
            Action::Screenshot => 24,
            Action::PlayPause => 25,
            Action::NextTrack => 26,
            Action::PrevTrack => 27,
            Action::VolumeUp => 28,
            Action::VolumeDown => 29,
            Action::MuteVolume => 30,
            Action::CycleDpiPresets => 31,
            Action::ToggleSmartShift => 32,
            Action::ScrollUp => 33,
            Action::ScrollDown => 34,
            Action::HorizontalScrollLeft => 35,
            Action::HorizontalScrollRight => 36,
            Action::CustomShortcut(_) => -1,
        }
    }

    /// The OS event this action synthesises (key codes of the US layout).
    pub open spec fn spec_event(&self) -> SyntheticEvent {
        match self {
            Action::LeftClick => SyntheticEvent::HookLayer,
            Action::RightClick => SyntheticEvent::HookLayer,
            Action::MiddleClick => SyntheticEvent::HookLayer,
            Action::Copy => SyntheticEvent::Key { key_code: VK_C, modifiers: KeyModifiers { command: true, shift: false, control: false } },
            Action::Paste => SyntheticEvent::Key { key_code: VK_V, modifiers: KeyModifiers { command: true, shift: false, control: false } },
            Action::Cut => SyntheticEvent::Key { key_code: VK_X, modifiers: KeyModifiers { command: true, shift: false, control: false } },
            Action::Undo => SyntheticEvent::Key { key_code: VK_Z, modifiers: KeyModifiers { command: true, shift: false, control: false } },
            Action::Redo => SyntheticEvent::Key { key_code: VK_Z, modifiers: KeyModifiers { command: true, shift: true, control: false } },
            Action::SelectAll => SyntheticEvent::Key { key_code: VK_A, modifiers: KeyModifiers { command: true, shift: false, control: false } },
            Action::Find => SyntheticEvent::Key { key_code: VK_F, modifiers: KeyModifiers { command: true, shift: false, control: false } },
            Action::Save => SyntheticEvent::Key { key_code: VK_S, modifiers: KeyModifiers { command: true, shift: false, control: false } },
            Action::BrowserBack => SyntheticEvent::Key { key_code: VK_LEFT_BRACKET, modifiers: KeyModifiers { command: true, shift: false, control: false } },
            Action::BrowserForward => SyntheticEvent::Key { key_code: VK_RIGHT_BRACKET, modifiers: KeyModifiers { command: true, shift: false, control: false } },
            Action::NewTab => SyntheticEvent::Key { key_code: VK_T, modifiers: KeyModifiers { command: true, shift: false, control: false } },
            Action::CloseTab => SyntheticEvent::Key { key_code: VK_W, modifiers: KeyModifiers { command: true, shift: false, control: false } },
            Action::ReopenTab => SyntheticEvent::Key { key_code: VK_T, modifiers: KeyModifiers { command: true, shift: true, control: false } },
            Action::NextTab => SyntheticEvent::Key { key_code: VK_TAB, modifiers: KeyModifiers { command: false, shift: false, control: true } },
            Action::PrevTab => SyntheticEvent::Key { key_code: VK_TAB, modifiers: KeyModifiers { command: false, shift: true, control: true } },
            Action::ReloadPage => SyntheticEvent::Key { key_code: VK_R, modifiers: KeyModifiers { command: true, shift: false, control: false } },
            Action::MissionControl => SyntheticEvent::Key { key_code: VK_UP_ARROW, modifiers: KeyModifiers { command: false, shift: false, control: true } },
            Action::AppExpose => SyntheticEvent::Key { key_code: VK_DOWN_ARROW, modifiers: KeyModifiers { command: false, shift: false, control: true } },
            Action::ShowDesktop => SyntheticEvent::Key { key_code: VK_F3, modifiers: KeyModifiers { command: true, shift: false, control: false } },
            Action::LaunchpadShow => SyntheticEvent::Key { key_code: VK_F4, modifiers: KeyModifiers { command: false, shift: false, control: false } },
            Action::LockScreen => SyntheticEvent::Key { key_code: VK_Q, modifiers: KeyModifiers { command: true, shift: false, control: true } },
            Action::Screenshot => SyntheticEvent::Key { key_code: VK_3, modifiers: KeyModifiers { command: true, shift: true, control: false } },
            Action::PlayPause => SyntheticEvent::Media { nx_key: spec_media_key_code(0) },
            Action::NextTrack => SyntheticEvent::Media { nx_key: spec_media_key_code(1) },
            Action::PrevTrack => SyntheticEvent::Media { nx_key: spec_media_key_code(2) },
            Action::VolumeUp => SyntheticEvent::Key { key_code: VK_VOLUME_UP, modifiers: KeyModifiers { command: false, shift: false, control: false } },
            Action::VolumeDown => SyntheticEvent::Key { key_code: VK_VOLUME_DOWN, modifiers: KeyModifiers { command: false, shift: false, control: false } },
            Action::MuteVolume => SyntheticEvent::Key { key_code: VK_MUTE, modifiers: KeyModifiers { command: false, shift: false, control: false } },
            Action::CycleDpiPresets => SyntheticEvent::HookLayer,
            Action::ToggleSmartShift => SyntheticEvent::HookLayer,
            Action::ScrollUp => SyntheticEvent::Scroll { vertical: 3, horizontal: 0 },
            Action::ScrollDown => SyntheticEvent::Scroll { vertical: -3i32, horizontal: 0 },
            Action::HorizontalScrollLeft => SyntheticEvent::Scroll { vertical: 0, horizontal: -3i32 },
            Action::HorizontalScrollRight => SyntheticEvent::Scroll { vertical: 0, horizontal: 3 },
            Action::CustomShortcut(_) => SyntheticEvent::Unimplemented,
        }
    }

    /// The OS-level event to synthesise for this action. Mouse clicks and
    /// the DPI / SmartShift actions are handled by the hook layer, custom
    /// chords are not replayed yet; every other action is a key chord, a
    /// media key or a scroll tick.
    pub fn execute(&self) -> (r: SyntheticEvent)
        ensures
            r == self.spec_event(),
    {
        match self {
            Action::LeftClick => SyntheticEvent::HookLayer,
            Action::RightClick => SyntheticEvent::HookLayer,
            Action::MiddleClick => SyntheticEvent::HookLayer,
            Action::Copy => SyntheticEvent::Key { key_code: VK_C, modifiers: KeyModifiers { command: true, shift: false, control: false } },
            Action::Paste => SyntheticEvent::Key { key_code: VK_V, modifiers: KeyModifiers { command: true, shift: false, control: false } },
            Action::Cut => SyntheticEvent::Key { key_code: VK_X, modifiers: KeyModifiers { command: true, shift: false, control: false } },
            Action::Undo => SyntheticEvent::Key { key_code: VK_Z, modifiers: KeyModifiers { command: true, shift: false, control: false } },
            Action::Redo => SyntheticEvent::Key { key_code: VK_Z, modifiers: KeyModifiers { command: true, shift: true, control: false } },
            Action::SelectAll => SyntheticEvent::Key { key_code: VK_A, modifiers: KeyModifiers { command: true, shift: false, control: false } },
            Action::Find => SyntheticEvent::Key { key_code: VK_F, modifiers: KeyModifiers { command: true, shift: false, control: false } },
            Action::Save => SyntheticEvent::Key { key_code: VK_S, modifiers: KeyModifiers { command: true, shift: false, control: false } },
            Action::BrowserBack => SyntheticEvent::Key { key_code: VK_LEFT_BRACKET, modifiers: KeyModifiers { command: true, shift: false, control: false } },
            Action::BrowserForward => SyntheticEvent::Key { key_code: VK_RIGHT_BRACKET, modifiers: KeyModifiers { command: true, shift: false, control: false } },
            Action::NewTab => SyntheticEvent::Key { key_code: VK_T, modifiers: KeyModifiers { command: true, shift: false, control: false } },
            Action::CloseTab => SyntheticEvent::Key { key_code: VK_W, modifiers: KeyModifiers { command: true, shift: false, control: false } },
            Action::ReopenTab => SyntheticEvent::Key { key_code: VK_T, modifiers: KeyModifiers { command: true, shift: true, control: false } },
            Action::NextTab => SyntheticEvent::Key { key_code: VK_TAB, modifiers: KeyModifiers { command: false, shift: false, control: true } },
            Action::PrevTab => SyntheticEvent::Key { key_code: VK_TAB, modifiers: KeyModifiers { command: false, shift: true, control: true } },
            Action::ReloadPage => SyntheticEvent::Key { key_code: VK_R, modifiers: KeyModifiers { command: true, shift: false, control: false } },
            Action::MissionControl => SyntheticEvent::Key { key_code: VK_UP_ARROW, modifiers: KeyModifiers { command: false, shift: false, control: true } },
            Action::AppExpose => SyntheticEvent::Key { key_code: VK_DOWN_ARROW, modifiers: KeyModifiers { command: false, shift: false, control: true } },
            Action::ShowDesktop => SyntheticEvent::Key { key_code: VK_F3, modifiers: KeyModifiers { command: true, shift: false, control: false } },
            Action::LaunchpadShow => SyntheticEvent::Key { key_code: VK_F4, modifiers: KeyModifiers { command: false, shift: false, control: false } },
            Action::LockScreen => SyntheticEvent::Key { key_code: VK_Q, modifiers: KeyModifiers { command: true, shift: false, control: true } },
            Action::Screenshot => SyntheticEvent::Key { key_code: VK_3, modifiers: KeyModifiers { command: true, shift: true, control: false } },
            Action::PlayPause => SyntheticEvent::Media { nx_key: post_media_key(0) },
            Action::NextTrack => SyntheticEvent::Media { nx_key: post_media_key(1) },
            Action::PrevTrack => SyntheticEvent::Media { nx_key: post_media_key(2) },
            Action::VolumeUp => SyntheticEvent::Key { key_code: VK_VOLUME_UP, modifiers: KeyModifiers { command: false, shift: false, control: false } },
            Action::VolumeDown => SyntheticEvent::Key { key_code: VK_VOLUME_DOWN, modifiers: KeyModifiers { command: false, shift: false, control: false } },
            Action::MuteVolume => SyntheticEvent::Key { key_code: VK_MUTE, modifiers: KeyModifiers { command: false, shift: false, control: false } },
            Action::CycleDpiPresets => SyntheticEvent::HookLayer,
            Action::ToggleSmartShift => SyntheticEvent::HookLayer,
            Action::ScrollUp => SyntheticEvent::Scroll { vertical: 3, horizontal: 0 },
            Action::ScrollDown => SyntheticEvent::Scroll { vertical: -3i32, horizontal: 0 },
            Action::HorizontalScrollLeft => SyntheticEvent::Scroll { vertical: 0, horizontal: -3i32 },
            Action::HorizontalScrollRight => SyntheticEvent::Scroll { vertical: 0, horizontal: 3 },
            Action::CustomShortcut(_) => SyntheticEvent::Unimplemented,
        }
    }

    /// All pickable actions in a deterministic order; `CustomShortcut` is
    /// left out (it is recorded, not picked).
    pub open spec fn spec_catalog() -> Seq<Action> {
        seq![
            Action::LeftClick,
            Action::RightClick,
            Action::MiddleClick,
            Action::Copy,
            Action::Paste,
            Action::Cut,
            Action::Undo,
            Action::Redo,
            Action::SelectAll,
            Action::Find,
            Action::Save,
            Action::BrowserBack,
            Action::BrowserForward,
            Action::NewTab,
            Action::CloseTab,
            Action::ReopenTab,
            Action::NextTab,
            Action::PrevTab,
            Action::ReloadPage,
            Action::MissionControl,
            Action::AppExpose,
            Action::ShowDesktop,
            Action::LaunchpadShow,
            Action::LockScreen,
            Action::Screenshot,
            Action::PlayPause,
            Action::NextTrack,
            Action::PrevTrack,
            Action::VolumeUp,
            Action::VolumeDown,
            Action::MuteVolume,
            Action::CycleDpiPresets,
            Action::ToggleSmartShift,
            Action::ScrollUp,
            Action::ScrollDown,
            Action::HorizontalScrollLeft,
            Action::HorizontalScrollRight,
        ]
    }

    /// All pickable actions in a deterministic order.
    pub fn catalog() -> (r: Vec<Action>)
        ensures
            r@ == Self::spec_catalog(),
    {
        vec![
            Action::LeftClick,
            Action::RightClick,
            Action::MiddleClick,
            Action::Copy,
            Action::Paste,
            Action::Cut,
            Action::Undo,
            Action::Redo,
            Action::SelectAll,
            Action::Find,
            Action::Save,
            Action::BrowserBack,
            Action::BrowserForward,
            Action::NewTab,
            Action::CloseTab,
            Action::ReopenTab,
            Action::NextTab,
            Action::PrevTab,
            Action::ReloadPage,
            Action::MissionControl,
            Action::AppExpose,
            Action::ShowDesktop,
            Action::LaunchpadShow,
            Action::LockScreen,
            Action::Screenshot,
            Action::PlayPause,
            Action::NextTrack,
            Action::PrevTrack,
            Action::VolumeUp,
            Action::VolumeDown,
            Action::MuteVolume,
            Action::CycleDpiPresets,
            Action::ToggleSmartShift,
            Action::ScrollUp,
            Action::ScrollDown,
            Action::HorizontalScrollLeft,
            Action::HorizontalScrollRight,
        ]
    }
}

/// The wheel deltas `(vertical, horizontal)` of a scroll action, or `None`
/// for an action that does not scroll.
pub open spec fn spec_scroll_deltas(action: Action) -> Option<(i32, i32)> {
    match action {
        Action::ScrollUp => Some((3, 0)),
        Action::ScrollDown => Some((-3i32, 0i32)),
        Action::HorizontalScrollLeft => Some((0i32, -3i32)),
        Action::HorizontalScrollRight => Some((0, 3)),
        _ => None,
    }
}

/// The wheel deltas `(vertical, horizontal)` of a scroll action, or `None`
/// for an action that does not scroll.
pub fn scroll_deltas(action: &Action) -> (r: Option<(i32, i32)>)
    ensures
        r == spec_scroll_deltas(*action),
{
    match action {
        Action::ScrollUp => Some((3, 0)),
        Action::ScrollDown => Some((-3i32, 0i32)),
        Action::HorizontalScrollLeft => Some((0i32, -3i32)),
        Action::HorizontalScrollRight => Some((0, 3)),
        _ => None,
    }
}

/// The catalog holds 37 actions, `CustomShortcut` is not among them, each
/// action stands at its own position (so none occurs twice), and every
/// action other than `CustomShortcut` is in it.
pub proof fn lemma_catalog_contents(a: Action)
    ensures
        Action::spec_catalog().len() == 37,
        forall|i: int|
            0 <= i < 37 ==> !(#[trigger] Action::spec_catalog()[i] is CustomShortcut),
        forall|i: int| 0 <= i < 37 ==> (#[trigger] Action::spec_catalog()[i]).catalog_index() == i,
        !(a is CustomShortcut) ==> 0 <= a.catalog_index() < 37 && Action::spec_catalog()[a.catalog_index()] == a,
        a is CustomShortcut <==> !Action::spec_catalog().contains(a),
{
    let c = Action::spec_catalog();
    assert forall|i: int| 0 <= i < 37 implies (#[trigger] c[i]).catalog_index() == i
        && !(c[i] is CustomShortcut) by {
        if i < 19 {
            if i < 10 {
                assert(i == 0 || i == 1 || i == 2 || i == 3 || i == 4 || i == 5 || i == 6 || i == 7 || i == 8 || i == 9);
            } else {
                assert(i == 10 || i == 11 || i == 12 || i == 13 || i == 14 || i == 15 || i == 16 || i == 17 || i == 18);
            }
        } else {
            if i < 28 {
                assert(i == 19 || i == 20 || i == 21 || i == 22 || i == 23 || i == 24 || i == 25 || i == 26 || i == 27);
            } else {
                assert(i == 28 || i == 29 || i == 30 || i == 31 || i == 32 || i == 33 || i == 34 || i == 35 || i == 36);
            }
        }
    }
    if c.contains(a) {
        let k = choose|k: int| 0 <= k < c.len() && c[k] == a;
        assert(!(c[k] is CustomShortcut));
    }
    if !(a is CustomShortcut) {
        assert(c[a.catalog_index()] == a);
    }
}

/// Row of the catalog whose label has this length, first and last
/// character, or -1 when no row matches. Those three values already tell
/// every catalog label apart.
spec fn catalog_row_of_label(s: Seq<char>) -> int {
    if s.len() == 10 && s[0] == 'L' && s[9] == 'k' {
        0
    } else if s.len() == 11 && s[0] == 'R' && s[10] == 'k' {
        1
    } else if s.len() == 12 && s[0] == 'M' && s[11] == 'k' {
        2
    } else if s.len() == 4 && s[0] == 'C' && s[3] == 'y' {
        3
    } else if s.len() == 5 && s[0] == 'P' && s[4] == 'e' {
        4
    } else if s.len() == 3 && s[0] == 'C' && s[2] == 't' {
        5
    } else if s.len() == 4 && s[0] == 'U' && s[3] == 'o' {
        6
    } else if s.len() == 4 && s[0] == 'R' && s[3] == 'o' {
        7
    } else if s.len() == 10 && s[0] == 'S' && s[9] == 'l' {
        8
    } else if s.len() == 4 && s[0] == 'F' && s[3] == 'd' {
        9
    } else if s.len() == 4 && s[0] == 'S' && s[3] == 'e' {
        10
    } else if s.len() == 12 && s[0] == 'B' && s[11] == 'k' {
        11
    } else if s.len() == 15 && s[0] == 'B' && s[14] == 'd' {
        12
    } else if s.len() == 7 && s[0] == 'N' && s[6] == 'b' {
        13
    } else if s.len() == 9 && s[0] == 'C' && s[8] == 'b' {
        14
    } else if s.len() == 10 && s[0] == 'R' && s[9] == 'b' {
        15
    } else if s.len() == 8 && s[0] == 'N' && s[7] == 'b' {
        16
    } else if s.len() == 12 && s[0] == 'P' && s[11] == 'b' {
        17
    } else if s.len() == 11 && s[0] == 'R' && s[10] == 'e' {
        18
    } else if s.len() == 15 && s[0] == 'M' && s[14] == 'l' {
        19
    } else if s.len() == 10 && s[0] == 'A' && s[9] == 'é' {
        20
    } else if s.len() == 12 && s[0] == 'S' && s[11] == 'p' {
        21
    } else if s.len() == 9 && s[0] == 'L' && s[8] == 'd' {
        22
    } else if s.len() == 11 && s[0] == 'L' && s[10] == 'n' {
        23
    } else if s.len() == 10 && s[0] == 'S' && s[9] == 't' {
        24
    } else if s.len() == 12 && s[0] == 'P' && s[11] == 'e' {
        25
    } else if s.len() == 10 && s[0] == 'N' && s[9] == 'k' {
        26
    } else if s.len() == 14 && s[0] == 'P' && s[13] == 'k' {
        27
    } else if s.len() == 9 && s[0] == 'V' && s[8] == 'p' {
        28
    } else if s.len() == 11 && s[0] == 'V' && s[10] == 'n' {
        29
    } else if s.len() == 4 && s[0] == 'M' && s[3] == 'e' {
        30
    } else if s.len() == 17 && s[0] == 'C' && s[16] == 's' {
        31
    } else if s.len() == 17 && s[0] == 'T' && s[16] == 't' {
        32
    } else if s.len() == 9 && s[0] == 'S' && s[8] == 'p' {
        33
    } else if s.len() == 11 && s[0] == 'S' && s[10] == 'n' {
        34
    } else if s.len() == 11 && s[0] == 'S' && s[10] == 't' {
        35
    } else if s.len() == 12 && s[0] == 'S' && s[11] == 't' {
        36
    } else {
        -1
    }
}

/// Every row of the picker catalog has a non-empty label, and no two rows
/// share a label.
pub proof fn lemma_catalog_labels_distinct()
    ensures
        forall|i: int|
            0 <= i < Action::spec_catalog().len() ==> (#[trigger] Action::spec_catalog()[i]).spec_label().len() > 0,
        forall|i: int, j: int|
            0 <= i < j < Action::spec_catalog().len() ==> (#[trigger] Action::spec_catalog()[i]).spec_label()
                != (#[trigger] Action::spec_catalog()[j]).spec_label(),
{
    lemma_catalog_contents(Action::LeftClick);
    let c = Action::spec_catalog();
    assert forall|i: int| 0 <= i < 37 implies (#[trigger] c[i]).spec_label().len() > 0
        && catalog_row_of_label(c[i].spec_label()) == i by {
        reveal_strlit("Left Click");
        reveal_strlit("Right Click");
        reveal_strlit("Middle Click");
        reveal_strlit("Copy");
        reveal_strlit("Paste");
        reveal_strlit("Cut");
        reveal_strlit("Undo");
        reveal_strlit("Redo");
        reveal_strlit("Select All");
        reveal_strlit("Find");
        reveal_strlit("Save");
        reveal_strlit("Browser Back");
        reveal_strlit("Browser Forward");
        reveal_strlit("New Tab");
        reveal_strlit("Close Tab");
        reveal_strlit("Reopen Tab");
        reveal_strlit("Next Tab");
        reveal_strlit("Previous Tab");
        reveal_strlit("Reload Page");
        reveal_strlit("Mission Control");
        reveal_strlit("App Exposé");
        reveal_strlit("Show Desktop");
        reveal_strlit("Launchpad");
        reveal_strlit("Lock Screen");
        reveal_strlit("Screenshot");
        reveal_strlit("Play / Pause");
        reveal_strlit("Next Track");
        reveal_strlit("Previous Track");
        reveal_strlit("Volume Up");
        reveal_strlit("Volume Down");
        reveal_strlit("Mute");
        reveal_strlit("Cycle DPI Presets");
        reveal_strlit("Toggle SmartShift");
        reveal_strlit("Scroll Up");
        reveal_strlit("Scroll Down");
        reveal_strlit("Scroll Left");
        reveal_strlit("Scroll Right");
    }
}

pub open spec fn spec_default_binding(button: ButtonId) -> Action {
    match button {
        ButtonId::LeftClick => Action::LeftClick,
        ButtonId::RightClick => Action::RightClick,
        ButtonId::MiddleClick => Action::MiddleClick,
        ButtonId::Back => Action::BrowserBack,
        ButtonId::Forward => Action::BrowserForward,
        ButtonId::DpiToggle => Action::CycleDpiPresets,
    }
}

/// Sensible defaults for a fresh device so the panel isn't empty on first run.
pub fn default_binding(button: ButtonId) -> (r: Action)
    ensures
        r == spec_default_binding(button),
{
    match button {
        ButtonId::LeftClick => Action::LeftClick,
        ButtonId::RightClick => Action::RightClick,
        ButtonId::MiddleClick => Action::MiddleClick,
        ButtonId::Back => Action::BrowserBack,
        ButtonId::Forward => Action::BrowserForward,
        ButtonId::DpiToggle => Action::CycleDpiPresets,
    }
}


/// A key chord: virtual key `key` pressed with the given modifiers held.
pub open spec fn chord(key: u16, command: bool, shift: bool, control: bool) -> SyntheticEvent {
    SyntheticEvent::Key { key_code: key, modifiers: KeyModifiers { command, shift, control } }
}

/// The actions whose documentation names a shortcut synthesise exactly that
/// chord: ⌘C copies, ⌘V pastes, ⌘X cuts, ⌘Z undoes, ⌘⇧Z redoes, ⌘A selects
/// all, ⌘F finds, ⌘S saves, ⌘T opens a tab, ⌘W closes it, ⌘⇧T reopens one,
/// ⌃⇥ and ⌃⇧⇥ switch to the next and previous tab, ⌘R reloads, ⌃↑ opens
/// Mission Control and ⌃↓ App Exposé.
pub proof fn lemma_documented_chords()
    ensures
        Action::Copy.spec_event() == chord(VK_C, true, false, false),
        Action::Paste.spec_event() == chord(VK_V, true, false, false),
        Action::Cut.spec_event() == chord(VK_X, true, false, false),
        Action::Undo.spec_event() == chord(VK_Z, true, false, false),
        Action::Redo.spec_event() == chord(VK_Z, true, true, false),
        Action::SelectAll.spec_event() == chord(VK_A, true, false, false),
        Action::Find.spec_event() == chord(VK_F, true, false, false),
        Action::Save.spec_event() == chord(VK_S, true, false, false),
        Action::NewTab.spec_event() == chord(VK_T, true, false, false),
        Action::CloseTab.spec_event() == chord(VK_W, true, false, false),
        Action::ReopenTab.spec_event() == chord(VK_T, true, true, false),
        Action::NextTab.spec_event() == chord(VK_TAB, false, false, true),
        Action::PrevTab.spec_event() == chord(VK_TAB, false, true, true),
        Action::ReloadPage.spec_event() == chord(VK_R, true, false, false),
        Action::MissionControl.spec_event() == chord(VK_UP_ARROW, false, false, true),
        Action::AppExpose.spec_event() == chord(VK_DOWN_ARROW, false, false, true),
{
}

/// Action whose synthesised key chord, media key or scroll tick is `e`.
spec fn action_of_event(e: SyntheticEvent) -> Action {
    if e == Action::Copy.spec_event() {
        Action::Copy
    } else if e == Action::Paste.spec_event() {
        Action::Paste
    } else if e == Action::Cut.spec_event() {
        Action::Cut
    } else if e == Action::Undo.spec_event() {
        Action::Undo
    } else if e == Action::Redo.spec_event() {
        Action::Redo
    } else if e == Action::SelectAll.spec_event() {
        Action::SelectAll
    } else if e == Action::Find.spec_event() {
        Action::Find
    } else if e == Action::Save.spec_event() {
        Action::Save
    } else if e == Action::BrowserBack.spec_event() {
        Action::BrowserBack
    } else if e == Action::BrowserForward.spec_event() {
        Action::BrowserForward
    } else if e == Action::NewTab.spec_event() {
        Action::NewTab
    } else if e == Action::CloseTab.spec_event() {
        Action::CloseTab
    } else if e == Action::ReopenTab.spec_event() {
        Action::ReopenTab
    } else if e == Action::NextTab.spec_event() {
        Action::NextTab
    } else if e == Action::PrevTab.spec_event() {
        Action::PrevTab
    } else if e == Action::ReloadPage.spec_event() {
        Action::ReloadPage
    } else if e == Action::MissionControl.spec_event() {
        Action::MissionControl
    } else if e == Action::AppExpose.spec_event() {
        Action::AppExpose
    } else if e == Action::ShowDesktop.spec_event() {
        Action::ShowDesktop
    } else if e == Action::LaunchpadShow.spec_event() {
        Action::LaunchpadShow
    } else if e == Action::LockScreen.spec_event() {
        Action::LockScreen
    } else if e == Action::Screenshot.spec_event() {
        Action::Screenshot
    } else if e == Action::PlayPause.spec_event() {
        Action::PlayPause
    } else if e == Action::NextTrack.spec_event() {
        Action::NextTrack
    } else if e == Action::PrevTrack.spec_event() {
        Action::PrevTrack
    } else if e == Action::VolumeUp.spec_event() {
        Action::VolumeUp
    } else if e == Action::VolumeDown.spec_event() {
        Action::VolumeDown
    } else if e == Action::MuteVolume.spec_event() {
        Action::MuteVolume
    } else if e == Action::ScrollUp.spec_event() {
        Action::ScrollUp
    } else if e == Action::ScrollDown.spec_event() {
        Action::ScrollDown
    } else if e == Action::HorizontalScrollLeft.spec_event() {
        Action::HorizontalScrollLeft
    } else if e == Action::HorizontalScrollRight.spec_event() {
        Action::HorizontalScrollRight
    } else {
        Action::LeftClick
    }
}

/// Two actions that synthesise the same key chord, media key or scroll tick
/// are the same action: no shortcut stands for two actions (Undo and Redo,
/// for one, post different chords).
pub proof fn lemma_events_tell_actions_apart(a: Action, b: Action)
    requires
        a.spec_event() is Key || a.spec_event() is Media || a.spec_event() is Scroll,
        a.spec_event() == b.spec_event(),
    ensures
        a == b,
{
    assert(action_of_event(a.spec_event()) == a);
    assert(action_of_event(b.spec_event()) == b);
}

/// Button whose label starts with these two characters and has this length.
spec fn button_of_label(s: Seq<char>) -> ButtonId {
    if s.len() == 10 && s[0] == 'L' && s[1] == 'e' {
        ButtonId::LeftClick
    } else if s.len() == 11 && s[0] == 'R' && s[1] == 'i' {
        ButtonId::RightClick
    } else if s.len() == 12 && s[0] == 'M' && s[1] == 'i' {
        ButtonId::MiddleClick
    } else if s.len() == 4 && s[0] == 'B' && s[1] == 'a' {
        ButtonId::Back
    } else if s.len() == 7 && s[0] == 'F' && s[1] == 'o' {
        ButtonId::Forward
    } else {
        ButtonId::DpiToggle
    }
}

/// Each button is labelled by its own name, and no two buttons share a
/// label.
pub proof fn lemma_button_labels(a: ButtonId, b: ButtonId)
    ensures
        ButtonId::LeftClick.spec_label() == "Left Click"@,
        ButtonId::RightClick.spec_label() == "Right Click"@,
        ButtonId::MiddleClick.spec_label() == "Middle Click"@,
        ButtonId::Back.spec_label() == "Back"@,
        ButtonId::Forward.spec_label() == "Forward"@,
        ButtonId::DpiToggle.spec_label() == "DPI Toggle"@,
        a.spec_label() == b.spec_label() ==> a == b,
{
    reveal_strlit("Left Click");
    reveal_strlit("Right Click");
    reveal_strlit("Middle Click");
    reveal_strlit("Back");
    reveal_strlit("Forward");
    reveal_strlit("DPI Toggle");
    assert(button_of_label(a.spec_label()) == a);
    assert(button_of_label(b.spec_label()) == b);
}

/// `s` with the ASCII letters `a`..`z` written in upper case.
pub open spec fn ascii_upper(s: Seq<char>) -> Seq<char> {
    s.map_values(|c: char| if 'a' <= c <= 'z' { ((c as u32) - 32) as char } else { c })
}

/// The name of a category's variant, as `{:?}` writes it.
pub open spec fn category_variant_name(c: Category) -> Seq<char> {
    match c {
        Category::Editing => "Editing"@,
        Category::Browser => "Browser"@,
        Category::Media => "Media"@,
        Category::Mouse => "Mouse"@,
        Category::Dpi => "Dpi"@,
        Category::Scroll => "Scroll"@,
        Category::Navigation => "Navigation"@,
        Category::System => "System"@,
    }
}

/// Category whose header starts with these two characters and has this length.
spec fn category_of_label(s: Seq<char>) -> Category {
    if s.len() == 7 && s[0] == 'E' && s[1] == 'D' {
        Category::Editing
    } else if s.len() == 7 && s[0] == 'B' && s[1] == 'R' {
        Category::Browser
    } else if s.len() == 5 && s[0] == 'M' && s[1] == 'E' {
        Category::Media
    } else if s.len() == 5 && s[0] == 'M' && s[1] == 'O' {
        Category::Mouse
    } else if s.len() == 3 && s[0] == 'D' && s[1] == 'P' {
        Category::Dpi
    } else if s.len() == 6 && s[0] == 'S' && s[1] == 'C' {
        Category::Scroll
    } else if s.len() == 10 && s[0] == 'N' && s[1] == 'A' {
        Category::Navigation
    } else {
        Category::System
    }
}

/// A category's section header is its variant's name in upper case (Media
/// gives MEDIA, Mouse gives MOUSE), and no two categories share a header.
pub proof fn lemma_category_labels_name_their_category(a: Category, b: Category)
    ensures
        a.spec_label() == ascii_upper(category_variant_name(a)),
        a.spec_label() == b.spec_label() ==> a == b,
{
    reveal_strlit("EDITING");
    reveal_strlit("Editing");
    reveal_strlit("BROWSER");
    reveal_strlit("Browser");
    reveal_strlit("MEDIA");
    reveal_strlit("Media");
    reveal_strlit("MOUSE");
    reveal_strlit("Mouse");
    reveal_strlit("DPI");
    reveal_strlit("Dpi");
    reveal_strlit("SCROLL");
    reveal_strlit("Scroll");
    reveal_strlit("NAVIGATION");
    reveal_strlit("Navigation");
    reveal_strlit("SYSTEM");
    reveal_strlit("System");
    assert(a.spec_label() =~= ascii_upper(category_variant_name(a)));
    assert(category_of_label(a.spec_label()) == a);
    assert(category_of_label(b.spec_label()) == b);
}

} // verus!
