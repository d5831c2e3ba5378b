//! Text rendering of paired devices for the `list` command.

use vstd::prelude::*;

use crate::device::{
    BatteryInfo, BatteryLevel, BatteryStatus, DeviceInventory, DeviceKind, PairedDevice, ReceiverInfo,
};

verus! {

/// The lower-case hexadecimal digit of `d` (`0 <= d < 16`).
pub open spec fn hex_char(d: int) -> char {
    if d < 10 {
        (('0' as int) + d) as char
    } else {
        (('a' as int) + d - 10) as char
    }
}

/// The decimal digit of `d` (`0 <= d < 10`).
pub open spec fn digit_char(d: int) -> char {
    (('0' as int) + d) as char
}

/// Decimal notation of `n`, without leading zeros.
pub open spec fn decimal(n: nat) -> Seq<char>
    decreases n,
{
    if n < 10 {
        seq![digit_char(n as int)]
    } else {
        decimal(n / 10).push(digit_char((n % 10) as int))
    }
}

/// Four-digit lower-case hexadecimal notation of `w`, zero-padded (`{:04x}`).
pub open spec fn hex4(w: u16) -> Seq<char> {
    seq![
        hex_char((w / 4096) as int),
        hex_char(((w / 256) % 16) as int),
        hex_char(((w / 16) % 16) as int),
        hex_char((w % 16) as int),
    ]
}

/// The lower-cased debug name of a device kind.
pub open spec fn kind_name(k: DeviceKind) -> Seq<char> {
    match k {
        DeviceKind::Mouse => "mouse"@,
        DeviceKind::Keyboard => "keyboard"@,
        DeviceKind::Numpad => "numpad"@,
        DeviceKind::Presenter => "presenter"@,
        DeviceKind::Remote => "remote"@,
        DeviceKind::Trackball => "trackball"@,
        DeviceKind::Touchpad => "touchpad"@,
        DeviceKind::Tablet => "tablet"@,
        DeviceKind::Gamepad => "gamepad"@,
        DeviceKind::Joystick => "joystick"@,
        DeviceKind::Headset => "headset"@,
        DeviceKind::Unknown => "unknown"@,
    }
}

/// The lower-cased debug name of a battery level.
pub open spec fn level_name(l: BatteryLevel) -> Seq<char> {
    match l {
        BatteryLevel::Critical => "critical"@,
        BatteryLevel::Low => "low"@,
        BatteryLevel::Good => "good"@,
        BatteryLevel::Full => "full"@,
        BatteryLevel::Unknown => "unknown"@,
    }
}

/// The lower-cased debug name of a charging state.
pub open spec fn status_name(s: BatteryStatus) -> Seq<char> {
    match s {
        BatteryStatus::Discharging => "discharging"@,
        BatteryStatus::Charging => "charging"@,
        BatteryStatus::ChargingSlow => "chargingslow"@,
        BatteryStatus::Full => "full"@,
        BatteryStatus::Error => "error"@,
        BatteryStatus::Unknown => "unknown"@,
    }
}

/// `battery=<percentage>% <level> (<status>)`.
pub open spec fn spec_format_battery(b: BatteryInfo) -> Seq<char> {
    "battery="@ + decimal(b.percentage as nat) + "% "@ + level_name(b.level) + " ("@
        + status_name(b.status) + ")"@
}

/// `slot <n> <●|○> <codename> (<kind>, <wpid>, <battery>)`: `●` marks an
/// online device, a missing codename reads `Unknown device`, a missing wpid
/// `wpid=?` and a missing battery report `battery=—`.
pub open spec fn spec_format_device(d: PairedDevice) -> Seq<char> {
    let dot = if d.online {
        "●"@
    } else {
        "○"@
    };
    let codename = match d.codename {
        Some(c) => c@,
        None => "Unknown device"@,
    };
    let wpid = match d.wpid {
        Some(w) => "wpid="@ + hex4(w),
        None => "wpid=?"@,
    };
    let battery = match d.battery {
        Some(b) => spec_format_battery(b),
        None => "battery=—"@,
    };
    "slot "@ + decimal(d.slot as nat) + " "@ + dot + " "@ + codename + " ("@ + kind_name(d.kind)
        + ", "@ + wpid + ", "@ + battery + ")"@
}

/// The hexadecimal digit of `d`, as a one-character string.
fn hex_digit(d: u16) -> (r: &'static str)
    requires
        d < 16,
    ensures
        r@ == seq![hex_char(d as int)],
{
    proof {
        reveal_strlit("0");
        reveal_strlit("1");
        reveal_strlit("2");
        reveal_strlit("3");
        reveal_strlit("4");
        reveal_strlit("5");
        reveal_strlit("6");
        reveal_strlit("7");
        reveal_strlit("8");
        reveal_strlit("9");
        reveal_strlit("a");
        reveal_strlit("b");
        reveal_strlit("c");
        reveal_strlit("d");
        reveal_strlit("e");
        reveal_strlit("f");
    }
    let r = match d {
        0 => "0",
        1 => "1",
        2 => "2",
        3 => "3",
        4 => "4",
        5 => "5",
        6 => "6",
        7 => "7",
        8 => "8",
        9 => "9",
        10 => "a",
        11 => "b",
        12 => "c",
        13 => "d",
        14 => "e",
        _ => "f",
    };
    assert(r@ =~= seq![hex_char(d as int)]);
    r
}

/// Appends the decimal notation of `n` to `out`.
pub(crate) fn push_decimal(out: &mut String, n: u8)
    ensures
        final(out)@ == old(out)@ + decimal(n as nat),
    decreases n,
{
    if n >= 10 {
        push_decimal(out, n / 10);
        out.append(hex_digit((n % 10) as u16));
        assert(decimal(n as nat) == decimal((n / 10) as nat).push(digit_char((n % 10) as int)));
    } else {
        out.append(hex_digit(n as u16));
    }
    assert(final(out)@ =~= old(out)@ + decimal(n as nat));
}

/// Appends `{:04x}` of `w` to `out`.
fn push_hex4(out: &mut String, w: u16)
    ensures
        final(out)@ == old(out)@ + hex4(w),
{
    out.append(hex_digit(w / 4096));
    out.append(hex_digit((w / 256) % 16));
    out.append(hex_digit((w / 16) % 16));
    out.append(hex_digit(w % 16));
    assert(final(out)@ =~= old(out)@ + hex4(w));
}

fn kind_str(k: DeviceKind) -> (r: &'static str)
    ensures
        r@ == kind_name(k),
{
    match k {
        DeviceKind::Mouse => "mouse",
        DeviceKind::Keyboard => "keyboard",
        DeviceKind::Numpad => "numpad",
        DeviceKind::Presenter => "presenter",
        DeviceKind::Remote => "remote",
        DeviceKind::Trackball => "trackball",
        DeviceKind::Touchpad => "touchpad",
        DeviceKind::Tablet => "tablet",
        DeviceKind::Gamepad => "gamepad",
        DeviceKind::Joystick => "joystick",
        DeviceKind::Headset => "headset",
        DeviceKind::Unknown => "unknown",
    }
}

fn level_str(l: BatteryLevel) -> (r: &'static str)
    ensures
        r@ == level_name(l),
{
    match l {
        BatteryLevel::Critical => "critical",
        BatteryLevel::Low => "low",
        BatteryLevel::Good => "good",
        BatteryLevel::Full => "full",
        BatteryLevel::Unknown => "unknown",
    }
}

fn status_str(s: BatteryStatus) -> (r: &'static str)
    ensures
        r@ == status_name(s),
{
    match s {
        BatteryStatus::Discharging => "discharging",
        BatteryStatus::Charging => "charging",
        BatteryStatus::ChargingSlow => "chargingslow",
        BatteryStatus::Full => "full",
        BatteryStatus::Error => "error",
        BatteryStatus::Unknown => "unknown",
    }
}

/// Renders a battery report: `battery=<percentage>% <level> (<status>)`.
pub fn format_battery(b: &BatteryInfo) -> (r: String)
    ensures
        r@ == spec_format_battery(*b),
{
    let mut out = String::new();
    out.append("battery=");
    push_decimal(&mut out, b.percentage);
    out.append("% ");
    out.append(level_str(b.level));
    out.append(" (");
    out.append(status_str(b.status));
    out.append(")");
    assert(out@ =~= spec_format_battery(*b));
    out
}

/// Renders one paired device as a line of the `list` output.
pub fn format_device(d: &PairedDevice) -> (r: String)
    ensures
        r@ == spec_format_device(*d),
{
    let mut out = String::new();
    out.append("slot ");
    push_decimal(&mut out, d.slot);
    out.append(" ");
    if d.online {
        out.append("●");
    } else {
        out.append("○");
    }
    out.append(" ");
    match &d.codename {
        Some(c) => out.append(c.as_str()),
        None => out.append("Unknown device"),
    }
    out.append(" (");
    out.append(kind_str(d.kind));
    out.append(", ");
    match d.wpid {
        Some(w) => {
            out.append("wpid=");
            push_hex4(&mut out, w);
        },
        None => out.append("wpid=?"),
    }
    out.append(", ");
    match &d.battery {
        Some(b) => {
            let s = format_battery(b);
            out.append(s.as_str());
        },
        None => out.append("battery=—"),
    }
    out.append(")");
    assert(out@ =~= spec_format_device(*d));
    out
}

/// Arguments of the `list` command (it takes none).
#[derive(Debug, Clone, Copy, PartialEq, Eq, Structural)]
pub struct ListArgs {}

/// The CLI's subcommands.
#[derive(Debug, Clone, Copy, PartialEq, Eq, Structural)]
pub enum Command {
    /// List connected Logitech HID++ devices.
    List(ListArgs),
}

/// The command to run: the one given, else `list`.
pub fn command_or_default(cmd: Option<Command>) -> (r: Command)
    ensures
        r == match cmd {
            Some(c) => c,
            None => Command::List(ListArgs {}),
        },
{
    match cmd {
        Some(c) => c,
        None => Command::List(ListArgs {}),
    }
}

/// `<name> (<uid>, vid=<{:04x}> pid=<{:04x}>)`, with `—` for a receiver
/// without unique id.
pub open spec fn spec_receiver_header(r: ReceiverInfo) -> Seq<char> {
    let uid = match r.unique_id {
        Some(u) => u@,
        None => "—"@,
    };
    r.name@ + " ("@ + uid + ", vid="@ + hex4(r.vendor_id) + " pid="@ + hex4(r.product_id) + ")"@
}

/// The tree line of device `i` of `n`: `└─` for the last, `├─` otherwise.
pub open spec fn spec_device_line(d: PairedDevice, last: bool) -> Seq<char> {
    (if last {
        "  └─"@
    } else {
        "  ├─"@
    }) + " "@ + spec_format_device(d)
}

/// The lines printed for one receiver: its header, then one tree line per
/// paired device, or a single `no paired devices` line.
pub open spec fn spec_inventory_lines(inv: DeviceInventory) -> Seq<Seq<char>> {
    let n = inv.paired@.len();
    if n == 0 {
        seq![spec_receiver_header(inv.receiver), "  └─ no paired devices"@]
    } else {
        seq![spec_receiver_header(inv.receiver)] + Seq::new(
            n,
            |i: int| spec_device_line(inv.paired@[i], i == n - 1),
        )
    }
}

/// Renders the header line of a receiver.
pub fn receiver_header(r: &ReceiverInfo) -> (s: String)
    ensures
        s@ == spec_receiver_header(*r),
{
    let mut out = r.name.clone();
    out.append(" (");
    match &r.unique_id {
        Some(u) => out.append(u.as_str()),
        None => out.append("—"),
    }
    out.append(", vid=");
    push_hex4(&mut out, r.vendor_id);
    out.append(" pid=");
    push_hex4(&mut out, r.product_id);
    out.append(")");
    assert(out@ =~= spec_receiver_header(*r));
    out
}

/// The lines printed for one receiver and its paired devices.
pub fn inventory_lines(inv: &DeviceInventory) -> (r: Vec<String>)
    ensures
        r@.len() == spec_inventory_lines(*inv).len(),
        forall|i: int| 0 <= i < r@.len() ==> (#[trigger] r@[i])@ == spec_inventory_lines(*inv)[i],
{
    let mut lines: Vec<String> = Vec::new();
    lines.push(receiver_header(&inv.receiver));
    let n = inv.paired.len();
    if n == 0 {
        let mut s = String::new();
        s.append("  └─ no paired devices");
        lines.push(s);
        return lines;
    }
    let ghost spec = spec_inventory_lines(*inv);
    for i in 0..n
        invariant
            n == inv.paired@.len(),
            n > 0,
            spec == spec_inventory_lines(*inv),
            lines@.len() == i + 1,
            forall|k: int| 0 <= k < lines@.len() ==> (#[trigger] lines@[k])@ == spec[k],
    {
        let mut s = String::new();
        if i == n - 1 {
            s.append("  └─");
        } else {
            s.append("  ├─");
        }
        s.append(" ");
        let d = format_device(&inv.paired[i]);
        s.append(d.as_str());
        proof {
            assert(spec[i + 1] == spec_device_line(inv.paired@[i as int], i == n - 1));
            assert(s@ =~= spec[i + 1]);
        }
        lines.push(s);
    }
    lines
}


/// `s` with the ASCII letters `A`..`Z` written in lower case.
pub open spec fn ascii_lowercase(s: Seq<char>) -> Seq<char> {
    s.map_values(|c: char| if 'A' <= c <= 'Z' { ((c as u32) + 32) as char } else { c })
}

/// The name of a device kind's variant, as `{:?}` writes it.
pub open spec fn kind_variant_name(k: DeviceKind) -> Seq<char> {
    match k {
        DeviceKind::Mouse => "Mouse"@,
        DeviceKind::Keyboard => "Keyboard"@,
        DeviceKind::Numpad => "Numpad"@,
        DeviceKind::Presenter => "Presenter"@,
        DeviceKind::Remote => "Remote"@,
        DeviceKind::Trackball => "Trackball"@,
        DeviceKind::Touchpad => "Touchpad"@,
        DeviceKind::Tablet => "Tablet"@,
        DeviceKind::Gamepad => "Gamepad"@,
        DeviceKind::Joystick => "Joystick"@,
        DeviceKind::Headset => "Headset"@,
        DeviceKind::Unknown => "Unknown"@,
    }
}

/// Device kind whose name starts with these two characters and has this
/// length.
spec fn kind_of_name(s: Seq<char>) -> DeviceKind {
    if s.len() == 5 && s[0] == 'm' && s[1] == 'o' {
        DeviceKind::Mouse
    } else if s.len() == 8 && s[0] == 'k' && s[1] == 'e' {
        DeviceKind::Keyboard
    } else if s.len() == 6 && s[0] == 'n' && s[1] == 'u' {
        DeviceKind::Numpad
    } else if s.len() == 9 && s[0] == 'p' && s[1] == 'r' {
        DeviceKind::Presenter
    } else if s.len() == 6 && s[0] == 'r' && s[1] == 'e' {
        DeviceKind::Remote
    } else if s.len() == 9 && s[0] == 't' && s[1] == 'r' {
        DeviceKind::Trackball
    } else if s.len() == 8 && s[0] == 't' && s[1] == 'o' {
        DeviceKind::Touchpad
    } else if s.len() == 6 && s[0] == 't' && s[1] == 'a' {
        DeviceKind::Tablet
    } else if s.len() == 7 && s[0] == 'g' && s[1] == 'a' {
        DeviceKind::Gamepad
    } else if s.len() == 8 && s[0] == 'j' && s[1] == 'o' {
        DeviceKind::Joystick
    } else if s.len() == 7 && s[0] == 'h' && s[1] == 'e' {
        DeviceKind::Headset
    } else {
        DeviceKind::Unknown
    }
}

/// The kind field of a device line is the lower-cased name of the device's
/// kind (a keyboard is listed as "keyboard"), so distinct kinds are listed
/// under distinct names.
pub proof fn lemma_kind_names(a: DeviceKind, b: DeviceKind)
    ensures
        kind_name(a) == ascii_lowercase(kind_variant_name(a)),
        kind_name(a) == kind_name(b) ==> a == b,
{
    reveal_strlit("Mouse");
    reveal_strlit("mouse");
    reveal_strlit("Keyboard");
    reveal_strlit("keyboard");
    reveal_strlit("Numpad");
    reveal_strlit("numpad");
    reveal_strlit("Presenter");
    reveal_strlit("presenter");
    reveal_strlit("Remote");
    reveal_strlit("remote");
    reveal_strlit("Trackball");
    reveal_strlit("trackball");
    reveal_strlit("Touchpad");
    reveal_strlit("touchpad");
    reveal_strlit("Tablet");
    reveal_strlit("tablet");
    reveal_strlit("Gamepad");
    reveal_strlit("gamepad");
    reveal_strlit("Joystick");
    reveal_strlit("joystick");
    reveal_strlit("Headset");
    reveal_strlit("headset");
    reveal_strlit("Unknown");
    reveal_strlit("unknown");
    assert(kind_name(a) =~= ascii_lowercase(kind_variant_name(a)));
    assert(kind_of_name(kind_name(a)) == a);
    assert(kind_of_name(kind_name(b)) == b);
}

} // verus!
