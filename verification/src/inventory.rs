//! Discovery decisions for Logitech HID++ receivers: which HID interfaces to
//! probe, and how a probed receiver's paired devices are reported.

use vstd::prelude::*;

use crate::device::{DeviceInventory, PairedDevice, ReceiverInfo};

verus! {

/// Logitech HID vendor ID.
pub const LOGITECH_VID: u16 = 0x046d;

/// HID++ long-report usage page.
pub const HIDPP_USAGE_PAGE: u16 = 0xff00;

/// HID++ long-report usage ID.
pub const HIDPP_LONG_USAGE_ID: u16 = 0x0002;

/// Whether a HID interface is a Logitech HID++ long-report node: one such
/// node exists per physical HID++ device on every supported OS.
pub fn is_hidpp_interface(vendor_id: u16, usage_page: u16, usage_id: u16) -> (r: bool)
    ensures
        r == (vendor_id == LOGITECH_VID && usage_page == HIDPP_USAGE_PAGE && usage_id
            == HIDPP_LONG_USAGE_ID),
{
    vendor_id == LOGITECH_VID && usage_page == HIDPP_USAGE_PAGE && usage_id == HIDPP_LONG_USAGE_ID
}

/// The devices of `s` in slot `slot`, in their order in `s`.
pub open spec fn in_slot(s: Seq<PairedDevice>, slot: u8) -> Seq<PairedDevice> {
    s.filter(|p: PairedDevice| p.slot == slot)
}

/// `s` is ordered by slot.
pub open spec fn sorted_by_slot(s: Seq<PairedDevice>) -> bool {
    forall|i: int, j: int| 0 <= i <= j < s.len() ==> (#[trigger] s[i]).slot <= (#[trigger] s[j]).slot
}

/// `r` is `s` sorted stably by slot: ordered by slot, and holding for every
/// slot the same devices in the same order.
pub open spec fn is_stable_slot_sort(s: Seq<PairedDevice>, r: Seq<PairedDevice>) -> bool {
    &&& sorted_by_slot(r)
    &&& forall|slot: u8| #[trigger] in_slot(r, slot) == in_slot(s, slot)
}

/// Inserting `x` into sorted `a` after every device of slot `<= x.slot`
/// adds `x` at the end of its slot's devices and changes no other slot.
proof fn lemma_insert_in_slot(a: Seq<PairedDevice>, p: int, x: PairedDevice, slot: u8)
    requires
        0 <= p <= a.len(),
        forall|j: int| p <= j < a.len() ==> (#[trigger] a[j]).slot > x.slot,
    ensures
        in_slot(a.insert(p, x), slot) == if slot == x.slot {
            in_slot(a, slot).push(x)
        } else {
            in_slot(a, slot)
        },
{
    broadcast use vstd::seq_lib::group_seq_properties;

    let pred = |q: PairedDevice| q.slot == slot;
    let front = a.take(p);
    let back = a.skip(p);
    assert(a =~= front + back);
    assert(a.insert(p, x) =~= front.push(x) + back);
    Seq::filter_distributes_over_add(front, back, pred);
    Seq::filter_distributes_over_add(front.push(x), back, pred);
    front.lemma_filter_push(x, pred);
    if slot == x.slot {
        assert(back.all(|q: PairedDevice| !pred(q)));
        back.lemma_all_neg_filter_empty(pred);
        assert(back.filter(pred) =~= Seq::<PairedDevice>::empty());
        assert(in_slot(a, slot) =~= front.filter(pred));
        assert(in_slot(a.insert(p, x), slot) =~= front.filter(pred).push(x));
    }
}

/// Sorts paired devices by slot, keeping devices of equal slot in order.
pub fn sort_by_slot(devices: Vec<PairedDevice>) -> (r: Vec<PairedDevice>)
    ensures
        is_stable_slot_sort(devices@, r@),
{
    broadcast use vstd::seq_lib::group_seq_properties;

    let ghost input = devices@;
    let mut src = devices;
    let mut out: Vec<PairedDevice> = Vec::new();
    let mut taken: usize = 0;
    let total = src.len();
    while src.len() > 0
        invariant
            taken + src@.len() == input.len(),
            input.len() == total,
            src@ == input.skip(taken as int),
            is_stable_slot_sort(input.take(taken as int), out@),
        decreases src@.len(),
    {
        let x = src.remove(0);
        let mut p: usize = 0;
        while p < out.len() && out[p].slot <= x.slot
            invariant
                p <= out@.len(),
                forall|j: int| 0 <= j < p ==> (#[trigger] out@[j]).slot <= x.slot,
            decreases out@.len() - p,
        {
            p = p + 1;
        }
        let ghost before = out@;
        proof {
            assert forall|j: int| p <= j < before.len() implies (#[trigger] before[j]).slot > x.slot by {
                assert(before[p as int].slot > x.slot);
                assert(before[p as int].slot <= before[j].slot);
            }
            assert(input.take(taken + 1) =~= input.take(taken as int).push(x));
            assert forall|slot: u8| #[trigger] in_slot(before.insert(p as int, x), slot) == in_slot(
                input.take(taken + 1),
                slot,
            ) by {
                lemma_insert_in_slot(before, p as int, x, slot);
                input.take(taken as int).lemma_filter_push(x, |q: PairedDevice| q.slot == slot);
            }
        }
        out.insert(p, x);
        proof {
            assert(out@ =~= before.insert(p as int, x));
            assert forall|i: int, j: int| 0 <= i <= j < out@.len() implies (#[trigger] out@[i]).slot
                <= (#[trigger] out@[j]).slot by {
                if i < p && j > p {
                    assert(out@[j] == before[j - 1]);
                } else if i < p && j < p {
                    assert(out@[i] == before[i]);
                    assert(out@[j] == before[j]);
                } else if i > p {
                    assert(out@[i] == before[i - 1]);
                    assert(out@[j] == before[j - 1]);
                } else if i == p && j > p {
                    assert(out@[j] == before[j - 1]);
                } else if i < p && j == p {
                    assert(out@[i] == before[i]);
                }
            }
            assert(src@ =~= input.skip(taken + 1));
        }
        taken = taken + 1;
    }
    proof {
        assert(input.take(taken as int) =~= input);
    }
    out
}

/// The devices of `s` that are online, in their order in `s`.
pub open spec fn online_devices(s: Seq<PairedDevice>) -> Seq<PairedDevice> {
    s.filter(|p: PairedDevice| p.online)
}

/// Keeps the devices that are online, in order; paired devices that are
/// currently offline are not reported.
pub fn online_only(devices: Vec<PairedDevice>) -> (r: Vec<PairedDevice>)
    ensures
        r@ == online_devices(devices@),
{
    broadcast use vstd::seq_lib::group_seq_properties;

    let ghost input = devices@;
    let mut src = devices;
    let mut out: Vec<PairedDevice> = Vec::new();
    let mut taken: usize = 0;
    let total = src.len();
    proof {
        assert(input.take(0) =~= Seq::<PairedDevice>::empty());
        reveal(Seq::filter);
    }
    while src.len() > 0
        invariant
            taken + src@.len() == input.len(),
            input.len() == total,
            src@ == input.skip(taken as int),
            out@ == online_devices(input.take(taken as int)),
        decreases src@.len(),
    {
        let x = src.remove(0);
        proof {
            assert(input.take(taken + 1) =~= input.take(taken as int).push(x));
            input.take(taken as int).lemma_filter_push(x, |p: PairedDevice| p.online);
        }
        if x.online {
            out.push(x);
        }
        proof {
            assert(src@ =~= input.skip(taken + 1));
        }
        taken = taken + 1;
    }
    proof {
        assert(input.take(taken as int) =~= input);
    }
    out
}

/// A stable slot sort holds only devices of its input.
pub proof fn lemma_sort_keeps_members(s: Seq<PairedDevice>, r: Seq<PairedDevice>, i: int)
    requires
        is_stable_slot_sort(s, r),
        0 <= i < r.len(),
    ensures
        s.contains(r[i]),
{
    let slot = r[i].slot;
    let pred = |q: PairedDevice| q.slot == slot;
    r.lemma_filter_contains(pred, i);
    assert(in_slot(r, slot) == in_slot(s, slot));
    s.lemma_filter_contains_rev(pred, r[i]);
}

/// Name reported for every Bolt receiver.
pub const RECEIVER_NAME: &'static str = "Logi Bolt Receiver";

/// The inventory of a probed Bolt receiver: its identity, and those of its
/// paired devices that are online, sorted stably by slot. Paired devices
/// that are currently offline are not listed.
pub fn build_inventory(
    vendor_id: u16,
    product_id: u16,
    unique_id: Option<String>,
    paired: Vec<PairedDevice>,
) -> (r: DeviceInventory)
    ensures
        r.receiver.name@ == RECEIVER_NAME@,
        r.receiver.vendor_id == vendor_id,
        r.receiver.product_id == product_id,
        r.receiver.unique_id == unique_id,
        is_stable_slot_sort(online_devices(paired@), r.paired@),
        forall|i: int| 0 <= i < r.paired@.len() ==> (#[trigger] r.paired@[i]).online,
{
    let inv = DeviceInventory {
        receiver: ReceiverInfo {
            name: RECEIVER_NAME.to_owned(),
            vendor_id,
            product_id,
            unique_id,
        },
        paired: sort_by_slot(online_only(paired)),
    };
    proof {
        let online = online_devices(paired@);
        assert forall|i: int| 0 <= i < inv.paired@.len() implies (#[trigger] inv.paired@[i]).online by {
            lemma_sort_keeps_members(online, inv.paired@, i);
            paired@.lemma_filter_contains_rev(|p: PairedDevice| p.online, inv.paired@[i]);
            let k = choose|k: int| 0 <= k < online.len() && online[k] == inv.paired@[i];
            paired@.lemma_filter_pred(|p: PairedDevice| p.online, k);
        }
    }
    inv
}

} // verus!
