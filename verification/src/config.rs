//! User configuration: schema version, the last selected device, and the
//! button bindings stored per device model.

use vstd::prelude::*;

use crate::assoc::{
    assoc_view, is_first_key, keys_distinct, lemma_assoc_domain, lemma_assoc_first,
    lemma_assoc_push_existing, lemma_assoc_push_new, lemma_assoc_update_first,
};
use crate::binding::{Action, ButtonId};

verus! {

/// Schema version written into fresh configurations.
pub const CURRENT_VERSION: u32 = 1;

/// Settings beyond bindings; none exist yet.
#[derive(Debug, Clone, Copy, PartialEq, Eq, Structural)]
pub struct Settings {}

/// The bindings stored for one device model. When a button occurs in more
/// than one pair, the first pair counts.
#[derive(Debug, Clone)]
pub struct DeviceBindings {
    pub config_key: String,
    pub bindings: Vec<(ButtonId, Action)>,
}

/// The user configuration. When a config key occurs in more than one entry
/// of `devices`, the first entry counts.
#[derive(Debug, Clone)]
pub struct Config {
    pub version: u32,
    pub settings: Settings,
    /// Config key of the device selected when the application last ran.
    pub selected_device: Option<String>,
    pub devices: Vec<DeviceBindings>,
}

/// The stored devices as pairs of config key and the bindings map.
pub open spec fn device_pairs(devs: Seq<DeviceBindings>) -> Seq<(Seq<char>, Map<ButtonId, Action>)> {
    devs.map_values(|d: DeviceBindings| (d.config_key@, assoc_view(d.bindings@)))
}

impl Config {
    /// The stored bindings of every device, by config key.
    pub open spec fn binding_map(self) -> Map<Seq<char>, Map<ButtonId, Action>> {
        assoc_view(device_pairs(self.devices@))
    }

    /// The bindings stored for the device with config key `key`; empty for
    /// a device with none.
    pub open spec fn stored_for(self, key: Seq<char>) -> Map<ButtonId, Action> {
        if self.binding_map().contains_key(key) {
            self.binding_map()[key]
        } else {
            Map::empty()
        }
    }

    /// The config key of the last selected device, if any.
    pub fn selected_device(&self) -> (r: Option<&str>)
        ensures
            r matches Some(s) ==> self.selected_device matches Some(t) && s@ == t@,
            r is None <==> self.selected_device is None,
    {
        match &self.selected_device {
            Some(s) => Some(s.as_str()),
            None => None,
        }
    }

    /// Remembers `key` as the selected device.
    pub fn set_selected_device(&mut self, key: Option<String>)
        ensures
            final(self).selected_device == key,
            final(self).version == old(self).version,
            final(self).settings == old(self).settings,
            final(self).devices@ == old(self).devices@,
    {
        self.selected_device = key;
    }

    /// Position of the first stored entry for `key`, if any.
    fn find_device(&self, key: &str) -> (r: Option<usize>)
        ensures
            r matches Some(i) ==> is_first_key(device_pairs(self.devices@), key@, i as int),
            r is None ==> forall|j: int|
                0 <= j < self.devices@.len() ==> (#[trigger] self.devices@[j]).config_key@ != key@,
    {
        let wanted = key.to_owned();
        let mut i: usize = 0;
        while i < self.devices.len()
            invariant
                i <= self.devices@.len(),
                wanted@ == key@,
                forall|j: int|
                    0 <= j < i ==> (#[trigger] self.devices@[j]).config_key@ != key@,
            decreases self.devices@.len() - i,
        {
            if self.devices[i].config_key == wanted {
                proof {
                    let p = device_pairs(self.devices@);
                    assert forall|j: int| 0 <= j < i implies (#[trigger] p[j]).0 != key@ by {
                        assert(self.devices@[j].config_key@ != key@);
                    }
                }
                return Some(i);
            }
            i = i + 1;
        }
        None
    }

    /// The bindings stored for the device with config key `key` (none when
    /// the device has no entry).
    pub fn bindings_for(&self, key: &str) -> (r: Vec<(ButtonId, Action)>)
        ensures
            assoc_view(r@) == self.stored_for(key@),
    {
        let mut out: Vec<(ButtonId, Action)> = Vec::new();
        match self.find_device(key) {
            Some(i) => {
                let src = &self.devices[i].bindings;
                let mut k: usize = 0;
                while k < src.len()
                    invariant
                        k <= src@.len(),
                        out@ == src@.take(k as int),
                    decreases src@.len() - k,
                {
                    let b = src[k].0;
                    let a = src[k].1.clone();
                    out.push((b, a));
                    proof {
                        assert(src@.take(k + 1) == src@.take(k as int).push(src@[k as int]));
                    }
                    k = k + 1;
                }
                proof {
                    assert(src@.take(src@.len() as int) == src@);
                    lemma_assoc_first(device_pairs(self.devices@), key@, i as int);
                    assert forall|j: int| is_first_key(device_pairs(self.devices@), key@, j) implies out@
                        == self.devices@[j].bindings@ by {
                        let p = device_pairs(self.devices@);
                        if j < i {
                            assert(p[j].0 == key@);
                        } else if j > i {
                            assert(p[i as int].0 == key@);
                        }
                    }
                    let p = device_pairs(self.devices@);
                    assert(p[i as int].0 == key@);
                    assert(self.devices@[i as int].config_key@ == key@);
                }
            },
            None => {
                proof {
                    let p = device_pairs(self.devices@);
                    lemma_assoc_domain(p, key@);
                    if exists|j: int| 0 <= j < p.len() && (#[trigger] p[j]).0 == key@ {
                        let j = choose|j: int| 0 <= j < p.len() && (#[trigger] p[j]).0 == key@;
                        assert(self.devices@[j].config_key@ == key@);
                    }
                    assert(assoc_view(out@) =~= Map::<ButtonId, Action>::empty());
                }
            },
        }
        out
    }

    /// Stores `action` for `button` of the device with config key `key`,
    /// keeping the device's other bindings and every other device's.
    pub fn set_binding(&mut self, key: &str, button: ButtonId, action: Action)
        ensures
            final(self).binding_map() == old(self).binding_map().insert(
                key@,
                old(self).stored_for(key@).insert(button, action),
            ),
            final(self).version == old(self).version,
            final(self).settings == old(self).settings,
            final(self).selected_device == old(self).selected_device,
    {
        let ghost old_pairs = device_pairs(self.devices@);
        match self.find_device(key) {
            Some(i) => {
                let mut entry = self.devices.remove(i);
                let ghost old_entry = entry;
                let ghost old_b = entry.bindings@;
                let mut k: usize = 0;
                let mut found = false;
                while k < entry.bindings.len()
                    invariant_except_break
                        k <= entry.bindings@.len(),
                        !found,
                        entry.bindings@ == old_b,
                        forall|j: int| 0 <= j < k ==> (#[trigger] old_b[j]).0 != button,
                    ensures
                        entry.bindings@ == old_b,
                        found ==> is_first_key(old_b, button, k as int),
                        !found ==> forall|j: int|
                            0 <= j < old_b.len() ==> (#[trigger] old_b[j]).0 != button,
                    decreases entry.bindings@.len() - k,
                {
                    if entry.bindings[k].0 == button {
                        found = true;
                        break;
                    }
                    k = k + 1;
                }
                if found {
                    entry.bindings.remove(k);
                    entry.bindings.insert(k, (button, action));
                    proof {
                        assert(entry.bindings@ =~= old_b.update(k as int, (button, action)));
                        lemma_assoc_update_first(old_b, button, k as int, action);
                    }
                } else {
                    entry.bindings.push((button, action));
                    proof {
                        lemma_assoc_push_new(old_b, button, action);
                    }
                }
                self.devices.insert(i, entry);
                proof {
                    lemma_assoc_first(old_pairs, key@, i as int);
                    let new_pairs = device_pairs(self.devices@);
                    assert(new_pairs =~= old_pairs.update(
                        i as int,
                        (key@, assoc_view(old_b).insert(button, action)),
                    ));
                    lemma_assoc_update_first(
                        old_pairs,
                        key@,
                        i as int,
                        assoc_view(old_b).insert(button, action),
                    );
                }
            },
            None => {
                let mut bindings: Vec<(ButtonId, Action)> = Vec::new();
                bindings.push((button, action));
                self.devices.push(DeviceBindings { config_key: key.to_owned(), bindings });
                proof {
                    assert forall|j: int| 0 <= j < old_pairs.len() implies (#[trigger] old_pairs[j]).0
                        != key@ by {}
                    lemma_assoc_domain(old_pairs, key@);
                    let single = seq![(button, action)];
                    lemma_assoc_push_new(Seq::<(ButtonId, Action)>::empty(), button, action);
                    assert(Seq::<(ButtonId, Action)>::empty().push((button, action)) =~= single);
                    assert(assoc_view(Seq::<(ButtonId, Action)>::empty()) == Map::<ButtonId, Action>::empty());
                    let new_pairs = device_pairs(self.devices@);
                    assert(new_pairs =~= old_pairs.push((key@, assoc_view(single))));
                    lemma_assoc_push_new(old_pairs, key@, assoc_view(single));
                    assert(Map::<ButtonId, Action>::empty().insert(button, action) =~= assoc_view(single));
                }
            },
        }
    }
}

/// The same bindings with every button once: the first pair of each button.
pub fn canonical_pairs(pairs: &Vec<(ButtonId, Action)>) -> (r: Vec<(ButtonId, Action)>)
    ensures
        assoc_view(r@) == assoc_view(pairs@),
        keys_distinct(r@),
{
    let mut out: Vec<(ButtonId, Action)> = Vec::new();
    let n = pairs.len();
    proof {
        assert(pairs@.take(0) =~= Seq::<(ButtonId, Action)>::empty());
    }
    for i in 0..n
        invariant
            n == pairs@.len(),
            assoc_view(out@) == assoc_view(pairs@.take(i as int)),
            keys_distinct(out@),
    {
        let b = pairs[i].0;
        let mut k: usize = 0;
        let mut seen = false;
        while k < out.len()
            invariant_except_break
                k <= out@.len(),
                !seen,
                forall|j: int| 0 <= j < k ==> (#[trigger] out@[j]).0 != b,
            ensures
                seen ==> k < out@.len() && out@[k as int].0 == b,
                !seen ==> forall|j: int| 0 <= j < out@.len() ==> (#[trigger] out@[j]).0 != b,
            decreases out@.len() - k,
        {
            if out[k].0 == b {
                seen = true;
                break;
            }
            k = k + 1;
        }
        let ghost prefix = pairs@.take(i as int);
        proof {
            assert(pairs@.take(i + 1) =~= prefix.push(pairs@[i as int]));
            lemma_assoc_domain(out@, b);
            lemma_assoc_domain(prefix, b);
        }
        if seen {
            proof {
                assert(assoc_view(out@).contains_key(b));
                let j = choose|j: int| 0 <= j < prefix.len() && (#[trigger] prefix[j]).0 == b;
                lemma_assoc_push_existing(prefix, b, pairs@[i as int].1);
            }
        } else {
            let a = pairs[i].1.clone();
            let ghost before = out@;
            out.push((b, a));
            proof {
                lemma_assoc_push_new(before, b, a);
                assert(!assoc_view(prefix).contains_key(b));
                lemma_assoc_push_new(prefix, b, a);
                assert(pairs@[i as int] == (b, a));
                assert forall|x: int, y: int| 0 <= x < y < out@.len() implies (#[trigger] out@[x]).0
                    != (#[trigger] out@[y]).0 by {
                    if y == out@.len() - 1 {
                        assert(before[x] == out@[x]);
                    } else {
                        assert(before[x] == out@[x]);
                        assert(before[y] == out@[y]);
                    }
                }
            }
        }
    }
    proof {
        assert(pairs@.take(n as int) =~= pairs@);
    }
    out
}

impl Config {
    /// The stored devices with every config key once (its first entry) and
    /// every button of a device once (its first pair): the same bindings, in
    /// the form a map-shaped file holds.
    pub fn canonical_devices(&self) -> (r: Vec<DeviceBindings>)
        ensures
            assoc_view(device_pairs(r@)) == self.binding_map(),
            keys_distinct(device_pairs(r@)),
            forall|i: int| 0 <= i < r@.len() ==> keys_distinct(#[trigger] r@[i].bindings@),
    {
        let mut out: Vec<DeviceBindings> = Vec::new();
        let n = self.devices.len();
        proof {
            assert(device_pairs(self.devices@.take(0)) =~= Seq::<(Seq<char>, Map<ButtonId, Action>)>::empty());
            assert(device_pairs(out@) =~= Seq::<(Seq<char>, Map<ButtonId, Action>)>::empty());
        }
        for i in 0..n
            invariant
                n == self.devices@.len(),
                assoc_view(device_pairs(out@)) == assoc_view(device_pairs(self.devices@.take(i as int))),
                keys_distinct(device_pairs(out@)),
                forall|j: int| 0 <= j < out@.len() ==> keys_distinct(#[trigger] out@[j].bindings@),
        {
            let d = &self.devices[i];
            let ghost key = d.config_key@;
            let mut k: usize = 0;
            let mut seen = false;
            while k < out.len()
                invariant_except_break
                    k <= out@.len(),
                    !seen,
                    key == d.config_key@,
                    forall|j: int| 0 <= j < k ==> (#[trigger] out@[j]).config_key@ != key,
                ensures
                    seen ==> k < out@.len() && out@[k as int].config_key@ == key,
                    !seen ==> forall|j: int|
                        0 <= j < out@.len() ==> (#[trigger] out@[j]).config_key@ != key,
                decreases out@.len() - k,
            {
                if out[k].config_key == d.config_key {
                    seen = true;
                    break;
                }
                k = k + 1;
            }
            let ghost prefix = device_pairs(self.devices@.take(i as int));
            let ghost po = device_pairs(out@);
            let ghost entry = (key, assoc_view(d.bindings@));
            proof {
                assert(device_pairs(self.devices@.take(i + 1)) =~= prefix.push(entry));
                lemma_assoc_domain(po, key);
                lemma_assoc_domain(prefix, key);
            }
            if seen {
                proof {
                    assert(po[k as int].0 == key);
                    assert(assoc_view(po).contains_key(key));
                    let j = choose|j: int| 0 <= j < prefix.len() && (#[trigger] prefix[j]).0 == key;
                    lemma_assoc_push_existing(prefix, key, entry.1);
                }
            } else {
                let bindings = canonical_pairs(&d.bindings);
                let item = DeviceBindings { config_key: d.config_key.clone(), bindings };
                let ghost before = out@;
                out.push(item);
                proof {
                    assert forall|j: int| 0 <= j < po.len() implies (#[trigger] po[j]).0 != key by {
                        assert(before[j].config_key@ != key);
                    }
                    assert(device_pairs(out@) =~= po.push(entry));
                    lemma_assoc_push_new(po, key, entry.1);
                    assert(!assoc_view(prefix).contains_key(key));
                    lemma_assoc_push_new(prefix, key, entry.1);
                    let pn = device_pairs(out@);
                    assert forall|x: int, y: int| 0 <= x < y < pn.len() implies (#[trigger] pn[x]).0
                        != (#[trigger] pn[y]).0 by {
                        if y == pn.len() - 1 {
                            assert(pn[x] == po[x]);
                        } else {
                            assert(pn[x] == po[x]);
                            assert(pn[y] == po[y]);
                        }
                    }
                    assert forall|j: int| 0 <= j < out@.len() implies keys_distinct(
                        #[trigger] out@[j].bindings@,
                    ) by {
                        if j < before.len() {
                            assert(out@[j] == before[j]);
                        }
                    }
                }
            }
        }
        proof {
            assert(self.devices@.take(n as int) =~= self.devices@);
        }
        out
    }
}

impl Default for Config {
    /// A fresh configuration: current schema version, nothing selected,
    /// nothing bound.
    fn default() -> (r: Self)
        ensures
            r.version == CURRENT_VERSION,
            r.selected_device is None,
            r.devices@.len() == 0,
    {
        Config {
            version: CURRENT_VERSION,
            settings: Settings {},
            selected_device: None,
            devices: Vec::new(),
        }
    }
}

/// Reading back a stored binding: after `set_binding(key, b, a)` the bindings
/// stored for `key` give `a` for `b` and keep the device's other buttons,
/// and every other device's bindings are unchanged.
pub proof fn lemma_read_after_set_binding(
    c: Config,
    c2: Config,
    key: Seq<char>,
    b: ButtonId,
    a: Action,
)
    requires
        c2.binding_map() == c.binding_map().insert(key, c.stored_for(key).insert(b, a)),
    ensures
        c2.stored_for(key).contains_key(b),
        c2.stored_for(key)[b] == a,
        forall|b2: ButtonId| b2 != b ==> #[trigger] c2.stored_for(key).contains_key(b2)
            == c.stored_for(key).contains_key(b2) && c2.stored_for(key)[b2] == c.stored_for(key)[b2],
        forall|k2: Seq<char>| k2 != key ==> #[trigger] c2.stored_for(k2) == c.stored_for(k2),
{
}

} // verus!
