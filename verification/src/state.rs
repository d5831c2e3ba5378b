//! Application state of the configuration UI: the paired devices, which one
//! is shown, its button bindings, and the configuration they persist to.
//!
//! Persisting the configuration is left to the caller: the operations that
//! change it report whether it must be written out.

use vstd::prelude::*;

use crate::assoc::assoc_view;
use crate::binding::{default_binding, spec_default_binding, Action, ButtonId};
use crate::config::Config;
use crate::device::{DeviceInventory, PairedDevice};
use crate::listing::{decimal, push_decimal};

verus! {

/// Default DPI value applied to a fresh state.
pub const DEFAULT_DPI: u32 = 1600;

/// The action bound to each button: one action per button, always.
pub struct ButtonBindings {
    actions: Vec<Action>,
}

impl View for ButtonBindings {
    type V = Map<ButtonId, Action>;

    closed spec fn view(&self) -> Map<ButtonId, Action> {
        Map::new(|b: ButtonId| true, |b: ButtonId| self.actions@[b.index()])
    }
}

/// Every button has a binding.
pub proof fn lemma_bindings_total(bindings: ButtonBindings, b: ButtonId)
    ensures
        bindings@.contains_key(b),
{
}

impl ButtonBindings {
    #[verifier::type_invariant]
    spec fn one_per_button(self) -> bool {
        self.actions@.len() == 6
    }

    /// The default binding of every button.
    pub fn defaults() -> (r: ButtonBindings)
        ensures
            forall|b: ButtonId| #[trigger] r@[b] == spec_default_binding(b),
    {
        let actions = vec![
            default_binding(ButtonId::LeftClick),
            default_binding(ButtonId::RightClick),
            default_binding(ButtonId::MiddleClick),
            default_binding(ButtonId::Back),
            default_binding(ButtonId::Forward),
            default_binding(ButtonId::DpiToggle),
        ];
        ButtonBindings { actions }
    }

    /// The action bound to `button`.
    pub fn get(&self, button: ButtonId) -> (r: &Action)
        ensures
            *r == self@[button],
    {
        proof {
            use_type_invariant(self);
        }
        &self.actions[button.position()]
    }

    /// Binds `action` to `button`.
    pub fn set(&mut self, button: ButtonId, action: Action)
        ensures
            final(self)@ == old(self)@.insert(button, action),
    {
        proof {
            use_type_invariant(&*self);
        }
        let i = button.position();
        let mut taken = ButtonBindings::defaults();
        std::mem::swap(self, &mut taken);
        proof {
            use_type_invariant(&taken);
        }
        let mut actions = taken.actions;
        actions.set(i, action);
        *self = ButtonBindings { actions };
        proof {
            assert forall|b: ButtonId| #[trigger] final(self)@[b] == old(self)@.insert(button, action)[b] by {
                if b != button {
                    assert(b.index() != button.index());
                }
            }
            assert(final(self)@ =~= old(self)@.insert(button, action));
        }
    }
}

/// Where HID++ DPI writes for a device go: its receiver and slot.
#[derive(Debug)]
pub struct DpiTarget {
    pub receiver_uid: String,
    pub slot: u8,
}

/// The artwork and metadata resolved for a device model.
#[derive(Debug)]
pub struct ResolvedAsset {
    pub display_name: String,
    pub image_path: String,
}

impl Clone for ResolvedAsset {
    fn clone(&self) -> (r: Self)
        ensures
            r == *self,
    {
        ResolvedAsset { display_name: self.display_name.clone(), image_path: self.image_path.clone() }
    }
}

/// One paired device with everything the UI needs to switch to it: the
/// config key, a display name, the resolved asset, and the DPI routing.
#[derive(Debug)]
pub struct DeviceRecord {
    pub config_key: String,
    pub display_name: String,
    pub asset: Option<ResolvedAsset>,
    pub dpi_target: Option<DpiTarget>,
}

/// The asset resolved for the model with config key `key`: the first entry
/// of `assets` with that key.
pub open spec fn asset_for(assets: Seq<(String, ResolvedAsset)>, key: Seq<char>) -> Option<ResolvedAsset> {
    let m = assoc_view(assets.map_values(|p: (String, ResolvedAsset)| (p.0@, p.1)));
    if m.contains_key(key) {
        Some(m[key])
    } else {
        None
    }
}

/// The paired devices of one receiver that report a model, each with the
/// receiver's unique id, in order.
pub open spec fn paired_candidates(paired: Seq<PairedDevice>, uid: Option<String>) -> Seq<(PairedDevice, Option<String>)>
    decreases paired.len(),
{
    if paired.len() == 0 {
        Seq::empty()
    } else {
        let prefix = paired_candidates(paired.drop_last(), uid);
        if paired.last().model_info is Some {
            prefix.push((paired.last(), uid))
        } else {
            prefix
        }
    }
}

/// The paired devices of all receivers that report a model, in order.
pub open spec fn candidates(invs: Seq<DeviceInventory>) -> Seq<(PairedDevice, Option<String>)>
    decreases invs.len(),
{
    if invs.len() == 0 {
        Seq::empty()
    } else {
        candidates(invs.drop_last()) + paired_candidates(
            invs.last().paired@,
            invs.last().receiver.unique_id,
        )
    }
}

/// `rec` is the record of paired device `p` (which reports a model) of the
/// receiver with unique id `uid`: keyed by the model, showing the asset's
/// name, else the codename, else `Slot <n>`.
pub open spec fn record_of(
    rec: DeviceRecord,
    p: PairedDevice,
    uid: Option<String>,
    assets: Seq<(String, ResolvedAsset)>,
) -> bool {
    let key = p.model_info->0.model_id@;
    &&& rec.config_key@ == key
    &&& rec.asset == asset_for(assets, key)
    &&& rec.display_name@ == match rec.asset {
        Some(a) => a.display_name@,
        None => match p.codename {
            Some(c) => c@,
            None => "Slot "@ + decimal(p.slot as nat),
        },
    }
    &&& rec.dpi_target == match uid {
        Some(u) => Some(DpiTarget { receiver_uid: u, slot: p.slot }),
        None => None,
    }
}

/// `list` holds one record per paired device that reports a model, in
/// receiver order and then slot order.
pub open spec fn is_device_list(
    list: Seq<DeviceRecord>,
    invs: Seq<DeviceInventory>,
    assets: Seq<(String, ResolvedAsset)>,
) -> bool {
    &&& list.len() == candidates(invs).len()
    &&& forall|k: int|
        0 <= k < list.len() ==> record_of(
            #[trigger] list[k],
            candidates(invs)[k].0,
            candidates(invs)[k].1,
            assets,
        )
}

/// `i` is the first position of `list` whose config key is `k`.
pub open spec fn is_first_record(list: Seq<DeviceRecord>, k: Seq<char>, i: int) -> bool {
    &&& 0 <= i < list.len()
    &&& list[i].config_key@ == k
    &&& forall|j: int| 0 <= j < i ==> (#[trigger] list[j]).config_key@ != k
}

/// Position of the first record of `list` whose config key is `k`; -1 when
/// there is none.
pub open spec fn first_index(list: Seq<DeviceRecord>, k: Seq<char>) -> int
    decreases list.len(),
{
    if list.len() == 0 {
        -1
    } else {
        let p = first_index(list.drop_last(), k);
        if p >= 0 {
            p
        } else if list.last().config_key@ == k {
            list.len() - 1
        } else {
            -1
        }
    }
}

/// The initial selection: the first record whose config key is `saved`, or
/// 0 when there is none.
pub open spec fn spec_pick(list: Seq<DeviceRecord>, saved: Option<Seq<char>>) -> int {
    match saved {
        Some(k) => if first_index(list, k) >= 0 {
            first_index(list, k)
        } else {
            0
        },
        None => 0,
    }
}

/// `first_index` finds the first record carrying `k`, or reports that none
/// does.
pub proof fn lemma_first_index(list: Seq<DeviceRecord>, k: Seq<char>)
    ensures
        first_index(list, k) >= 0 ==> is_first_record(list, k, first_index(list, k)),
        first_index(list, k) < 0 ==> first_index(list, k) == -1 && forall|j: int|
            0 <= j < list.len() ==> (#[trigger] list[j]).config_key@ != k,
    decreases list.len(),
{
    if list.len() > 0 {
        let t = list.drop_last();
        lemma_first_index(t, k);
        assert forall|j: int| 0 <= j < t.len() implies t[j] == list[j] by {}
    }
}

/// There is at most one first record carrying `k`.
pub proof fn lemma_first_record_unique(list: Seq<DeviceRecord>, k: Seq<char>, i: int, j: int)
    requires
        is_first_record(list, k, i),
        is_first_record(list, k, j),
    ensures
        i == j,
{
    if i < j {
        assert(list[i].config_key@ == k);
    } else if j < i {
        assert(list[j].config_key@ == k);
    }
}

/// The config key of record `cur` of `list`, if there is such a record.
pub open spec fn key_at(list: Seq<DeviceRecord>, cur: int) -> Option<Seq<char>> {
    if 0 <= cur < list.len() {
        Some(list[cur].config_key@)
    } else {
        None
    }
}

/// The bindings shown for the device with config key `key`: what the
/// configuration stores for it, and the default for every other button.
pub open spec fn spec_bindings(config: Config, key: Option<Seq<char>>) -> Map<ButtonId, Action> {
    Map::new(
        |b: ButtonId| true,
        |b: ButtonId|
            match key {
                Some(k) => if config.stored_for(k).contains_key(b) {
                    config.stored_for(k)[b]
                } else {
                    spec_default_binding(b)
                },
                None => spec_default_binding(b),
            },
    )
}

/// App-wide UI state.
pub struct AppState {
    /// Index into `device_list` of the visible device; may be out of bounds.
    pub current_device: usize,
    /// The button the user most recently armed by clicking.
    pub active_button: Option<ButtonId>,
    /// Bindings of the currently selected device.
    pub button_bindings: ButtonBindings,
    pub dpi: u32,
    /// All paired devices, in carousel order.
    pub device_list: Vec<DeviceRecord>,
    /// Live configuration, kept in sync with the bindings and the selection;
    /// the operations that change it report that it must be persisted.
    pub config: Config,
}

/// The first record of `list` whose config key is `saved`, or 0.
pub fn pick_initial_device(list: &Vec<DeviceRecord>, saved: Option<&str>) -> (r: usize)
    ensures
        r == spec_pick(list@, match saved { Some(s) => Some(s@), None => None }),
{
    match saved {
        None => 0,
        Some(key) => {
            let wanted = key.to_owned();
            let mut i: usize = 0;
            while i < list.len()
                invariant
                    i <= list@.len(),
                    wanted@ == key@,
                    saved == Some(key),
                    forall|j: int| 0 <= j < i ==> (#[trigger] list@[j]).config_key@ != key@,
                decreases list@.len() - i,
            {
                if list[i].config_key == wanted {
                    proof {
                        assert(is_first_record(list@, key@, i as int));
                        lemma_first_index(list@, key@);
                        lemma_first_record_unique(list@, key@, i as int, first_index(list@, key@));

                    }
                    return i;
                }
                i = i + 1;
            }
            proof {
                lemma_first_index(list@, key@);
            }
            0
        },
    }
}

/// The first asset entry for `key`, cloned.
fn find_asset(assets: &Vec<(String, ResolvedAsset)>, key: &String) -> (r: Option<ResolvedAsset>)
    ensures
        r == asset_for(assets@, key@),
{
    let ghost pairs = assets@.map_values(|p: (String, ResolvedAsset)| (p.0@, p.1));
    let mut i: usize = 0;
    while i < assets.len()
        invariant
            i <= assets@.len(),
            pairs == assets@.map_values(|p: (String, ResolvedAsset)| (p.0@, p.1)),
            forall|j: int| 0 <= j < i ==> (#[trigger] pairs[j]).0 != key@,
        decreases assets@.len() - i,
    {
        if assets[i].0 == *key {
            proof {
                crate::assoc::lemma_assoc_first(pairs, key@, i as int);
            }
            return Some(assets[i].1.clone());
        }
        i = i + 1;
    }
    proof {
        crate::assoc::lemma_assoc_domain(pairs, key@);
    }
    None
}

/// The record of paired device `p`, which reports a model.
fn make_record(
    p: &PairedDevice,
    uid: &Option<String>,
    assets: &Vec<(String, ResolvedAsset)>,
) -> (r: DeviceRecord)
    requires
        p.model_info is Some,
    ensures
        record_of(r, *p, *uid, assets@),
{
    let model = match &p.model_info {
        Some(m) => m,
        None => {
            assert(false);
            return DeviceRecord {
                config_key: String::new(),
                display_name: String::new(),
                asset: None,
                dpi_target: None,
            };
        },
    };
    let config_key = model.config_key();
    let asset = find_asset(assets, &config_key);
    let display_name = match &asset {
        Some(a) => a.display_name.clone(),
        None => match &p.codename {
            Some(c) => c.clone(),
            None => {
                let mut s = String::new();
                s.append("Slot ");
                push_decimal(&mut s, p.slot);
                s
            },
        },
    };
    let dpi_target = match uid {
        Some(u) => Some(DpiTarget { receiver_uid: u.clone(), slot: p.slot }),
        None => None,
    };
    proof {
        reveal_strlit("Slot ");
    }
    DeviceRecord { config_key, display_name, asset, dpi_target }
}

/// One record per paired device that reports a model, across all receivers.
pub fn build_device_list(
    inventories: &Vec<DeviceInventory>,
    assets: &Vec<(String, ResolvedAsset)>,
) -> (r: Vec<DeviceRecord>)
    ensures
        is_device_list(r@, inventories@, assets@),
{
    let mut list: Vec<DeviceRecord> = Vec::new();
    let n = inventories.len();
    for i in 0..n
        invariant
            n == inventories@.len(),
            is_device_list(list@, inventories@.take(i as int), assets@),
    {
        let inv = &inventories[i];
        let uid = &inv.receiver.unique_id;
        let ghost base = candidates(inventories@.take(i as int));
        let ghost base_len = list@.len();
        let m = inv.paired.len();
        for j in 0..m
            invariant
                m == inv.paired@.len(),
                base_len == base.len(),
                list@.len() == base.len() + paired_candidates(inv.paired@.take(j as int), *uid).len(),
                forall|k: int|
                    0 <= k < list@.len() ==> record_of(
                        #[trigger] list@[k],
                        (base + paired_candidates(inv.paired@.take(j as int), *uid))[k].0,
                        (base + paired_candidates(inv.paired@.take(j as int), *uid))[k].1,
                        assets@,
                    ),
        {
            let ghost before = inv.paired@.take(j as int);
            let ghost after = inv.paired@.take(j + 1);
            proof {
                assert(after.drop_last() == before);
            }
            let p = &inv.paired[j];
            if p.model_info.is_some() {
                let rec = make_record(p, uid, assets);
                list.push(rec);
                proof {
                    let c_after = base + paired_candidates(after, *uid);
                    let c_before = base + paired_candidates(before, *uid);
                    assert(c_after == c_before.push((*p, *uid)));
                    assert forall|k: int| 0 <= k < list@.len() implies record_of(
                        #[trigger] list@[k],
                        c_after[k].0,
                        c_after[k].1,
                        assets@,
                    ) by {
                        if k < list@.len() - 1 {
                            assert(c_after[k] == c_before[k]);
                        }
                    }
                }
            } else {
                proof {
                    assert(paired_candidates(after, *uid) == paired_candidates(before, *uid));
                }
            }
        }
        proof {
            let t = inventories@.take(i + 1);
            assert(t.drop_last() == inventories@.take(i as int));
            assert(inv.paired@.take(m as int) == inv.paired@);
            assert(candidates(t) == base + paired_candidates(inv.paired@, *uid));
        }
    }
    proof {
        assert(inventories@.take(n as int) == inventories@);
    }
    list
}

/// The string views of an optional key.
pub open spec fn key_view(k: Option<String>) -> Option<Seq<char>> {
    match k {
        Some(s) => Some(s@),
        None => None,
    }
}

/// The binding of `b` when `stored` is laid over the defaults.
pub open spec fn overlay(stored: Map<ButtonId, Action>, b: ButtonId) -> Action {
    if stored.contains_key(b) {
        stored[b]
    } else {
        spec_default_binding(b)
    }
}

impl AppState {
    /// The config key of the current device, if `current_device` is in range.
    pub open spec fn current_key(self) -> Option<Seq<char>> {
        key_at(self.device_list@, self.current_device as int)
    }

    /// Builds the state from a loaded configuration, the enumerated
    /// inventories and the assets resolved per config key. The initial
    /// selection is the device the configuration last selected when it is
    /// still paired, else the first one.
    pub fn with_runtime(
        config: Config,
        inventories: &Vec<DeviceInventory>,
        assets: &Vec<(String, ResolvedAsset)>,
    ) -> (r: Self)
        ensures
            is_device_list(r.device_list@, inventories@, assets@),
            r.current_device == spec_pick(r.device_list@, key_view(config.selected_device)),
            r.active_button is None,
            r.dpi == DEFAULT_DPI,
            r.config == config,
            r.button_bindings@ == spec_bindings(config, r.current_key()),
    {
        let device_list = build_device_list(inventories, assets);
        let current_device = pick_initial_device(&device_list, config.selected_device());
        let mut state = AppState {
            current_device,
            active_button: None,
            button_bindings: ButtonBindings::defaults(),
            dpi: DEFAULT_DPI,
            device_list,
            config,
        };
        state.button_bindings = state.bindings_for_current();
        state
    }

    /// The active device, or `None` when `current_device` is past the end of
    /// the device list.
    pub fn current_record(&self) -> (r: Option<&DeviceRecord>)
        ensures
            match r {
                Some(rec) => self.current_device < self.device_list@.len() && *rec
                    == self.device_list@[self.current_device as int],
                None => self.current_device >= self.device_list@.len(),
            },
    {
        if self.current_device < self.device_list.len() {
            Some(&self.device_list[self.current_device])
        } else {
            None
        }
    }

    /// Switches the carousel to `idx`, reloads the bindings for that device
    /// and records its config key as the selected device. Out-of-range
    /// indices and the current index change nothing. Returns whether the
    /// configuration changed and must be persisted.
    pub fn set_current_device(&mut self, idx: usize) -> (persist: bool)
        ensures
            persist == (idx < old(self).device_list@.len() && idx != old(self).current_device),
            !persist ==> *final(self) == *old(self),
            persist ==> {
                &&& final(self).current_device == idx
                &&& final(self).device_list@ == old(self).device_list@
                &&& final(self).active_button == old(self).active_button
                &&& final(self).dpi == old(self).dpi
                &&& final(self).config.selected_device == Some(
                    old(self).device_list@[idx as int].config_key,
                )
                &&& final(self).config.version == old(self).config.version
                &&& final(self).config.settings == old(self).config.settings
                &&& final(self).config.devices@ == old(self).config.devices@
                &&& final(self).button_bindings@ == spec_bindings(
                    final(self).config,
                    final(self).current_key(),
                )
            },
    {
        if idx >= self.device_list.len() || idx == self.current_device {
            return false;
        }
        self.current_device = idx;
        self.button_bindings = self.bindings_for_current();
        let key = match self.current_record() {
            Some(rec) => Some(rec.config_key.clone()),
            None => None,
        };
        self.config.set_selected_device(key);
        true
    }

    /// Binds `action` to `button` for the current device, in memory and in
    /// the configuration; with no current device the binding is kept in
    /// memory only. Returns whether the configuration changed and must be
    /// persisted. Bindings that agreed with the configuration still agree
    /// afterwards when there is a current device.
    pub fn commit_binding(&mut self, button: ButtonId, action: Action) -> (persist: bool)
        ensures
            final(self).button_bindings@ == old(self).button_bindings@.insert(button, action),
            persist == (old(self).current_device < old(self).device_list@.len()),
            persist ==> final(self).config.binding_map() == old(self).config.binding_map().insert(
                old(self).device_list@[old(self).current_device as int].config_key@,
                old(self).config.stored_for(
                    old(self).device_list@[old(self).current_device as int].config_key@,
                ).insert(button, action),
            ),
            !persist ==> final(self).config == old(self).config,
            final(self).config.selected_device == old(self).config.selected_device,
            final(self).config.version == old(self).config.version,
            final(self).current_device == old(self).current_device,
            final(self).device_list@ == old(self).device_list@,
            final(self).active_button == old(self).active_button,
            final(self).dpi == old(self).dpi,
            persist && old(self).button_bindings@ == spec_bindings(
                old(self).config,
                old(self).current_key(),
            ) ==> final(self).button_bindings@ == spec_bindings(
                final(self).config,
                final(self).current_key(),
            ),
    {
        self.button_bindings.set(button, action.clone());
        let key = match self.current_record() {
            Some(rec) => Some(rec.config_key.clone()),
            None => None,
        };
        match key {
            Some(k) => {
                let ghost old_config = self.config;
                self.config.set_binding(k.as_str(), button, action);
                proof {
                    lemma_reload_after_commit(old_config, self.config, k@, button, action);
                    lemma_bindings_total(self.button_bindings, button);
                    if old(self).button_bindings@ == spec_bindings(old_config, Some(k@)) {
                        assert(self.button_bindings@ =~= spec_bindings(self.config, Some(k@)));
                    }
                }
                true
            },
            None => false,
        }
    }

    /// Defaults for every button, overridden by what the configuration
    /// stores for the current device.
    fn bindings_for_current(&self) -> (r: ButtonBindings)
        ensures
            r@ == spec_bindings(self.config, self.current_key()),
    {
        let stored: Vec<(ButtonId, Action)> = match self.current_record() {
            Some(rec) => self.config.bindings_for(rec.config_key.as_str()),
            None => Vec::new(),
        };
        let ghost m = match self.current_key() {
            Some(k) => self.config.stored_for(k),
            None => Map::<ButtonId, Action>::empty(),
        };
        proof {
            if self.current_key() is None {
                assert(assoc_view(stored@) =~= Map::<ButtonId, Action>::empty()) by {
                    assert(stored@.len() == 0);
                }
            }
        }
        let mut b = ButtonBindings::defaults();
        let mut k = stored.len();
        proof {
            assert(stored@.skip(k as int).len() == 0);
            assert(assoc_view(stored@.skip(k as int)) == Map::<ButtonId, Action>::empty());
        }
        while k > 0
            invariant
                k <= stored@.len(),
                assoc_view(stored@) == m,
                forall|x: ButtonId| #[trigger] b@[x] == overlay(assoc_view(stored@.skip(k as int)), x),
            decreases k,
        {
            k = k - 1;
            let ghost before = assoc_view(stored@.skip(k + 1));
            b.set(stored[k].0, stored[k].1.clone());
            proof {
                assert(stored@.skip(k as int).drop_first() =~= stored@.skip(k + 1));
                assert(stored@.skip(k as int)[0] == stored@[k as int]);
                assert(assoc_view(stored@.skip(k as int)) == before.insert(
                    stored@[k as int].0,
                    stored@[k as int].1,
                ));
            }
        }
        proof {
            assert(stored@.skip(0) =~= stored@);
            lemma_bindings_total(b, ButtonId::LeftClick);
            assert forall|x: ButtonId| #[trigger] b@[x] == spec_bindings(self.config, self.current_key())[x] by {}
            assert(b@ =~= spec_bindings(self.config, self.current_key()));
        }
        b
    }
}

/// Reading back a committed binding: once the configuration stores `a` for
/// button `b` of the device with key `k`, the bindings loaded for that device
/// show `a` for `b`, keep every other button, and every other device's
/// bindings are unchanged.
pub proof fn lemma_reload_after_commit(c: Config, c2: Config, k: Seq<char>, b: ButtonId, a: Action)
    requires
        c2.binding_map() == c.binding_map().insert(k, c.stored_for(k).insert(b, a)),
    ensures
        spec_bindings(c2, Some(k))[b] == a,
        spec_bindings(c2, Some(k)) == spec_bindings(c, Some(k)).insert(b, a),
        forall|k2: Seq<char>| k2 != k ==> spec_bindings(c2, Some(k2)) == spec_bindings(c, Some(k2)),
{
    assert(c2.stored_for(k) == c.stored_for(k).insert(b, a));
    assert(spec_bindings(c2, Some(k)) =~= spec_bindings(c, Some(k)).insert(b, a));
    assert forall|k2: Seq<char>| k2 != k implies spec_bindings(c2, Some(k2)) == spec_bindings(
        c,
        Some(k2),
    ) by {
        assert(c2.stored_for(k2) == c.stored_for(k2));
        assert(spec_bindings(c2, Some(k2)) =~= spec_bindings(c, Some(k2)));
    }
}

/// Restarting restores the selection: when no two records share a config
/// key, the record whose key the configuration saved is picked again.
pub proof fn lemma_selection_restored(list: Seq<DeviceRecord>, idx: int)
    requires
        0 <= idx < list.len(),
        forall|i: int, j: int|
            0 <= i < list.len() && 0 <= j < list.len() && i != j ==> (#[trigger] list[i]).config_key@
                != (#[trigger] list[j]).config_key@,
    ensures
        spec_pick(list, Some(list[idx].config_key@)) == idx,
{
    let k = list[idx].config_key@;
    lemma_first_index(list, k);
    assert(list[idx].config_key@ == k);
    let f = first_index(list, k);
    assert(f >= 0);
    if f != idx {
        assert(list[f].config_key@ != list[idx].config_key@);
    }
}

} // verus!
