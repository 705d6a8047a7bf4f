//! Which profile a hotkey belongs to, and how a key combination is routed:
//! through the low-level keyboard hook or through global hotkey registration.

use vstd::prelude::*;
use std::collections::HashMap;
use crate::hotkey_ll::{function_key_code, media_key_code, parse_function_vk, parse_vk};
use crate::text::trim;

verus! {

broadcast use vstd::std_specs::hash::group_hash_axioms;

/// A hotkey of a profile was pressed or released. Profile ids are UUIDs held
/// as their 128-bit value.
#[derive(Clone, Copy, Debug, PartialEq, Eq, Structural)]
pub enum HotkeyEvent {
    Pressed(u128),
    Released(u128),
}

/// Profile id under which the prompt-manager quick-pick hotkey is registered;
/// a fixed UUID that random ids never take.
pub const PROMPT_MANAGER_ID: u128 = 0xD1C7A772_0000_4000_8000_000000000001u128;

/// Where a key combination is registered.
#[derive(Clone, Copy, Debug, PartialEq, Eq, Structural)]
pub enum ComboRoute {
    /// A multimedia, launch or bare function key, caught by the low-level
    /// hook under this virtual-key code.
    LowLevel(u32),
    /// Any other combination, registered as a global hotkey.
    Global,
}

/// The route of a combination. Where a low-level keyboard hook exists
/// (Windows), multimedia and launch keys go to it first, then bare function
/// keys; everything else, and every combination where there is no such hook,
/// is registered as a global hotkey.
pub open spec fn combo_route(combo: Seq<char>, low_level_hook: bool) -> ComboRoute {
    if !low_level_hook {
        ComboRoute::Global
    } else {
        match media_key_code(trim(combo)) {
            Some(vk) => ComboRoute::LowLevel(vk),
            None => match function_key_code(trim(combo)) {
                Some(vk) => ComboRoute::LowLevel(vk),
                None => ComboRoute::Global,
            },
        }
    }
}

/// Decides how a combination is registered; `low_level_hook` says whether
/// the platform has the low-level keyboard hook.
pub fn route_combo(combo: &str, low_level_hook: bool) -> (r: ComboRoute)
    ensures
        r == combo_route(combo@, low_level_hook),
{
    if !low_level_hook {
        return ComboRoute::Global;
    }
    match parse_vk(combo) {
        Some(vk) => ComboRoute::LowLevel(vk),
        None => match parse_function_vk(combo) {
            Some(vk) => ComboRoute::LowLevel(vk),
            None => ComboRoute::Global,
        },
    }
}

/// The maps from hotkey ids to profiles: global-hotkey ids, and virtual-key
/// codes of keys caught by the low-level hook.
pub struct HotkeyTable {
    by_id: HashMap<u32, u128>,
    ll_keys: HashMap<u32, u128>,
}

impl HotkeyTable {
    /// Global-hotkey id to profile.
    pub closed spec fn global_map(&self) -> Map<u32, u128> {
        self.by_id@
    }

    /// Virtual-key code to profile, for the low-level hook.
    pub closed spec fn ll_map(&self) -> Map<u32, u128> {
        self.ll_keys@
    }

    /// A table with no hotkeys.
    pub fn new() -> (r: Self)
        ensures
            r.global_map() == Map::<u32, u128>::empty(),
            r.ll_map() == Map::<u32, u128>::empty(),
    {
        HotkeyTable { by_id: HashMap::new(), ll_keys: HashMap::new() }
    }

    /// Records a key caught by the low-level hook for a profile.
    pub fn add_low_level(&mut self, vk: u32, profile_id: u128)
        ensures
            final(self).ll_map() == old(self).ll_map().insert(vk, profile_id),
            final(self).global_map() == old(self).global_map(),
    {
        self.ll_keys.insert(vk, profile_id);
    }

    /// Records a registered global hotkey for a profile.
    pub fn add_global(&mut self, hotkey_id: u32, profile_id: u128)
        ensures
            final(self).global_map() == old(self).global_map().insert(hotkey_id, profile_id),
            final(self).ll_map() == old(self).ll_map(),
    {
        self.by_id.insert(hotkey_id, profile_id);
    }

    /// Routes a profile's combination: a key for the low-level hook is recorded
    /// here at once; for `Global` the caller registers the combination as a
    /// global hotkey and records its id with `add_global`. `low_level_hook`
    /// says whether the platform has the low-level keyboard hook.
    pub fn route_and_record(&mut self, profile_id: u128, combo: &str, low_level_hook: bool) -> (r:
        ComboRoute)
        ensures
            r == combo_route(combo@, low_level_hook),
            final(self).global_map() == old(self).global_map(),
            final(self).ll_map() == match r {
                ComboRoute::LowLevel(vk) => old(self).ll_map().insert(vk, profile_id),
                ComboRoute::Global => old(self).ll_map(),
            },
    {
        let r = route_combo(combo, low_level_hook);
        match r {
            ComboRoute::LowLevel(vk) => self.add_low_level(vk, profile_id),
            ComboRoute::Global => {},
        }
        r
    }

    /// Forgets every hotkey.
    pub fn clear(&mut self)
        ensures
            final(self).global_map() == Map::<u32, u128>::empty(),
            final(self).ll_map() == Map::<u32, u128>::empty(),
    {
        self.by_id.clear();
        self.ll_keys.clear();
    }

    /// The profile of a global hotkey id.
    pub fn resolve(&self, hk_id: u32) -> (r: Option<u128>)
        ensures
            r == (if self.global_map().contains_key(hk_id) {
                Some(self.global_map()[hk_id])
            } else {
                None
            }),
    {
        match self.by_id.get(&hk_id) {
            Some(p) => Some(*p),
            None => None,
        }
    }

    /// A copy of the global-hotkey map.
    pub fn id_map(&self) -> (r: HashMap<u32, u128>)
        ensures
            r@ == self.global_map(),
    {
        self.by_id.clone()
    }

    /// A copy of the low-level key map.
    pub fn ll_keys(&self) -> (r: HashMap<u32, u128>)
        ensures
            r@ == self.ll_map(),
    {
        self.ll_keys.clone()
    }
}

/// The event a global hotkey reports, if its id belongs to a profile.
pub fn translate_global_event(map: &HashMap<u32, u128>, hotkey_id: u32, pressed: bool) -> (r:
    Option<HotkeyEvent>)
    ensures
        !map@.contains_key(hotkey_id) ==> r is None,
        map@.contains_key(hotkey_id) ==> r == Some(
            if pressed {
                HotkeyEvent::Pressed(map@[hotkey_id])
            } else {
                HotkeyEvent::Released(map@[hotkey_id])
            },
        ),
{
    match map.get(&hotkey_id) {
        Some(p) => {
            if pressed {
                Some(HotkeyEvent::Pressed(*p))
            } else {
                Some(HotkeyEvent::Released(*p))
            }
        },
        None => None,
    }
}

} // verus!
