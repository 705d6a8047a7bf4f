//! Decisions of the low-level keyboard hook that catches multimedia, launch
//! and bare function keys: which names map to which virtual-key codes, and
//! what a key event on a mapped key reports. The hook itself, its thread and
//! its message loop stay with the platform code.

use vstd::prelude::*;
use std::collections::HashMap;
use crate::hotkey::HotkeyEvent;
use crate::text::{chars_eq, chars_of, trim, trim_chars};

verus! {

broadcast use vstd::std_specs::hash::group_hash_axioms;

/// Longest gap, in milliseconds, between two key-downs that still counts as
/// auto-repeat of one hold. A longer gap is a fresh press, so a lost key-up
/// cannot leave a key stuck in the held state.
pub const REPEAT_GAP_MS: u64 = 600;

/// Windows virtual-key code of a multimedia or launch key name.
pub open spec fn media_key_code(name: Seq<char>) -> Option<u32> {
    if name == "LaunchMail"@ {
        Some(0xB4)
    } else if name == "LaunchApp1"@ {
        Some(0xB6)
    } else if name == "LaunchApp2"@ {
        Some(0xB7)
    } else if name == "LaunchMediaSelect"@ {
        Some(0xB5)
    } else if name == "MediaPlayPause"@ {
        Some(0xB3)
    } else if name == "MediaStop"@ {
        Some(0xB2)
    } else if name == "MediaNextTrack"@ {
        Some(0xB0)
    } else if name == "MediaPrevTrack"@ {
        Some(0xB1)
    } else if name == "VolumeMute"@ {
        Some(0xAD)
    } else if name == "VolumeDown"@ {
        Some(0xAE)
    } else if name == "VolumeUp"@ {
        Some(0xAF)
    } else if name == "BrowserBack"@ {
        Some(0xA6)
    } else if name == "BrowserForward"@ {
        Some(0xA7)
    } else if name == "BrowserRefresh"@ {
        Some(0xA8)
    } else if name == "BrowserStop"@ {
        Some(0xA9)
    } else if name == "BrowserSearch"@ {
        Some(0xAA)
    } else if name == "BrowserFavorites"@ {
        Some(0xAB)
    } else if name == "BrowserHome"@ {
        Some(0xAC)
    } else if name == "Sleep"@ {
        Some(0x5F)
    } else {
        None
    }
}

/// Value of a decimal digit character.
pub open spec fn digit(c: char) -> int {
    c as int - '0' as int
}

/// Number `n` of a bare function-key name `F1` .. `F24` (no sign, no leading
/// zero, nothing else around it).
pub open spec fn function_key_number(name: Seq<char>) -> Option<int> {
    if name.len() == 2 && name[0] == 'F' && '1' <= name[1] <= '9' {
        Some(digit(name[1]))
    } else if name.len() == 3 && name[0] == 'F' && name[1] == '1' && '0' <= name[2] <= '9' {
        Some(10 + digit(name[2]))
    } else if name.len() == 3 && name[0] == 'F' && name[1] == '2' && '0' <= name[2] <= '4' {
        Some(20 + digit(name[2]))
    } else {
        None
    }
}

/// Windows virtual-key code of a bare function key: `F1` is 0x70, `F24` is 0x87.
pub open spec fn function_key_code(name: Seq<char>) -> Option<u32> {
    match function_key_number(name) {
        Some(n) => Some((0x6F + n) as u32),
        None => None,
    }
}

/// Whether `v` holds exactly the characters of `lit`.
fn is_literal(v: &Vec<char>, lit: &str) -> (r: bool)
    ensures
        r == (v@ == lit@),
{
    let l = chars_of(lit);
    chars_eq(v, &l)
}

/// Virtual-key code of a multimedia or launch key name (surrounding
/// whitespace ignored); `None` for anything else, such as ordinary key
/// combinations.
pub fn parse_vk(name: &str) -> (r: Option<u32>)
    ensures
        r == media_key_code(trim(name@)),
{
    let v = chars_of(name);
    let t = trim_chars(&v);
    if is_literal(&t, "LaunchMail") {
        Some(0xB4)
    } else if is_literal(&t, "LaunchApp1") {
        Some(0xB6)
    } else if is_literal(&t, "LaunchApp2") {
        Some(0xB7)
    } else if is_literal(&t, "LaunchMediaSelect") {
        Some(0xB5)
    } else if is_literal(&t, "MediaPlayPause") {
        Some(0xB3)
    } else if is_literal(&t, "MediaStop") {
        Some(0xB2)
    } else if is_literal(&t, "MediaNextTrack") {
        Some(0xB0)
    } else if is_literal(&t, "MediaPrevTrack") {
        Some(0xB1)
    } else if is_literal(&t, "VolumeMute") {
        Some(0xAD)
    } else if is_literal(&t, "VolumeDown") {
        Some(0xAE)
    } else if is_literal(&t, "VolumeUp") {
        Some(0xAF)
    } else if is_literal(&t, "BrowserBack") {
        Some(0xA6)
    } else if is_literal(&t, "BrowserForward") {
        Some(0xA7)
    } else if is_literal(&t, "BrowserRefresh") {
        Some(0xA8)
    } else if is_literal(&t, "BrowserStop") {
        Some(0xA9)
    } else if is_literal(&t, "BrowserSearch") {
        Some(0xAA)
    } else if is_literal(&t, "BrowserFavorites") {
        Some(0xAB)
    } else if is_literal(&t, "BrowserHome") {
        Some(0xAC)
    } else if is_literal(&t, "Sleep") {
        Some(0x5F)
    } else {
        None
    }
}

/// Virtual-key code of a bare function key `F1` .. `F24` (surrounding
/// whitespace ignored); `None` for anything else, including modifier
/// combinations such as `Ctrl+F8`.
pub fn parse_function_vk(name: &str) -> (r: Option<u32>)
    ensures
        r == function_key_code(trim(name@)),
{
    let v = chars_of(name);
    let t = trim_chars(&v);
    let n = t.len();
    if n == 2 && t[0] == 'F' && '1' <= t[1] && t[1] <= '9' {
        let d = (t[1] as u32) - ('0' as u32);
        Some(0x6F + d)
    } else if n == 3 && t[0] == 'F' && t[1] == '1' && '0' <= t[2] && t[2] <= '9' {
        let d = (t[2] as u32) - ('0' as u32);
        Some(0x6F + 10 + d)
    } else if n == 3 && t[0] == 'F' && t[1] == '2' && '0' <= t[2] && t[2] <= '4' {
        let d = (t[2] as u32) - ('0' as u32);
        Some(0x6F + 20 + d)
    } else {
        None
    }
}

/// Kind of keyboard message the hook sees.
#[derive(Clone, Copy, Debug, PartialEq, Eq, Structural)]
pub enum KeyKind {
    Down,
    Up,
    Other,
}

/// What the hook does with a key message.
#[derive(Clone, Copy, Debug, PartialEq, Eq, Structural)]
pub enum HookOutcome {
    /// Hand the message on to the next hook.
    PassThrough,
    /// Suppress the message (so the system's default action does not run),
    /// reporting the event if there is one.
    Swallow(Option<HotkeyEvent>),
}

/// Whether a key-down at `now` is a fresh press: the key is not held, or its
/// previous key-down lies more than the repeat gap back (elapsed time counts
/// as zero when the clock went backwards).
pub open spec fn is_fresh_press(pressed: Map<u128, u64>, pid: u128, now: u64) -> bool {
    !pressed.contains_key(pid) || (now > pressed[pid] && now - pressed[pid] > REPEAT_GAP_MS)
}

/// One key message through the hook: the outcome and the new held-key map.
pub open spec fn hook_step(
    mapping: Map<u32, u128>,
    pressed: Map<u128, u64>,
    vk: u32,
    kind: KeyKind,
    now: u64,
) -> (HookOutcome, Map<u128, u64>) {
    if !mapping.contains_key(vk) {
        (HookOutcome::PassThrough, pressed)
    } else {
        let pid = mapping[vk];
        match kind {
            KeyKind::Down => (
                HookOutcome::Swallow(
                    if is_fresh_press(pressed, pid, now) {
                        Some(HotkeyEvent::Pressed(pid))
                    } else {
                        None
                    },
                ),
                pressed.insert(pid, now),
            ),
            KeyKind::Up => if pressed.contains_key(pid) {
                (HookOutcome::Swallow(Some(HotkeyEvent::Released(pid))), pressed.remove(pid))
            } else {
                (HookOutcome::Swallow(None), pressed)
            },
            KeyKind::Other => (HookOutcome::PassThrough, pressed),
        }
    }
}

/// State of the low-level hook: which keys it catches for which profile, and
/// when each held profile key last went down (milliseconds on a monotonic
/// clock).
pub struct LlState {
    mapping: HashMap<u32, u128>,
    pressed: HashMap<u128, u64>,
}

impl LlState {
    /// Virtual-key code → profile id of the keys the hook catches.
    pub closed spec fn mapping(&self) -> Map<u32, u128> {
        self.mapping@
    }

    /// Held profile keys and the time of their last key-down.
    pub closed spec fn pressed(&self) -> Map<u128, u64> {
        self.pressed@
    }

    /// A hook state that catches the given keys, none of them held.
    pub fn new(mapping: HashMap<u32, u128>) -> (r: Self)
        ensures
            r.mapping() == mapping@,
            r.pressed() == Map::<u128, u64>::empty(),
    {
        LlState { mapping, pressed: HashMap::new() }
    }

    /// Replaces the key mapping; every key counts as released afterwards.
    pub fn update_mapping(&mut self, new_mapping: HashMap<u32, u128>)
        ensures
            final(self).mapping() == new_mapping@,
            final(self).pressed() == Map::<u128, u64>::empty(),
    {
        self.mapping = new_mapping;
        self.pressed.clear();
    }

    /// Handles one key message of virtual-key code `vk` at time `now_ms`.
    /// Keys that are not mapped pass through. A key-down of a mapped key is
    /// swallowed and reported as a press only when it is fresh (not
    /// auto-repeat); a key-up is swallowed and reported as a release only when
    /// the key was held.
    pub fn on_key(&mut self, vk: u32, kind: KeyKind, now_ms: u64) -> (r: HookOutcome)
        ensures
            (r, final(self).pressed()) == hook_step(
                old(self).mapping(),
                old(self).pressed(),
                vk,
                kind,
                now_ms,
            ),
            final(self).mapping() == old(self).mapping(),
    {
        let pid = match self.mapping.get(&vk) {
            Some(p) => *p,
            None => {
                return HookOutcome::PassThrough;
            },
        };
        match kind {
            KeyKind::Down => {
                let fresh = match self.pressed.get(&pid) {
                    Some(last) => now_ms > *last && now_ms - *last > REPEAT_GAP_MS,
                    None => true,
                };
                self.pressed.insert(pid, now_ms);
                if fresh {
                    HookOutcome::Swallow(Some(HotkeyEvent::Pressed(pid)))
                } else {
                    HookOutcome::Swallow(None)
                }
            },
            KeyKind::Up => {
                match self.pressed.remove(&pid) {
                    Some(_) => HookOutcome::Swallow(Some(HotkeyEvent::Released(pid))),
                    None => HookOutcome::Swallow(None),
                }
            },
            KeyKind::Other => HookOutcome::PassThrough,
        }
    }
}

/// A key-down of a mapped key followed by its key-up reports the release:
/// every press that was recorded can be released.
pub proof fn lemma_down_then_up_releases(
    mapping: Map<u32, u128>,
    pressed: Map<u128, u64>,
    vk: u32,
    t1: u64,
    t2: u64,
)
    requires
        mapping.contains_key(vk),
    ensures
        ({
            let (_, p1) = hook_step(mapping, pressed, vk, KeyKind::Down, t1);
            let (out, p2) = hook_step(mapping, p1, vk, KeyKind::Up, t2);
            &&& out == HookOutcome::Swallow(Some(HotkeyEvent::Released(mapping[vk])))
            &&& !p2.contains_key(mapping[vk])
        }),
{
}

/// A key-up of a key that is not held reports nothing, so no profile is ever
/// released twice for one press.
pub proof fn lemma_no_release_without_press(
    mapping: Map<u32, u128>,
    pressed: Map<u128, u64>,
    vk: u32,
    now: u64,
)
    requires
        mapping.contains_key(vk),
        !pressed.contains_key(mapping[vk]),
    ensures
        hook_step(mapping, pressed, vk, KeyKind::Up, now) == (HookOutcome::Swallow(None), pressed),
{
}

/// Key-downs within the repeat gap of the previous one (auto-repeat of a held
/// key) report no new press.
pub proof fn lemma_auto_repeat_is_silent(
    mapping: Map<u32, u128>,
    pressed: Map<u128, u64>,
    vk: u32,
    t1: u64,
    t2: u64,
)
    requires
        mapping.contains_key(vk),
        t1 <= t2 <= t1 + REPEAT_GAP_MS,
    ensures
        ({
            let (_, p1) = hook_step(mapping, pressed, vk, KeyKind::Down, t1);
            hook_step(mapping, p1, vk, KeyKind::Down, t2).0 == HookOutcome::Swallow(None)
        }),
{
}

/// A key-down that comes more than the repeat gap after the last one is a
/// fresh press even if its key-up was lost, so a key never stays stuck.
pub proof fn lemma_lost_key_up_heals(
    mapping: Map<u32, u128>,
    pressed: Map<u128, u64>,
    vk: u32,
    t1: u64,
    t2: u64,
)
    requires
        mapping.contains_key(vk),
        t2 > t1 + REPEAT_GAP_MS,
    ensures
        ({
            let (_, p1) = hook_step(mapping, pressed, vk, KeyKind::Down, t1);
            hook_step(mapping, p1, vk, KeyKind::Down, t2).0 == HookOutcome::Swallow(
                Some(HotkeyEvent::Pressed(mapping[vk])),
            )
        }),
{
}

/// Keys outside the mapping are never touched.
pub proof fn lemma_unmapped_keys_pass(
    mapping: Map<u32, u128>,
    pressed: Map<u128, u64>,
    vk: u32,
    kind: KeyKind,
    now: u64,
)
    requires
        !mapping.contains_key(vk),
    ensures
        hook_step(mapping, pressed, vk, kind, now) == (HookOutcome::PassThrough, pressed),
{
}


/// The outcomes of a sequence of key messages `(vk, kind, time)` fed through
/// the hook one after the other, and the held-key map afterwards.
pub open spec fn hook_run(
    mapping: Map<u32, u128>,
    pressed: Map<u128, u64>,
    keys: Seq<(u32, KeyKind, u64)>,
) -> (Seq<HookOutcome>, Map<u128, u64>)
    decreases keys.len(),
{
    if keys.len() == 0 {
        (Seq::empty(), pressed)
    } else {
        let (outs, p) = hook_run(mapping, pressed, keys.drop_last());
        let k = keys.last();
        let (o, p2) = hook_step(mapping, p, k.0, k.1, k.2);
        (outs.push(o), p2)
    }
}

/// The events the hook reports among its outcomes, in order.
pub open spec fn reported(outs: Seq<HookOutcome>) -> Seq<HotkeyEvent>
    decreases outs.len(),
{
    if outs.len() == 0 {
        Seq::empty()
    } else {
        let r = reported(outs.drop_last());
        match outs.last() {
            HookOutcome::Swallow(Some(e)) => r.push(e),
            _ => r,
        }
    }
}

/// Whether, after the events `evs`, profile `pid` stands pressed: its last
/// reported event is a press.
pub open spec fn stands_pressed(evs: Seq<HotkeyEvent>, pid: u128) -> bool
    decreases evs.len(),
{
    if evs.len() == 0 {
        false
    } else if evs.last() == HotkeyEvent::Pressed(pid) {
        true
    } else if evs.last() == HotkeyEvent::Released(pid) {
        false
    } else {
        stands_pressed(evs.drop_last(), pid)
    }
}

/// An event about another profile does not change whether `pid` stands
/// pressed.
proof fn lemma_stands_pressed_other(evs: Seq<HotkeyEvent>, e: HotkeyEvent, pid: u128)
    requires
        e != HotkeyEvent::Pressed(pid),
        e != HotkeyEvent::Released(pid),
    ensures
        stands_pressed(evs.push(e), pid) == stands_pressed(evs, pid),
{
    assert(evs.push(e).drop_last() =~= evs);
}

/// Over any sequence of key messages from a hook with no key held (as after
/// `LlState::new` or `update_mapping`): every held profile stands pressed in
/// the reports, and the key maps do not change what was reported before.
proof fn lemma_hook_run_held(mapping: Map<u32, u128>, keys: Seq<(u32, KeyKind, u64)>)
    ensures
        ({
            let (outs, p) = hook_run(mapping, Map::empty(), keys);
            &&& forall|pid: u128| #[trigger] p.contains_key(pid) ==> stands_pressed(reported(outs), pid)
            &&& forall|i: int|
                0 <= i < reported(outs).len() && (#[trigger] reported(outs)[i]) is Released
                    ==> stands_pressed(reported(outs).take(i), reported(outs)[i]->Released_0)
        }),
    decreases keys.len(),
{
    if keys.len() > 0 {
        lemma_hook_run_held(mapping, keys.drop_last());
        let (outs, p) = hook_run(mapping, Map::empty(), keys.drop_last());
        let k = keys.last();
        let (o, p2) = hook_step(mapping, p, k.0, k.1, k.2);
        let outs2 = outs.push(o);
        let r = reported(outs);
        assert(outs2.drop_last() =~= outs);
        let r2 = reported(outs2);
        match o {
            HookOutcome::Swallow(Some(e)) => {
                assert(r2 == r.push(e));
                assert(r2.take(r.len() as int) =~= r);
                assert forall|i: int| 0 <= i < r.len() implies r2.take(i) =~= r.take(i)
                    && r2[i] == r[i] by {}
                assert forall|pid: u128| #[trigger] p2.contains_key(pid) implies stands_pressed(
                    r2,
                    pid,
                ) by {
                    if e != HotkeyEvent::Pressed(pid) && e != HotkeyEvent::Released(pid) {
                        lemma_stands_pressed_other(r, e, pid);
                    }
                }
            },
            _ => {
                assert(r2 == r);
            },
        }
    }
}

/// Every release the hook reports follows a press of the same profile
/// reported since that profile's previous release: starting with no key held
/// (as after `LlState::new` or `update_mapping`), for any sequence of key
/// messages, the profile of each reported release stands pressed in the
/// reports before it.
pub proof fn lemma_release_follows_press(mapping: Map<u32, u128>, keys: Seq<(u32, KeyKind, u64)>)
    ensures
        ({
            let evs = reported(hook_run(mapping, Map::empty(), keys).0);
            forall|i: int|
                0 <= i < evs.len() && (#[trigger] evs[i]) is Released ==> stands_pressed(
                    evs.take(i),
                    evs[i]->Released_0,
                )
        }),
{
    lemma_hook_run_held(mapping, keys);
}


/// Each multimedia and launch key name maps to its own Windows virtual-key
/// constant (`VK_LAUNCH_MAIL` 0xB4, `VK_LAUNCH_APP1` 0xB6, `VK_LAUNCH_APP2`
/// 0xB7, `VK_LAUNCH_MEDIA_SELECT` 0xB5, `VK_MEDIA_PLAY_PAUSE` 0xB3,
/// `VK_MEDIA_STOP` 0xB2, `VK_MEDIA_NEXT_TRACK` 0xB0, `VK_MEDIA_PREV_TRACK`
/// 0xB1, `VK_VOLUME_MUTE` 0xAD, `VK_VOLUME_DOWN` 0xAE, `VK_VOLUME_UP` 0xAF,
/// `VK_BROWSER_BACK` .. `VK_BROWSER_HOME` 0xA6 .. 0xAC, `VK_SLEEP` 0x5F), and
/// bare function keys `F1` .. `F24` map to `VK_F1` (0x70) .. `VK_F24` (0x87).
pub proof fn lemma_key_names_map_to_windows_codes()
    ensures
        media_key_code("LaunchMail"@) == Some(0xB4u32),
        media_key_code("LaunchApp1"@) == Some(0xB6u32),
        media_key_code("LaunchApp2"@) == Some(0xB7u32),
        media_key_code("LaunchMediaSelect"@) == Some(0xB5u32),
        media_key_code("MediaPlayPause"@) == Some(0xB3u32),
        media_key_code("MediaStop"@) == Some(0xB2u32),
        media_key_code("MediaNextTrack"@) == Some(0xB0u32),
        media_key_code("MediaPrevTrack"@) == Some(0xB1u32),
        media_key_code("VolumeMute"@) == Some(0xADu32),
        media_key_code("VolumeDown"@) == Some(0xAEu32),
        media_key_code("VolumeUp"@) == Some(0xAFu32),
        media_key_code("BrowserBack"@) == Some(0xA6u32),
        media_key_code("BrowserForward"@) == Some(0xA7u32),
        media_key_code("BrowserRefresh"@) == Some(0xA8u32),
        media_key_code("BrowserStop"@) == Some(0xA9u32),
        media_key_code("BrowserSearch"@) == Some(0xAAu32),
        media_key_code("BrowserFavorites"@) == Some(0xABu32),
        media_key_code("BrowserHome"@) == Some(0xACu32),
        media_key_code("Sleep"@) == Some(0x5Fu32),
        function_key_code("F1"@) == Some(0x70u32),
        function_key_code("F8"@) == Some(0x77u32),
        function_key_code("F9"@) == Some(0x78u32),
        function_key_code("F10"@) == Some(0x79u32),
        function_key_code("F19"@) == Some(0x82u32),
        function_key_code("F20"@) == Some(0x83u32),
        function_key_code("F24"@) == Some(0x87u32),
        function_key_code("F25"@) is None,
        function_key_code("F0"@) is None,
        forall|d: char| '1' <= d <= '9' ==> #[trigger] function_key_code(Seq::<char>::empty().push('F').push(d)) == Some(
            (0x6F + (d as int - '0' as int)) as u32,
        ),
        forall|d: char| '0' <= d <= '9' ==> #[trigger] function_key_code(Seq::<char>::empty().push('F').push('1').push(d)) == Some(
            (0x79 + (d as int - '0' as int)) as u32,
        ),
        forall|d: char| '0' <= d <= '4' ==> #[trigger] function_key_code(Seq::<char>::empty().push('F').push('2').push(d)) == Some(
            (0x83 + (d as int - '0' as int)) as u32,
        ),
{
    assert(media_key_code("LaunchMail"@) == Some(0xB4u32)) by {
        reveal_strlit("LaunchMail");
    }
    assert(media_key_code("LaunchApp1"@) == Some(0xB6u32)) by {
        reveal_strlit("LaunchApp1");
        reveal_strlit("LaunchMail");
        assert("LaunchApp1"@[6] != "LaunchMail"@[6]);
    }
    assert(media_key_code("LaunchApp2"@) == Some(0xB7u32)) by {
        reveal_strlit("LaunchApp2");
        reveal_strlit("LaunchMail");
        assert("LaunchApp2"@[6] != "LaunchMail"@[6]);
        reveal_strlit("LaunchApp1");
        assert("LaunchApp2"@[9] != "LaunchApp1"@[9]);
    }
    assert(media_key_code("LaunchMediaSelect"@) == Some(0xB5u32)) by {
        reveal_strlit("LaunchMediaSelect");
        reveal_strlit("LaunchMail");
        reveal_strlit("LaunchApp1");
        reveal_strlit("LaunchApp2");
        assert("LaunchMediaSelect"@.len() != "LaunchMail"@.len());
        assert("LaunchMediaSelect"@.len() != "LaunchApp1"@.len());
        assert("LaunchMediaSelect"@.len() != "LaunchApp2"@.len());
    }
    assert(media_key_code("MediaPlayPause"@) == Some(0xB3u32)) by {
        reveal_strlit("MediaPlayPause");
        reveal_strlit("LaunchMail");
        reveal_strlit("LaunchApp1");
        reveal_strlit("LaunchApp2");
        reveal_strlit("LaunchMediaSelect");
        assert("MediaPlayPause"@.len() != "LaunchMail"@.len());
        assert("MediaPlayPause"@.len() != "LaunchApp1"@.len());
        assert("MediaPlayPause"@.len() != "LaunchApp2"@.len());
        assert("MediaPlayPause"@.len() != "LaunchMediaSelect"@.len());
    }
    assert(media_key_code("MediaStop"@) == Some(0xB2u32)) by {
        reveal_strlit("MediaStop");
        reveal_strlit("LaunchMail");
        reveal_strlit("LaunchApp1");
        reveal_strlit("LaunchApp2");
        reveal_strlit("LaunchMediaSelect");
        reveal_strlit("MediaPlayPause");
        assert("MediaStop"@.len() != "LaunchMail"@.len());
        assert("MediaStop"@.len() != "LaunchApp1"@.len());
        assert("MediaStop"@.len() != "LaunchApp2"@.len());
        assert("MediaStop"@.len() != "LaunchMediaSelect"@.len());
        assert("MediaStop"@.len() != "MediaPlayPause"@.len());
    }
    assert(media_key_code("MediaNextTrack"@) == Some(0xB0u32)) by {
        reveal_strlit("MediaNextTrack");
        reveal_strlit("LaunchMail");
        reveal_strlit("LaunchApp1");
        reveal_strlit("LaunchApp2");
        reveal_strlit("LaunchMediaSelect");
        reveal_strlit("MediaPlayPause");
        assert("MediaNextTrack"@[5] != "MediaPlayPause"@[5]);
        reveal_strlit("MediaStop");
        assert("MediaNextTrack"@.len() != "LaunchMail"@.len());
        assert("MediaNextTrack"@.len() != "LaunchApp1"@.len());
        assert("MediaNextTrack"@.len() != "LaunchApp2"@.len());
        assert("MediaNextTrack"@.len() != "LaunchMediaSelect"@.len());
        assert("MediaNextTrack"@.len() != "MediaStop"@.len());
    }
    assert(media_key_code("MediaPrevTrack"@) == Some(0xB1u32)) by {
        reveal_strlit("MediaPrevTrack");
        reveal_strlit("LaunchMail");
        reveal_strlit("LaunchApp1");
        reveal_strlit("LaunchApp2");
        reveal_strlit("LaunchMediaSelect");
        reveal_strlit("MediaPlayPause");
        assert("MediaPrevTrack"@[6] != "MediaPlayPause"@[6]);
        reveal_strlit("MediaStop");
        reveal_strlit("MediaNextTrack");
        assert("MediaPrevTrack"@[5] != "MediaNextTrack"@[5]);
        assert("MediaPrevTrack"@.len() != "LaunchMail"@.len());
        assert("MediaPrevTrack"@.len() != "LaunchApp1"@.len());
        assert("MediaPrevTrack"@.len() != "LaunchApp2"@.len());
        assert("MediaPrevTrack"@.len() != "LaunchMediaSelect"@.len());
        assert("MediaPrevTrack"@.len() != "MediaStop"@.len());
    }
    assert(media_key_code("VolumeMute"@) == Some(0xADu32)) by {
        reveal_strlit("VolumeMute");
        reveal_strlit("LaunchMail");
        assert("VolumeMute"@[0] != "LaunchMail"@[0]);
        reveal_strlit("LaunchApp1");
        assert("VolumeMute"@[0] != "LaunchApp1"@[0]);
        reveal_strlit("LaunchApp2");
        assert("VolumeMute"@[0] != "LaunchApp2"@[0]);
        reveal_strlit("LaunchMediaSelect");
        reveal_strlit("MediaPlayPause");
        reveal_strlit("MediaStop");
        reveal_strlit("MediaNextTrack");
        reveal_strlit("MediaPrevTrack");
        assert("VolumeMute"@.len() != "LaunchMediaSelect"@.len());
        assert("VolumeMute"@.len() != "MediaPlayPause"@.len());
        assert("VolumeMute"@.len() != "MediaStop"@.len());
        assert("VolumeMute"@.len() != "MediaNextTrack"@.len());
        assert("VolumeMute"@.len() != "MediaPrevTrack"@.len());
    }
    assert(media_key_code("VolumeDown"@) == Some(0xAEu32)) by {
        reveal_strlit("VolumeDown");
        reveal_strlit("LaunchMail");
        assert("VolumeDown"@[0] != "LaunchMail"@[0]);
        reveal_strlit("LaunchApp1");
        assert("VolumeDown"@[0] != "LaunchApp1"@[0]);
        reveal_strlit("LaunchApp2");
        assert("VolumeDown"@[0] != "LaunchApp2"@[0]);
        reveal_strlit("LaunchMediaSelect");
        reveal_strlit("MediaPlayPause");
        reveal_strlit("MediaStop");
        reveal_strlit("MediaNextTrack");
        reveal_strlit("MediaPrevTrack");
        reveal_strlit("VolumeMute");
        assert("VolumeDown"@[6] != "VolumeMute"@[6]);
        assert("VolumeDown"@.len() != "LaunchMediaSelect"@.len());
        assert("VolumeDown"@.len() != "MediaPlayPause"@.len());
        assert("VolumeDown"@.len() != "MediaStop"@.len());
        assert("VolumeDown"@.len() != "MediaNextTrack"@.len());
        assert("VolumeDown"@.len() != "MediaPrevTrack"@.len());
    }
    assert(media_key_code("VolumeUp"@) == Some(0xAFu32)) by {
        reveal_strlit("VolumeUp");
        reveal_strlit("LaunchMail");
        reveal_strlit("LaunchApp1");
        reveal_strlit("LaunchApp2");
        reveal_strlit("LaunchMediaSelect");
        reveal_strlit("MediaPlayPause");
        reveal_strlit("MediaStop");
        reveal_strlit("MediaNextTrack");
        reveal_strlit("MediaPrevTrack");
        reveal_strlit("VolumeMute");
        reveal_strlit("VolumeDown");
        assert("VolumeUp"@.len() != "LaunchMail"@.len());
        assert("VolumeUp"@.len() != "LaunchApp1"@.len());
        assert("VolumeUp"@.len() != "LaunchApp2"@.len());
        assert("VolumeUp"@.len() != "LaunchMediaSelect"@.len());
        assert("VolumeUp"@.len() != "MediaPlayPause"@.len());
        assert("VolumeUp"@.len() != "MediaStop"@.len());
        assert("VolumeUp"@.len() != "MediaNextTrack"@.len());
        assert("VolumeUp"@.len() != "MediaPrevTrack"@.len());
        assert("VolumeUp"@.len() != "VolumeMute"@.len());
        assert("VolumeUp"@.len() != "VolumeDown"@.len());
    }
    assert(media_key_code("BrowserBack"@) == Some(0xA6u32)) by {
        reveal_strlit("BrowserBack");
        reveal_strlit("LaunchMail");
        reveal_strlit("LaunchApp1");
        reveal_strlit("LaunchApp2");
        reveal_strlit("LaunchMediaSelect");
        reveal_strlit("MediaPlayPause");
        reveal_strlit("MediaStop");
        reveal_strlit("MediaNextTrack");
        reveal_strlit("MediaPrevTrack");
        reveal_strlit("VolumeMute");
        reveal_strlit("VolumeDown");
        reveal_strlit("VolumeUp");
        assert("BrowserBack"@.len() != "LaunchMail"@.len());
        assert("BrowserBack"@.len() != "LaunchApp1"@.len());
        assert("BrowserBack"@.len() != "LaunchApp2"@.len());
        assert("BrowserBack"@.len() != "LaunchMediaSelect"@.len());
        assert("BrowserBack"@.len() != "MediaPlayPause"@.len());
        assert("BrowserBack"@.len() != "MediaStop"@.len());
        assert("BrowserBack"@.len() != "MediaNextTrack"@.len());
        assert("BrowserBack"@.len() != "MediaPrevTrack"@.len());
        assert("BrowserBack"@.len() != "VolumeMute"@.len());
        assert("BrowserBack"@.len() != "VolumeDown"@.len());
        assert("BrowserBack"@.len() != "VolumeUp"@.len());
    }
    assert(media_key_code("BrowserForward"@) == Some(0xA7u32)) by {
        reveal_strlit("BrowserForward");
        reveal_strlit("LaunchMail");
        reveal_strlit("LaunchApp1");
        reveal_strlit("LaunchApp2");
        reveal_strlit("LaunchMediaSelect");
        reveal_strlit("MediaPlayPause");
        assert("BrowserForward"@[0] != "MediaPlayPause"@[0]);
        reveal_strlit("MediaStop");
        reveal_strlit("MediaNextTrack");
        assert("BrowserForward"@[0] != "MediaNextTrack"@[0]);
        reveal_strlit("MediaPrevTrack");
        assert("BrowserForward"@[0] != "MediaPrevTrack"@[0]);
        reveal_strlit("VolumeMute");
        reveal_strlit("VolumeDown");
        reveal_strlit("VolumeUp");
        reveal_strlit("BrowserBack");
        assert("BrowserForward"@.len() != "LaunchMail"@.len());
        assert("BrowserForward"@.len() != "LaunchApp1"@.len());
        assert("BrowserForward"@.len() != "LaunchApp2"@.len());
        assert("BrowserForward"@.len() != "LaunchMediaSelect"@.len());
        assert("BrowserForward"@.len() != "MediaStop"@.len());
        assert("BrowserForward"@.len() != "VolumeMute"@.len());
        assert("BrowserForward"@.len() != "VolumeDown"@.len());
        assert("BrowserForward"@.len() != "VolumeUp"@.len());
        assert("BrowserForward"@.len() != "BrowserBack"@.len());
    }
    assert(media_key_code("BrowserRefresh"@) == Some(0xA8u32)) by {
        reveal_strlit("BrowserRefresh");
        reveal_strlit("LaunchMail");
        reveal_strlit("LaunchApp1");
        reveal_strlit("LaunchApp2");
        reveal_strlit("LaunchMediaSelect");
        reveal_strlit("MediaPlayPause");
        assert("BrowserRefresh"@[0] != "MediaPlayPause"@[0]);
        reveal_strlit("MediaStop");
        reveal_strlit("MediaNextTrack");
        assert("BrowserRefresh"@[0] != "MediaNextTrack"@[0]);
        reveal_strlit("MediaPrevTrack");
        assert("BrowserRefresh"@[0] != "MediaPrevTrack"@[0]);
        reveal_strlit("VolumeMute");
        reveal_strlit("VolumeDown");
        reveal_strlit("VolumeUp");
        reveal_strlit("BrowserBack");
        reveal_strlit("BrowserForward");
        assert("BrowserRefresh"@[7] != "BrowserForward"@[7]);
        assert("BrowserRefresh"@.len() != "LaunchMail"@.len());
        assert("BrowserRefresh"@.len() != "LaunchApp1"@.len());
        assert("BrowserRefresh"@.len() != "LaunchApp2"@.len());
        assert("BrowserRefresh"@.len() != "LaunchMediaSelect"@.len());
        assert("BrowserRefresh"@.len() != "MediaStop"@.len());
        assert("BrowserRefresh"@.len() != "VolumeMute"@.len());
        assert("BrowserRefresh"@.len() != "VolumeDown"@.len());
        assert("BrowserRefresh"@.len() != "VolumeUp"@.len());
        assert("BrowserRefresh"@.len() != "BrowserBack"@.len());
    }
    assert(media_key_code("BrowserStop"@) == Some(0xA9u32)) by {
        reveal_strlit("BrowserStop");
        reveal_strlit("LaunchMail");
        reveal_strlit("LaunchApp1");
        reveal_strlit("LaunchApp2");
        reveal_strlit("LaunchMediaSelect");
        reveal_strlit("MediaPlayPause");
        reveal_strlit("MediaStop");
        reveal_strlit("MediaNextTrack");
        reveal_strlit("MediaPrevTrack");
        reveal_strlit("VolumeMute");
        reveal_strlit("VolumeDown");
        reveal_strlit("VolumeUp");
        reveal_strlit("BrowserBack");
        assert("BrowserStop"@[7] != "BrowserBack"@[7]);
        reveal_strlit("BrowserForward");
        reveal_strlit("BrowserRefresh");
        assert("BrowserStop"@.len() != "LaunchMail"@.len());
        assert("BrowserStop"@.len() != "LaunchApp1"@.len());
        assert("BrowserStop"@.len() != "LaunchApp2"@.len());
        assert("BrowserStop"@.len() != "LaunchMediaSelect"@.len());
        assert("BrowserStop"@.len() != "MediaPlayPause"@.len());
        assert("BrowserStop"@.len() != "MediaStop"@.len());
        assert("BrowserStop"@.len() != "MediaNextTrack"@.len());
        assert("BrowserStop"@.len() != "MediaPrevTrack"@.len());
        assert("BrowserStop"@.len() != "VolumeMute"@.len());
        assert("BrowserStop"@.len() != "VolumeDown"@.len());
        assert("BrowserStop"@.len() != "VolumeUp"@.len());
        assert("BrowserStop"@.len() != "BrowserForward"@.len());
        assert("BrowserStop"@.len() != "BrowserRefresh"@.len());
    }
    assert(media_key_code("BrowserSearch"@) == Some(0xAAu32)) by {
        reveal_strlit("BrowserSearch");
        reveal_strlit("LaunchMail");
        reveal_strlit("LaunchApp1");
        reveal_strlit("LaunchApp2");
        reveal_strlit("LaunchMediaSelect");
        reveal_strlit("MediaPlayPause");
        reveal_strlit("MediaStop");
        reveal_strlit("MediaNextTrack");
        reveal_strlit("MediaPrevTrack");
        reveal_strlit("VolumeMute");
        reveal_strlit("VolumeDown");
        reveal_strlit("VolumeUp");
        reveal_strlit("BrowserBack");
        reveal_strlit("BrowserForward");
        reveal_strlit("BrowserRefresh");
        reveal_strlit("BrowserStop");
        assert("BrowserSearch"@.len() != "LaunchMail"@.len());
        assert("BrowserSearch"@.len() != "LaunchApp1"@.len());
        assert("BrowserSearch"@.len() != "LaunchApp2"@.len());
        assert("BrowserSearch"@.len() != "LaunchMediaSelect"@.len());
        assert("BrowserSearch"@.len() != "MediaPlayPause"@.len());
        assert("BrowserSearch"@.len() != "MediaStop"@.len());
        assert("BrowserSearch"@.len() != "MediaNextTrack"@.len());
        assert("BrowserSearch"@.len() != "MediaPrevTrack"@.len());
        assert("BrowserSearch"@.len() != "VolumeMute"@.len());
        assert("BrowserSearch"@.len() != "VolumeDown"@.len());
        assert("BrowserSearch"@.len() != "VolumeUp"@.len());
        assert("BrowserSearch"@.len() != "BrowserBack"@.len());
        assert("BrowserSearch"@.len() != "BrowserForward"@.len());
        assert("BrowserSearch"@.len() != "BrowserRefresh"@.len());
        assert("BrowserSearch"@.len() != "BrowserStop"@.len());
    }
    assert(media_key_code("BrowserFavorites"@) == Some(0xABu32)) by {
        reveal_strlit("BrowserFavorites");
        reveal_strlit("LaunchMail");
        reveal_strlit("LaunchApp1");
        reveal_strlit("LaunchApp2");
        reveal_strlit("LaunchMediaSelect");
        reveal_strlit("MediaPlayPause");
        reveal_strlit("MediaStop");
        reveal_strlit("MediaNextTrack");
        reveal_strlit("MediaPrevTrack");
        reveal_strlit("VolumeMute");
        reveal_strlit("VolumeDown");
        reveal_strlit("VolumeUp");
        reveal_strlit("BrowserBack");
        reveal_strlit("BrowserForward");
        reveal_strlit("BrowserRefresh");
        reveal_strlit("BrowserStop");
        reveal_strlit("BrowserSearch");
        assert("BrowserFavorites"@.len() != "LaunchMail"@.len());
        assert("BrowserFavorites"@.len() != "LaunchApp1"@.len());
        assert("BrowserFavorites"@.len() != "LaunchApp2"@.len());
        assert("BrowserFavorites"@.len() != "LaunchMediaSelect"@.len());
        assert("BrowserFavorites"@.len() != "MediaPlayPause"@.len());
        assert("BrowserFavorites"@.len() != "MediaStop"@.len());
        assert("BrowserFavorites"@.len() != "MediaNextTrack"@.len());
        assert("BrowserFavorites"@.len() != "MediaPrevTrack"@.len());
        assert("BrowserFavorites"@.len() != "VolumeMute"@.len());
        assert("BrowserFavorites"@.len() != "VolumeDown"@.len());
        assert("BrowserFavorites"@.len() != "VolumeUp"@.len());
        assert("BrowserFavorites"@.len() != "BrowserBack"@.len());
        assert("BrowserFavorites"@.len() != "BrowserForward"@.len());
        assert("BrowserFavorites"@.len() != "BrowserRefresh"@.len());
        assert("BrowserFavorites"@.len() != "BrowserStop"@.len());
        assert("BrowserFavorites"@.len() != "BrowserSearch"@.len());
    }
    assert(media_key_code("BrowserHome"@) == Some(0xACu32)) by {
        reveal_strlit("BrowserHome");
        reveal_strlit("LaunchMail");
        reveal_strlit("LaunchApp1");
        reveal_strlit("LaunchApp2");
        reveal_strlit("LaunchMediaSelect");
        reveal_strlit("MediaPlayPause");
        reveal_strlit("MediaStop");
        reveal_strlit("MediaNextTrack");
        reveal_strlit("MediaPrevTrack");
        reveal_strlit("VolumeMute");
        reveal_strlit("VolumeDown");
        reveal_strlit("VolumeUp");
        reveal_strlit("BrowserBack");
        assert("BrowserHome"@[7] != "BrowserBack"@[7]);
        reveal_strlit("BrowserForward");
        reveal_strlit("BrowserRefresh");
        reveal_strlit("BrowserStop");
        assert("BrowserHome"@[7] != "BrowserStop"@[7]);
        reveal_strlit("BrowserSearch");
        reveal_strlit("BrowserFavorites");
        assert("BrowserHome"@.len() != "LaunchMail"@.len());
        assert("BrowserHome"@.len() != "LaunchApp1"@.len());
        assert("BrowserHome"@.len() != "LaunchApp2"@.len());
        assert("BrowserHome"@.len() != "LaunchMediaSelect"@.len());
        assert("BrowserHome"@.len() != "MediaPlayPause"@.len());
        assert("BrowserHome"@.len() != "MediaStop"@.len());
        assert("BrowserHome"@.len() != "MediaNextTrack"@.len());
        assert("BrowserHome"@.len() != "MediaPrevTrack"@.len());
        assert("BrowserHome"@.len() != "VolumeMute"@.len());
        assert("BrowserHome"@.len() != "VolumeDown"@.len());
        assert("BrowserHome"@.len() != "VolumeUp"@.len());
        assert("BrowserHome"@.len() != "BrowserForward"@.len());
        assert("BrowserHome"@.len() != "BrowserRefresh"@.len());
        assert("BrowserHome"@.len() != "BrowserSearch"@.len());
        assert("BrowserHome"@.len() != "BrowserFavorites"@.len());
    }
    assert(media_key_code("Sleep"@) == Some(0x5Fu32)) by {
        reveal_strlit("Sleep");
        reveal_strlit("LaunchMail");
        reveal_strlit("LaunchApp1");
        reveal_strlit("LaunchApp2");
        reveal_strlit("LaunchMediaSelect");
        reveal_strlit("MediaPlayPause");
        reveal_strlit("MediaStop");
        reveal_strlit("MediaNextTrack");
        reveal_strlit("MediaPrevTrack");
        reveal_strlit("VolumeMute");
        reveal_strlit("VolumeDown");
        reveal_strlit("VolumeUp");
        reveal_strlit("BrowserBack");
        reveal_strlit("BrowserForward");
        reveal_strlit("BrowserRefresh");
        reveal_strlit("BrowserStop");
        reveal_strlit("BrowserSearch");
        reveal_strlit("BrowserFavorites");
        reveal_strlit("BrowserHome");
        assert("Sleep"@.len() != "LaunchMail"@.len());
        assert("Sleep"@.len() != "LaunchApp1"@.len());
        assert("Sleep"@.len() != "LaunchApp2"@.len());
        assert("Sleep"@.len() != "LaunchMediaSelect"@.len());
        assert("Sleep"@.len() != "MediaPlayPause"@.len());
        assert("Sleep"@.len() != "MediaStop"@.len());
        assert("Sleep"@.len() != "MediaNextTrack"@.len());
        assert("Sleep"@.len() != "MediaPrevTrack"@.len());
        assert("Sleep"@.len() != "VolumeMute"@.len());
        assert("Sleep"@.len() != "VolumeDown"@.len());
        assert("Sleep"@.len() != "VolumeUp"@.len());
        assert("Sleep"@.len() != "BrowserBack"@.len());
        assert("Sleep"@.len() != "BrowserForward"@.len());
        assert("Sleep"@.len() != "BrowserRefresh"@.len());
        assert("Sleep"@.len() != "BrowserStop"@.len());
        assert("Sleep"@.len() != "BrowserSearch"@.len());
        assert("Sleep"@.len() != "BrowserFavorites"@.len());
        assert("Sleep"@.len() != "BrowserHome"@.len());
    }
    reveal_strlit("F1");
    reveal_strlit("F8");
    reveal_strlit("F9");
    reveal_strlit("F10");
    reveal_strlit("F19");
    reveal_strlit("F20");
    reveal_strlit("F24");
    reveal_strlit("F25");
    reveal_strlit("F0");
}

} // verus!
