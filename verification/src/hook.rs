//! The keyboard hook as a state machine. The hook tracks which keys are
//! down and when they went down, intercepts the Win keys, dispatches
//! shortcuts, and on release of an intercepted Win key decides whether to
//! replay a Win tap for the Start menu or to swallow the release.
use vstd::prelude::*;
use crate::actions::Action;
use crate::drag::DragState;
use crate::shortcut::{
    chord_spec, is_win_vk, should_clear_stale_keydown_state, should_replay_win_key, is_win_key, most_recent_shortcut_action_from_pressed_keys, shortcut_action_for_key,
    shortcut_spec, VK_LCONTROL, VK_LMENU, VK_LSHIFT, VK_LWIN, VK_Q, VK_RCONTROL, VK_RMENU, VK_RSHIFT,
    VK_RWIN,
};

verus! {

/// The hook's view of the keyboard.
pub struct KeyboardState {
    down: Vec<bool>,
    pressed_at_ms: Vec<u64>,
    intercepted_win_key: u32,
    win_combo_used: bool,
    win_native_passthrough: bool,
}

/// The mathematical content of a `KeyboardState`.
pub struct KeyModel {
    /// Whether each of the 256 virtual keys is tracked as down.
    pub down: Seq<bool>,
    /// When each key last went down, in milliseconds.
    pub pressed_at_ms: Seq<u64>,
    /// The Win key whose press the hook swallowed and has not seen released,
    /// or 0.
    pub intercepted_win_key: u32,
    /// A shortcut was dispatched while the intercepted Win key was held.
    pub win_combo_used: bool,
    /// A synthetic Win press was sent so that Windows sees the Win key for a
    /// combination the hook does not handle.
    pub win_native_passthrough: bool,
}

impl View for KeyboardState {
    type V = KeyModel;

    closed spec fn view(&self) -> KeyModel {
        KeyModel {
            down: self.down@,
            pressed_at_ms: self.pressed_at_ms@,
            intercepted_win_key: self.intercepted_win_key,
            win_combo_used: self.win_combo_used,
            win_native_passthrough: self.win_native_passthrough,
        }
    }
}

/// The pressed keys among the first `n` virtual keys, by increasing code,
/// with the time each went down.
pub open spec fn pressed_upto(down: Seq<bool>, pressed_at_ms: Seq<u64>, n: int) -> Seq<(u32, u64)>
    decreases n,
{
    if n <= 0 {
        Seq::empty()
    } else {
        let p = pressed_upto(down, pressed_at_ms, n - 1);
        if down[n - 1] {
            p.push(((n - 1) as u32, pressed_at_ms[n - 1]))
        } else {
            p
        }
    }
}

impl KeyModel {
    pub open spec fn wf(self) -> bool {
        &&& self.down.len() == 256
        &&& self.pressed_at_ms.len() == 256
        &&& self.intercepted_win_key == 0 || is_win_key(self.intercepted_win_key)
    }

    pub open spec fn key_down(self, vk: u32) -> bool {
        vk < 256 && self.down[vk as int]
    }

    pub open spec fn win_down(self) -> bool {
        self.key_down(VK_LWIN) || self.key_down(VK_RWIN)
    }

    /// A Win key is down, or its press was intercepted and not yet released.
    pub open spec fn win_modifier_down(self) -> bool {
        self.win_down() || self.intercepted_win_key != 0
    }

    pub open spec fn shift_down(self) -> bool {
        self.key_down(VK_LSHIFT) || self.key_down(VK_RSHIFT)
    }

    pub open spec fn ctrl_down(self) -> bool {
        self.key_down(VK_LCONTROL) || self.key_down(VK_RCONTROL)
    }

    pub open spec fn alt_down(self) -> bool {
        self.key_down(VK_LMENU) || self.key_down(VK_RMENU)
    }

    pub open spec fn released(self, vk: u32) -> KeyModel {
        if vk < 256 {
            KeyModel { down: self.down.update(vk as int, false), ..self }
        } else {
            self
        }
    }

    pub open spec fn pressed(self, vk: u32, now_ms: u64) -> KeyModel {
        if vk < 256 {
            KeyModel {
                down: self.down.update(vk as int, true),
                pressed_at_ms: self.pressed_at_ms.update(vk as int, now_ms),
                ..self
            }
        } else {
            self
        }
    }

    pub open spec fn pressed_keys(self) -> Seq<(u32, u64)> {
        pressed_upto(self.down, self.pressed_at_ms, 256)
    }

    /// The shortcut formed by a key pressed shortly before the Win key.
    pub open spec fn recent_action(self, now_ms: u64) -> Option<Action> {
        chord_spec(self.pressed_keys(), true, self.ctrl_down(), self.alt_down(), self.shift_down(), now_ms)
    }
}

impl KeyboardState {
    /// No key down, nothing intercepted.
    pub fn new() -> (r: KeyboardState)
        ensures
            r@.wf(),
            r@.down == Seq::new(256, |i: int| false),
            r@.pressed_at_ms == Seq::new(256, |i: int| 0u64),
            r@.intercepted_win_key == 0,
            !r@.win_combo_used,
            !r@.win_native_passthrough,
    {
        let mut down: Vec<bool> = Vec::new();
        let mut pressed_at_ms: Vec<u64> = Vec::new();
        let mut i: usize = 0;
        while i < 256
            invariant
                i <= 256,
                down@ == Seq::new(i as nat, |j: int| false),
                pressed_at_ms@ == Seq::new(i as nat, |j: int| 0u64),
            decreases 256 - i,
        {
            down.push(false);
            pressed_at_ms.push(0);
            i = i + 1;
        }
        KeyboardState {
            down,
            pressed_at_ms,
            intercepted_win_key: 0,
            win_combo_used: false,
            win_native_passthrough: false,
        }
    }

    /// Whether the hook tracks the key as down; codes from 256 up never are.
    pub fn key_is_down(&self, vkey: u32) -> (r: bool)
        requires
            self@.wf(),
        ensures
            r == self@.key_down(vkey),
    {
        if vkey >= 256 {
            return false;
        }
        self.down[vkey as usize]
    }

    pub fn is_win_down(&self) -> (r: bool)
        requires
            self@.wf(),
        ensures
            r == self@.win_down(),
    {
        self.key_is_down(VK_LWIN) || self.key_is_down(VK_RWIN)
    }

    pub fn is_win_modifier_down(&self) -> (r: bool)
        requires
            self@.wf(),
        ensures
            r == self@.win_modifier_down(),
    {
        self.is_win_down() || self.intercepted_win_key != 0
    }

    pub fn is_shift_down(&self) -> (r: bool)
        requires
            self@.wf(),
        ensures
            r == self@.shift_down(),
    {
        self.key_is_down(VK_LSHIFT) || self.key_is_down(VK_RSHIFT)
    }

    pub fn is_ctrl_down(&self) -> (r: bool)
        requires
            self@.wf(),
        ensures
            r == self@.ctrl_down(),
    {
        self.key_is_down(VK_LCONTROL) || self.key_is_down(VK_RCONTROL)
    }

    pub fn is_alt_down(&self) -> (r: bool)
        requires
            self@.wf(),
        ensures
            r == self@.alt_down(),
    {
        self.key_is_down(VK_LMENU) || self.key_is_down(VK_RMENU)
    }

    /// The pressed keys with the time each went down, by increasing code.
    pub fn pressed_keys(&self) -> (r: Vec<(u32, u64)>)
        requires
            self@.wf(),
        ensures
            r@ == self@.pressed_keys(),
    {
        let mut keys: Vec<(u32, u64)> = Vec::new();
        let mut vk: usize = 0;
        while vk < 256
            invariant
                vk <= 256,
                self@.wf(),
                keys@ == pressed_upto(self@.down, self@.pressed_at_ms, vk as int),
            decreases 256 - vk,
        {
            if self.down[vk] {
                keys.push((vk as u32, self.pressed_at_ms[vk]));
            }
            vk = vk + 1;
        }
        keys
    }

    /// The shortcut of a key pressed at most the rollover window before
    /// `now_ms`, taken as if Win were down: pressing Win just after the other
    /// key of a chord still triggers it.
    pub fn action_for_recently_pressed_key(&self, now_ms: u64) -> (r: Option<Action>)
        requires
            self@.wf(),
        ensures
            r == self@.recent_action(now_ms),
    {
        let pressed_keys = self.pressed_keys();
        most_recent_shortcut_action_from_pressed_keys(
            pressed_keys.as_slice(),
            true,
            self.is_ctrl_down(),
            self.is_alt_down(),
            self.is_shift_down(),
            now_ms,
        )
    }

    /// The shortcut that the key `vk` forms with the modifiers now down.
    pub fn handle_keydown(&self, vk: u32) -> (r: Option<Action>)
        requires
            self@.wf(),
        ensures
            r == shortcut_spec(vk, self@.win_modifier_down(), self@.ctrl_down(), self@.alt_down(), self@.shift_down()),
    {
        let win_down = self.is_win_modifier_down();
        shortcut_action_for_key(vk, win_down, self.is_ctrl_down(), self.is_alt_down(), self.is_shift_down())
    }

    fn set_down(&mut self, vk: u32, is_down: bool)
        requires
            vk < 256,
            old(self)@.wf(),
        ensures
            final(self)@ == (KeyModel { down: old(self)@.down.update(vk as int, is_down), ..old(self)@ }),
    {
        self.down.set(vk as usize, is_down);
    }

    fn set_pressed_at(&mut self, vk: u32, now_ms: u64)
        requires
            vk < 256,
            old(self)@.wf(),
        ensures
            final(self)@ == (KeyModel {
                pressed_at_ms: old(self)@.pressed_at_ms.update(vk as int, now_ms),
                ..old(self)@
            }),
    {
        self.pressed_at_ms.set(vk as usize, now_ms);
    }
}

#[derive(Clone, Copy, Debug, PartialEq, Eq, Structural)]
pub enum KeyTransition {
    /// A key-down or system key-down message.
    Down,
    /// A key-up or system key-up message.
    Up,
    /// Any other message.
    Other,
}

/// One low-level keyboard message, with what the hook reads around it.
#[derive(Clone, Copy, Debug, PartialEq, Eq, Structural)]
pub struct KeyEvent {
    pub vk: u32,
    pub transition: KeyTransition,
    /// The event was synthesized by a program, not typed.
    pub injected: bool,
    /// The key is physically down right now.
    pub physically_down: bool,
    /// The monotonic clock, in milliseconds.
    pub now_ms: u64,
    /// The action worker accepts actions.
    pub dispatch_ready: bool,
}

/// Input that the hook injects in reply.
#[derive(Clone, Copy, Debug, PartialEq, Eq, Structural)]
pub enum SyntheticInput {
    Nothing,
    /// A key-down of this key.
    Press(u8),
    /// A key-up of this key.
    Release(u8),
    /// A key-down followed by a key-up of this key.
    Tap(u8),
}

#[derive(Clone, Copy, Debug, PartialEq, Eq, Structural)]
pub struct KeyOutcome {
    /// Hide the event from the rest of the system.
    pub swallow: bool,
    /// The action to hand to the action worker.
    pub dispatched: Option<Action>,
    pub synthetic: SyntheticInput,
    /// A stale key-down was found and cleared.
    pub cleared_stale: bool,
}

/// Everything the keyboard and mouse hooks share.
pub struct InputState {
    pub keys: KeyboardState,
    pub drag: DragState,
}

pub open spec fn outcome(swallow: bool, dispatched: Option<Action>, synthetic: SyntheticInput, cleared_stale: bool) -> KeyOutcome {
    KeyOutcome { swallow, dispatched, synthetic, cleared_stale }
}

pub open spec fn pass_through() -> KeyOutcome {
    outcome(false, None, SyntheticInput::Nothing, false)
}

/// A key release. It clears the key. Win+Q quits when Ctrl and Alt are up.
/// Releasing a Win key ends any drag gesture and clears the Win bookkeeping;
/// if its press was intercepted, the release is swallowed and the Start menu
/// behaviour is settled: a native passthrough gets its key-up, a plain tap
/// (no drag, no shortcut) is replayed, anything else is dropped.
pub open spec fn key_up_step(k: KeyModel, d: DragState, ev: KeyEvent) -> (KeyModel, DragState, KeyOutcome) {
    let vk = ev.vk;
    let k1 = k.released(vk);
    if vk == VK_Q && k1.win_down() && !k1.ctrl_down() && !k1.alt_down() && ev.dispatch_ready {
        (k1, d, outcome(true, Some(Action::Quit), SyntheticInput::Nothing, false))
    } else if is_win_key(vk) {
        let k2 = KeyModel {
            intercepted_win_key: 0,
            win_combo_used: false,
            win_native_passthrough: false,
            ..k1
        };
        let d2 = DragState { consume_next_lwin_keyup: false, ..d.ended() };
        if k.intercepted_win_key == vk {
            let synthetic = if k.win_native_passthrough {
                SyntheticInput::Release(vk as u8)
            } else if !d.consume_next_lwin_keyup && !k.win_combo_used {
                SyntheticInput::Tap(vk as u8)
            } else {
                SyntheticInput::Nothing
            };
            (k2, d2, outcome(true, None, synthetic, false))
        } else {
            (k2, d2, pass_through())
        }
    } else {
        (k1, d, pass_through())
    }
}

/// A key press. A repeat of a key already down passes, except for Win keys,
/// which are swallowed; a tracked key that is no longer physically down is
/// stale and counts as a fresh press. A fresh press records the key and its
/// time. A Win press is swallowed and intercepted, dispatching the chord of a
/// key pressed just before it. Another key that forms a shortcut is
/// swallowed and dispatched; one that does not, while Win is held, starts
/// the native passthrough of the intercepted Win key and passes.
pub open spec fn key_down_step(k: KeyModel, d: DragState, ev: KeyEvent) -> (KeyModel, DragState, KeyOutcome) {
    let vk = ev.vk;
    let stale = k.key_down(vk) && !ev.physically_down;
    if k.key_down(vk) && ev.physically_down {
        (k, d, outcome(is_win_key(vk), None, SyntheticInput::Nothing, false))
    } else {
        let k1 = k.pressed(vk, ev.now_ms);
        if is_win_key(vk) {
            let k2 = KeyModel {
                intercepted_win_key: vk,
                win_combo_used: false,
                win_native_passthrough: false,
                ..k1
            };
            let a = k2.recent_action(ev.now_ms);
            if a is Some && ev.dispatch_ready {
                (KeyModel { win_combo_used: true, ..k2 }, d, outcome(true, a, SyntheticInput::Nothing, stale))
            } else {
                (k2, d, outcome(true, None, SyntheticInput::Nothing, stale))
            }
        } else {
            let a = shortcut_spec(vk, k1.win_modifier_down(), k1.ctrl_down(), k1.alt_down(), k1.shift_down());
            if a is Some && ev.dispatch_ready {
                (KeyModel { win_combo_used: true, ..k1 }, d, outcome(true, a, SyntheticInput::Nothing, stale))
            } else if k1.win_modifier_down() && !k1.win_native_passthrough && k1.intercepted_win_key != 0 {
                (
                    KeyModel { win_native_passthrough: true, ..k1 },
                    d,
                    outcome(false, None, SyntheticInput::Press(k1.intercepted_win_key as u8), stale),
                )
            } else {
                (k1, d, outcome(false, None, SyntheticInput::Nothing, stale))
            }
        }
    }
}

/// The hook's response to one keyboard message: injected messages and
/// messages other than presses and releases pass untouched.
pub open spec fn key_step(k: KeyModel, d: DragState, ev: KeyEvent) -> (KeyModel, DragState, KeyOutcome) {
    if ev.injected {
        (k, d, pass_through())
    } else {
        match ev.transition {
            KeyTransition::Other => (k, d, pass_through()),
            KeyTransition::Up => key_up_step(k, d, ev),
            KeyTransition::Down => key_down_step(k, d, ev),
        }
    }
}

impl InputState {
    pub open spec fn wf(&self) -> bool {
        self.keys@.wf()
    }

    pub fn new() -> (r: InputState)
        ensures
            r.wf(),
            r.keys@.down == Seq::new(256, |i: int| false),
            r.keys@.pressed_at_ms == Seq::new(256, |i: int| 0u64),
            r.keys@.intercepted_win_key == 0,
            !r.keys@.win_combo_used,
            !r.keys@.win_native_passthrough,
            r.drag == DragState::new_spec(),
    {
        InputState { keys: KeyboardState::new(), drag: DragState::new() }
    }

    /// Handles one keyboard message.
    pub fn on_key_event(&mut self, ev: KeyEvent) -> (r: KeyOutcome)
        requires
            old(self).wf(),
        ensures
            final(self).wf(),
            (final(self).keys@, final(self).drag, r) == key_step(old(self).keys@, old(self).drag, ev),
    {
        let vk = ev.vk;
        if ev.injected {
            return KeyOutcome {
                swallow: false,
                dispatched: None,
                synthetic: SyntheticInput::Nothing,
                cleared_stale: false,
            };
        }
        match ev.transition {
            KeyTransition::Other => KeyOutcome {
                swallow: false,
                dispatched: None,
                synthetic: SyntheticInput::Nothing,
                cleared_stale: false,
            },
            KeyTransition::Up => self.on_key_up(ev),
            KeyTransition::Down => self.on_key_down(ev),
        }
    }

    fn on_key_up(&mut self, ev: KeyEvent) -> (r: KeyOutcome)
        requires
            old(self).wf(),
            !ev.injected,
            ev.transition == KeyTransition::Up,
        ensures
            final(self).wf(),
            (final(self).keys@, final(self).drag, r) == key_up_step(old(self).keys@, old(self).drag, ev),
    {
        let vk = ev.vk;
        if vk < 256 {
            self.keys.set_down(vk, false);
        }
        if vk == VK_Q && self.keys.is_win_down() && !self.keys.is_ctrl_down()
            && !self.keys.is_alt_down() {
            if ev.dispatch_ready {
                return KeyOutcome {
                    swallow: true,
                    dispatched: Some(Action::Quit),
                    synthetic: SyntheticInput::Nothing,
                    cleared_stale: false,
                };
            }
        }
        if is_win_vk(vk) {
            self.drag.on_cancel();
            let dragged = self.drag.take_consume_next_lwin_keyup();
            let combo_used = self.keys.win_combo_used;
            self.keys.win_combo_used = false;
            let native_passthrough = self.keys.win_native_passthrough;
            self.keys.win_native_passthrough = false;
            let intercepted_key = self.keys.intercepted_win_key;
            self.keys.intercepted_win_key = 0;
            let intercepted = intercepted_key == vk;
            if intercepted {
                let key = vk as u8;
                if native_passthrough {
                    return KeyOutcome {
                        swallow: true,
                        dispatched: None,
                        synthetic: SyntheticInput::Release(key),
                        cleared_stale: false,
                    };
                }
                let synthetic = if should_replay_win_key(dragged, combo_used, intercepted) {
                    SyntheticInput::Tap(key)
                } else {
                    SyntheticInput::Nothing
                };
                return KeyOutcome { swallow: true, dispatched: None, synthetic, cleared_stale: false };
            }
        }
        KeyOutcome {
            swallow: false,
            dispatched: None,
            synthetic: SyntheticInput::Nothing,
            cleared_stale: false,
        }
    }

    fn on_key_down(&mut self, ev: KeyEvent) -> (r: KeyOutcome)
        requires
            old(self).wf(),
            !ev.injected,
            ev.transition == KeyTransition::Down,
        ensures
            final(self).wf(),
            (final(self).keys@, final(self).drag, r) == key_down_step(old(self).keys@, old(self).drag, ev),
    {
        let vk = ev.vk;
        let mut cleared_stale = false;
        if vk < 256 {
            if self.keys.key_is_down(vk) {
                if should_clear_stale_keydown_state(true, ev.physically_down) {
                    cleared_stale = true;
                    self.keys.set_down(vk, false);
                }
            }
            if self.keys.key_is_down(vk) {
                return KeyOutcome {
                    swallow: is_win_vk(vk),
                    dispatched: None,
                    synthetic: SyntheticInput::Nothing,
                    cleared_stale: false,
                };
            }
            self.keys.set_down(vk, true);
            self.keys.set_pressed_at(vk, ev.now_ms);
            assert(self.keys@.down =~= old(self).keys@.pressed(vk, ev.now_ms).down);
        }
        assert(self.keys@ == old(self).keys@.pressed(vk, ev.now_ms));
        if is_win_vk(vk) {
            self.keys.intercepted_win_key = vk;
            self.keys.win_combo_used = false;
            self.keys.win_native_passthrough = false;
            let mut dispatched = None;
            if let Some(action) = self.keys.action_for_recently_pressed_key(ev.now_ms) {
                if ev.dispatch_ready {
                    self.keys.win_combo_used = true;
                    dispatched = Some(action);
                }
            }
            return KeyOutcome {
                swallow: true,
                dispatched,
                synthetic: SyntheticInput::Nothing,
                cleared_stale,
            };
        }
        if let Some(action) = self.keys.handle_keydown(vk) {
            if ev.dispatch_ready {
                if self.keys.is_win_modifier_down() {
                    self.keys.win_combo_used = true;
                }
                return KeyOutcome {
                    swallow: true,
                    dispatched: Some(action),
                    synthetic: SyntheticInput::Nothing,
                    cleared_stale,
                };
            }
        }
        let mut synthetic = SyntheticInput::Nothing;
        if self.keys.is_win_modifier_down() {
            if !self.keys.win_native_passthrough && self.keys.intercepted_win_key != 0 {
                synthetic = SyntheticInput::Press(self.keys.intercepted_win_key as u8);
                self.keys.win_native_passthrough = true;
            }
        }
        KeyOutcome { swallow: false, dispatched: None, synthetic, cleared_stale }
    }
}

pub open spec fn is_modifier_key(vk: u32) -> bool {
    vk == VK_LSHIFT || vk == VK_RSHIFT || vk == VK_LCONTROL || vk == VK_RCONTROL || vk == VK_LMENU
        || vk == VK_RMENU
}

/// Events that a program injected pass untouched and change nothing, and so
/// do messages other than presses and releases.
pub proof fn lemma_foreign_events_pass(k: KeyModel, d: DragState, ev: KeyEvent)
    requires
        ev.injected || ev.transition == KeyTransition::Other,
    ensures
        key_step(k, d, ev) == (k, d, pass_through()),
{
}

/// A typed release of a key leaves it tracked as up.
pub proof fn lemma_release_clears_key(k: KeyModel, d: DragState, ev: KeyEvent)
    requires
        k.wf(),
        !ev.injected,
        ev.transition == KeyTransition::Up,
    ensures
        !key_step(k, d, ev).0.key_down(ev.vk),
        key_step(k, d, ev).0.wf(),
{
}

/// Every typed press of a Win key is hidden from Windows, and a fresh one
/// becomes the intercepted Win key.
pub proof fn lemma_win_press_is_intercepted(k: KeyModel, d: DragState, ev: KeyEvent)
    requires
        k.wf(),
        !ev.injected,
        ev.transition == KeyTransition::Down,
        is_win_key(ev.vk),
    ensures
        key_step(k, d, ev).2.swallow,
        key_step(k, d, ev).2.synthetic == SyntheticInput::Nothing,
        !(k.key_down(ev.vk) && ev.physically_down) ==> {
            &&& key_step(k, d, ev).0.intercepted_win_key == ev.vk
            &&& key_step(k, d, ev).0.key_down(ev.vk)
            &&& !key_step(k, d, ev).0.win_native_passthrough
        },
{
}

/// A plain Win tap still opens the Start menu: when a Win key is pressed and
/// released with nothing in between, no drag pending and no chord key
/// pressed just before, both events are swallowed and the release replays a
/// synthetic tap of that Win key.
pub proof fn lemma_plain_win_tap_replays(k: KeyModel, d: DragState, press: KeyEvent, release: KeyEvent)
    requires
        k.wf(),
        !d.consume_next_lwin_keyup,
        !press.injected && press.transition == KeyTransition::Down && is_win_key(press.vk),
        !(k.key_down(press.vk) && press.physically_down),
        k.pressed(press.vk, press.now_ms).recent_action(press.now_ms) is None,
        !release.injected && release.transition == KeyTransition::Up && release.vk == press.vk,
    ensures
        ({
            let (k1, d1, o1) = key_step(k, d, press);
            let (k2, d2, o2) = key_step(k1, d1, release);
            &&& o1.swallow && o1.dispatched is None
            &&& o2.swallow && o2.dispatched is None
            &&& o2.synthetic == SyntheticInput::Tap(press.vk as u8)
            &&& k2.intercepted_win_key == 0
            &&& !k2.key_down(press.vk)
        }),
{
}

/// A Win release that ends a drag does not open the Start menu: when the
/// drag flagged the release as consumed and no passthrough is running, the
/// release of the intercepted Win key is swallowed with nothing replayed, and
/// the gesture ends.
pub proof fn lemma_drag_release_is_silent(k: KeyModel, d: DragState, release: KeyEvent)
    requires
        k.wf(),
        d.consume_next_lwin_keyup,
        !k.win_native_passthrough,
        !release.injected && release.transition == KeyTransition::Up,
        is_win_key(release.vk) && k.intercepted_win_key == release.vk,
    ensures
        ({
            let (k1, d1, o) = key_step(k, d, release);
            &&& o.swallow && o.synthetic == SyntheticInput::Nothing && o.dispatched is None
            &&& !d1.gesture_active && !d1.drag_triggered && !d1.consume_next_lwin_keyup
            &&& k1.intercepted_win_key == 0
        }),
{
}

/// A Win shortcut does not open the Start menu: Win pressed, then a key
/// that forms a shortcut with it (dispatched and swallowed), then Win
/// released: the release is swallowed with nothing replayed.
pub proof fn lemma_shortcut_suppresses_start_menu(
    k: KeyModel,
    d: DragState,
    press: KeyEvent,
    key: KeyEvent,
    release: KeyEvent,
)
    requires
        k.wf(),
        !press.injected && press.transition == KeyTransition::Down && is_win_key(press.vk),
        !(k.key_down(press.vk) && press.physically_down),
        !key.injected && key.transition == KeyTransition::Down && key.vk != press.vk,
        !(k.key_down(key.vk) && key.physically_down),
        key.dispatch_ready,
        shortcut_spec(key.vk, true, k.ctrl_down(), k.alt_down(), k.shift_down()) is Some,
        !release.injected && release.transition == KeyTransition::Up && release.vk == press.vk,
    ensures
        ({
            let (k1, d1, o1) = key_step(k, d, press);
            let (k2, d2, o2) = key_step(k1, d1, key);
            let (k3, d3, o3) = key_step(k2, d2, release);
            &&& o2.swallow
            &&& o2.dispatched == shortcut_spec(key.vk, true, k.ctrl_down(), k.alt_down(), k.shift_down())
            &&& o3.swallow && o3.synthetic == SyntheticInput::Nothing && o3.dispatched is None
        }),
{
    let (k1, d1, o1) = key_step(k, d, press);
    let k1p = k1.pressed(key.vk, key.now_ms);
    assert(k1p.ctrl_down() == k.ctrl_down());
    assert(k1p.alt_down() == k.alt_down());
    assert(k1p.shift_down() == k.shift_down());
    assert(k1p.win_modifier_down());
}

/// Win combinations that the hook does not handle still reach Windows: Win
/// pressed, then a key that is no modifier and forms no shortcut, then Win
/// released. The key passes along with a synthetic press of the Win key, and
/// the Win release is replaced by a synthetic release.
pub proof fn lemma_native_combo_passes_through(
    k: KeyModel,
    d: DragState,
    press: KeyEvent,
    key: KeyEvent,
    release: KeyEvent,
)
    requires
        k.wf(),
        !press.injected && press.transition == KeyTransition::Down && is_win_key(press.vk),
        !(k.key_down(press.vk) && press.physically_down),
        !key.injected && key.transition == KeyTransition::Down && key.vk != press.vk,
        !is_win_key(key.vk) && !is_modifier_key(key.vk),
        !(k.key_down(key.vk) && key.physically_down),
        shortcut_spec(key.vk, true, k.ctrl_down(), k.alt_down(), k.shift_down()) is None,
        !release.injected && release.transition == KeyTransition::Up && release.vk == press.vk,
    ensures
        ({
            let (k1, d1, o1) = key_step(k, d, press);
            let (k2, d2, o2) = key_step(k1, d1, key);
            let (k3, d3, o3) = key_step(k2, d2, release);
            &&& !o2.swallow && o2.synthetic == SyntheticInput::Press(press.vk as u8)
            &&& o3.swallow && o3.synthetic == SyntheticInput::Release(press.vk as u8)
        }),
{
    let (k1, d1, o1) = key_step(k, d, press);
    let k1p = k1.pressed(key.vk, key.now_ms);
    assert(k1p.ctrl_down() == k.ctrl_down());
    assert(k1p.alt_down() == k.alt_down());
    assert(k1p.shift_down() == k.shift_down());
    assert(k1p.win_modifier_down());
}

/// The hook hides a key event from Windows only when it is a Win key or
/// when it dispatched a shortcut for it, and the only keys it injects are Win
/// keys.
pub proof fn lemma_swallows_only_win_or_shortcuts(k: KeyModel, d: DragState, ev: KeyEvent)
    requires
        k.wf(),
    ensures
        ({
            let o = key_step(k, d, ev).2;
            &&& o.swallow ==> is_win_key(ev.vk) || o.dispatched is Some
            &&& o.dispatched is Some ==> o.swallow
            &&& match o.synthetic {
                SyntheticInput::Nothing => true,
                SyntheticInput::Press(key) => is_win_key(key as u32),
                SyntheticInput::Release(key) => is_win_key(key as u32),
                SyntheticInput::Tap(key) => is_win_key(key as u32),
            }
        }),
{
}

} // verus!
